//! Dependency declarations, as a manifest gives them.

use vstd::prelude::*;

verus! {

/// A dependency whose source and feature configuration are spelled out.
/// Every field but the feature list may be left unset.
#[derive(Clone, Debug, PartialEq, Eq)]
pub struct DependencyDetail {
    /// Version requirement.
    pub version: Option<String>,
    /// Name of the registry to take the package from.
    pub registry: Option<String>,
    /// URL of the index of that registry.
    pub registry_index: Option<String>,
    /// Directory that holds the package.
    pub path: Option<String>,
    /// URL of the git repository that holds the package.
    pub git: Option<String>,
    /// Branch of the repository.
    pub branch: Option<String>,
    /// Tag of the repository.
    pub tag: Option<String>,
    /// Revision of the repository.
    pub rev: Option<String>,
    /// Name of the package, where it differs from the key of the declaration.
    pub package: Option<String>,
    /// Features to switch on, in the order of the declaration.
    pub features: Vec<String>,
    /// Whether the default features are wanted. Unset means that they are.
    pub default_features: Option<bool>,
}

/// What a [`DependencyDetail`] holds, as mathematical values.
pub struct DependencyDetailView {
    pub version: Option<Seq<char>>,
    pub registry: Option<Seq<char>>,
    pub registry_index: Option<Seq<char>>,
    pub path: Option<Seq<char>>,
    pub git: Option<Seq<char>>,
    pub branch: Option<Seq<char>>,
    pub tag: Option<Seq<char>>,
    pub rev: Option<Seq<char>>,
    pub package: Option<Seq<char>>,
    pub features: Seq<Seq<char>>,
    pub default_features: Option<bool>,
}

impl View for DependencyDetail {
    type V = DependencyDetailView;

    open spec fn view(&self) -> DependencyDetailView {
        DependencyDetailView {
            version: self.version.deep_view(),
            registry: self.registry.deep_view(),
            registry_index: self.registry_index.deep_view(),
            path: self.path.deep_view(),
            git: self.git.deep_view(),
            branch: self.branch.deep_view(),
            tag: self.tag.deep_view(),
            rev: self.rev.deep_view(),
            package: self.package.deep_view(),
            features: self.features.deep_view(),
            default_features: self.default_features,
        }
    }
}

impl DependencyDetailView {
    /// The declaration that sets nothing.
    pub open spec fn unset() -> DependencyDetailView {
        DependencyDetailView {
            version: None,
            registry: None,
            registry_index: None,
            path: None,
            git: None,
            branch: None,
            tag: None,
            rev: None,
            package: None,
            features: Seq::empty(),
            default_features: None,
        }
    }
}

impl Default for DependencyDetail {
    /// The declaration that sets nothing.
    fn default() -> (detail: DependencyDetail)
        ensures
            detail@ == DependencyDetailView::unset(),
    {
        let detail = DependencyDetail {
            version: None,
            registry: None,
            registry_index: None,
            path: None,
            git: None,
            branch: None,
            tag: None,
            rev: None,
            package: None,
            features: Vec::new(),
            default_features: None,
        };
        assert(detail.features.deep_view() =~= Seq::empty());
        detail
    }
}

/// One dependency declaration.
#[derive(Clone, Debug, PartialEq, Eq)]
pub enum Dependency {
    /// Only a version requirement.
    Simple(String),
    /// Source and features spelled out.
    Detailed(DependencyDetail),
}

/// What a [`Dependency`] holds, as mathematical values.
pub enum DependencyView {
    Simple(Seq<char>),
    Detailed(DependencyDetailView),
}

impl View for Dependency {
    type V = DependencyView;

    open spec fn view(&self) -> DependencyView {
        match self {
            Dependency::Simple(version) => DependencyView::Simple(version@),
            Dependency::Detailed(detail) => DependencyView::Detailed(detail@),
        }
    }
}

/// The name under which a dependency is installed: the package name that a
/// detailed declaration sets, and the key of the declaration otherwise.
pub open spec fn target_name(key: Seq<char>, dependency: DependencyView) -> Seq<char> {
    match dependency {
        DependencyView::Simple(_) => key,
        DependencyView::Detailed(detail) => match detail.package {
            Some(package) => package,
            None => key,
        },
    }
}

/// Resolves the name under which the dependency declared as `key` is installed.
pub fn install_target(key: &str, dependency: &Dependency) -> (name: String)
    ensures
        name@ == target_name(key@, dependency@),
        dependency@ matches DependencyView::Detailed(detail) ==> (detail.package matches Some(
            package,
        ) ==> name@ == package),
{
    match dependency {
        Dependency::Simple(_) => key.to_owned(),
        Dependency::Detailed(detail) => match &detail.package {
            Some(package) => package.clone(),
            None => key.to_owned(),
        },
    }
}

} // verus!

//! The manifest: where its file is, and which dependencies it declares.

use vstd::prelude::*;
use vstd::string::*;
use crate::dependency::{Dependency, DependencyView};
use crate::keys::{key_before, key_order, keys_are_ordered, KeyOrder};

verus! {

/// The name of a manifest file inside the directory of its package.
pub const MANIFEST_FILE_NAME: &'static str = "Cargo.toml";

/// The path of the manifest file that `path` stands for. A path that names a
/// directory stands for the manifest file inside it; any other path stands for
/// itself.
pub open spec fn manifest_path(path: Seq<char>, is_dir: bool) -> Seq<char> {
    if !is_dir {
        path
    } else if path.len() > 0 && path.last() != '/' {
        path + seq!['/'] + MANIFEST_FILE_NAME@
    } else {
        path + MANIFEST_FILE_NAME@
    }
}

/// Resolves the path that the user gave to the path of the manifest file.
/// Whether `path` names a directory is for the caller to find out.
pub fn resolve_manifest_path(path: &str, is_dir: bool) -> (resolved: String)
    ensures
        resolved@ == manifest_path(path@, is_dir),
{
    let mut resolved = path.to_owned();
    if is_dir {
        let len = path.unicode_len();
        if len > 0 && path.get_char(len - 1) != '/' {
            proof {
                reveal_strlit("/");
                assert("/"@ == seq!['/']);
            }
            resolved.append("/");
        }
        resolved.append(MANIFEST_FILE_NAME);
    }
    resolved
}

/// One declaration of a manifest: the key and the dependency declared under it.
#[derive(Clone, Debug, PartialEq, Eq)]
pub struct ManifestEntry {
    pub name: String,
    pub dependency: Dependency,
}

/// What a [`ManifestEntry`] holds, as mathematical values.
pub struct ManifestEntryView {
    pub name: Seq<char>,
    pub dependency: DependencyView,
}

impl View for ManifestEntry {
    type V = ManifestEntryView;

    open spec fn view(&self) -> ManifestEntryView {
        ManifestEntryView { name: self.name@, dependency: self.dependency@ }
    }
}

/// The keys stand in ascending order, so no two declarations share a key.
pub open spec fn ascending(entries: Seq<ManifestEntryView>) -> bool {
    forall|i: int, j: int|
        0 <= i < j < entries.len() ==> key_before(
            (#[trigger] entries[i]).name,
            (#[trigger] entries[j]).name,
        )
}

/// Some declaration has the key `name`.
pub open spec fn declares(entries: Seq<ManifestEntryView>, name: Seq<char>) -> bool {
    exists|i: int| 0 <= i < entries.len() && (#[trigger] entries[i]).name == name
}

/// How many declarations have a key that stands before `name`.
pub open spec fn rank(entries: Seq<ManifestEntryView>, name: Seq<char>) -> int
    decreases entries.len(),
{
    if entries.len() == 0 {
        0
    } else if key_before(entries.last().name, name) {
        rank(entries.drop_last(), name) + 1
    } else {
        rank(entries.drop_last(), name)
    }
}

/// The declarations after `entry` was declared. It takes the place of the
/// declaration with its key where there is one, and the place that the order
/// of the keys gives it where there is none.
pub open spec fn with_declaration(
    entries: Seq<ManifestEntryView>,
    entry: ManifestEntryView,
) -> Seq<ManifestEntryView> {
    let at = rank(entries, entry.name);
    if declares(entries, entry.name) {
        entries.update(at, entry)
    } else {
        entries.insert(at, entry)
    }
}

/// The dependencies that a manifest declares, each under its own key, in the
/// order of the keys.
#[derive(Debug, PartialEq, Eq)]
pub struct Manifest {
    entries: Vec<ManifestEntry>,
}

/// The declarations of a list of entries, one by one.
spec fn entry_views(entries: Seq<ManifestEntry>) -> Seq<ManifestEntryView> {
    Seq::new(entries.len(), |i: int| entries[i]@)
}

impl View for Manifest {
    type V = Seq<ManifestEntryView>;

    closed spec fn view(&self) -> Seq<ManifestEntryView> {
        entry_views(self.entries@)
    }
}

impl Manifest {
    #[verifier::type_invariant]
    spec fn keys_ascend(&self) -> bool {
        ascending(self@)
    }

    /// The manifest that declares nothing.
    pub fn new() -> (manifest: Manifest)
        ensures
            manifest@ == Seq::<ManifestEntryView>::empty(),
    {
        Manifest { entries: Vec::new() }
    }

    /// Declares `dependency` under `name`. A declaration that is already there
    /// under that key is replaced; a new key is put where the order of the
    /// keys has its place.
    pub fn insert(&mut self, name: String, dependency: Dependency)
        ensures
            ascending(old(self)@),
            ascending(final(self)@),
            final(self)@ == with_declaration(
                old(self)@,
                ManifestEntryView { name: name@, dependency: dependency@ },
            ),
            0 <= rank(old(self)@, name@) < final(self)@.len(),
            final(self)@[rank(old(self)@, name@)] == (ManifestEntryView {
                name: name@,
                dependency: dependency@,
            }),
            final(self)@.len() == old(self)@.len() + if declares(old(self)@, name@) {
                0int
            } else {
                1int
            },
    {
        proof {
            use_type_invariant(&*self);
        }
        let ghost before = self@;
        let ghost entry = ManifestEntryView { name: name@, dependency: dependency@ };
        let mut entries: Vec<ManifestEntry> = Vec::new();
        core::mem::swap(&mut self.entries, &mut entries);
        let mut i: usize = 0;
        let mut found = false;
        while i < entries.len()
            invariant_except_break
                !found,
            invariant
                i <= entries.len(),
                before == old(self)@,
                before == entry_views(entries@),
                ascending(before),
                entry == (ManifestEntryView { name: name@, dependency: dependency@ }),
                forall|k: int| 0 <= k < i ==> key_before((#[trigger] before[k]).name, name@),
            ensures
                i <= entries.len(),
                found ==> i < entries.len() && before[i as int].name == name@,
                !found && i < entries.len() ==> key_before(name@, before[i as int].name),
            decreases entries.len() - i,
        {
            match key_order(entries[i].name.as_str(), name.as_str()) {
                KeyOrder::Before => {
                    i += 1;
                },
                KeyOrder::Same => {
                    found = true;
                    break ;
                },
                KeyOrder::After => {
                    break ;
                },
            }
        }
        proof {
            rank_is_the_place_of_a_key(before, name@);
            keys_are_ordered(name@, name@, name@);
            if i < entries.len() {
                keys_are_ordered(name@, before[i as int].name, name@);
            }
            if i > 0 {
                assert(key_before(before[i - 1].name, name@));
            }
            assert(rank(before, name@) == i);
        }
        if found {
            entries.set(i, ManifestEntry { name, dependency });
            proof {
                let after = entry_views(entries@);
                assert(after =~= before.update(i as int, entry));
                assert forall|a: int, b: int| 0 <= a < b < after.len() implies key_before(
                    (#[trigger] after[a]).name,
                    (#[trigger] after[b]).name,
                ) by {
                    assert(after[a].name == before[a].name);
                    assert(after[b].name == before[b].name);
                }
            }
        } else {
            entries.insert(i, ManifestEntry { name, dependency });
            proof {
                let after = entry_views(entries@);
                assert(after =~= before.insert(i as int, entry));
                assert forall|a: int, b: int| 0 <= a < b < after.len() implies key_before(
                    (#[trigger] after[a]).name,
                    (#[trigger] after[b]).name,
                ) by {
                    if b < i {
                        assert(after[a] == before[a] && after[b] == before[b]);
                    } else if b == i {
                        assert(after[a] == before[a]);
                    } else if a < i {
                        assert(after[a] == before[a] && after[b] == before[b - 1]);
                    } else if a == i {
                        assert(after[b] == before[b - 1]);
                        if b - 1 > i {
                            keys_are_ordered(name@, before[i as int].name, before[b - 1].name);
                        }
                    } else {
                        assert(after[a] == before[a - 1] && after[b] == before[b - 1]);
                    }
                }
            }
        }
        self.entries = entries;
    }

    /// The number of declarations.
    pub fn len(&self) -> (len: usize)
        ensures
            len == self@.len(),
            ascending(self@),
    {
        proof {
            use_type_invariant(self);
        }
        self.entries.len()
    }

    /// The declaration at `index`, counted from zero.
    pub(crate) fn entry(&self, index: usize) -> (entry: &ManifestEntry)
        requires
            index < self@.len(),
        ensures
            entry@ == self@[index as int],
    {
        &self.entries[index]
    }

    /// The declaration at `index`, counted from zero, if there is one.
    pub fn get(&self, index: usize) -> (entry: Option<&ManifestEntry>)
        ensures
            index < self@.len() ==> entry.is_some() && entry.unwrap()@ == self@[index as int],
            index >= self@.len() ==> entry.is_none(),
    {
        if index < self.entries.len() {
            Some(&self.entries[index])
        } else {
            None
        }
    }
}

/// In a manifest the rank of a key is the place of its declaration, where it
/// has one, and the place where its declaration would go, where it has none.
pub proof fn rank_is_the_place_of_a_key(entries: Seq<ManifestEntryView>, name: Seq<char>)
    requires
        ascending(entries),
    ensures
        0 <= rank(entries, name) <= entries.len(),
        declares(entries, name) <==> rank(entries, name) < entries.len() && entries[rank(
            entries,
            name,
        )].name == name,
        forall|k: int|
            0 <= k < entries.len() ==> (k < rank(entries, name) <==> key_before(
                (#[trigger] entries[k]).name,
                name,
            )),
    decreases entries.len(),
{
    if entries.len() > 0 {
        let rest = entries.drop_last();
        let last = entries.len() - 1;
        assert forall|i: int, j: int| 0 <= i < j < rest.len() implies key_before(
            (#[trigger] rest[i]).name,
            (#[trigger] rest[j]).name,
        ) by {
            assert(rest[i] == entries[i] && rest[j] == entries[j]);
        }
        rank_is_the_place_of_a_key(rest, name);
        let at = rank(entries, name);
        assert forall|k: int| 0 <= k < entries.len() implies (k < at <==> key_before(
            (#[trigger] entries[k]).name,
            name,
        )) by {
            let r = rank(rest, name);
            if k < last {
                assert(rest[k] == entries[k]);
                keys_are_ordered(entries[k].name, entries[last].name, name);
            } else if r < rest.len() {
                assert(rest[r] == entries[r]);
                keys_are_ordered(entries[r].name, entries[last].name, name);
            }
        }
        keys_are_ordered(name, name, name);
        if declares(entries, name) {
            let k = choose|k: int| 0 <= k < entries.len() && (#[trigger] entries[k]).name == name;
            assert(at <= k);
            if at < k {
                assert(key_before(entries[at].name, entries[k].name));
            }
        }
    }
}

/// No two declarations of a manifest share a key.
pub proof fn keys_are_distinct(entries: Seq<ManifestEntryView>, i: int, j: int)
    requires
        ascending(entries),
        0 <= i < entries.len(),
        0 <= j < entries.len(),
        i != j,
    ensures
        entries[i].name != entries[j].name,
{
    keys_are_ordered(entries[i].name, entries[j].name, entries[i].name);
}

} // verus!

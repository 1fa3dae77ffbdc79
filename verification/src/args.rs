//! From a dependency declaration to the arguments of the install command.

use vstd::prelude::*;
use vstd::string::*;
use crate::dependency::{Dependency, DependencyDetail, DependencyDetailView, DependencyView};

verus! {

/// A flag and its value where the value is set, nothing where it is not.
pub open spec fn flag_args(flag: Seq<char>, value: Option<Seq<char>>) -> Seq<Seq<char>> {
    match value {
        Some(text) => seq![flag, text],
        None => Seq::empty(),
    }
}

/// The parts in their order, with a comma between each two neighbours.
pub open spec fn comma_joined(parts: Seq<Seq<char>>) -> Seq<char>
    decreases parts.len(),
{
    if parts.len() == 0 {
        Seq::empty()
    } else if parts.len() == 1 {
        parts[0]
    } else {
        comma_joined(parts.drop_last()) + seq![','] + parts.last()
    }
}

/// The tail of every argument list: the switch that drops the default
/// features, present only where they were explicitly declined.
pub open spec fn default_features_args(default_features: Option<bool>) -> Seq<Seq<char>> {
    if default_features == Some(false) {
        seq!["--no-default-features"@]
    } else {
        Seq::empty()
    }
}

/// The arguments that a detailed declaration stands for. The optional fields
/// come first, in a fixed order, each as a flag followed by its value. The
/// feature list follows in every case, also when it is empty.
pub open spec fn detail_args(detail: DependencyDetailView) -> Seq<Seq<char>> {
    flag_args("--version"@, detail.version)
        + flag_args("--registry"@, detail.registry)
        + flag_args("--index"@, detail.registry_index)
        + flag_args("--path"@, detail.path)
        + flag_args("--git"@, detail.git)
        + flag_args("--branch"@, detail.branch)
        + flag_args("--tag"@, detail.tag)
        + flag_args("--rev"@, detail.rev)
        + seq!["--features"@, comma_joined(detail.features)]
        + default_features_args(detail.default_features)
}

/// The arguments that a declaration of either shape stands for.
pub open spec fn dependency_args(dependency: DependencyView) -> Seq<Seq<char>> {
    match dependency {
        DependencyView::Simple(version) => seq!["--version"@, version],
        DependencyView::Detailed(detail) => detail_args(detail),
    }
}

/// Joins the features with commas.
pub fn join_features(features: &Vec<String>) -> (joined: String)
    ensures
        joined@ == comma_joined(features.deep_view()),
{
    let ghost all = features.deep_view();
    let mut joined = String::new();
    let mut i: usize = 0;
    while i < features.len()
        invariant
            i <= features.len(),
            all == features.deep_view(),
            joined@ == comma_joined(all.take(i as int)),
        decreases features.len() - i,
    {
        proof {
            reveal_strlit(",");
            assert(all.take(i + 1).drop_last() == all.take(i as int));
            assert(all.take(i + 1).last() == features[i as int]@);
            assert(","@ == seq![',']);
        }
        if i > 0 {
            joined.append(",");
        }
        joined.append(features[i].as_str());
        i += 1;
    }
    assert(all.take(i as int) == all);
    joined
}

/// Appends `flag` and the value to `args` where the value is set.
fn push_flag(args: &mut Vec<String>, flag: &str, value: &Option<String>)
    ensures
        final(args).deep_view() == old(args).deep_view() + flag_args(flag@, value.deep_view()),
{
    if let Some(text) = value {
        args.push(flag.to_owned());
        args.push(text.clone());
    }
}

/// Builds the argument list of a detailed declaration. Which fields go
/// together is not judged here: the installer that receives the arguments
/// decides that.
pub fn build_args(details: &DependencyDetail) -> (args: Vec<String>)
    ensures
        args.deep_view() == detail_args(details@),
{
    let mut args: Vec<String> = Vec::new();
    push_flag(&mut args, "--version", &details.version);
    push_flag(&mut args, "--registry", &details.registry);
    push_flag(&mut args, "--index", &details.registry_index);
    push_flag(&mut args, "--path", &details.path);
    push_flag(&mut args, "--git", &details.git);
    push_flag(&mut args, "--branch", &details.branch);
    push_flag(&mut args, "--tag", &details.tag);
    push_flag(&mut args, "--rev", &details.rev);
    args.push("--features".to_owned());
    args.push(join_features(&details.features));
    if let Some(false) = details.default_features {
        args.push("--no-default-features".to_owned());
    }
    args
}

/// Builds the argument list of a declaration of either shape.
pub fn dependency_arguments(dependency: &Dependency) -> (args: Vec<String>)
    ensures
        args.deep_view() == dependency_args(dependency@),
{
    match dependency {
        Dependency::Simple(version) => {
            let mut args: Vec<String> = Vec::new();
            args.push("--version".to_owned());
            args.push(version.clone());
            args
        },
        Dependency::Detailed(detail) => build_args(detail),
    }
}

/// The optional fields of a detailed declaration in the order in which they
/// are emitted, each with the flag that announces it.
pub open spec fn optional_fields(detail: DependencyDetailView) -> Seq<
    (Seq<char>, Option<Seq<char>>),
> {
    seq![
        ("--version"@, detail.version),
        ("--registry"@, detail.registry),
        ("--index"@, detail.registry_index),
        ("--path"@, detail.path),
        ("--git"@, detail.git),
        ("--branch"@, detail.branch),
        ("--tag"@, detail.tag),
        ("--rev"@, detail.rev),
    ]
}

/// How many of the first `count` optional fields are set.
pub open spec fn set_among(fields: Seq<(Seq<char>, Option<Seq<char>>)>, count: int) -> int
    decreases count,
{
    if count <= 0 {
        0
    } else if fields[count - 1].1 is Some {
        set_among(fields, count - 1) + 1
    } else {
        set_among(fields, count - 1)
    }
}

/// The place of the `--features` token in the arguments of a detailed
/// declaration: behind a flag and a value for each optional field that is set.
pub open spec fn features_at(detail: DependencyDetailView) -> int {
    2 * set_among(optional_fields(detail), 8)
}

/// Some value of the declaration, taken alone, is `token`.
pub open spec fn holds_value(detail: DependencyDetailView, token: Seq<char>) -> bool {
    ||| exists|k: int|
        0 <= k < 8 && #[trigger] optional_fields(detail)[k].1 == Some(token)
    ||| comma_joined(detail.features) == token
}

/// The flags and values of the first `count` optional fields.
spec fn leading_args(fields: Seq<(Seq<char>, Option<Seq<char>>)>, count: int) -> Seq<Seq<char>>
    decreases count,
{
    if count <= 0 {
        Seq::empty()
    } else {
        leading_args(fields, count - 1) + flag_args(fields[count - 1].0, fields[count - 1].1)
    }
}

/// The field at `k`, where it is set, stands in `args` as its flag followed by
/// its value, behind two places for each set field before it.
spec fn field_in_place(
    args: Seq<Seq<char>>,
    fields: Seq<(Seq<char>, Option<Seq<char>>)>,
    k: int,
) -> bool {
    let at = 2 * set_among(fields, k);
    fields[k].1 is Some ==> {
        &&& 0 <= at
        &&& at + 1 < args.len()
        &&& args[at] == fields[k].0
        &&& args[at + 1] == fields[k].1->0
    }
}

/// `token` is the flag or the value of the field at `k`.
spec fn field_gives(
    fields: Seq<(Seq<char>, Option<Seq<char>>)>,
    k: int,
    token: Seq<char>,
) -> bool {
    token == fields[k].0 || Some(token) == fields[k].1
}

/// `token` is the flag or the value of one of the first `count` fields.
spec fn fields_give(
    fields: Seq<(Seq<char>, Option<Seq<char>>)>,
    count: int,
    token: Seq<char>,
) -> bool {
    exists|k: int| 0 <= k < count && #[trigger] field_gives(fields, k, token)
}

/// The flags and values of the first `count` fields take two places for each
/// field that is set, every set field stands in its place, and nothing else
/// stands among them.
proof fn lemma_leading_args(fields: Seq<(Seq<char>, Option<Seq<char>>)>, count: int)
    requires
        0 <= count <= fields.len(),
    ensures
        0 <= set_among(fields, count) <= count,
        leading_args(fields, count).len() == 2 * set_among(fields, count),
        forall|k: int|
            0 <= k < count ==> #[trigger] field_in_place(leading_args(fields, count), fields, k),
        forall|k: int|
            0 <= k <= count ==> #[trigger] set_among(fields, k) <= set_among(fields, count),
        forall|i: int|
            0 <= i < leading_args(fields, count).len() ==> fields_give(
                fields,
                count,
                #[trigger] leading_args(fields, count)[i],
            ),
    decreases count,
{
    if count > 0 {
        lemma_leading_args(fields, count - 1);
        let before = leading_args(fields, count - 1);
        let whole = leading_args(fields, count);
        let last = fields[count - 1];
        assert(whole == before + flag_args(last.0, last.1));
        assert forall|k: int| 0 <= k < count implies #[trigger] field_in_place(
            whole,
            fields,
            k,
        ) by {
            if k < count - 1 {
                assert(field_in_place(before, fields, k));
            }
        }
        assert forall|i: int| 0 <= i < whole.len() implies fields_give(
            fields,
            count,
            #[trigger] whole[i],
        ) by {
            if i < before.len() {
                assert(whole[i] == before[i]);
                assert(fields_give(fields, count - 1, before[i]));
                let k = choose|k: int|
                    0 <= k < count - 1 && #[trigger] field_gives(fields, k, before[i]);
                assert(field_gives(fields, k, whole[i]));
            } else {
                assert(whole[i] == flag_args(last.0, last.1)[i - before.len()]);
                assert(field_gives(fields, count - 1, whole[i]));
            }
        }
    } else {
        assert(leading_args(fields, count).len() == 0);
    }
}

/// The arguments of a detailed declaration are the flags and values of its
/// eight optional fields, the feature list and the closing switch.
proof fn lemma_detail_args_by_fields(detail: DependencyDetailView)
    ensures
        detail_args(detail) == leading_args(optional_fields(detail), 8) + seq![
            "--features"@,
            comma_joined(detail.features),
        ] + default_features_args(detail.default_features),
{
    let fields = optional_fields(detail);
    reveal_with_fuel(leading_args, 9);
    assert(leading_args(fields, 8) =~= flag_args("--version"@, detail.version) + flag_args(
        "--registry"@,
        detail.registry,
    ) + flag_args("--index"@, detail.registry_index) + flag_args("--path"@, detail.path)
        + flag_args("--git"@, detail.git) + flag_args("--branch"@, detail.branch) + flag_args(
        "--tag"@,
        detail.tag,
    ) + flag_args("--rev"@, detail.rev));
}

/// The optional fields keep their order. Each one that is set stands as its
/// flag followed by its value, behind the flags and values of the set fields
/// that come before it in the order version, registry, registry index, path,
/// git, branch, tag, revision, and before the feature list.
pub proof fn set_fields_stand_in_order(detail: DependencyDetailView, k: int)
    requires
        0 <= k < 8,
        optional_fields(detail)[k].1 is Some,
    ensures
        ({
            let args = detail_args(detail);
            let fields = optional_fields(detail);
            let at = 2 * set_among(fields, k);
            &&& at + 1 < features_at(detail)
            &&& args[at] == fields[k].0
            &&& args[at + 1] == fields[k].1->0
        }),
{
    let fields = optional_fields(detail);
    lemma_detail_args_by_fields(detail);
    lemma_leading_args(fields, 8);
    assert(field_in_place(leading_args(fields, 8), fields, k));
    assert(set_among(fields, k + 1) <= set_among(fields, 8));
}

/// The feature list is always passed: the token `--features` and the features
/// joined by commas follow the optional fields, whatever is set. An empty
/// list is passed as the empty string.
pub proof fn features_are_always_passed(detail: DependencyDetailView)
    ensures
        ({
            let args = detail_args(detail);
            let at = features_at(detail);
            &&& 0 <= at
            &&& at + 1 < args.len()
            &&& args[at] == "--features"@
            &&& args[at + 1] == comma_joined(detail.features)
            &&& detail.features.len() == 0 ==> args[at + 1] == Seq::<char>::empty()
        }),
{
    lemma_detail_args_by_fields(detail);
    lemma_leading_args(optional_fields(detail), 8);
}

/// Behind the feature list stands the switch `--no-default-features`, and
/// nothing else, where the default features were explicitly declined. Where
/// the field is unset or true the list ends with the features.
pub proof fn switch_closes_the_list_iff_declined(detail: DependencyDetailView)
    ensures
        ({
            let args = detail_args(detail);
            let at = features_at(detail);
            &&& detail.default_features == Some(false) <==> args.len() == at + 3
            &&& detail.default_features != Some(false) <==> args.len() == at + 2
            &&& args.len() == at + 3 ==> args[at + 2] == "--no-default-features"@
        }),
{
    lemma_detail_args_by_fields(detail);
    lemma_leading_args(optional_fields(detail), 8);
}

/// Where no value of the declaration is itself the text
/// `--no-default-features`, that token is among the arguments if and only if
/// the default features were explicitly declined.
pub proof fn switch_appears_iff_declined(detail: DependencyDetailView)
    requires
        !holds_value(detail, "--no-default-features"@),
    ensures
        detail_args(detail).contains("--no-default-features"@) <==> detail.default_features
            == Some(false),
{
    let token = "--no-default-features"@;
    let args = detail_args(detail);
    let fields = optional_fields(detail);
    let at = features_at(detail);
    lemma_detail_args_by_fields(detail);
    lemma_leading_args(fields, 8);
    lemma_flags_differ_from_switch(detail);
    if detail.default_features == Some(false) {
        assert(args[at + 2] == token);
    } else {
        assert forall|i: int| 0 <= i < args.len() implies args[i] != token by {
            if i < at {
                let leading = leading_args(fields, 8);
                assert(args[i] == leading[i]);
                assert(fields_give(fields, 8, leading[i]));
                let k = choose|k: int|
                    0 <= k < 8 && #[trigger] field_gives(fields, k, leading[i]);
                assert(fields[k].0 != token);
                assert(fields[k].1 != Some(token));
            } else if i == at {
                assert(args[i] == "--features"@);
            } else {
                assert(args[i] == comma_joined(detail.features));
            }
        }
    }
}

/// No flag of the argument list is spelled like the closing switch.
proof fn lemma_flags_differ_from_switch(detail: DependencyDetailView)
    ensures
        "--features"@ != "--no-default-features"@,
        forall|k: int|
            0 <= k < 8 ==> (#[trigger] optional_fields(detail)[k]).0 != "--no-default-features"@,
{
    reveal_strlit("--no-default-features");
    reveal_strlit("--features");
    reveal_strlit("--version");
    reveal_strlit("--registry");
    reveal_strlit("--index");
    reveal_strlit("--path");
    reveal_strlit("--git");
    reveal_strlit("--branch");
    reveal_strlit("--tag");
    reveal_strlit("--rev");
    assert("--no-default-features"@.len() == 21);
}

} // verus!

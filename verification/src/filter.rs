//! Filtering the listed resource targets against the ignore rules, and
//! building the `-target` argument list for the destroy invocation.

use vstd::prelude::*;

use crate::ignore::Ignore;

verus! {

/// Holds of a target name that no entry of `exclusions` equals exactly.
pub open spec fn not_excluded(exclusions: Seq<Seq<char>>) -> spec_fn(Seq<char>) -> bool {
    |target: Seq<char>| !exclusions.contains(target)
}

/// The subsequence of `targets`, in their original order, whose names are
/// not excluded.
pub open spec fn spec_filter_exact(targets: Seq<Seq<char>>, exclusions: Seq<Seq<char>>) -> Seq<
    Seq<char>,
> {
    targets.filter(not_excluded(exclusions))
}

/// The targets that survive the rules: with `Exact` rules the not-excluded
/// subsequence, with no rules all of them.
pub open spec fn spec_apply_rules(targets: Seq<Seq<char>>, rules: Option<Ignore>) -> Seq<
    Seq<char>,
> {
    match rules {
        Some(ignore) => spec_filter_exact(targets, ignore.exclusions()),
        None => targets,
    }
}

/// The destroy argument list for a target list: each target in order,
/// preceded by the literal token `-target`.
pub open spec fn spec_interleave(targets: Seq<Seq<char>>) -> Seq<Seq<char>> {
    Seq::new(
        2 * targets.len(),
        |i: int|
            if i % 2 == 0 {
                "-target"@
            } else {
                targets[i / 2]
            },
    )
}

/// Returns whether some element of `haystack` equals `needle`.
fn contains_string(haystack: &Vec<String>, needle: &String) -> (found: bool)
    ensures
        found == haystack.deep_view().contains(needle@),
{
    let mut j: usize = 0;
    while j < haystack.len()
        invariant
            j <= haystack.len(),
            forall|k: int| 0 <= k < j ==> haystack.deep_view()[k] != needle@,
        decreases haystack.len() - j,
    {
        if haystack[j].eq(needle) {
            assert(haystack.deep_view()[j as int] == needle@);
            return true;
        }
        j += 1;
    }
    false
}

/// Applies the ignore rules to the listed targets: with `Exact` rules the
/// result keeps, in their original order, exactly the targets that equal no
/// excluded name; with no rules the targets pass through unchanged.
pub fn filter_targets(targets: Vec<String>, rules: &Option<Ignore>) -> (kept: Vec<String>)
    ensures
        kept.deep_view() == spec_apply_rules(targets.deep_view(), *rules),
{
    match rules {
        None => targets,
        Some(Ignore::Exact { exact }) => {
            let ghost all = targets.deep_view();
            let ghost pred = not_excluded(exact.deep_view());
            let mut kept: Vec<String> = Vec::new();
            let mut i: usize = 0;
            proof {
                assert(all.take(0) =~= Seq::<Seq<char>>::empty());
                reveal(Seq::filter);
            }
            while i < targets.len()
                invariant
                    i <= targets.len(),
                    all == targets.deep_view(),
                    pred == not_excluded(exact.deep_view()),
                    kept.deep_view() == all.take(i as int).filter(pred),
                decreases targets.len() - i,
            {
                let ghost kept_before = kept.deep_view();
                if !contains_string(exact, &targets[i]) {
                    kept.push(targets[i].clone());
                    assert(kept.deep_view() =~= kept_before.push(all[i as int]));
                } else {
                    assert(!pred(all[i as int]));
                }
                proof {
                    all.lemma_take_succ_push(i as int);
                    all.take(i as int).lemma_filter_push(all[i as int], pred);
                }
                i += 1;
            }
            proof {
                assert(all.take(targets.len() as int) =~= all);
            }
            kept
        },
    }
}

/// Builds the destroy arguments for the filtered targets: the pair
/// `-target`, `<name>` for each target in order. An empty target list
/// yields an empty argument list.
pub fn interleave_targets(targets: &Vec<String>) -> (args: Vec<String>)
    ensures
        args.deep_view() == spec_interleave(targets.deep_view()),
{
    let ghost all = targets.deep_view();
    let mut args: Vec<String> = Vec::new();
    let mut i: usize = 0;
    while i < targets.len()
        invariant
            i <= targets.len(),
            all == targets.deep_view(),
            args.deep_view() =~= spec_interleave(all.take(i as int)),
        decreases targets.len() - i,
    {
        let ghost args_before = args.deep_view();
        args.push("-target".to_owned());
        args.push(targets[i].clone());
        proof {
            assert(args.deep_view() =~= args_before.push("-target"@).push(all[i as int]));
            assert(args.deep_view() =~= spec_interleave(all.take(i + 1)));
        }
        i += 1;
    }
    proof {
        assert(all.take(targets.len() as int) =~= all);
    }
    args
}

/// Law: exact filtering keeps no excluded target, keeps every target that is
/// not excluded, never grows the list, and splits over concatenation — which
/// is how it preserves the relative order of the survivors.
pub proof fn lemma_filter_exact_properties(targets: Seq<Seq<char>>, exclusions: Seq<Seq<char>>)
    ensures
        forall|i: int|
            0 <= i < spec_filter_exact(targets, exclusions).len() ==> !exclusions.contains(
                #[trigger] spec_filter_exact(targets, exclusions)[i],
            ),
        forall|i: int|
            0 <= i < targets.len() && !exclusions.contains(targets[i]) ==> spec_filter_exact(
                targets,
                exclusions,
            ).contains(targets[i]),
        spec_filter_exact(targets, exclusions).len() <= targets.len(),
        forall|front: Seq<Seq<char>>, back: Seq<Seq<char>>|
            #[trigger] spec_filter_exact(front + back, exclusions) == spec_filter_exact(
                front,
                exclusions,
            ) + spec_filter_exact(back, exclusions),
{
    broadcast use vstd::seq_lib::group_filter_ensures;

    let pred = not_excluded(exclusions);
    assert forall|i: int|
        0 <= i < spec_filter_exact(targets, exclusions).len() implies !exclusions.contains(
        spec_filter_exact(targets, exclusions)[i],
    ) by {
        assert(pred(targets.filter(pred)[i]));
    }
    assert forall|i: int|
        0 <= i < targets.len() && !exclusions.contains(targets[i]) implies spec_filter_exact(
        targets,
        exclusions,
    ).contains(targets[i]) by {
        assert(pred(targets[i]));
        targets.lemma_filter_contains(pred, i);
    }
    assert forall|front: Seq<Seq<char>>, back: Seq<Seq<char>>| #[trigger]
        spec_filter_exact(front + back, exclusions) == spec_filter_exact(front, exclusions)
            + spec_filter_exact(back, exclusions) by {
        Seq::filter_distributes_over_add(front, back, pred);
    }
}

/// Law: every survivor of exact filtering is one of the original targets.
pub proof fn lemma_filter_exact_members(targets: Seq<Seq<char>>, exclusions: Seq<Seq<char>>)
    ensures
        forall|i: int|
            0 <= i < spec_filter_exact(targets, exclusions).len() ==> targets.contains(
                #[trigger] spec_filter_exact(targets, exclusions)[i],
            ),
    decreases targets.len(),
{
    reveal(Seq::filter);
    let pred = not_excluded(exclusions);
    let kept = targets.filter(pred);
    if targets.len() > 0 {
        lemma_filter_exact_members(targets.drop_last(), exclusions);
        let shorter = targets.drop_last().filter(pred);
        assert forall|i: int| 0 <= i < kept.len() implies targets.contains(kept[i]) by {
            if i < shorter.len() {
                assert(spec_filter_exact(targets.drop_last(), exclusions)[i] == shorter[i]);
                assert(targets.drop_last().contains(shorter[i]));
                let j = choose|j: int|
                    0 <= j < targets.drop_last().len() && targets.drop_last()[j] == shorter[i];
                assert(targets[j] == shorter[i]);
                assert(kept[i] == shorter[i]);
            } else {
                assert(kept[i] == targets.last());
                assert(targets[targets.len() - 1] == kept[i]);
            }
        }
    }
}

/// Law: an empty exclusion list filters nothing.
pub proof fn lemma_filter_exact_empty(targets: Seq<Seq<char>>)
    ensures
        spec_filter_exact(targets, Seq::<Seq<char>>::empty()) == targets,
    decreases targets.len(),
{
    reveal(Seq::filter);
    if targets.len() > 0 {
        lemma_filter_exact_empty(targets.drop_last());
        assert(spec_filter_exact(targets, Seq::<Seq<char>>::empty()) =~= targets);
    } else {
        assert(spec_filter_exact(targets, Seq::<Seq<char>>::empty()) =~= targets);
    }
}

} // verus!

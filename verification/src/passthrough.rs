//! Routing of pass-through arguments: which go to the build tool itself and
//! which go, behind a separator token, to the linter it drives.

use vstd::prelude::*;
use vstd::slice::slice_subrange;
use vstd::string::StringExecFns;

verus! {

/// The token that parts the build tool's arguments from the linter's.
pub open spec fn separator() -> Seq<char> {
    "--"@
}

/// Position of the first separator token, or the length where there is none.
pub open spec fn first_separator(args: Seq<Seq<char>>) -> int
    decreases args.len(),
{
    if args.len() == 0 || args[0] == separator() {
        0
    } else {
        1 + first_separator(args.skip(1))
    }
}

pub open spec fn has_separator(args: Seq<Seq<char>>) -> bool {
    first_separator(args) < args.len()
}

/// What stands before the first separator token: everything, where there is none.
pub open spec fn before_separator(args: Seq<Seq<char>>) -> Seq<Seq<char>> {
    args.take(first_separator(args))
}

/// What stands behind the first separator token.
pub open spec fn after_separator(args: Seq<Seq<char>>) -> Seq<Seq<char>>
    recommends
        has_separator(args),
{
    args.skip(first_separator(args) + 1)
}

/// The arguments handed to the build tool directly.
pub open spec fn direct_args(primary: Seq<Seq<char>>, secondary: Seq<Seq<char>>) -> Seq<
    Seq<char>,
> {
    if secondary.len() == 0 {
        before_separator(primary)
    } else {
        primary
    }
}

/// The arguments meant for the linter, if any batch of them is passed at all.
/// With no secondary list they are the second segment of the primary list:
/// what stands between its first separator and its next one.
pub open spec fn linter_args(primary: Seq<Seq<char>>, secondary: Seq<Seq<char>>) -> Option<
    Seq<Seq<char>>,
> {
    if secondary.len() > 0 {
        Some(secondary)
    } else if has_separator(primary) {
        Some(before_separator(after_separator(primary)))
    } else {
        None
    }
}

/// The linter's batch as it appears on the command line: one separator token, then the arguments.
pub open spec fn linter_segment(primary: Seq<Seq<char>>, secondary: Seq<Seq<char>>) -> Seq<
    Seq<char>,
> {
    match linter_args(primary, secondary) {
        Some(args) => seq![separator()] + args,
        None => Seq::empty(),
    }
}

/// Everything the two pass-through lists add to the command line.
pub open spec fn routed(primary: Seq<Seq<char>>, secondary: Seq<Seq<char>>) -> Seq<Seq<char>> {
    direct_args(primary, secondary) + linter_segment(primary, secondary)
}

/// The first separator is where `first_separator` says: it lies within the
/// list or at its end, no token before it is a separator, and the token at it
/// is one unless the list has none.
pub proof fn lemma_first_separator(args: Seq<Seq<char>>)
    ensures
        0 <= first_separator(args) <= args.len(),
        forall|i: int| 0 <= i < first_separator(args) ==> args[i] != separator(),
        has_separator(args) ==> args[first_separator(args)] == separator(),
        has_separator(args) <==> args.contains(separator()),
    decreases args.len(),
{
    if args.len() == 0 || args[0] == separator() {
    } else {
        let rest = args.skip(1);
        lemma_first_separator(rest);
        let k = first_separator(args);
        assert forall|i: int| 0 <= i < k implies args[i] != separator() by {
            if i > 0 {
                assert(args[i] == rest[i - 1]);
            }
        }
        if has_separator(args) {
            assert(args[k] == rest[k - 1]);
        }
        if args.contains(separator()) {
            let j = choose|j: int| 0 <= j < args.len() && args[j] == separator();
            assert(rest[j - 1] == separator());
        }
    }
}

/// With no secondary list, neither the direct arguments nor the linter's
/// arguments hold a separator token: the only one passed on is the one that
/// opens the linter's batch.
pub proof fn lemma_split_leaves_no_separator(primary: Seq<Seq<char>>)
    ensures
        !direct_args(primary, Seq::empty()).contains(separator()),
        linter_args(primary, Seq::empty()) matches Some(args) ==> !args.contains(separator()),
{
    let none = Seq::<Seq<char>>::empty();
    lemma_first_separator(primary);
    let head = direct_args(primary, none);
    if head.contains(separator()) {
        let j = choose|j: int| 0 <= j < head.len() && head[j] == separator();
        assert(primary[j] == separator());
    }
    if has_separator(primary) {
        let rest = after_separator(primary);
        lemma_first_separator(rest);
        let tail = before_separator(rest);
        if tail.contains(separator()) {
            let j = choose|j: int| 0 <= j < tail.len() && tail[j] == separator();
            assert(rest[j] == separator());
        }
    }
}

/// With no secondary list, what is passed on is the primary list itself, cut
/// off before its second separator token: nothing is reordered or added, and
/// a list with at most one separator token is passed on whole.
pub proof fn lemma_split_keeps_prefix(primary: Seq<Seq<char>>)
    ensures
        routed(primary, Seq::empty()).is_prefix_of(primary),
        !has_separator(primary) ==> routed(primary, Seq::empty()) == primary,
        has_separator(primary) ==> routed(primary, Seq::empty()) == primary.take(
            first_separator(primary) + 1 + first_separator(after_separator(primary)),
        ),
        has_separator(primary) && !has_separator(after_separator(primary)) ==> routed(
            primary,
            Seq::empty(),
        ) == primary,
{
    let none = Seq::<Seq<char>>::empty();
    lemma_first_separator(primary);
    let k = first_separator(primary);
    if has_separator(primary) {
        let rest = after_separator(primary);
        lemma_first_separator(rest);
        let n = k + 1 + first_separator(rest);
        assert(routed(primary, none) =~= primary.take(n));
        assert(primary.take(n) =~= primary.subrange(0, n));
        if !has_separator(rest) {
            assert(primary.take(n) =~= primary);
        }
    } else {
        assert(routed(primary, none) =~= primary);
        assert(primary =~= primary.subrange(0, primary.len() as int));
    }
}

/// A secondary list that is not empty decides alone what the linter gets:
/// the primary list is passed on whole as direct arguments, separator tokens
/// included, and the linter's batch is one separator token and the secondary list.
pub proof fn lemma_secondary_takes_over(primary: Seq<Seq<char>>, secondary: Seq<Seq<char>>)
    requires
        secondary.len() > 0,
    ensures
        direct_args(primary, secondary) == primary,
        linter_segment(primary, secondary) == seq![separator()] + secondary,
        routed(primary, secondary) == primary + seq![separator()] + secondary,
{
    assert(routed(primary, secondary) =~= primary + seq![separator()] + secondary);
}

/// Whether the argument is the separator token.
pub fn is_separator(arg: &String) -> (yes: bool)
    ensures
        yes == (arg@ == separator()),
{
    let token = String::from_str("--");
    *arg == token
}

/// Finds the first separator token at or behind `from`.
pub fn find_separator(args: &[String], from: usize) -> (at: usize)
    requires
        from <= args.len(),
    ensures
        from <= at <= args.len(),
        at == from + first_separator(args.deep_view().skip(from as int)),
{
    let ghost all = args.deep_view();
    let mut at: usize = from;
    while at < args.len()
        invariant
            from <= at <= args.len(),
            all == args.deep_view(),
            first_separator(all.skip(from as int)) == (at - from) + first_separator(
                all.skip(at as int),
            ),
        decreases args.len() - at,
    {
        if is_separator(&args[at]) {
            return at;
        }
        proof {
            assert(all.skip(at as int)[0] == args[at as int]@);
            assert(all.skip(at as int).skip(1) == all.skip(at + 1));
        }
        at += 1;
    }
    at
}

/// Appends a copy of each argument, in order.
pub fn push_all(out: &mut Vec<String>, args: &[String])
    ensures
        final(out).deep_view() == old(out).deep_view() + args.deep_view(),
{
    let mut i: usize = 0;
    while i < args.len()
        invariant
            i <= args.len(),
            out.deep_view() == old(out).deep_view() + args.deep_view().take(i as int),
        decreases args.len() - i,
    {
        let ghost before = out.deep_view();
        out.push(args[i].clone());
        proof {
            assert(out.deep_view() == before.push(args[i as int]@));
            assert(args.deep_view().take(i + 1) == args.deep_view().take(i as int).push(
                args[i as int]@,
            ));
        }
        i += 1;
    }
    proof {
        assert(args.deep_view().take(i as int) == args.deep_view());
    }
}

/// Appends the linter's batch: one separator token, then a copy of each argument.
pub fn add_clippy_args(out: &mut Vec<String>, args: &[String])
    ensures
        final(out).deep_view() == old(out).deep_view() + (seq![separator()] + args.deep_view()),
{
    let ghost before = out.deep_view();
    out.push(String::from_str("--"));
    proof {
        assert(out.deep_view() == before + seq![separator()]);
    }
    push_all(out, args);
}

/// Appends the pass-through arguments, each list to where it belongs.
///
/// A primary list is split at its separator tokens only where no secondary
/// list is given. Of its segments the first two are used; what stands behind
/// a second separator token is dropped.
pub fn route_args(out: &mut Vec<String>, cargo_args: &[String], last: &[String])
    ensures
        final(out).deep_view() == old(out).deep_view() + routed(
            cargo_args.deep_view(),
            last.deep_view(),
        ),
{
    let ghost primary = cargo_args.deep_view();
    if last.len() == 0 {
        let first = find_separator(cargo_args, 0);
        let head = slice_subrange(cargo_args, 0, first);
        proof {
            assert(primary.skip(0) == primary);
            assert(head.deep_view() == before_separator(primary));
        }
        push_all(out, head);
        if first < cargo_args.len() {
            let next = find_separator(cargo_args, first + 1);
            let tail = slice_subrange(cargo_args, first + 1, next);
            proof {
                assert(tail.deep_view() == before_separator(after_separator(primary)));
            }
            add_clippy_args(out, tail);
        }
    } else {
        push_all(out, cargo_args);
        add_clippy_args(out, last);
    }
}

} // verus!

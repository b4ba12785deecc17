use vstd::prelude::*;
use vstd::string::StrSliceExecFns;

use crate::text::same_text;

verus! {

/// The subcommand name under which the delegate runs this program
/// (`cargo clicker ...`).
pub const SELF_TOKEN: &'static str = "clicker";

/// Drops leading arguments equal to `token`, one at a time, up to the first
/// other argument.
pub open spec fn drop_leading(args: Seq<Seq<char>>, token: Seq<char>) -> Seq<Seq<char>>
    decreases args.len(),
{
    if args.len() > 0 && args[0] == token {
        drop_leading(args.drop_first(), token)
    } else {
        args
    }
}

/// The arguments to forward: the program's own name goes, then every
/// repetition of the subcommand name that follows it.
pub open spec fn stripped_args(args: Seq<Seq<char>>) -> Seq<Seq<char>> {
    if args.len() == 0 {
        args
    } else {
        drop_leading(args.drop_first(), SELF_TOKEN@)
    }
}

/// What one argument says about quietness: `Some(true)` asks for quiet,
/// `Some(false)` ends the scan without it, `None` says nothing.
pub open spec fn arg_signal(a: Seq<char>) -> Option<bool> {
    if a == "--"@ {
        Some(false)
    } else if a == "--quiet"@ {
        Some(true)
    } else if a.len() >= 2 && a[0] == '-' && a[1] == '-' {
        None
    } else if a.len() >= 1 && a[0] == '-' && a.drop_first().contains('q') {
        Some(true)
    } else {
        None
    }
}

/// Whether an argument list asks the delegate to be quiet: the first
/// argument that says anything about it decides, and a bare `--` says no.
pub open spec fn quiet_requested(args: Seq<Seq<char>>) -> bool
    decreases args.len(),
{
    if args.len() == 0 {
        false
    } else {
        match arg_signal(args[0]) {
            Some(b) => b,
            None => quiet_requested(args.drop_first()),
        }
    }
}

/// An argument that asks for quiet on its own: `--quiet`, or a cluster of
/// short flags that holds `q`.
pub open spec fn is_quiet_flag(a: Seq<char>) -> bool {
    a == "--quiet"@ || (a.len() >= 1 && a[0] == '-' && !(a.len() >= 2 && a[1] == '-')
        && a.drop_first().contains('q'))
}

/// The arguments to forward to the delegate (see `stripped_args`).
pub fn strip_self_args(args: &Vec<String>) -> (r: Vec<String>)
    ensures
        r.deep_view() == stripped_args(args.deep_view()),
{
    let ghost all = args.deep_view();
    let n: usize = args.len();
    let mut i: usize = if n == 0 { 0 } else { 1 };
    proof {
        if n > 0 {
            assert(all.skip(1) =~= all.drop_first());
        }
    }
    while i < n && same_text(args[i].as_str(), SELF_TOKEN)
        invariant
            all == args.deep_view(),
            n == args.len(),
            i <= n,
            n > 0 ==> 1 <= i,
            n > 0 ==> stripped_args(all) == drop_leading(all.skip(i as int), SELF_TOKEN@),
        decreases n - i,
    {
        assert(all.skip(i as int)[0] == args[i as int]@);
        assert(all.skip(i as int).drop_first() =~= all.skip(i + 1));
        i = i + 1;
    }
    let mut r: Vec<String> = Vec::new();
    let start: usize = i;
    assert(r.deep_view() =~= all.subrange(start as int, i as int));
    while i < n
        invariant
            all == args.deep_view(),
            n == args.len(),
            start <= i <= n,
            r.deep_view() =~= all.subrange(start as int, i as int),
        decreases n - i,
    {
        let ghost before = r.deep_view();
        r.push(args[i].clone());
        assert(r.deep_view() =~= before.push(args[i as int]@));
        i = i + 1;
    }
    proof {
        if n > 0 {
            assert(drop_leading(all.skip(start as int), SELF_TOKEN@) == all.skip(start as int));
        }
        assert(all.subrange(start as int, n as int) =~= all.skip(start as int));
    }
    r
}

/// What one argument says about quietness (see `arg_signal`).
pub fn classify_arg(a: &str) -> (r: Option<bool>)
    ensures
        r == arg_signal(a@),
{
    proof {
        reveal_strlit("--");
        reveal_strlit("--quiet");
    }
    if same_text(a, "--") {
        return Some(false);
    }
    if same_text(a, "--quiet") {
        return Some(true);
    }
    let n: usize = a.unicode_len();
    if n >= 2 && a.get_char(0) == '-' && a.get_char(1) == '-' {
        return None;
    }
    if n == 0 || a.get_char(0) != '-' {
        return None;
    }
    let mut i: usize = 1;
    while i < n
        invariant
            n == a@.len(),
            1 <= i <= n,
            forall|j: int| 1 <= j < i ==> a@[j] != 'q',
            a@ != "--"@,
            a@ != "--quiet"@,
            a@[0] == '-',
            !(n >= 2 && a@[1] == '-'),
        decreases n - i,
    {
        if a.get_char(i) == 'q' {
            assert(a@.drop_first()[i - 1] == 'q');
            assert(a@.drop_first().contains('q'));
            return Some(true);
        }
        i = i + 1;
    }
    assert(!a@.drop_first().contains('q')) by {
        assert forall|j: int| 0 <= j < a@.drop_first().len() implies a@.drop_first()[j] != 'q' by {
            assert(a@.drop_first()[j] == a@[j + 1]);
        }
    }
    None
}

/// Whether the forwarded arguments ask the delegate to be quiet; the scan
/// stops at the first argument that decides.
pub fn is_quiet(args: &Vec<String>) -> (r: bool)
    ensures
        r == quiet_requested(args.deep_view()),
{
    let ghost all = args.deep_view();
    let n: usize = args.len();
    let mut i: usize = 0;
    assert(all.skip(0) =~= all);
    while i < n
        invariant
            all == args.deep_view(),
            n == args.len(),
            i <= n,
            quiet_requested(all) == quiet_requested(all.skip(i as int)),
        decreases n - i,
    {
        assert(all.skip(i as int)[0] == args[i as int]@);
        assert(all.skip(i as int).drop_first() =~= all.skip(i + 1));
        match classify_arg(args[i].as_str()) {
            Some(b) => {
                return b;
            },
            None => {},
        }
        i = i + 1;
    }
    assert(all.skip(n as int).len() == 0);
    false
}

/// Stripping removes the program's own name and exactly the repetitions of
/// the subcommand name that follow it, and leaves the rest in order.
pub proof fn lemma_strip_leading_repetitions(program: Seq<char>, k: nat, rest: Seq<Seq<char>>)
    requires
        rest.len() > 0 ==> rest[0] != SELF_TOKEN@,
    ensures
        stripped_args(seq![program] + Seq::new(k, |j: int| SELF_TOKEN@) + rest) == rest,
{
    let args = seq![program] + Seq::new(k, |j: int| SELF_TOKEN@) + rest;
    assert(args.drop_first() =~= Seq::new(k, |j: int| SELF_TOKEN@) + rest);
    lemma_drop_repetitions(k, rest);
}

/// Dropping leading repetitions of the subcommand name from `k` of them
/// followed by `rest` leaves `rest`.
proof fn lemma_drop_repetitions(k: nat, rest: Seq<Seq<char>>)
    requires
        rest.len() > 0 ==> rest[0] != SELF_TOKEN@,
    ensures
        drop_leading(Seq::new(k, |j: int| SELF_TOKEN@) + rest, SELF_TOKEN@) == rest,
    decreases k,
{
    let s = Seq::new(k, |j: int| SELF_TOKEN@) + rest;
    if k == 0 {
        assert(s =~= rest);
    } else {
        assert(s[0] == SELF_TOKEN@);
        assert(s.drop_first() =~= Seq::new((k - 1) as nat, |j: int| SELF_TOKEN@) + rest);
        lemma_drop_repetitions((k - 1) as nat, rest);
    }
}

/// A quiet flag that comes before any bare `--` makes the delegate quiet,
/// whatever stands around it.
pub proof fn lemma_quiet_flag_detected(pre: Seq<Seq<char>>, flag: Seq<char>, post: Seq<Seq<char>>)
    requires
        is_quiet_flag(flag),
        forall|i: int| 0 <= i < pre.len() ==> pre[i] != "--"@,
    ensures
        quiet_requested(pre + seq![flag] + post),
    decreases pre.len(),
{
    reveal_strlit("--");
    reveal_strlit("--quiet");
    let args = pre + seq![flag] + post;
    if pre.len() == 0 {
        assert(args[0] == flag);
        if flag != "--quiet"@ {
            assert(flag.len() != 2 || flag[1] != '-');
        }
    } else {
        assert(args[0] == pre[0]);
        assert(args.drop_first() =~= pre.drop_first() + seq![flag] + post);
        lemma_quiet_flag_detected(pre.drop_first(), flag, post);
    }
}

/// Nothing after a bare `--` is looked at: the arguments after it never
/// change whether the delegate is quiet.
pub proof fn lemma_after_separator_ignored(pre: Seq<Seq<char>>, post: Seq<Seq<char>>)
    ensures
        quiet_requested(pre + seq!["--"@] + post) == quiet_requested(pre),
    decreases pre.len(),
{
    let args = pre + seq!["--"@] + post;
    if pre.len() == 0 {
        assert(args[0] == "--"@);
    } else {
        assert(args[0] == pre[0]);
        assert(args.drop_first() =~= pre.drop_first() + seq!["--"@] + post);
        lemma_after_separator_ignored(pre.drop_first(), post);
    }
}

} // verus!

//! A placeholder library whose only behaviour is an announcement: it points
//! users of the package at the GitHub repository where the real toolkit (a set
//! of GitHub Actions workflows) lives. The library produces the announcement
//! lines as values; an embedding program prints them.

use vstd::prelude::*;

verus! {

/// The first line of the announcement.
pub open spec fn first_line() -> Seq<char> {
    "This is a GitHub Actions toolkit, not a Rust library."@
}

/// The second line of the announcement.
pub open spec fn second_line() -> Seq<char> {
    "Please visit: https://github.com/loonghao/rust-actions-toolkit"@
}

/// The two lines one invocation of the announcement emits, in order.
pub open spec fn announcement() -> Seq<Seq<char>> {
    seq![first_line(), second_line()]
}

/// The lines that `n` consecutive invocations of the announcement emit,
/// in order, with nothing else between or after them.
pub open spec fn transcript(n: nat) -> Seq<Seq<char>>
    decreases n,
{
    if n == 0 {
        Seq::empty()
    } else {
        transcript((n - 1) as nat) + announcement()
    }
}

/// Invoking the announcement `n` times emits exactly `n` pairs of lines.
pub proof fn lemma_transcript_len(n: nat)
    ensures
        transcript(n).len() == 2 * n,
    decreases n,
{
    if n > 0 {
        lemma_transcript_len((n - 1) as nat);
    }
}

/// Every pair of the transcript is the fixed two lines, in their fixed order:
/// repeated invocation accumulates nothing and changes nothing.
pub proof fn lemma_transcript_pairs(n: nat, i: nat)
    requires
        i < n,
    ensures
        transcript(n)[(2 * i) as int] == first_line(),
        transcript(n)[(2 * i + 1) as int] == second_line(),
    decreases n,
{
    lemma_transcript_len((n - 1) as nat);
    if i + 1 < n {
        lemma_transcript_pairs((n - 1) as nat, i);
    }
}

/// Invocations compose: `m` invocations followed by `n` more emit exactly
/// what `m + n` invocations emit. In particular two invocations emit the
/// single-invocation output twice, back to back.
pub proof fn lemma_transcript_concat(m: nat, n: nat)
    ensures
        transcript(m + n) == transcript(m) + transcript(n),
    decreases n,
{
    if n == 0 {
        assert(transcript(m + n) =~= transcript(m) + transcript(n));
    } else {
        lemma_transcript_concat(m, (n - 1) as nat);
        assert(transcript(m + n) =~= transcript(m) + transcript(n));
    }
}

/// The two announcement lines, in order. An embedding program prints them,
/// one line each, to reproduce the announcement.
pub fn announcement_lines() -> (r: Vec<String>)
    ensures
        r.deep_view() == announcement(),
        r@.len() == 2,
{
    let mut r: Vec<String> = Vec::new();
    r.push(String::from_str("This is a GitHub Actions toolkit, not a Rust library."));
    r.push(String::from_str("Please visit: https://github.com/loonghao/rust-actions-toolkit"));
    proof {
        assert(r.deep_view() =~= announcement());
    }
    r
}

/// The lines that `n` consecutive invocations of the announcement emit:
/// the two fixed lines repeated `n` times, and nothing else.
pub fn transcript_lines(n: usize) -> (r: Vec<String>)
    ensures
        r.deep_view() == transcript(n as nat),
        r@.len() == 2 * n,
{
    let mut r: Vec<String> = Vec::new();
    let mut i: usize = 0;
    while i < n
        invariant
            i <= n,
            r.deep_view() == transcript(i as nat),
            r@.len() == 2 * i,
        decreases n - i,
    {
        let mut pair = announcement_lines();
        r.append(&mut pair);
        proof {
            assert(r.deep_view() =~= transcript(i as nat) + announcement());
        }
        i = i + 1;
    }
    r
}

} // verus!

//! The three counting operations and the values each one emits.
use vstd::prelude::*;
use vstd::arithmetic::power2::{pow2, lemma_pow2_unfold};
use crate::config::Operations;

verus! {

/// What an operation produced: the values it emitted, in order, and the
/// number that its closing line reports.
#[derive(Debug)]
pub struct Trace {
    pub emitted: Vec<i32>,
    pub done: i32,
}

/// `0, 1, ..., n - 1`, empty when `n <= 0`.
pub open spec fn count_up(n: int) -> Seq<i32> {
    Seq::new(if n > 0 { n as nat } else { 0 }, |i: int| i as i32)
}

/// `n, n - 1, ..., 1`, empty when `n <= 0`.
pub open spec fn count_down(n: int) -> Seq<i32> {
    Seq::new(if n > 0 { n as nat } else { 0 }, |i: int| (n - i) as i32)
}

/// `n, n / 2, n / 4, ...` while the value stays positive.
pub open spec fn halvings(n: int) -> Seq<i32>
    decreases n,
{
    if n <= 0 {
        Seq::empty()
    } else {
        seq![n as i32] + halvings(n / 2)
    }
}

/// What is emitted for `s` at verbosity `verbosity`: `s` itself when the
/// verbosity is positive, nothing otherwise.
pub open spec fn shown(s: Seq<i32>, verbosity: u8) -> Seq<i32> {
    if verbosity > 0 {
        s
    } else {
        Seq::empty()
    }
}

/// Counts up from 0 to `n`, the last value excluded.
pub fn increment(n: i32, verbosity: u8) -> (r: Trace)
    ensures
        r.emitted@ == shown(count_up(n as int), verbosity),
        r.done == n,
{
    let mut emitted: Vec<i32> = Vec::new();
    let mut i: i32 = 0;
    while i < n
        invariant
            0 <= i,
            n > 0 ==> i <= n,
            n <= 0 ==> i == 0,
            emitted@ == shown(count_up(i as int), verbosity),
        decreases n - i,
    {
        if verbosity > 0 {
            emitted.push(i);
        }
        i += 1;
        assert(shown(count_up(i as int), verbosity) =~= if verbosity > 0 {
            count_up((i - 1) as int).push((i - 1) as i32)
        } else {
            Seq::empty()
        });
    }
    proof {
        if n > 0 {
            assert(i == n);
        } else {
            assert(count_up(i as int) =~= count_up(n as int));
        }
    }
    Trace { emitted, done: n }
}

/// Counts down from `n` to 1; the closing line reports 0.
pub fn decrement(n: i32, verbosity: u8) -> (r: Trace)
    ensures
        r.emitted@ == shown(count_down(n as int), verbosity),
        r.done == 0,
{
    let mut emitted: Vec<i32> = Vec::new();
    let mut i: i32 = n;
    while i > 0
        invariant
            i <= n,
            i > 0 ==> emitted@ == shown(count_down(n as int).take(n - i), verbosity),
            i <= 0 ==> emitted@ == shown(count_down(n as int), verbosity),
        decreases i,
    {
        let ghost k = n - i;
        if verbosity > 0 {
            emitted.push(i);
        }
        i -= 1;
        assert(count_down(n as int).take(k + 1) =~= count_down(n as int).take(k).push(
            (n - k) as i32,
        ));
        assert(i <= 0 ==> count_down(n as int).take(k + 1) =~= count_down(n as int));
    }
    proof {
        if n <= 0 {
            assert(count_down(n as int) =~= Seq::empty());
            assert(shown(count_down(n as int), verbosity) =~= Seq::empty());
        }
    }
    Trace { emitted, done: 0 }
}

/// Halves `n` while it stays positive, emitting each value before it is
/// halved; the closing line reports 0.
pub fn split(n: i32, verbosity: u8) -> (r: Trace)
    ensures
        r.emitted@ == shown(halvings(n as int), verbosity),
        r.done == 0,
{
    let mut emitted: Vec<i32> = Vec::new();
    let mut m: i32 = n;
    while m > 0
        invariant
            shown(halvings(n as int), verbosity) == emitted@ + shown(halvings(m as int), verbosity),
        decreases m,
    {
        if verbosity > 0 {
            emitted.push(m);
        }
        assert(halvings(m as int) =~= seq![m] + halvings((m / 2) as int));
        m = m / 2;
        assert(shown(halvings(n as int), verbosity) =~= emitted@ + shown(
            halvings(m as int),
            verbosity,
        ));
    }
    assert(emitted@ + shown(halvings(m as int), verbosity) =~= emitted@);
    Trace { emitted, done: 0 }
}

/// Runs the selected operation; `None` when no operation was selected.
pub fn run_operation(op: &Option<Operations>, verbosity: u8) -> (r: Option<Trace>)
    ensures
        match *op {
            None => r is None,
            Some(Operations::Increment(a)) => r matches Some(t) && t.emitted@ == shown(
                count_up(a.number as int),
                verbosity,
            ) && t.done == a.number,
            Some(Operations::Decrement(a)) => r matches Some(t) && t.emitted@ == shown(
                count_down(a.number as int),
                verbosity,
            ) && t.done == 0,
            Some(Operations::Split(a)) => r matches Some(t) && t.emitted@ == shown(
                halvings(a.number as int),
                verbosity,
            ) && t.done == 0,
        },
{
    match op {
        None => None,
        Some(Operations::Increment(a)) => Some(increment(a.number, verbosity)),
        Some(Operations::Decrement(a)) => Some(decrement(a.number, verbosity)),
        Some(Operations::Split(a)) => Some(split(a.number, verbosity)),
    }
}

/// Counting up from `n >= 0` at a positive verbosity emits exactly `n`
/// values, `0` to `n - 1` in order.
pub proof fn increment_emits_n_values(n: i32, verbosity: u8)
    requires
        n >= 0,
        verbosity > 0,
    ensures
        shown(count_up(n as int), verbosity).len() == n,
        forall|i: int| 0 <= i < n ==> shown(count_up(n as int), verbosity)[i] == i,
{
}

/// Counting down from `n >= 0` at a positive verbosity emits exactly `n`
/// values, `n` down to 1.
pub proof fn decrement_emits_n_values(n: i32, verbosity: u8)
    requires
        n >= 0,
        verbosity > 0,
    ensures
        shown(count_down(n as int), verbosity).len() == n,
        forall|i: int| 0 <= i < n ==> shown(count_down(n as int), verbosity)[i] == n - i,
{
}

proof fn lemma_halvings(n: int)
    requires
        n <= i32::MAX,
    ensures
        n <= 0 ==> halvings(n).len() == 0,
        n > 0 ==> {
            &&& halvings(n).len() >= 1
            &&& pow2((halvings(n).len() - 1) as nat) <= n < pow2(halvings(n).len())
            &&& halvings(n)[0] == n
            &&& halvings(n).last() == 1
            &&& forall|i: int|
                0 <= i < halvings(n).len() - 1 ==> halvings(n)[i + 1] as int
                    == #[trigger] halvings(n)[i] as int / 2
        },
    decreases n,
{
    if n > 0 {
        let m = n / 2;
        lemma_halvings(m);
        let s = halvings(n);
        let t = halvings(m);
        assert(s =~= seq![n as i32] + t);
        let k = t.len();
        if m == 0 {
            assert(pow2(0) == 1) by {
                vstd::arithmetic::power2::lemma2_to64();
            }
            assert(pow2(1) == 2) by {
                vstd::arithmetic::power2::lemma2_to64();
            }
        } else {
            lemma_pow2_unfold(k);
            lemma_pow2_unfold(k + 1);
            assert(s.len() == k + 1);
            assert(s.last() == t.last());
            assert(s[1] as int == s[0] as int / 2);
            assert forall|i: int| 0 <= i < s.len() - 1 implies s[i + 1] as int
                == #[trigger] s[i] as int / 2 by {
                assert(s[i + 1] == t[i]);
                if i > 0 {
                    assert(s[i] == t[i - 1]);
                    assert(t[i] as int == t[i - 1] as int / 2);
                } else {
                    assert(t[0] == m);
                }
            }
        }
    }
}

/// Halving `n` emits `n` first, then each value halved, down to 1: that is
/// `floor(log2(n)) + 1` values when `n > 0`, and none when `n <= 0`.
pub proof fn split_emits_log2_values(n: i32, verbosity: u8)
    requires
        verbosity > 0,
    ensures
        n <= 0 ==> shown(halvings(n as int), verbosity).len() == 0,
        n > 0 ==> {
            let s = shown(halvings(n as int), verbosity);
            &&& s.len() >= 1
            &&& pow2((s.len() - 1) as nat) <= n < pow2(s.len())
            &&& s[0] == n
            &&& s.last() == 1
            &&& forall|i: int| 0 <= i < s.len() - 1 ==> s[i + 1] as int == #[trigger] s[i] as int / 2
        },
{
    lemma_halvings(n as int);
}

} // verus!

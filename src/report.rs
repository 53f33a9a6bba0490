//! The lines that the program prints for a configuration.
use vstd::prelude::*;
use crate::config::Operations;
use crate::ops::{count_down, count_up, halvings, run_operation, shown, Trace};
use crate::text::{decimal, push_decimal};

verus! {

/// The line that names a verbosity level; every level above 2 shares one.
pub open spec fn verbosity_line(verbosity: u8) -> Seq<char> {
    if verbosity == 0 {
        "Basic logging"@
    } else if verbosity == 1 {
        "Detailed logging"@
    } else if verbosity == 2 {
        "All logging"@
    } else {
        "You can't get crazier than this"@
    }
}

/// Each value followed by `..`, one after the other.
pub open spec fn dotted(values: Seq<i32>) -> Seq<char>
    decreases values.len(),
{
    if values.len() == 0 {
        Seq::empty()
    } else {
        dotted(values.drop_last()) + decimal(values.last() as int) + ".."@
    }
}

/// The emitted values, then the closing `<done> done!`.
pub open spec fn trace_line(values: Seq<i32>, done: i32) -> Seq<char> {
    dotted(values) + decimal(done as int) + " done!"@
}

/// The output of the selected operation at the given verbosity.
pub open spec fn operation_line(op: Option<Operations>, verbosity: u8) -> Seq<char> {
    match op {
        None => "NOP"@,
        Some(Operations::Increment(a)) => trace_line(
            shown(count_up(a.number as int), verbosity),
            a.number,
        ),
        Some(Operations::Decrement(a)) => trace_line(
            shown(count_down(a.number as int), verbosity),
            0,
        ),
        Some(Operations::Split(a)) => trace_line(shown(halvings(a.number as int), verbosity), 0),
    }
}

/// The line that names the verbosity level.
pub fn verbosity_message(verbosity: u8) -> (r: String)
    ensures
        r@ == verbosity_line(verbosity),
{
    if verbosity == 0 {
        String::from_str("Basic logging")
    } else if verbosity == 1 {
        String::from_str("Detailed logging")
    } else if verbosity == 2 {
        String::from_str("All logging")
    } else {
        String::from_str("You can't get crazier than this")
    }
}

/// The text of a trace: each emitted value followed by `..`, then
/// `<done> done!`.
pub fn render_trace(t: &Trace) -> (r: String)
    ensures
        r@ == trace_line(t.emitted@, t.done),
{
    let mut out = String::new();
    let mut i: usize = 0;
    while i < t.emitted.len()
        invariant
            i <= t.emitted.len(),
            out@ == dotted(t.emitted@.take(i as int)),
        decreases t.emitted.len() - i,
    {
        assert(t.emitted@.take(i + 1).drop_last() =~= t.emitted@.take(i as int));
        push_decimal(&mut out, t.emitted[i]);
        out.append("..");
        i += 1;
    }
    assert(t.emitted@.take(i as int) =~= t.emitted@);
    push_decimal(&mut out, t.done);
    out.append(" done!");
    out
}

/// The output of the selected operation: its trace, or `NOP` when none is
/// selected.
pub fn operation_message(op: &Option<Operations>, verbosity: u8) -> (r: String)
    ensures
        r@ == operation_line(*op, verbosity),
{
    match run_operation(op, verbosity) {
        Some(t) => render_trace(&t),
        None => String::from_str("NOP"),
    }
}

} // verus!

//! The configuration that the command line selects.
use vstd::prelude::*;

verus! {

/// The argument of an operation.
#[derive(Clone, Copy, Debug, PartialEq, Eq, Structural)]
pub struct OpArgs {
    /// Number to use.
    pub number: i32,
}

/// The operation selected on the command line.
#[derive(Clone, Copy, Debug, PartialEq, Eq, Structural)]
pub enum Operations {
    /// Counts up from 0 to the given number.
    Increment(OpArgs),
    /// Counts down from the given number to 0.
    Decrement(OpArgs),
    /// Divides the given number by 2 until it reaches 0.
    Split(OpArgs),
}

/// The parsed command line.
#[derive(Debug)]
pub struct Cli {
    /// How many times the verbosity flag was given.
    pub verbosity: u8,
    /// Whether the configuration is round-tripped through TOML.
    pub flag: bool,
    /// The list given with the list-valued option, if any.
    pub args: Option<Vec<String>>,
    /// The selected operation, if any.
    pub operation: Option<Operations>,
}

/// The configuration as plain values.
pub struct CliView {
    pub verbosity: u8,
    pub flag: bool,
    pub args: Option<Seq<Seq<char>>>,
    pub operation: Option<Operations>,
}

impl View for Cli {
    type V = CliView;

    open spec fn view(&self) -> CliView {
        CliView {
            verbosity: self.verbosity,
            flag: self.flag,
            args: match self.args {
                Some(v) => Some(v.deep_view()),
                None => None,
            },
            operation: self.operation,
        }
    }
}

fn same_strings(a: &Vec<String>, b: &Vec<String>) -> (r: bool)
    ensures
        r == (a.deep_view() == b.deep_view()),
{
    if a.len() != b.len() {
        assert(a.deep_view().len() != b.deep_view().len());
        return false;
    }
    let mut i: usize = 0;
    while i < a.len()
        invariant
            a.len() == b.len(),
            i <= a.len(),
            forall|j: int| 0 <= j < i ==> a@[j]@ == b@[j]@,
        decreases a.len() - i,
    {
        if a[i] != b[i] {
            assert(a.deep_view()[i as int] != b.deep_view()[i as int]);
            return false;
        }
        i += 1;
    }
    assert(a.deep_view() =~= b.deep_view());
    true
}

fn same_operation(a: &Option<Operations>, b: &Option<Operations>) -> (r: bool)
    ensures
        r == (*a == *b),
{
    match (a, b) {
        (None, None) => true,
        (Some(x), Some(y)) => *x == *y,
        _ => false,
    }
}

impl PartialEq for Cli {
    fn eq(&self, o: &Cli) -> (r: bool) {
        let same_args = match (&self.args, &o.args) {
            (None, None) => true,
            (Some(x), Some(y)) => same_strings(x, y),
            _ => false,
        };
        self.verbosity == o.verbosity && self.flag == o.flag && same_args && same_operation(
            &self.operation,
            &o.operation,
        )
    }
}

impl vstd::std_specs::cmp::PartialEqSpecImpl for Cli {
    open spec fn obeys_eq_spec() -> bool {
        true
    }

    open spec fn eq_spec(&self, o: &Cli) -> bool {
        self@ == o@
    }
}

} // verus!

//! The read-validate-retry cycle as a state machine: each line of input
//! either is accepted and moves the session on, or is rejected and leaves
//! it where it was, to be asked for again.
use vstd::prelude::*;
use crate::numeric::{operand_of, parse_operand};
use crate::operation::{is_defined, operation_of, parse_operation, Operation};

verus! {

/// Where a calculation stands: what it has read so far.
#[derive(Clone, Copy, Debug, PartialEq, Eq, Structural)]
pub enum Session {
    AwaitingFirst,
    AwaitingSecond { first: i64 },
    AwaitingOperation { first: i64, second: i64 },
    Ready { first: i64, second: i64, operation: Operation },
}

impl Session {
    /// The session after the line `line`, and whether the line was accepted.
    /// A rejected line leaves the session as it was; a ready session takes
    /// no more lines.
    pub open spec fn step_spec(self, line: Seq<char>) -> (Session, bool) {
        match self {
            Session::AwaitingFirst => match operand_of(line) {
                Some(x) => (Session::AwaitingSecond { first: x }, true),
                None => (self, false),
            },
            Session::AwaitingSecond { first } => match operand_of(line) {
                Some(x) => (Session::AwaitingOperation { first, second: x }, true),
                None => (self, false),
            },
            Session::AwaitingOperation { first, second } => match operation_of(line) {
                Some(op) => (Session::Ready { first, second, operation: op }, true),
                None => (self, false),
            },
            Session::Ready { .. } => (self, false),
        }
    }

    /// The session after each of `lines` in turn, and how many of them were
    /// rejected.
    pub open spec fn run_spec(self, lines: Seq<Seq<char>>) -> (Session, nat)
        decreases lines.len(),
    {
        if lines.len() == 0 {
            (self, 0)
        } else {
            let (s, accepted) = self.run_spec(lines.drop_last()).0.step_spec(lines.last());
            let rejected = self.run_spec(lines.drop_last()).1;
            (s, if accepted { rejected } else { rejected + 1 })
        }
    }

    /// A session that has read nothing yet.
    pub fn new() -> (r: Session)
        ensures
            r == Session::AwaitingFirst,
    {
        Session::AwaitingFirst
    }

    /// Takes one line of input: where it is valid for what the session awaits,
    /// the session moves on and the result says `true`; otherwise the session
    /// stays as it was and the result says `false`, the line to be asked for
    /// again.
    pub fn step(self, line: &str) -> (r: (Session, bool))
        ensures
            r == self.step_spec(line@),
    {
        match self {
            Session::AwaitingFirst => match parse_operand(line) {
                Some(x) => (Session::AwaitingSecond { first: x }, true),
                None => (self, false),
            },
            Session::AwaitingSecond { first } => match parse_operand(line) {
                Some(x) => (Session::AwaitingOperation { first, second: x }, true),
                None => (self, false),
            },
            Session::AwaitingOperation { first, second } => match parse_operation(line) {
                Some(op) => (Session::Ready { first, second, operation: op }, true),
                None => (self, false),
            },
            Session::Ready { .. } => (self, false),
        }
    }

    /// Takes each of `lines` in turn; gives the session after the last and
    /// how many of them were rejected, each of which would have been asked
    /// for again.
    pub fn run(self, lines: &Vec<String>) -> (r: (Session, usize))
        ensures
            r.0 == self.run_spec(lines@.map_values(|l: String| l@)).0,
            r.1 == self.run_spec(lines@.map_values(|l: String| l@)).1,
    {
        let ghost texts = lines@.map_values(|l: String| l@);
        let mut s = self;
        let mut rejected: usize = 0;
        let mut i: usize = 0;
        assert(texts.take(0) =~= Seq::<Seq<char>>::empty());
        while i < lines.len()
            invariant
                i <= lines.len(),
                texts == lines@.map_values(|l: String| l@),
                s == self.run_spec(texts.take(i as int)).0,
                rejected == self.run_spec(texts.take(i as int)).1,
                rejected <= i,
            decreases lines.len() - i,
        {
            let (next, accepted) = s.step(lines[i].as_str());
            assert(texts.take(i + 1).drop_last() =~= texts.take(i as int));
            assert(texts.take(i + 1).last() == lines@[i as int]@);
            s = next;
            if !accepted {
                rejected = rejected + 1;
            }
            i = i + 1;
        }
        assert(texts.take(lines.len() as int) =~= texts);
        (s, rejected)
    }

    /// The result of the calculation of a ready session: `None` where the
    /// session is not ready, or its operation has no result on its operands
    /// (a zero divisor, or an overflow).
    pub fn result(&self) -> (r: Option<i64>)
        ensures
            r == match *self {
                Session::Ready { first, second, operation } => if is_defined(
                    operation,
                    first as int,
                    second as int,
                ) {
                    Some(crate::operation::apply_spec(operation, first as int, second as int) as i64)
                } else {
                    None::<i64>
                },
                _ => None::<i64>,
            },
    {
        match *self {
            Session::Ready { first, second, operation } => operation.checked_apply(first, second),
            _ => None,
        }
    }
}

} // verus!

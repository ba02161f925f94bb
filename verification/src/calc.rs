//! The calculator entry: it evaluates its arguments as an arithmetic expression.
//!
//! The evaluation itself (`calculator_rs`) can stop the program on some expressions
//! (integer overflow, dividing the smallest integer by -1), so the program around
//! this library makes it and hands the outcome in: the value's text, or the error's.
use vstd::prelude::*;

use crate::entry::{Invoke, Read, ReadView};

verus! {

/// The outcome of an evaluation, as text.
pub open spec fn outcome_view(outcome: Result<String, String>) -> Result<Seq<char>, Seq<char>> {
    match outcome {
        Ok(v) => Ok(v@),
        Err(e) => Err(e@),
    }
}

/// The row that the calculator shows for an outcome.
pub open spec fn calc_read(outcome: Result<Seq<char>, Seq<char>>) -> ReadView {
    match outcome {
        Ok(v) => ReadView { title: v, description: "Press Enter to lift the result to the input bar."@ },
        Err(e) => ReadView { title: e, description: "Press Enter to clear the input bar."@ },
    }
}

/// The input that calling the calculator's row writes: the value, or nothing after
/// an error.
pub open spec fn calc_update(outcome: Result<Seq<char>, Seq<char>>) -> Seq<char> {
    match outcome {
        Ok(v) => v,
        Err(_) => Seq::empty(),
    }
}

/// An entry that evaluates the last arguments written to it.
pub struct Calculator(String);

impl Calculator {
    /// The expression last written.
    pub closed spec fn expr(&self) -> Seq<char> {
        self.0@
    }

    /// A calculator with an empty expression.
    pub fn new() -> (c: Self)
        ensures
            c.expr() == Seq::<char>::empty(),
    {
        Calculator(String::new())
    }

    /// The arguments become the expression.
    pub fn push(&mut self, args: String)
        ensures
            final(self).expr() == args@,
    {
        self.0 = args;
    }

    /// The expression to evaluate.
    pub fn expression(&self) -> (e: &str)
        ensures
            e@ == self.expr(),
    {
        self.0.as_str()
    }

    /// The row for an outcome of the calculator.
    pub fn read_outcome(outcome: Result<String, String>) -> (r: Read)
        ensures
            r@ == calc_read(outcome_view(outcome)),
    {
        match outcome {
            Ok(v) => Read { title: v, description: "Press Enter to lift the result to the input bar.".to_owned() },
            Err(e) => Read { title: e, description: "Press Enter to clear the input bar.".to_owned() },
        }
    }

    /// The input that calling row 0 writes for an outcome of the calculator.
    pub fn update_outcome(outcome: Result<String, String>) -> (s: String)
        ensures
            s@ == calc_update(outcome_view(outcome)),
    {
        match outcome {
            Ok(v) => v,
            Err(_) => String::new(),
        }
    }

    /// Row `index`, given the outcome of evaluating the expression: row 0 shows the
    /// value (or the error); there is no other row.
    pub fn read(&self, index: usize, outcome: Result<String, String>) -> (r: Option<Read>)
        ensures
            index == 0 ==> (r matches Some(x) && x@ == calc_read(outcome_view(outcome))),
            index != 0 ==> r is None,
    {
        if index == 0 {
            Some(Calculator::read_outcome(outcome))
        } else {
            None
        }
    }

    /// Calling row `index`, given the outcome of evaluating the expression: row 0
    /// writes the value to the input (or clears it after an error); there is no other
    /// row.
    pub fn call<E>(&self, index: usize, outcome: Result<String, String>) -> (r: Option<Invoke<E>>)
        ensures
            index == 0 ==> (r matches Some(Invoke::Update(s)) && s@ == calc_update(outcome_view(outcome))),
            index != 0 ==> r is None,
    {
        if index == 0 {
            Some(Invoke::Update(Calculator::update_outcome(outcome)))
        } else {
            None
        }
    }
}

} // verus!

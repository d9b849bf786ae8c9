//! The calculator: the entries of its history and the operations that fill
//! it.

use crate::history::{history_after, Call, Operation};
use crate::number::Number;
use vstd::prelude::*;

verus! {

/// The line that heads a printed history.
pub const HISTORY_HEADER: &'static str = "\nCalculation History:";

/// One finished operation: its two operands and what it gave.
#[derive(Clone, Copy, Debug, PartialEq, Eq, Structural)]
pub struct Calculation {
    pub a: Number,
    pub b: Number,
    pub result: Number,
}

impl Calculation {
    /// The entry for an operation on `a` and `b` that gave `result`.
    pub fn new(a: Number, b: Number, result: Number) -> (calculation: Self)
        ensures
            calculation == (Calculation { a, b, result }),
    {
        Calculation { a, b, result }
    }

    /// The line that shows one entry of the history, given the texts of its
    /// three numbers. The sign between the operands is `+` whatever the
    /// operation was.
    pub fn history_line(a: &str, b: &str, result: &str) -> (line: String)
        ensures
            line@ == a@ + " + "@ + b@ + " = "@ + result@,
    {
        let mut line = String::from_str(a);
        line.append(" + ");
        line.append(b);
        line.append(" = ");
        line.append(result);
        line
    }
}

/// A calculator's record of the operations it has carried out, oldest first.
///
/// The arithmetic itself is floating-point work and is done by the caller,
/// who hands each operation its operands together with the value computed
/// from them. The calculator decides whether the operation counts and keeps
/// the history.
pub struct Calculator {
    history: Vec<Calculation>,
}

impl View for Calculator {
    type V = Seq<Calculation>;

    /// The history, oldest entry first.
    closed spec fn view(&self) -> Seq<Calculation> {
        self.history@
    }
}

impl Calculator {
    /// A calculator that has done nothing yet.
    pub fn new() -> (calculator: Self)
        ensures
            calculator@ == Seq::<Calculation>::empty(),
    {
        Calculator { history: Vec::with_capacity(100) }
    }

    /// Records the addition of `a` and `b`, whose sum the caller computed,
    /// and returns the sum.
    pub fn add(&mut self, a: Number, b: Number, sum: Number) -> (result: Number)
        ensures
            result == sum,
            final(self)@ == old(self)@.push(Calculation { a, b, result: sum }),
            final(self)@ == history_after(
                old(self)@,
                Call { operation: Operation::Add, a, b, value: sum },
            ),
    {
        self.add_to_history(a, b, sum);
        sum
    }

    /// Records the subtraction of `b` from `a`, whose difference the caller
    /// computed, and returns the difference.
    pub fn subtract(&mut self, a: Number, b: Number, difference: Number) -> (result: Number)
        ensures
            result == difference,
            final(self)@ == old(self)@.push(Calculation { a, b, result: difference }),
            final(self)@ == history_after(
                old(self)@,
                Call { operation: Operation::Subtract, a, b, value: difference },
            ),
    {
        self.add_to_history(a, b, difference);
        difference
    }

    /// Records the multiplication of `a` by `b`, whose product the caller
    /// computed, and returns the product.
    pub fn multiply(&mut self, a: Number, b: Number, product: Number) -> (result: Number)
        ensures
            result == product,
            final(self)@ == old(self)@.push(Calculation { a, b, result: product }),
            final(self)@ == history_after(
                old(self)@,
                Call { operation: Operation::Multiply, a, b, value: product },
            ),
    {
        self.add_to_history(a, b, product);
        product
    }

    /// Divides `a` by `b`. A zero divisor, of either sign, is refused and
    /// the history stays as it was. Otherwise the division is recorded with
    /// the quotient that the caller computed, and the quotient is returned.
    pub fn divide(
        &mut self,
        a: Number,
        b: Number,
        quotient: Number,
    ) -> (outcome: Result<Number, String>)
        ensures
            b.is_zero() ==> (outcome matches Err(message) && message@ == "Division by zero"@),
            b.is_zero() ==> final(self)@ == old(self)@,
            !b.is_zero() ==> outcome == Ok::<Number, String>(quotient),
            !b.is_zero() ==> final(self)@ == old(self)@.push(
                Calculation { a, b, result: quotient },
            ),
            final(self)@ == history_after(
                old(self)@,
                Call { operation: Operation::Divide, a, b, value: quotient },
            ),
    {
        if b.is_zero() {
            return Err(String::from_str("Division by zero"));
        }
        self.add_to_history(a, b, quotient);
        Ok(quotient)
    }

    /// The history, oldest entry first.
    pub fn get_history(&self) -> (history: &[Calculation])
        ensures
            history@ == self@,
    {
        self.history.as_slice()
    }

    /// Reading the history changes nothing: two reads of one calculator, with
    /// no operation between them, give the same sequence.
    pub proof fn lemma_reads_agree(&self, first: &[Calculation], second: &[Calculation])
        requires
            first@ == self@,
            second@ == self@,
        ensures
            first@ == second@,
    {
    }

    /// Appends one entry to the history.
    fn add_to_history(&mut self, a: Number, b: Number, result: Number)
        ensures
            final(self)@ == old(self)@.push(Calculation { a, b, result }),
    {
        self.history.push(Calculation::new(a, b, result));
    }
}

} // verus!

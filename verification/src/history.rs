//! The history as a function of the calls made: a model of the calculator's
//! operations, and what holds of every run of them.

use crate::calculator::Calculation;
use crate::number::Number;
use vstd::prelude::*;

verus! {

/// The operations a calculator performs.
pub enum Operation {
    Add,
    Subtract,
    Multiply,
    Divide,
}

/// One call of a calculator's operation, as the history sees it: which
/// operation, its operands, and the value that the arithmetic gave.
pub struct Call {
    pub operation: Operation,
    pub a: Number,
    pub b: Number,
    pub value: Number,
}

impl Call {
    /// Every call succeeds but a division by zero.
    pub open spec fn succeeds(self) -> bool {
        !(self.operation is Divide && self.b.is_zero())
    }

    /// The entry that the call leaves in the history when it succeeds.
    pub open spec fn entry(self) -> Calculation {
        Calculation { a: self.a, b: self.b, result: self.value }
    }
}

/// The history after one call: a successful call appends its entry, a
/// failed one changes nothing.
pub open spec fn history_after(before: Seq<Calculation>, call: Call) -> Seq<Calculation> {
    if call.succeeds() {
        before.push(call.entry())
    } else {
        before
    }
}

/// The history of a calculator that started empty and received `calls`, in
/// that order.
pub open spec fn history_of(calls: Seq<Call>) -> Seq<Calculation>
    decreases calls.len(),
{
    if calls.len() == 0 {
        Seq::empty()
    } else {
        history_after(history_of(calls.drop_last()), calls.last())
    }
}

/// No call removes or alters an entry: the history before a call is the
/// beginning of the history after it, and at most one entry is added.
pub proof fn lemma_history_only_grows(before: Seq<Calculation>, call: Call)
    ensures
        before.is_prefix_of(history_after(before, call)),
        history_after(before, call).len() <= before.len() + 1,
{
}

/// After a run of calls that all succeed, the history is as long as the run
/// and its entries are those of the calls, in call order.
pub proof fn lemma_history_in_call_order(calls: Seq<Call>)
    requires
        forall|i: int| 0 <= i < calls.len() ==> (#[trigger] calls[i]).succeeds(),
    ensures
        history_of(calls).len() == calls.len(),
        forall|i: int|
            0 <= i < calls.len() ==> history_of(calls)[i] == (#[trigger] calls[i]).entry(),
    decreases calls.len(),
{
    if calls.len() > 0 {
        let earlier = calls.drop_last();
        lemma_history_in_call_order(earlier);
        assert forall|i: int| 0 <= i < calls.len() implies
            history_of(calls)[i] == (#[trigger] calls[i]).entry() by {
            if i < earlier.len() {
                assert(history_of(calls)[i] == history_of(earlier)[i]);
                assert(earlier[i] == calls[i]);
            }
        }
    }
}

/// Whatever the calls, the history holds the entries of exactly those that
/// succeeded, in call order.
pub proof fn lemma_history_holds_successful_calls(calls: Seq<Call>)
    ensures
        history_of(calls) == calls.filter(|call: Call| call.succeeds()).map_values(
            |call: Call| call.entry(),
        ),
    decreases calls.len(),
{
    reveal(Seq::filter);
    if calls.len() > 0 {
        lemma_history_holds_successful_calls(calls.drop_last());
    }
}

} // verus!

//! Cross-operation guarantees of the embedding layer, stated over the same
//! models that the operations' contracts use.

use vstd::prelude::*;

use crate::object::{convert_model, string_slot, ObjectModel, SlotModel};
use crate::text::contains_nul;
use crate::vm::{resolve_index, taken_error, valid_index, VmModel};

verus! {

/// Round trip: pushing a text without an embedded null byte and reading the
/// same slot back — the freshly pushed top, addressed from the top — yields
/// exactly `String(s)`.
///
/// `Vm::push_string` ensures the new stack is `stack.push(string_slot(s))`,
/// and `Vm::read_stack` ensures its result is `convert_model` of the
/// addressed slot, so together the read returns the pushed text unchanged.
pub proof fn lemma_push_string_round_trip(stack: Seq<SlotModel>, s: Seq<char>)
    requires
        !contains_nul(s),
    ensures
        ({
            let pushed = stack.push(string_slot(s));
            &&& valid_index(pushed.len() as int, -1)
            &&& pushed[resolve_index(pushed.len() as int, -1)] == string_slot(s)
            &&& convert_model(string_slot(s), -1) == Ok::<
                ObjectModel,
                crate::error::ErrorModel,
            >(ObjectModel::String(s))
        }),
{
}

/// A failed operation drains the mailbox exactly once: what it surfaces is
/// the recorded error, and a second failure with nothing recorded in between
/// falls back to the opaque engine error.
///
/// `Vm::compile` and `Vm::call` ensure, on an engine-reported failure, a
/// result of `taken_error` over the mailbox before the call together with an
/// empty mailbox after it; this law spells out both readings of the mailbox.
pub proof fn lemma_mailbox_taken_once(before: VmModel, recorded: crate::error::ErrorModel)
    ensures
        before.pending == Some(recorded) ==> taken_error(before.pending) == recorded,
        before.pending is None ==> taken_error(before.pending) == crate::error::ErrorModel::Vm,
{
}

} // verus!

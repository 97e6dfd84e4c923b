//! The VM handle: exclusive owner of one engine instance together with its
//! out-of-band block, and the host-facing operations.
//!
//! The engine's own compiler and interpreter are a black box, so everything
//! the engine alone decides — whether a compile succeeded, what a call
//! returned, whether a probed key was present, how a value was rendered as
//! text — enters each operation as an explicit outcome value. The contracts
//! then pin down, for every possible engine answer, the net stack effect of
//! the operation, what it returns, and how the pending-error mailbox moves:
//! the hooks write the single slot, a failed `compile` or `call` takes it
//! exactly once, and an empty slot falls back to the opaque [`Error::Vm`].
//!
//! Host context never travels through an untyped foreign-pointer slot here:
//! a native callable receives the handle itself for the extent of its
//! invocation, so no second, non-owning handle is ever reconstructed and the
//! owner alone can release the instance.

use vstd::prelude::*;

use crate::error::{Error, ErrorModel};
use crate::object::{
    convert_model, convert_object, marker_slot, string_slot, Object, Payload, RawSlot, SlotModel,
    OT_CLOSURE, OT_NATIVECLOSURE, OT_STRING, OT_TABLE,
};
use crate::text::{contains_nul, find_nul, first_nul};

verus! {

/// What a host-implemented native callable reports back to the engine.
#[derive(Debug, PartialEq)]
pub enum ClosureResult {
    /// The callable produced no return value.
    NoReturnValue,
    /// The callable pushed exactly one return value on top of the stack.
    ReturnValue,
    /// The callable asks the engine to raise a runtime error; whatever error
    /// state it left behind is what the runtime-error hook will surface.
    Error,
}

/// The engine's return-code convention for a native callable.
pub open spec fn closure_code(c: ClosureResult) -> i64 {
    match c {
        ClosureResult::NoReturnValue => 0,
        ClosureResult::ReturnValue => 1,
        ClosureResult::Error => -1i64,
    }
}

impl ClosureResult {
    /// The return code handed to the engine for this result: zero for no
    /// value, one for a pushed value, negative to raise an error.
    pub fn code(&self) -> (r: i64)
        ensures
            r == closure_code(*self),
    {
        match self {
            ClosureResult::NoReturnValue => 0,
            ClosureResult::ReturnValue => 1,
            ClosureResult::Error => -1,
        }
    }
}

/// The engine's verdict on a compile.
#[derive(Debug, PartialEq)]
pub enum CompileOutcome {
    /// The engine accepted the source and pushed the compiled callable.
    Succeeded,
    /// The engine rejected the source; the compiler-error hook, if it fired,
    /// has already recorded the structured failure.
    Failed,
}

/// The engine's verdict on an invocation.
#[derive(Debug, PartialEq)]
pub enum CallOutcome {
    /// The callable returned; the slot is what the engine pushed as the
    /// return value.
    Returned(RawSlot),
    /// The invocation failed; the runtime-error hook, if it fired, has
    /// already recorded the structured failure.
    Failed,
}

/// The engine's answer to a keyed lookup.
#[derive(Debug, PartialEq)]
pub enum LookupOutcome {
    /// The container held the probed key; the slot is the value pushed.
    Found(RawSlot),
    /// The key was absent, or the addressed slot is no container; the engine
    /// gives no finer diagnostic.
    Absent,
}

/// The engine's answer to a stringify request.
#[derive(Debug, PartialEq)]
pub enum StringifyOutcome {
    /// The slot's rendering as text.
    Text(String),
    /// Stringification is unsupported for that value's kind.
    Unsupported,
}

/// The host-owned out-of-band block attached to one engine instance: the
/// one-slot pending-error mailbox that the engine-fired hooks write and the
/// call sites drain.
pub struct VmData {
    last_error: Option<Error>,
}

/// The model of the mailbox.
pub open spec fn pending_model(o: Option<Error>) -> Option<ErrorModel> {
    match o {
        Some(e) => Some(e@),
        None => None,
    }
}

impl View for VmData {
    type V = Option<ErrorModel>;

    closed spec fn view(&self) -> Option<ErrorModel> {
        pending_model(self.last_error)
    }
}

/// The error a failed operation surfaces: the recorded one, taken from the
/// mailbox, or the opaque fallback when no hook fired.
pub open spec fn taken_error(pending: Option<ErrorModel>) -> ErrorModel {
    match pending {
        Some(p) => p,
        None => ErrorModel::Vm,
    }
}

/// The model of a stack of slots.
pub open spec fn slots_model(s: Seq<RawSlot>) -> Seq<SlotModel> {
    Seq::new(s.len(), |i: int| s[i]@)
}

/// A position addresses a slot when it lies between one and the depth,
/// counted from the bottom, or between minus the depth and minus one,
/// counted from the top.
pub open spec fn valid_index(depth: int, idx: int) -> bool {
    (1 <= idx <= depth) || (-depth <= idx <= -1)
}

/// The zero-based offset a stack position denotes.
pub open spec fn resolve_index(depth: int, idx: int) -> int {
    if idx > 0 {
        idx - 1
    } else {
        depth + idx
    }
}

/// The mathematical state of a handle: the stack as the engine's primitives
/// present it, the pending-error mailbox, whether the engine instance is
/// still held, and whether the global runtime-error handler is designated.
pub struct VmModel {
    pub stack: Seq<SlotModel>,
    pub pending: Option<ErrorModel>,
    pub live: bool,
    pub handler_installed: bool,
}

impl VmModel {
    /// Number of slots on the stack.
    pub open spec fn depth(self) -> int {
        self.stack.len() as int
    }

    /// Everything but the stack agrees with `other`.
    pub open spec fn same_but_stack(self, other: VmModel) -> bool {
        &&& self.pending == other.pending
        &&& self.live == other.live
        &&& self.handler_installed == other.handler_installed
    }
}

/// The handle over one engine instance. It exclusively owns the instance and
/// its out-of-band block; release happens at most once, through [`Vm::close`].
pub struct Vm {
    stack: Vec<RawSlot>,
    data: VmData,
    live: bool,
    handler_installed: bool,
}

impl View for Vm {
    type V = VmModel;

    closed spec fn view(&self) -> VmModel {
        VmModel {
            stack: slots_model(self.stack@),
            pending: self.data@,
            live: self.live,
            handler_installed: self.handler_installed,
        }
    }
}

impl Vm {
    /// Create a handle over a fresh engine instance sized to
    /// `initial_stack_size`, with an empty stack, an empty mailbox, and the
    /// internal exception-handling callable registered and designated as the
    /// engine's global runtime-error handler.
    ///
    /// The size only dimensions the engine's initial stack allocation; it
    /// leaves no trace in the observable state.
    #[allow(unused_variables)]
    pub fn new(initial_stack_size: i64) -> (vm: Vm)
        ensures
            vm@.live,
            vm@.handler_installed,
            vm@.stack.len() == 0,
            vm@.pending is None,
    {
        let mut vm = Vm {
            stack: Vec::new(),
            data: VmData { last_error: None },
            live: true,
            handler_installed: false,
        };
        vm.new_closure(0);
        vm.set_error_handler();
        proof {
            assert(vm@.stack =~= Seq::<SlotModel>::empty());
        }
        vm
    }

    /// Release the engine instance and, with it, the out-of-band block.
    ///
    /// A release happens at most once: it demands a live handle, leaves a
    /// dead one, and every other operation demands a live handle too, so no
    /// operation can reach the released instance again.
    pub fn close(&mut self)
        requires
            old(self)@.live,
        ensures
            !final(self)@.live,
            final(self)@.stack.len() == 0,
            final(self)@.pending is None,
    {
        self.stack.clear();
        self.data.last_error = None;
        self.live = false;
        proof {
            assert(self@.stack =~= Seq::<SlotModel>::empty());
        }
    }

    /// Number of values on the stack.
    pub fn depth(&self) -> (n: usize)
        ensures
            n == self@.stack.len(),
    {
        self.stack.len()
    }

    /// Compile script source under the name `sourcename`.
    ///
    /// A name holding an embedded null byte is rejected before the engine is
    /// called. Otherwise the engine's pull-based compiler consumes `source`
    /// byte by byte (see [`read_byte`]) and reports `outcome`: on success the
    /// compiled callable is pushed; on failure the error recorded by the
    /// compiler-error hook is taken from the mailbox, with the opaque
    /// [`Error::Vm`] as the fallback when no hook fired.
    #[allow(unused_variables)]
    pub fn compile(&mut self, source: &Vec<u8>, sourcename: &str, outcome: CompileOutcome) -> (r:
        Result<(), Error>)
        requires
            old(self)@.live,
        ensures
            contains_nul(sourcename@) ==> {
                &&& r matches Err(e) && e@ == ErrorModel::Nul(first_nul(sourcename@))
                &&& final(self)@ == old(self)@
            },
            !contains_nul(sourcename@) && (outcome matches CompileOutcome::Succeeded) ==> {
                &&& r matches Ok(v)
                &&& final(self)@.stack == old(self)@.stack.push(marker_slot(OT_CLOSURE))
                &&& final(self)@.same_but_stack(old(self)@)
            },
            !contains_nul(sourcename@) && (outcome matches CompileOutcome::Failed) ==> {
                &&& r matches Err(e) && e@ == taken_error(old(self)@.pending)
                &&& final(self)@.stack == old(self)@.stack
                &&& final(self)@.pending is None
                &&& final(self)@.live == old(self)@.live
                &&& final(self)@.handler_installed == old(self)@.handler_installed
            },
    {
        if let Some(i) = find_nul(sourcename) {
            return Err(Error::Nul(i));
        }
        match outcome {
            CompileOutcome::Succeeded => {
                self.stack.push(RawSlot { tag: OT_CLOSURE, payload: Payload::Missing });
                proof {
                    assert(self@.stack =~= old(self)@.stack.push(marker_slot(OT_CLOSURE)));
                }
                Ok(())
            },
            CompileOutcome::Failed => Err(self.take_last_error()),
        }
    }

    /// Push the engine's root table.
    pub fn push_root_table(&mut self)
        requires
            old(self)@.live,
        ensures
            final(self)@.stack == old(self)@.stack.push(marker_slot(OT_TABLE)),
            final(self)@.same_but_stack(old(self)@),
    {
        self.stack.push(RawSlot { tag: OT_TABLE, payload: Payload::Missing });
        proof {
            assert(self@.stack =~= old(self)@.stack.push(marker_slot(OT_TABLE)));
        }
    }

    /// Invoke the callable lying beneath `num_params` argument values (the
    /// receiver-like first argument, then the rest).
    ///
    /// The engine pops the arguments and leaves the callable. On success it
    /// pushes the return value, which is read — not popped, disposal is the
    /// caller's responsibility — and converted like [`Vm::read_stack`]. On
    /// failure the error recorded by the runtime-error hook is taken from
    /// the mailbox, with [`Error::Vm`] as the fallback when no hook fired.
    pub fn call(&mut self, num_params: i64, outcome: CallOutcome) -> (r: Result<Object, Error>)
        requires
            old(self)@.live,
            1 <= num_params,
            num_params + 1 <= old(self)@.depth(),
        ensures
            outcome matches CallOutcome::Returned(slot) ==> {
                &&& final(self)@.stack == old(self)@.stack.take(old(self)@.depth() - num_params).push(slot@)
                &&& final(self)@.same_but_stack(old(self)@)
                &&& crate::object::object_result_model(r) == convert_model(slot@, -1)
            },
            outcome matches CallOutcome::Failed ==> {
                &&& r matches Err(e) && e@ == taken_error(old(self)@.pending)
                &&& final(self)@.stack == old(self)@.stack.take(old(self)@.depth() - num_params)
                &&& final(self)@.pending is None
                &&& final(self)@.live == old(self)@.live
                &&& final(self)@.handler_installed == old(self)@.handler_installed
            },
    {
        let new_len = self.stack.len() - (num_params as usize);
        self.stack.truncate(new_len);
        match outcome {
            CallOutcome::Returned(slot) => {
                let r = convert_object(&slot, -1);
                self.stack.push(slot);
                proof {
                    assert(self@.stack =~= old(self)@.stack.take(
                        old(self)@.depth() - num_params,
                    ).push(self.stack@.last()@));
                }
                r
            },
            CallOutcome::Failed => {
                proof {
                    assert(self@.stack =~= old(self)@.stack.take(old(self)@.depth() - num_params));
                }
                Err(self.take_last_error())
            },
        }
    }

    /// Discard the `n` values on top of the stack. An out-of-range count is
    /// an engine precondition, not validated at run time.
    pub fn pop(&mut self, n: i64)
        requires
            old(self)@.live,
            0 <= n <= old(self)@.depth(),
        ensures
            final(self)@.stack == old(self)@.stack.take(old(self)@.depth() - n),
            final(self)@.same_but_stack(old(self)@),
    {
        let new_len = self.stack.len() - (n as usize);
        self.stack.truncate(new_len);
        proof {
            assert(self@.stack =~= old(self)@.stack.take(old(self)@.depth() - n));
        }
    }

    /// Register a host-implemented callable and push it as a native-closure
    /// value. The callable receives this handle for the extent of each
    /// invocation and reports a [`ClosureResult`]; `num_free_vars` is
    /// forwarded verbatim to the engine, this layer gives it no semantics.
    #[allow(unused_variables)]
    pub fn new_closure(&mut self, num_free_vars: u64)
        requires
            old(self)@.live,
        ensures
            final(self)@.stack == old(self)@.stack.push(marker_slot(OT_NATIVECLOSURE)),
            final(self)@.same_but_stack(old(self)@),
    {
        self.stack.push(RawSlot { tag: OT_NATIVECLOSURE, payload: Payload::Missing });
        proof {
            assert(self@.stack =~= old(self)@.stack.push(marker_slot(OT_NATIVECLOSURE)));
        }
    }

    /// Designate the callable on top of the stack as the engine's global
    /// runtime-error handler; the engine pops it.
    pub fn set_error_handler(&mut self)
        requires
            old(self)@.live,
            old(self)@.depth() >= 1,
        ensures
            final(self)@.stack == old(self)@.stack.drop_last(),
            final(self)@.handler_installed,
            final(self)@.pending == old(self)@.pending,
            final(self)@.live == old(self)@.live,
    {
        let _ = self.stack.pop();
        self.handler_installed = true;
        proof {
            assert(self@.stack =~= old(self)@.stack.drop_last());
        }
    }

    /// Push the string `string`. Text holding an embedded null byte is
    /// rejected before the engine is called, leaving the stack unchanged.
    pub fn push_string(&mut self, string: &str) -> (r: Result<(), Error>)
        requires
            old(self)@.live,
        ensures
            contains_nul(string@) ==> {
                &&& r matches Err(e) && e@ == ErrorModel::Nul(first_nul(string@))
                &&& final(self)@ == old(self)@
            },
            !contains_nul(string@) ==> {
                &&& r matches Ok(v)
                &&& final(self)@.stack == old(self)@.stack.push(string_slot(string@))
                &&& final(self)@.same_but_stack(old(self)@)
            },
    {
        if let Some(i) = find_nul(string) {
            return Err(Error::Nul(i));
        }
        self.stack.push(RawSlot { tag: OT_STRING, payload: Payload::Text(string.to_owned()) });
        proof {
            assert(self@.stack =~= old(self)@.stack.push(string_slot(string@)));
        }
        Ok(())
    }

    /// Push a copy of the value at stack position `idx`.
    pub fn push(&mut self, idx: i64)
        requires
            old(self)@.live,
            valid_index(old(self)@.depth(), idx as int),
        ensures
            final(self)@.stack == old(self)@.stack.push(
                old(self)@.stack[resolve_index(old(self)@.depth(), idx as int)],
            ),
            final(self)@.same_but_stack(old(self)@),
    {
        let i = resolve(self.stack.len(), idx);
        let copy = self.stack[i].duplicate();
        self.stack.push(copy);
        proof {
            assert(self@.stack =~= old(self)@.stack.push(
                old(self)@.stack[resolve_index(old(self)@.depth(), idx as int)],
            ));
        }
    }

    /// Pop the key on top of the stack and look it up in the container at
    /// position `idx`.
    ///
    /// When the engine finds the key it pushes the value in the key's place;
    /// when the key is absent, or the addressed slot is no container, the
    /// probe key is still removed and the opaque [`Error::Vm`] is returned —
    /// the engine gives no finer diagnostic, and no hook fires.
    pub fn get(&mut self, idx: i64, lookup: LookupOutcome) -> (r: Result<(), Error>)
        requires
            old(self)@.live,
            old(self)@.depth() >= 1,
            valid_index(old(self)@.depth(), idx as int),
        ensures
            lookup matches LookupOutcome::Found(slot) ==> {
                &&& r matches Ok(v)
                &&& final(self)@.stack == old(self)@.stack.drop_last().push(slot@)
                &&& final(self)@.same_but_stack(old(self)@)
            },
            lookup matches LookupOutcome::Absent ==> {
                &&& r matches Err(e) && e@ == ErrorModel::Vm
                &&& final(self)@.stack == old(self)@.stack.drop_last()
                &&& final(self)@.same_but_stack(old(self)@)
            },
    {
        let _ = self.stack.pop();
        match lookup {
            LookupOutcome::Found(slot) => {
                self.stack.push(slot);
                proof {
                    assert(self@.stack =~= old(self)@.stack.drop_last().push(
                        self.stack@.last()@,
                    ));
                }
                Ok(())
            },
            LookupOutcome::Absent => {
                proof {
                    assert(self@.stack =~= old(self)@.stack.drop_last());
                }
                Err(Error::Vm)
            },
        }
    }

    /// Ask the engine to render the value at position `idx` as text, in
    /// place. A kind the engine cannot stringify yields the opaque
    /// [`Error::Vm`] and leaves the stack unchanged.
    pub fn to_string(&mut self, idx: i64, rendered: StringifyOutcome) -> (r: Result<(), Error>)
        requires
            old(self)@.live,
            valid_index(old(self)@.depth(), idx as int),
        ensures
            rendered matches StringifyOutcome::Text(t) ==> {
                &&& r matches Ok(v)
                &&& final(self)@.stack == old(self)@.stack.update(
                    resolve_index(old(self)@.depth(), idx as int),
                    string_slot(t@),
                )
                &&& final(self)@.same_but_stack(old(self)@)
            },
            rendered matches StringifyOutcome::Unsupported ==> {
                &&& r matches Err(e) && e@ == ErrorModel::Vm
                &&& final(self)@ == old(self)@
            },
    {
        match rendered {
            StringifyOutcome::Text(t) => {
                let i = resolve(self.stack.len(), idx);
                self.stack[i] = RawSlot { tag: OT_STRING, payload: Payload::Text(t) };
                proof {
                    assert(self@.stack =~= old(self)@.stack.update(
                        resolve_index(old(self)@.depth(), idx as int),
                        self.stack@[resolve_index(old(self)@.depth(), idx as int)]@,
                    ));
                }
                Ok(())
            },
            StringifyOutcome::Unsupported => Err(Error::Vm),
        }
    }

    /// Convert the value at position `idx` to a typed [`Object`] without
    /// consuming it.
    pub fn read_stack(&mut self, idx: i64) -> (r: Result<Object, Error>)
        requires
            old(self)@.live,
            valid_index(old(self)@.depth(), idx as int),
        ensures
            final(self)@ == old(self)@,
            crate::object::object_result_model(r) == convert_model(
                old(self)@.stack[resolve_index(old(self)@.depth(), idx as int)],
                idx as int,
            ),
    {
        let i = resolve(self.stack.len(), idx);
        convert_object(&self.stack[i], idx)
    }

    /// The compiler-error hook: fired by the engine during a failing
    /// compile, it records the structured failure in the mailbox for the
    /// call site to take.
    pub fn compiler_error_handler(&mut self, desc: &str, file: &str, line: i64, col: i64)
        requires
            old(self)@.live,
        ensures
            final(self)@.pending == Some(
                ErrorModel::Compiler { desc: desc@, file: file@, line: line, col: col },
            ),
            final(self)@.stack == old(self)@.stack,
            final(self)@.live == old(self)@.live,
            final(self)@.handler_installed == old(self)@.handler_installed,
    {
        self.data.last_error = Some(
            Error::Compiler { desc: desc.to_owned(), file: file.to_owned(), line, col },
        );
    }

    /// The runtime-error hook: the native callable designated as the
    /// engine's global error handler. It receives the failing value as the
    /// second stack slot, stringifies it in place (`rendered` is the
    /// engine's answer), and records the text as an exception in the
    /// mailbox; a value the engine cannot render becomes the recorded error
    /// itself rather than being dropped.
    pub fn exception_handler(&mut self, rendered: StringifyOutcome) -> (r: ClosureResult)
        requires
            old(self)@.live,
            old(self)@.depth() >= 2,
        ensures
            r matches ClosureResult::NoReturnValue,
            rendered matches StringifyOutcome::Text(t) ==> {
                &&& final(self)@.pending == Some(ErrorModel::Exception(t@))
                &&& final(self)@.stack == old(self)@.stack.update(1, string_slot(t@))
            },
            rendered matches StringifyOutcome::Unsupported ==> {
                &&& final(self)@.pending == Some(ErrorModel::Vm)
                &&& final(self)@.stack == old(self)@.stack
            },
            final(self)@.live == old(self)@.live,
            final(self)@.handler_installed == old(self)@.handler_installed,
    {
        match self.to_string(2, rendered) {
            Ok(()) => {
                match self.read_stack(2) {
                    Ok(Object::String(s)) => {
                        self.data.last_error = Some(Error::Exception(s));
                    },
                    _ => {
                        proof {
                            assert(false);
                        }
                    },
                }
            },
            Err(e) => {
                self.data.last_error = Some(e);
            },
        }
        ClosureResult::NoReturnValue
    }

    /// Drain the mailbox: the recorded error, or the opaque fallback when no
    /// hook fired.
    fn take_last_error(&mut self) -> (e: Error)
        ensures
            e@ == taken_error(old(self)@.pending),
            final(self)@.pending is None,
            final(self)@.stack == old(self)@.stack,
            final(self)@.live == old(self)@.live,
            final(self)@.handler_installed == old(self)@.handler_installed,
    {
        match self.data.last_error.take() {
            Some(e) => e,
            None => Error::Vm,
        }
    }
}

/// The zero-based offset for the position `idx` on a stack of `depth` slots.
fn resolve(depth: usize, idx: i64) -> (r: usize)
    requires
        valid_index(depth as int, idx as int),
    ensures
        r == resolve_index(depth as int, idx as int),
        r < depth,
{
    if idx > 0 {
        (idx - 1) as usize
    } else {
        depth - ((-(idx as i128)) as usize)
    }
}

/// One step of the compiler's pull protocol: the engine requests source
/// bytes one at a time, and a position past the end answers zero, the
/// end-of-input signal.
pub fn read_byte(source: &Vec<u8>, pos: usize) -> (b: i64)
    ensures
        pos < source@.len() ==> b == source@[pos as int],
        pos >= source@.len() ==> b == 0,
{
    if pos < source.len() {
        source[pos] as i64
    } else {
        0
    }
}

} // verus!

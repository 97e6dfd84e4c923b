use squirrel::object::{OT_INTEGER, OT_NULL};
use squirrel::{
    CallOutcome, ClosureResult, CompileOutcome, Error, LookupOutcome, Object, Payload, RawSlot,
    StringifyOutcome, Vm,
};

fn null_slot() -> RawSlot {
    RawSlot { tag: OT_NULL, payload: Payload::Missing }
}

fn integer_slot(v: i64) -> RawSlot {
    RawSlot { tag: OT_INTEGER, payload: Payload::Integer(v) }
}

#[test]
fn push_then_read_round_trips_text() {
    let mut vm = Vm::new(1024);
    assert_eq!(vm.push_string("Hello, World!"), Ok(()));
    assert_eq!(vm.depth(), 1);
    match vm.read_stack(-1) {
        Ok(Object::String(s)) => assert_eq!(s.as_str(), "Hello, World!"),
        other => panic!("unexpected read: {:?}", other),
    }
    match vm.read_stack(1) {
        Ok(Object::String(s)) => assert_eq!(s.as_str(), "Hello, World!"),
        other => panic!("unexpected read: {:?}", other),
    }
    assert_eq!(vm.depth(), 1);
}

#[test]
fn embedded_null_is_rejected_before_the_engine() {
    let mut vm = Vm::new(1024);
    vm.push_root_table();
    assert_eq!(vm.push_string("bad\0text"), Err(Error::Nul(3)));
    assert_eq!(vm.depth(), 1);
    let source: Vec<u8> = Vec::new();
    assert_eq!(
        vm.compile(&source, "t\0.nut", CompileOutcome::Succeeded),
        Err(Error::Nul(1))
    );
    assert_eq!(vm.depth(), 1);
}

#[test]
fn failed_compile_surfaces_the_hook_error() {
    let mut vm = Vm::new(1024);
    let source: Vec<u8> = b"retrun 1+2;".to_vec();
    vm.compiler_error_handler("expected ';'", "t.nut", 1, 8);
    match vm.compile(&source, "t.nut", CompileOutcome::Failed) {
        Err(Error::Compiler { desc, file, line, col }) => {
            assert_eq!(file.as_str(), "t.nut");
            assert_eq!(desc.as_str(), "expected ';'");
            assert!(line >= 0);
            assert!(col >= 0);
        }
        other => panic!("unexpected compile result: {:?}", other),
    }
    assert_eq!(vm.depth(), 0);
}

#[test]
fn failed_compile_without_hook_falls_back_to_vm_error() {
    let mut vm = Vm::new(1024);
    let source: Vec<u8> = b"retrun 1+2;".to_vec();
    assert_eq!(
        vm.compile(&source, "t.nut", CompileOutcome::Failed),
        Err(Error::Vm)
    );
}

#[test]
fn the_mailbox_is_taken_once() {
    let mut vm = Vm::new(1024);
    let source: Vec<u8> = b"retrun 1+2;".to_vec();
    vm.compiler_error_handler("expected ';'", "t.nut", 1, 8);
    assert!(matches!(
        vm.compile(&source, "t.nut", CompileOutcome::Failed),
        Err(Error::Compiler { .. })
    ));
    // nothing recorded in between: the fallback applies
    assert_eq!(
        vm.compile(&source, "t.nut", CompileOutcome::Failed),
        Err(Error::Vm)
    );
}

#[test]
fn successful_call_leaves_one_readable_return_value() {
    let mut vm = Vm::new(1024);
    let source: Vec<u8> = b"print(\"x\");".to_vec();
    assert_eq!(vm.compile(&source, "t.nut", CompileOutcome::Succeeded), Ok(()));
    assert_eq!(vm.depth(), 1);
    vm.push_root_table();
    assert_eq!(vm.depth(), 2);
    // the built-in print produces no value: the engine pushes null
    let r = vm.call(1, CallOutcome::Returned(null_slot()));
    assert_eq!(r, Ok(Object::Null));
    // argument popped, callable kept, return value pushed — and left for the caller
    assert_eq!(vm.depth(), 2);
    assert_eq!(vm.read_stack(-1), Ok(Object::Null));
    vm.pop(2);
    assert_eq!(vm.depth(), 0);
}

#[test]
fn compile_push_call_yields_the_script_result() {
    let mut vm = Vm::new(1024);
    let source: Vec<u8> = b"return 1+2;".to_vec();
    assert_eq!(vm.compile(&source, "t.nut", CompileOutcome::Succeeded), Ok(()));
    vm.push_root_table();
    let r = vm.call(1, CallOutcome::Returned(integer_slot(3)));
    assert_eq!(r, Ok(Object::Integer(3)));
    assert_eq!(vm.read_stack(-1), Ok(Object::Integer(3)));
}

#[test]
fn erring_native_closure_surfaces_an_exception_and_the_handle_survives() {
    let mut vm = Vm::new(1024);
    vm.new_closure(0);
    vm.push_root_table();
    assert_eq!(vm.depth(), 2);
    // the host callable asks the engine to raise: its return code is negative
    let host_result = ClosureResult::Error;
    assert_eq!(host_result.code(), -1);
    // the engine runs the designated runtime-error handler over the failing value
    let hook_result = vm.exception_handler(StringifyOutcome::Text(String::from("oops")));
    assert_eq!(hook_result, ClosureResult::NoReturnValue);
    // the failed call takes the recorded exception
    assert_eq!(
        vm.call(1, CallOutcome::Failed),
        Err(Error::Exception(String::from("oops")))
    );
    assert_eq!(vm.depth(), 1);
    // the handle remains usable for an independent call
    vm.push_root_table();
    assert_eq!(vm.call(1, CallOutcome::Returned(null_slot())), Ok(Object::Null));
}

#[test]
fn exception_handler_keeps_an_unrenderable_error() {
    let mut vm = Vm::new(1024);
    vm.new_closure(0);
    vm.push_root_table();
    assert_eq!(
        vm.exception_handler(StringifyOutcome::Unsupported),
        ClosureResult::NoReturnValue
    );
    assert_eq!(vm.call(1, CallOutcome::Failed), Err(Error::Vm));
}

#[test]
fn absent_key_fails_and_still_pops_the_probe() {
    let mut vm = Vm::new(1024);
    vm.push_root_table();
    assert_eq!(vm.push_string("missing"), Ok(()));
    assert_eq!(vm.depth(), 2);
    assert_eq!(vm.get(1, LookupOutcome::Absent), Err(Error::Vm));
    assert_eq!(vm.depth(), 1);
    assert_eq!(vm.read_stack(1), Ok(Object::Table));
}

#[test]
fn found_key_replaces_the_probe_with_the_value() {
    let mut vm = Vm::new(1024);
    vm.push_root_table();
    assert_eq!(vm.push_string("print"), Ok(()));
    let r = vm.get(1, LookupOutcome::Found(RawSlot {
        tag: squirrel::object::OT_NATIVECLOSURE,
        payload: Payload::Missing,
    }));
    assert_eq!(r, Ok(()));
    assert_eq!(vm.depth(), 2);
    assert_eq!(vm.read_stack(-1), Ok(Object::NativeClosure));
}

#[test]
fn push_duplicates_a_slot() {
    let mut vm = Vm::new(1024);
    assert_eq!(vm.push_string("a"), Ok(()));
    vm.push(1);
    assert_eq!(vm.depth(), 2);
    match vm.read_stack(2) {
        Ok(Object::String(s)) => assert_eq!(s.as_str(), "a"),
        other => panic!("unexpected read: {:?}", other),
    }
}

#[test]
fn to_string_rewrites_in_place_or_fails() {
    let mut vm = Vm::new(1024);
    vm.push_root_table();
    assert_eq!(
        vm.to_string(1, StringifyOutcome::Text(String::from("(table)"))),
        Ok(())
    );
    match vm.read_stack(1) {
        Ok(Object::String(s)) => assert_eq!(s.as_str(), "(table)"),
        other => panic!("unexpected read: {:?}", other),
    }
    assert_eq!(vm.depth(), 1);
    assert_eq!(vm.to_string(1, StringifyOutcome::Unsupported), Err(Error::Vm));
    assert_eq!(vm.depth(), 1);
}

#[test]
fn a_fresh_handle_is_live_and_empty_and_closes_once() {
    let mut vm = Vm::new(64);
    assert_eq!(vm.depth(), 0);
    // an unknown return value kind surfaces the layer's own diagnostic
    vm.push_root_table();
    vm.push_root_table();
    match vm.call(1, CallOutcome::Returned(RawSlot { tag: 0x42, payload: Payload::Missing })) {
        Err(Error::Str(msg)) => assert_eq!(
            msg.as_str(),
            "VM stack contains an unknown type 0x42 at offset -1"
        ),
        other => panic!("unexpected call result: {:?}", other),
    }
    // release happens exactly once, through close; afterwards no operation
    // accepts the handle (their contracts all demand a live one)
    vm.close();
    assert_eq!(vm.depth(), 0);
}

#[test]
fn a_rejected_name_leaves_the_mailbox_alone() {
    let mut vm = Vm::new(1024);
    let source: Vec<u8> = b"retrun 1+2;".to_vec();
    vm.compiler_error_handler("expected ';'", "t.nut", 1, 8);
    // no engine call is made for a name with an embedded null byte
    assert_eq!(
        vm.compile(&source, "t\0.nut", CompileOutcome::Failed),
        Err(Error::Nul(1))
    );
    // the recorded error is still there for the next real failure
    match vm.compile(&source, "t.nut", CompileOutcome::Failed) {
        Err(Error::Compiler { file, .. }) => assert_eq!(file.as_str(), "t.nut"),
        other => panic!("unexpected compile result: {:?}", other),
    }
}

#[test]
fn designating_the_error_handler_pops_the_callable() {
    let mut vm = Vm::new(1024);
    vm.new_closure(0);
    assert_eq!(vm.depth(), 1);
    assert_eq!(vm.read_stack(-1), Ok(Object::NativeClosure));
    vm.set_error_handler();
    assert_eq!(vm.depth(), 0);
}

#[test]
fn pop_discards_from_the_top() {
    let mut vm = Vm::new(1024);
    assert_eq!(vm.push_string("a"), Ok(()));
    assert_eq!(vm.push_string("b"), Ok(()));
    assert_eq!(vm.push_string("c"), Ok(()));
    vm.pop(0);
    assert_eq!(vm.depth(), 3);
    vm.pop(2);
    assert_eq!(vm.depth(), 1);
    match vm.read_stack(1) {
        Ok(Object::String(s)) => assert_eq!(s.as_str(), "a"),
        other => panic!("unexpected read: {:?}", other),
    }
}

#[test]
fn positions_count_from_either_end() {
    let mut vm = Vm::new(1024);
    assert_eq!(vm.push_string("bottom"), Ok(()));
    assert_eq!(vm.push_string("top"), Ok(()));
    let bottom_by_1 = vm.read_stack(1);
    let bottom_by_neg = vm.read_stack(-2);
    assert_eq!(bottom_by_1, bottom_by_neg);
    let top_by_2 = vm.read_stack(2);
    let top_by_neg = vm.read_stack(-1);
    assert_eq!(top_by_2, top_by_neg);
    match top_by_neg {
        Ok(Object::String(s)) => assert_eq!(s.as_str(), "top"),
        other => panic!("unexpected read: {:?}", other),
    }
    // duplicating from a negative position
    vm.push(-2);
    assert_eq!(vm.depth(), 3);
    match vm.read_stack(3) {
        Ok(Object::String(s)) => assert_eq!(s.as_str(), "bottom"),
        other => panic!("unexpected read: {:?}", other),
    }
}

#[test]
fn stringified_error_value_round_trips_through_the_handler() {
    let mut vm = Vm::new(1024);
    assert_eq!(vm.push_string("callable"), Ok(()));
    assert_eq!(vm.push_string("the error text"), Ok(()));
    vm.exception_handler(StringifyOutcome::Text(String::from("the error text")));
    assert_eq!(
        vm.call(1, CallOutcome::Failed),
        Err(Error::Exception(String::from("the error text")))
    );
}

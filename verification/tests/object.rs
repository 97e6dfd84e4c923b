use squirrel::object::{
    convert_object, OT_ARRAY, OT_BOOL, OT_CLASS, OT_CLOSURE, OT_FLOAT, OT_FUNCPROTO, OT_GENERATOR,
    OT_INSTANCE, OT_INTEGER, OT_NATIVECLOSURE, OT_NULL, OT_OUTER, OT_STRING, OT_TABLE, OT_THREAD,
    OT_USERDATA, OT_USERPOINTER, OT_WEAKREF,
};
use squirrel::{Error, Object, Payload, RawSlot};

fn slot(tag: u32, payload: Payload) -> RawSlot {
    RawSlot { tag, payload }
}

#[test]
fn payload_bearing_kinds_convert() {
    assert_eq!(
        convert_object(&slot(OT_BOOL, Payload::Bool(true)), 1),
        Ok(Object::Bool(true))
    );
    assert_eq!(
        convert_object(&slot(OT_INTEGER, Payload::Integer(-7)), 1),
        Ok(Object::Integer(-7))
    );
    let bits = 1.5f32.to_bits();
    assert_eq!(
        convert_object(&slot(OT_FLOAT, Payload::Float(bits)), 1),
        Ok(Object::Float(bits))
    );
    match convert_object(&slot(OT_STRING, Payload::Text(String::from("hi"))), 1) {
        Ok(Object::String(s)) => assert_eq!(s.as_str(), "hi"),
        other => panic!("unexpected conversion: {:?}", other),
    }
    assert_eq!(
        convert_object(&slot(OT_USERPOINTER, Payload::Pointer(0x1000)), 1),
        Ok(Object::UserPointer(0x1000))
    );
    assert_eq!(
        convert_object(&slot(OT_USERDATA, Payload::Data { p: 8, typetag: 9 }), 1),
        Ok(Object::UserData { p: 8, typetag: 9 })
    );
}

#[test]
fn payload_free_kinds_convert_to_markers() {
    let cases = [
        (OT_NULL, Object::Null),
        (OT_TABLE, Object::Table),
        (OT_ARRAY, Object::Array),
        (OT_CLOSURE, Object::Closure),
        (OT_NATIVECLOSURE, Object::NativeClosure),
        (OT_GENERATOR, Object::Generator),
        (OT_THREAD, Object::Thread),
        (OT_FUNCPROTO, Object::FuncProto),
        (OT_CLASS, Object::Class),
        (OT_INSTANCE, Object::Instance),
        (OT_WEAKREF, Object::WeakRef),
        (OT_OUTER, Object::Outer),
    ];
    for (tag, expected) in cases {
        assert_eq!(convert_object(&slot(tag, Payload::Missing), 1), Ok(expected));
    }
}

#[test]
fn getter_sentinel_becomes_vm_error() {
    assert_eq!(
        convert_object(&slot(OT_BOOL, Payload::Missing), 1),
        Err(Error::Vm)
    );
    assert_eq!(
        convert_object(&slot(OT_INTEGER, Payload::Missing), -1),
        Err(Error::Vm)
    );
    assert_eq!(
        convert_object(&slot(OT_STRING, Payload::Missing), 2),
        Err(Error::Vm)
    );
    assert_eq!(
        convert_object(&slot(OT_FLOAT, Payload::Bool(false)), 2),
        Err(Error::Vm)
    );
}

#[test]
fn unknown_tag_is_named_in_the_diagnostic() {
    match convert_object(&slot(0xdead, Payload::Missing), -1) {
        Err(Error::Str(msg)) => assert_eq!(
            msg.as_str(),
            "VM stack contains an unknown type 0xdead at offset -1"
        ),
        other => panic!("unexpected conversion: {:?}", other),
    }
}

#[test]
fn duplicate_copies_the_record() {
    let s = slot(OT_STRING, Payload::Text(String::from("abc")));
    let d = s.duplicate();
    assert_eq!(s, d);
}

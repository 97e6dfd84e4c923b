//! The tagged value model: a read-only snapshot of one engine stack slot.
//!
//! The engine reports a raw type tag for every slot and hands payloads out
//! through per-kind typed getters. [`RawSlot`] is this layer's record of what
//! those primitives deliver for one slot; [`convert_object`] is the dispatch
//! that turns it into a typed [`Object`], translating a getter's failure
//! sentinel to [`Error::Vm`] and an unrecognized tag to a named diagnostic.

use vstd::prelude::*;

use crate::error::{Error, ErrorModel};
use crate::text::{unknown_tag_message, unknown_tag_text};

verus! {

/// Raw type tag the engine reports for a null slot.
pub const OT_NULL: u32 = 0x0100_0001;

/// Raw type tag for an integer slot.
pub const OT_INTEGER: u32 = 0x0500_0002;

/// Raw type tag for a float slot.
pub const OT_FLOAT: u32 = 0x0500_0004;

/// Raw type tag for a boolean slot.
pub const OT_BOOL: u32 = 0x0100_0008;

/// Raw type tag for a string slot.
pub const OT_STRING: u32 = 0x0800_0010;

/// Raw type tag for a table slot.
pub const OT_TABLE: u32 = 0x0A00_0020;

/// Raw type tag for an array slot.
pub const OT_ARRAY: u32 = 0x0800_0040;

/// Raw type tag for a user-data slot.
pub const OT_USERDATA: u32 = 0x0A00_0080;

/// Raw type tag for a script-closure slot.
pub const OT_CLOSURE: u32 = 0x0800_0100;

/// Raw type tag for a native-closure slot.
pub const OT_NATIVECLOSURE: u32 = 0x0800_0200;

/// Raw type tag for a generator slot.
pub const OT_GENERATOR: u32 = 0x0800_0400;

/// Raw type tag for a user-pointer slot.
pub const OT_USERPOINTER: u32 = 0x0000_0800;

/// Raw type tag for a thread slot.
pub const OT_THREAD: u32 = 0x0800_1000;

/// Raw type tag for a function-prototype slot.
pub const OT_FUNCPROTO: u32 = 0x0800_2000;

/// Raw type tag for a class slot.
pub const OT_CLASS: u32 = 0x0800_4000;

/// Raw type tag for a class-instance slot.
pub const OT_INSTANCE: u32 = 0x0A00_8000;

/// Raw type tag for a weak-reference slot.
pub const OT_WEAKREF: u32 = 0x0801_0000;

/// Raw type tag for a captured-variable (outer) slot.
pub const OT_OUTER: u32 = 0x0802_0000;

/// What the engine's typed getter delivered for one slot.
///
/// `Missing` stands both for the payload-free kinds (tables, closures and
/// the like, whose contents this layer never reads) and for a getter that
/// reported the engine's generic failure sentinel. Engine floats travel as
/// their raw bit pattern, engine pointers as plain addresses: this layer
/// only carries them through.
#[derive(Debug, PartialEq)]
pub enum Payload {
    Missing,
    Bool(bool),
    Integer(i64),
    Float(u32),
    Text(String),
    Pointer(usize),
    Data { p: usize, typetag: usize },
}

/// The mathematical shape of a [`Payload`].
pub enum PayloadModel {
    Missing,
    Bool(bool),
    Integer(i64),
    Float(u32),
    Text(Seq<char>),
    Pointer(usize),
    Data { p: usize, typetag: usize },
}

impl View for Payload {
    type V = PayloadModel;

    open spec fn view(&self) -> PayloadModel {
        match self {
            Payload::Missing => PayloadModel::Missing,
            Payload::Bool(b) => PayloadModel::Bool(*b),
            Payload::Integer(v) => PayloadModel::Integer(*v),
            Payload::Float(bits) => PayloadModel::Float(*bits),
            Payload::Text(s) => PayloadModel::Text(s@),
            Payload::Pointer(p) => PayloadModel::Pointer(*p),
            Payload::Data { p, typetag } => (PayloadModel::Data { p: *p, typetag: *typetag }),
        }
    }
}

/// One engine stack slot as the engine's primitives present it: the raw type
/// tag and whatever the matching typed getter delivered.
#[derive(Debug, PartialEq)]
pub struct RawSlot {
    pub tag: u32,
    pub payload: Payload,
}

/// The mathematical shape of a [`RawSlot`].
pub struct SlotModel {
    pub tag: u32,
    pub payload: PayloadModel,
}

impl View for RawSlot {
    type V = SlotModel;

    open spec fn view(&self) -> SlotModel {
        SlotModel { tag: self.tag, payload: self.payload@ }
    }
}

impl RawSlot {
    /// An exact copy of the slot record.
    pub fn duplicate(&self) -> (r: RawSlot)
        ensures
            r@ == self@,
    {
        let payload = match &self.payload {
            Payload::Missing => Payload::Missing,
            Payload::Bool(b) => Payload::Bool(*b),
            Payload::Integer(v) => Payload::Integer(*v),
            Payload::Float(bits) => Payload::Float(*bits),
            Payload::Text(s) => Payload::Text(s.clone()),
            Payload::Pointer(p) => Payload::Pointer(*p),
            Payload::Data { p, typetag } => Payload::Data { p: *p, typetag: *typetag },
        };
        RawSlot { tag: self.tag, payload }
    }
}

/// The slot the engine presents for a freshly pushed host string `s`.
pub open spec fn string_slot(s: Seq<char>) -> SlotModel {
    SlotModel { tag: OT_STRING, payload: PayloadModel::Text(s) }
}

/// The slot the engine presents for a payload-free value of kind `tag`.
pub open spec fn marker_slot(tag: u32) -> SlotModel {
    SlotModel { tag: tag, payload: PayloadModel::Missing }
}

/// A typed host value read out of one engine stack slot.
///
/// The payload-free variants are structural markers: inspecting their
/// contents takes further stack-relative operations outside this layer.
#[derive(Debug, PartialEq)]
pub enum Object {
    Array,
    Bool(bool),
    Class,
    Closure,
    Float(u32),
    FuncProto,
    Generator,
    Instance,
    Integer(i64),
    NativeClosure,
    Null,
    Outer,
    String(String),
    Table,
    Thread,
    UserData { p: usize, typetag: usize },
    UserPointer(usize),
    WeakRef,
}

/// The mathematical shape of an [`Object`].
pub enum ObjectModel {
    Array,
    Bool(bool),
    Class,
    Closure,
    Float(u32),
    FuncProto,
    Generator,
    Instance,
    Integer(i64),
    NativeClosure,
    Null,
    Outer,
    String(Seq<char>),
    Table,
    Thread,
    UserData { p: usize, typetag: usize },
    UserPointer(usize),
    WeakRef,
}

impl View for Object {
    type V = ObjectModel;

    open spec fn view(&self) -> ObjectModel {
        match self {
            Object::Array => ObjectModel::Array,
            Object::Bool(b) => ObjectModel::Bool(*b),
            Object::Class => ObjectModel::Class,
            Object::Closure => ObjectModel::Closure,
            Object::Float(bits) => ObjectModel::Float(*bits),
            Object::FuncProto => ObjectModel::FuncProto,
            Object::Generator => ObjectModel::Generator,
            Object::Instance => ObjectModel::Instance,
            Object::Integer(v) => ObjectModel::Integer(*v),
            Object::NativeClosure => ObjectModel::NativeClosure,
            Object::Null => ObjectModel::Null,
            Object::Outer => ObjectModel::Outer,
            Object::String(s) => ObjectModel::String(s@),
            Object::Table => ObjectModel::Table,
            Object::Thread => ObjectModel::Thread,
            Object::UserData { p, typetag } => (ObjectModel::UserData { p: *p, typetag: *typetag }),
            Object::UserPointer(p) => ObjectModel::UserPointer(*p),
            Object::WeakRef => ObjectModel::WeakRef,
        }
    }
}

/// The model of a conversion result.
pub open spec fn object_result_model(r: Result<Object, Error>) -> Result<ObjectModel, ErrorModel> {
    match r {
        Ok(o) => Ok(o@),
        Err(e) => Err(e@),
    }
}

/// What converting the slot `slot`, addressed by the caller as stack
/// position `idx`, must yield: the typed value for a recognized tag whose
/// getter delivered its payload, [`ErrorModel::Vm`] for a recognized
/// payload-bearing tag whose getter reported the failure sentinel, and a
/// diagnostic naming the tag otherwise.
pub open spec fn convert_model(slot: SlotModel, idx: int) -> Result<ObjectModel, ErrorModel> {
    if slot.tag == OT_ARRAY {
        Ok(ObjectModel::Array)
    } else if slot.tag == OT_BOOL {
        match slot.payload {
            PayloadModel::Bool(b) => Ok(ObjectModel::Bool(b)),
            _ => Err(ErrorModel::Vm),
        }
    } else if slot.tag == OT_CLASS {
        Ok(ObjectModel::Class)
    } else if slot.tag == OT_CLOSURE {
        Ok(ObjectModel::Closure)
    } else if slot.tag == OT_FLOAT {
        match slot.payload {
            PayloadModel::Float(bits) => Ok(ObjectModel::Float(bits)),
            _ => Err(ErrorModel::Vm),
        }
    } else if slot.tag == OT_FUNCPROTO {
        Ok(ObjectModel::FuncProto)
    } else if slot.tag == OT_GENERATOR {
        Ok(ObjectModel::Generator)
    } else if slot.tag == OT_INSTANCE {
        Ok(ObjectModel::Instance)
    } else if slot.tag == OT_INTEGER {
        match slot.payload {
            PayloadModel::Integer(v) => Ok(ObjectModel::Integer(v)),
            _ => Err(ErrorModel::Vm),
        }
    } else if slot.tag == OT_NATIVECLOSURE {
        Ok(ObjectModel::NativeClosure)
    } else if slot.tag == OT_NULL {
        Ok(ObjectModel::Null)
    } else if slot.tag == OT_OUTER {
        Ok(ObjectModel::Outer)
    } else if slot.tag == OT_STRING {
        match slot.payload {
            PayloadModel::Text(s) => Ok(ObjectModel::String(s)),
            _ => Err(ErrorModel::Vm),
        }
    } else if slot.tag == OT_TABLE {
        Ok(ObjectModel::Table)
    } else if slot.tag == OT_THREAD {
        Ok(ObjectModel::Thread)
    } else if slot.tag == OT_USERDATA {
        match slot.payload {
            PayloadModel::Data { p, typetag } => Ok(ObjectModel::UserData { p, typetag }),
            _ => Err(ErrorModel::Vm),
        }
    } else if slot.tag == OT_USERPOINTER {
        match slot.payload {
            PayloadModel::Pointer(p) => Ok(ObjectModel::UserPointer(p)),
            _ => Err(ErrorModel::Vm),
        }
    } else if slot.tag == OT_WEAKREF {
        Ok(ObjectModel::WeakRef)
    } else {
        Err(ErrorModel::Str(unknown_tag_message(slot.tag, idx)))
    }
}

/// Convert the slot record `slot`, addressed by the caller as stack position
/// `idx`, into a typed value.
///
/// A payload-bearing tag whose getter did not deliver its payload is the
/// engine's generic failure sentinel and yields [`Error::Vm`]; a tag outside
/// the handled set yields a diagnostic naming it, as a forward-compatibility
/// guard.
pub fn convert_object(slot: &RawSlot, idx: i64) -> (r: Result<Object, Error>)
    ensures
        object_result_model(r) == convert_model(slot@, idx as int),
{
    let tag = slot.tag;
    if tag == OT_ARRAY {
        Ok(Object::Array)
    } else if tag == OT_BOOL {
        match &slot.payload {
            Payload::Bool(b) => Ok(Object::Bool(*b)),
            _ => Err(Error::Vm),
        }
    } else if tag == OT_CLASS {
        Ok(Object::Class)
    } else if tag == OT_CLOSURE {
        Ok(Object::Closure)
    } else if tag == OT_FLOAT {
        match &slot.payload {
            Payload::Float(bits) => Ok(Object::Float(*bits)),
            _ => Err(Error::Vm),
        }
    } else if tag == OT_FUNCPROTO {
        Ok(Object::FuncProto)
    } else if tag == OT_GENERATOR {
        Ok(Object::Generator)
    } else if tag == OT_INSTANCE {
        Ok(Object::Instance)
    } else if tag == OT_INTEGER {
        match &slot.payload {
            Payload::Integer(v) => Ok(Object::Integer(*v)),
            _ => Err(Error::Vm),
        }
    } else if tag == OT_NATIVECLOSURE {
        Ok(Object::NativeClosure)
    } else if tag == OT_NULL {
        Ok(Object::Null)
    } else if tag == OT_OUTER {
        Ok(Object::Outer)
    } else if tag == OT_STRING {
        match &slot.payload {
            Payload::Text(s) => Ok(Object::String(s.clone())),
            _ => Err(Error::Vm),
        }
    } else if tag == OT_TABLE {
        Ok(Object::Table)
    } else if tag == OT_THREAD {
        Ok(Object::Thread)
    } else if tag == OT_USERDATA {
        match &slot.payload {
            Payload::Data { p, typetag } => Ok(Object::UserData { p: *p, typetag: *typetag }),
            _ => Err(Error::Vm),
        }
    } else if tag == OT_USERPOINTER {
        match &slot.payload {
            Payload::Pointer(p) => Ok(Object::UserPointer(*p)),
            _ => Err(Error::Vm),
        }
    } else if tag == OT_WEAKREF {
        Ok(Object::WeakRef)
    } else {
        Err(Error::Str(unknown_tag_text(tag, idx)))
    }
}

} // verus!

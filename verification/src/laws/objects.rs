//! Laws about classes and their slots.
use crate::attributes::str_text;
use crate::context::{
    builtin_class, builtin_mro, initial_heap, initial_object, spec_builtin_base, BUILTIN_CLASSES,
    PyContext,
};
use crate::errors::message_made;
use crate::laws::steps::extends;
use crate::lifecycle::fresh_heap;
use crate::object::{
    class_of, dict_of, is_subclass, payload_of, slot_in_mro, slot_of, spec_object_type, type_at,
    ObjectView, PayloadView, PyObjectRef, PyTypeRef, SlotKind,
};
use vstd::prelude::*;

verus! {

/// Whether `object` fills a slot, so that every class that derives from it has it.
pub open spec fn every_object_has(kind: SlotKind) -> bool {
    kind is GetAttro || kind is Compare || kind is Hash
}

proof fn slot_is_found(h: Seq<ObjectView>, mro: Seq<PyTypeRef>, cls: PyTypeRef, kind: SlotKind)
    requires
        mro.contains(cls),
        type_at(h, cls).slots.spec_get(kind) is Some,
    ensures
        slot_in_mro(h, mro, kind) is Some,
    decreases mro.len(),
{
    if mro[0] != cls {
        let i = choose|i: int| 0 <= i < mro.len() && mro[i] == cls;
        assert(mro.drop_first()[i - 1] == cls);
        slot_is_found(h, mro.drop_first(), cls, kind);
    }
}

/// An object whose class derives from `object` has the slots for attribute access,
/// comparison and hashing.
pub proof fn no_slot_is_missing(h: Seq<ObjectView>, obj: PyObjectRef, kind: SlotKind)
    requires
        h.len() > 0,
        h[0] == initial_object(0),
        is_subclass(h, class_of(h, obj), spec_object_type()),
        every_object_has(kind),
    ensures
        slot_of(h, obj, kind) is Some,
{
    let object = spec_object_type();
    let mro = type_at(h, class_of(h, obj)).mro;
    assert(builtin_mro(0)[0] == object);
    assert(mro.contains(object));
    slot_is_found(h, mro, object, kind);
}

proof fn builtin_derives_from_object(i: int)
    ensures
        builtin_mro(i).contains(spec_object_type()),
    decreases i,
{
    if i <= 0 {
        assert(builtin_mro(i)[0] == spec_object_type());
    } else {
        let base = builtin_mro(spec_builtin_base(i));
        builtin_derives_from_object(spec_builtin_base(i));
        let j = choose|j: int| 0 <= j < base.len() && base[j] == spec_object_type();
        assert(builtin_mro(i)[j + 1] == spec_object_type());
    }
}

/// A built-in class derives from its base and from `object`.
pub proof fn builtin_classes_inherit(i: int)
    requires
        0 < i < BUILTIN_CLASSES,
    ensures
        is_subclass(
            initial_heap(),
            PyObjectRef { id: i as usize },
            PyObjectRef { id: spec_builtin_base(i) as usize },
        ),
        is_subclass(initial_heap(), PyObjectRef { id: i as usize }, spec_object_type()),
{
    builtin_derives_from_object(i);
    let base = spec_builtin_base(i);
    assert(initial_heap()[i] == builtin_class(i));
    assert(builtin_mro(base)[0] == PyObjectRef { id: base as usize });
    assert(builtin_mro(i)[1] == PyObjectRef { id: base as usize });
}

/// In a new machine no object lacks the slots that every object has.
pub proof fn new_machine_misses_no_slot(obj: PyObjectRef, kind: SlotKind)
    requires
        every_object_has(kind),
    ensures
        slot_of(fresh_heap(), obj, kind) is Some,
{
    let h = fresh_heap();
    let cls = class_of(h, obj);
    assert(h[0] == initial_object(0));
    assert(h.len() == 45);
    assert(forall|i: int| 0 <= i < 41 ==> #[trigger] h[i] == initial_object(i));
    assert(cls.id < BUILTIN_CLASSES);
    assert(h[cls.id as int] == builtin_class(cls.id as int));
    builtin_derives_from_object(cls.id as int);
    no_slot_is_missing(h, obj, kind);
}

/// A new exception is an instance of its type, with a dictionary of its own and the
/// message as its only argument. The objects that were there before stay as they are.
pub proof fn exception_carries_its_message(
    ctx: PyContext,
    h: Seq<ObjectView>,
    exc_type: PyTypeRef,
    msg: Seq<char>,
)
    requires
        h.len() + 2 <= usize::MAX,
    ensures
        ({
            let (after, exc) = message_made(ctx, h, exc_type, msg);
            &&& class_of(after, exc) == exc_type
            &&& dict_of(after, exc) is Some
            &&& payload_of(after, exc) matches PayloadView::Exception(args) && args.len() == 1
                && str_text(after, args[0]) == msg
            &&& extends(after, h)
        }),
{
}

} // verus!

//! Where the attributes and slots of a class come from, and what the built-in classes
//! are.
use crate::context::{builtin_class, initial_context, initial_heap, initial_object, PyContext};
use crate::errors::exception_made;
use crate::laws::objects::builtin_classes_inherit;
use crate::laws::steps::extends;
use crate::object::{
    attribute_in, attribute_in_mro, class_attr, class_of, dict_of, is_subclass, payload_of,
    slot_in_mro, slot_of, type_at, type_attr, ObjectView, PayloadView, PyObjectRef, PyTypeRef,
    PyTypeSlots, SlotKind,
};
use vstd::prelude::*;

verus! {

/// The value of a name in a class dictionary is that of its first entry.
pub proof fn first_entry_counts(attributes: Seq<(Seq<char>, PyObjectRef)>, name: Seq<char>)
    ensures
        match attribute_in(attributes, name) {
            Some(value) => exists|i: int|
                0 <= i < attributes.len() && #[trigger] attributes[i] == (name, value) && forall|
                    j: int,
                |
                    0 <= j < i ==> (#[trigger] attributes[j]).0 != name,
            None => forall|i: int|
                0 <= i < attributes.len() ==> (#[trigger] attributes[i]).0 != name,
        },
    decreases attributes.len(),
{
    if attributes.len() > 0 && attributes[0].0 != name {
        let rest = attributes.drop_first();
        first_entry_counts(rest, name);
        assert(forall|i: int| 0 <= i < rest.len() ==> #[trigger] attributes[i + 1] == rest[i]);
        match attribute_in(rest, name) {
            Some(value) => {
                let i = choose|i: int|
                    0 <= i < rest.len() && #[trigger] rest[i] == (name, value) && forall|j: int|
                        0 <= j < i ==> (#[trigger] rest[j]).0 != name;
                assert(attributes[i + 1] == (name, value));
                assert forall|j: int| 0 <= j < i + 1 implies (#[trigger] attributes[j]).0
                    != name by {
                    if j > 0 {
                        assert(rest[j - 1].0 != name);
                    }
                }
            },
            None => {
                assert forall|i: int| 0 <= i < attributes.len() implies (
                #[trigger] attributes[i]).0 != name by {
                    if i > 0 {
                        assert(rest[i - 1].0 != name);
                    }
                }
            },
        }
    } else if attributes.len() > 0 {
        assert(attributes[0] == (name, attributes[0].1));
    }
}

/// What a class dictionary has under a name.
pub open spec fn own_attribute(h: Seq<ObjectView>, cls: PyTypeRef, name: Seq<char>) -> Option<
    PyObjectRef,
> {
    attribute_in(type_at(h, cls).attributes, name)
}

proof fn nearest_attribute(h: Seq<ObjectView>, mro: Seq<PyTypeRef>, name: Seq<char>)
    ensures
        match attribute_in_mro(h, mro, name) {
            Some(value) => exists|i: int|
                0 <= i < mro.len() && own_attribute(h, #[trigger] mro[i], name) == Some(value)
                    && forall|j: int|
                    0 <= j < i ==> own_attribute(h, #[trigger] mro[j], name) is None,
            None => forall|i: int|
                0 <= i < mro.len() ==> own_attribute(h, #[trigger] mro[i], name) is None,
        },
    decreases mro.len(),
{
    if mro.len() > 0 && own_attribute(h, mro[0], name) is None {
        let rest = mro.drop_first();
        nearest_attribute(h, rest, name);
        match attribute_in_mro(h, rest, name) {
            Some(value) => {
                let i = choose|i: int|
                    0 <= i < rest.len() && own_attribute(h, #[trigger] rest[i], name) == Some(
                        value,
                    ) && forall|j: int|
                        0 <= j < i ==> own_attribute(h, #[trigger] rest[j], name) is None;
                assert(mro[i + 1] == rest[i]);
                assert forall|j: int| 0 <= j < i + 1 implies own_attribute(
                    h,
                    #[trigger] mro[j],
                    name,
                ) is None by {
                    if j > 0 {
                        assert(rest[j - 1] == mro[j]);
                    }
                }
            },
            None => {
                assert forall|i: int| 0 <= i < mro.len() implies own_attribute(
                    h,
                    #[trigger] mro[i],
                    name,
                ) is None by {
                    if i > 0 {
                        assert(rest[i - 1] == mro[i]);
                    }
                }
            },
        }
    }
}

/// An object has the attribute of the first class in the resolution order of its class
/// that has one of that name.
pub proof fn nearest_class_has_the_attribute(
    h: Seq<ObjectView>,
    obj: PyObjectRef,
    name: Seq<char>,
)
    ensures
        ({
            let mro = type_at(h, class_of(h, obj)).mro;
            match class_attr(h, obj, name) {
                Some(value) => exists|i: int|
                    0 <= i < mro.len() && own_attribute(h, #[trigger] mro[i], name) == Some(value)
                        && forall|j: int|
                        0 <= j < i ==> own_attribute(h, #[trigger] mro[j], name) is None,
                None => forall|i: int|
                    0 <= i < mro.len() ==> own_attribute(h, #[trigger] mro[i], name) is None,
            }
        }),
        class_attr(h, obj, name) == type_attr(h, class_of(h, obj), name),
{
    nearest_attribute(h, type_at(h, class_of(h, obj)).mro, name);
}

proof fn nearest_slot(h: Seq<ObjectView>, mro: Seq<PyTypeRef>, kind: SlotKind)
    ensures
        match slot_in_mro(h, mro, kind) {
            Some(slot) => exists|i: int|
                0 <= i < mro.len() && type_at(h, #[trigger] mro[i]).slots.spec_get(kind) == Some(
                    slot,
                ) && forall|j: int|
                    0 <= j < i ==> type_at(h, #[trigger] mro[j]).slots.spec_get(kind) is None,
            None => forall|i: int|
                0 <= i < mro.len() ==> type_at(h, #[trigger] mro[i]).slots.spec_get(kind) is None,
        },
    decreases mro.len(),
{
    if mro.len() > 0 && type_at(h, mro[0]).slots.spec_get(kind) is None {
        let rest = mro.drop_first();
        nearest_slot(h, rest, kind);
        match slot_in_mro(h, rest, kind) {
            Some(slot) => {
                let i = choose|i: int|
                    0 <= i < rest.len() && type_at(h, #[trigger] rest[i]).slots.spec_get(kind)
                        == Some(slot) && forall|j: int|
                        0 <= j < i ==> type_at(h, #[trigger] rest[j]).slots.spec_get(kind) is None;
                assert(mro[i + 1] == rest[i]);
                assert forall|j: int| 0 <= j < i + 1 implies type_at(
                    h,
                    #[trigger] mro[j],
                ).slots.spec_get(kind) is None by {
                    if j > 0 {
                        assert(rest[j - 1] == mro[j]);
                    }
                }
            },
            None => {
                assert forall|i: int| 0 <= i < mro.len() implies type_at(
                    h,
                    #[trigger] mro[i],
                ).slots.spec_get(kind) is None by {
                    if i > 0 {
                        assert(rest[i - 1] == mro[i]);
                    }
                }
            },
        }
    }
}

/// A slot of an object is that of the first class in the resolution order of its class
/// that fills it.
pub proof fn nearest_class_fills_the_slot(h: Seq<ObjectView>, obj: PyObjectRef, kind: SlotKind)
    ensures
        ({
            let mro = type_at(h, class_of(h, obj)).mro;
            match slot_of(h, obj, kind) {
                Some(slot) => exists|i: int|
                    0 <= i < mro.len() && type_at(h, #[trigger] mro[i]).slots.spec_get(kind)
                        == Some(slot) && forall|j: int|
                        0 <= j < i ==> type_at(h, #[trigger] mro[j]).slots.spec_get(kind) is None,
                None => forall|i: int|
                    0 <= i < mro.len() ==> type_at(h, #[trigger] mro[i]).slots.spec_get(kind)
                        is None,
            }
        }),
{
    nearest_slot(h, type_at(h, class_of(h, obj)).mro, kind);
}

/// Each kind of slot is the field of that name.
pub proof fn slots_are_fields(slots: PyTypeSlots)
    ensures
        slots.spec_get(SlotKind::Call) == slots.call,
        slots.spec_get(SlotKind::DescrGet) == slots.descr_get,
        slots.spec_get(SlotKind::GetAttro) == slots.getattro,
        slots.spec_get(SlotKind::Compare) == slots.compare,
        slots.spec_get(SlotKind::Hash) == slots.hash,
{
}

/// A class is a subclass of itself, of what is in its resolution order, and of nothing
/// else.
pub proof fn subclasses_are_in_the_order(h: Seq<ObjectView>, subclass: PyTypeRef, cls: PyTypeRef)
    ensures
        is_subclass(h, cls, cls),
        subclass != cls ==> (is_subclass(h, subclass, cls) <==> exists|i: int|
            0 <= i < type_at(h, subclass).mro.len() && #[trigger] type_at(h, subclass).mro[i]
                == cls),
{
}

/// What a heap says of an object is what the object holds.
pub proof fn objects_are_read(h: Seq<ObjectView>, obj: PyObjectRef)
    requires
        obj.id < h.len(),
    ensures
        class_of(h, obj) == h[obj.id as int].class,
        dict_of(h, obj) == h[obj.id as int].dict,
        payload_of(h, obj) == h[obj.id as int].payload,
        payload_of(h, obj) matches PayloadView::Type(t) ==> type_at(h, obj) == t,
{
}

/// A new exception is an instance of its type, with the arguments that it is made with
/// and a new dictionary of its own.
pub proof fn exception_has_its_arguments(
    ctx: PyContext,
    h: Seq<ObjectView>,
    exc_type: PyTypeRef,
    args: Seq<PyObjectRef>,
)
    requires
        h.len() + 2 <= usize::MAX,
    ensures
        ({
            let (after, exc) = exception_made(ctx, h, exc_type, args);
            &&& class_of(after, exc) == exc_type
            &&& payload_of(after, exc) == PayloadView::Exception(args)
            &&& dict_of(after, exc) matches Some(dict) && dict.id >= h.len() && class_of(
                after,
                dict,
            ) == ctx.types.dict_type
            &&& exc.id >= h.len()
            &&& extends(after, h)
        }),
{
}

/// The name of a class of a new machine.
pub open spec fn initial_name(cls: PyTypeRef) -> Seq<char> {
    type_at(initial_heap(), cls).name
}

/// The classes that the machine knows are those with these names.
pub proof fn builtin_classes_have_their_names()
    ensures
        ({
            let t = initial_context().types;
            &&& initial_name(t.object_type) == "object"@
            &&& initial_name(t.type_type) == "type"@
            &&& initial_name(t.int_type) == "int"@
            &&& initial_name(t.bool_type) == "bool"@
            &&& initial_name(t.str_type) == "str"@
            &&& initial_name(t.tuple_type) == "tuple"@
            &&& initial_name(t.list_type) == "list"@
            &&& initial_name(t.dict_type) == "dict"@
            &&& initial_name(t.module_type) == "module"@
            &&& initial_name(t.frame_type) == "frame"@
            &&& initial_name(t.code_type) == "code"@
        }),
        ({
            let e = initial_context().exceptions;
            &&& initial_name(e.system_exit) == "SystemExit"@
            &&& initial_name(e.lookup_error) == "LookupError"@
            &&& initial_name(e.index_error) == "IndexError"@
            &&& initial_name(e.key_error) == "KeyError"@
            &&& initial_name(e.attribute_error) == "AttributeError"@
            &&& initial_name(e.type_error) == "TypeError"@
            &&& initial_name(e.name_error) == "NameError"@
            &&& initial_name(e.os_error) == "OSError"@
            &&& initial_name(e.value_error) == "ValueError"@
            &&& initial_name(e.unicode_decode_error) == "UnicodeDecodeError"@
            &&& initial_name(e.unicode_encode_error) == "UnicodeEncodeError"@
            &&& initial_name(e.runtime_error) == "RuntimeError"@
            &&& initial_name(e.not_implemented_error) == "NotImplementedError"@
            &&& initial_name(e.recursion_error) == "RecursionError"@
            &&& initial_name(e.zero_division_error) == "ZeroDivisionError"@
            &&& initial_name(e.overflow_error) == "OverflowError"@
            &&& initial_name(e.syntax_error) == "SyntaxError"@
            &&& initial_name(e.indentation_error) == "IndentationError"@
            &&& initial_name(e.tab_error) == "TabError"@
            &&& initial_name(e.import_error) == "ImportError"@
        }),
{
    assert(forall|i: int| 0 <= i < 37 ==> #[trigger] initial_heap()[i] == builtin_class(i));
}

/// The singletons are objects of their own classes; True and False hold their values.
pub proof fn singletons_are_what_they_are()
    ensures
        ({
            let ctx = initial_context();
            let h = initial_heap();
            &&& class_of(h, ctx.none) == ctx.types.none_type
            &&& class_of(h, ctx.not_implemented) == ctx.types.not_implemented_type
            &&& class_of(h, ctx.true_value) == ctx.types.bool_type
            &&& class_of(h, ctx.false_value) == ctx.types.bool_type
            &&& payload_of(h, ctx.true_value) == PayloadView::Bool(true)
            &&& payload_of(h, ctx.false_value) == PayloadView::Bool(false)
            &&& ctx.none != ctx.not_implemented
        }),
{
    let h = initial_heap();
    assert(forall|i: int| 37 <= i < 41 ==> #[trigger] h[i] == initial_object(i));
}

/// The built-in classes derive from one another as Python has it.
pub proof fn builtin_hierarchy()
    ensures
        ({
            let h = initial_heap();
            let t = initial_context().types;
            let e = initial_context().exceptions;
            &&& is_subclass(h, t.bool_type, t.int_type)
            &&& is_subclass(h, e.index_error, e.lookup_error)
            &&& is_subclass(h, e.key_error, e.lookup_error)
            &&& is_subclass(h, e.not_implemented_error, e.runtime_error)
            &&& is_subclass(h, e.recursion_error, e.runtime_error)
            &&& is_subclass(h, e.indentation_error, e.syntax_error)
            &&& is_subclass(h, e.tab_error, e.indentation_error)
        }),
{
    builtin_classes_inherit(5);
    builtin_classes_inherit(16);
    builtin_classes_inherit(17);
    builtin_classes_inherit(27);
    builtin_classes_inherit(28);
    builtin_classes_inherit(33);
    builtin_classes_inherit(34);
}

} // verus!

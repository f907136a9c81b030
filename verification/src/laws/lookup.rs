//! Where the value of an attribute comes from.
use crate::attributes::{delattr_next, generic_getattr_next, getattr_next, setattr_next, str_text};
use crate::calls::{invoke_next, method_next};
use crate::laws::asked::{begins_binding, begins_method, binding_begins, method_begins};
use crate::machine::{yields, AttributeKont, Kont, Next, StepView, World};
use crate::object::{
    class_attr, class_of, dict_of, slot_of, type_attr, PyDictRef, PyObjectRef, PyStrRef, SlotKind,
};
use crate::protocol::{positional, Request, Value};
use crate::resume::{applies_attribute, apply_attribute};
use crate::runs::{
    asks_for, drive, followed, run_goes_on, run_of_last_request, run_of_one_request, Reply,
};
use vstd::prelude::*;

verus! {

broadcast use crate::runs::run_stops, crate::runs::span_stops;

/// A class attribute whose class has no `__set__`, or that cannot be bound, does not
/// hide the instance dictionary: that is asked first, and a value in it is the result,
/// also where the class attribute is a function or has another `__get__`.
pub proof fn instance_shadows_the_class(
    w: World,
    obj: PyObjectRef,
    name: PyStrRef,
    given: Option<PyDictRef>,
    dict: PyDictRef,
    reply: Reply,
)
    requires
        type_attr(w.heap, class_of(w.heap, obj), str_text(w.heap, name)) matches Some(attr)
            ==> class_attr(w.heap, attr, "__set__"@) is None || slot_of(
            w.heap,
            attr,
            SlotKind::DescrGet,
        ) is None,
        given == Some(dict) || given is None && dict_of(w.heap, obj) == Some(dict),
    ensures
        ({
            let n = generic_getattr_next(w, obj, name, given);
            &&& n.world == w
            &&& asks_for(n, Request::DictGet { dict, key: str_text(w.heap, name) })
            &&& reply.outcome is Err || reply.outcome->Ok_0 is Object ==> drive(n, seq![reply])
                == (Next { world: reply.world, step: StepView::Done(reply.outcome) })
        }),
{
    reveal(apply_attribute);
    let cls = class_of(w.heap, obj);
    let cls_attr = type_attr(w.heap, cls, str_text(w.heap, name));
    let k = AttributeKont::GetattrDict { obj, name, cls, cls_attr };
    applies_attribute(k);
    run_of_one_request(
        generic_getattr_next(w, obj, name, given),
        Kont::Attribute(k),
        seq![reply],
    );
    assert(seq![reply].drop_first() =~= Seq::empty());
}

/// A class attribute that can be bound and whose class has `__set__` hides the instance
/// dictionary: it is bound to the object, and what that gives is the result.
pub proof fn data_descriptor_hides_the_instance(
    w: World,
    obj: PyObjectRef,
    name: PyStrRef,
    given: Option<PyDictRef>,
    attr: PyObjectRef,
    reply: Reply,
)
    requires
        type_attr(w.heap, class_of(w.heap, obj), str_text(w.heap, name)) == Some(attr),
        class_attr(w.heap, attr, "__set__"@) is Some,
        slot_of(w.heap, attr, SlotKind::DescrGet) is Some,
    ensures
        begins_binding(generic_getattr_next(w, obj, name, given), w, attr, obj),
        drive(generic_getattr_next(w, obj, name, given), seq![reply]) == (Next {
            world: reply.world,
            step: StepView::Done(reply.outcome),
        }),
{
    binding_begins(w, attr, obj, reply);
}

/// Whether an operation takes an attribute from the class of an object: what the class
/// has is bound to the object; where it has nothing, its `__getattr__` is called with
/// the object and the name; without that the attribute is missing.
pub open spec fn comes_from_class(
    n: Next,
    w: World,
    obj: PyObjectRef,
    name: PyStrRef,
    attr: Option<PyObjectRef>,
    getter: Option<PyObjectRef>,
) -> bool {
    match attr {
        Some(attr) => begins_binding(n, w, attr, obj),
        None => match getter {
            Some(getter) => n == invoke_next(w, getter, positional(seq![obj, name])),
            None => n == yields(w, Value::Missing),
        },
    }
}

/// What the instance does not have, because it has no dictionary or because there is
/// nothing in it, comes from the class.
pub proof fn class_comes_last(w: World, obj: PyObjectRef, name: PyStrRef, world: World)
    requires
        type_attr(w.heap, class_of(w.heap, obj), str_text(w.heap, name)) matches Some(attr)
            ==> class_attr(w.heap, attr, "__set__"@) is None || slot_of(
            w.heap,
            attr,
            SlotKind::DescrGet,
        ) is None,
    ensures
        ({
            let n = generic_getattr_next(w, obj, name, None);
            let missing = Reply { world, outcome: Ok(Value::Missing) };
            let cls = class_of(w.heap, obj);
            let attr = type_attr(w.heap, cls, str_text(w.heap, name));
            if dict_of(w.heap, obj) is None {
                comes_from_class(n, w, obj, name, attr, type_attr(w.heap, cls, "__getattr__"@))
            } else {
                comes_from_class(
                    drive(n, seq![missing]),
                    world,
                    obj,
                    name,
                    attr,
                    type_attr(world.heap, cls, "__getattr__"@),
                )
            }
        }),
{
    let missing = Reply { world, outcome: Ok(Value::Missing) };
    let cls = class_of(w.heap, obj);
    let cls_attr = type_attr(w.heap, cls, str_text(w.heap, name));
    if cls_attr is Some {
        binding_begins(w, cls_attr->0, obj, missing);
        binding_begins(world, cls_attr->0, obj, missing);
    }
    if dict_of(w.heap, obj) is Some {
        reveal(apply_attribute);
        let k = AttributeKont::GetattrDict { obj, name, cls, cls_attr };
        applies_attribute(k);
        run_of_one_request(
            generic_getattr_next(w, obj, name, None),
            Kont::Attribute(k),
            seq![missing],
        );
        assert(seq![missing].drop_first() =~= Seq::empty());
    }
}

/// Full access is the slot of the class, asked for that object and that name; what it
/// gives is the result.
pub proof fn access_is_up_to_the_slot(w: World, obj: PyObjectRef, name: PyStrRef, reply: Reply)
    ensures
        match slot_of(w.heap, obj, SlotKind::GetAttro) {
            Some(slot) => {
                let n = getattr_next(w, obj, name);
                &&& n.world == w
                &&& asks_for(n, Request::GetAttr { slot, obj, name })
                &&& drive(n, seq![reply]) == (Next {
                    world: reply.world,
                    step: StepView::Done(reply.outcome),
                })
            },
            None => getattr_next(w, obj, name).step is Panic,
        },
{
    if slot_of(w.heap, obj, SlotKind::GetAttro) is Some {
        run_of_last_request(getattr_next(w, obj, name), seq![reply]);
    }
}

/// An attribute is set by `__setattr__` of the class of the object, with the name and
/// the value. It is deleted by `__delattr__`, with the name; what that returns is
/// forgotten, and what it raises is raised.
pub proof fn methods_set_and_delete(
    w: World,
    obj: PyObjectRef,
    name: PyStrRef,
    value: PyObjectRef,
    replies: Seq<Reply>,
)
    ensures
        begins_method(
            setattr_next(w, obj, name, value),
            w,
            obj,
            "__setattr__"@,
            positional(seq![name, value]),
        ),
        ({
            let call = method_next(w, obj, "__delattr__"@, positional(seq![name]));
            let m = drive(call, replies);
            let end = drive(delattr_next(w, obj, name), replies);
            &&& begins_method(call, w, obj, "__delattr__"@, positional(seq![name]))
            &&& end.world == m.world
            &&& match m.step {
                StepView::Done(Ok(_)) => end == yields(m.world, Value::Unit),
                StepView::Done(Err(_)) => end == m,
                _ => true,
            }
        }),
{
    reveal(apply_attribute);
    let call = method_next(w, obj, "__delattr__"@, positional(seq![name]));
    let k: crate::machine::KontView = Kont::Attribute(AttributeKont::Discard);
    method_begins(w, obj, "__setattr__"@, positional(seq![name, value]), replies);
    method_begins(w, obj, "__delattr__"@, positional(seq![name]), replies);
    applies_attribute(AttributeKont::Discard);
    assert(delattr_next(w, obj, name) == followed(call, k));
    run_goes_on(call, k, replies);
}

} // verus!

//! What calls, bindings and exceptions are, in terms of what the host is asked for and
//! of what is on the heap.
use crate::attributes::get_method_next;
use crate::calls::{
    bind_attr_next, bind_next, descriptor_next, invoke_next, method_next, trace_next,
};
use crate::errors::{operand_message, raises_message};
use crate::laws::calls::is_traced;
use crate::laws::steps::extends;
use crate::machine::{raises, yields, CallKont, Kont, Next, StepView, World};
use crate::object::{
    class_attr, class_of, dict_of, payload_of, slot_of, type_at, ObjectView, PayloadView,
    PyObjectRef, PyTypeRef, SlotKind,
};
use crate::protocol::{FuncArgsView, Request, Value};
use crate::resume::{applies_call, apply_call};
use crate::runs::{asks_for, drive, run_of_last_request, run_of_one_request, Reply};
use vstd::prelude::*;

verus! {

broadcast use crate::runs::run_stops, crate::runs::span_stops;

/// Whether an object is a string with this text.
pub open spec fn is_text(h: Seq<ObjectView>, obj: PyObjectRef, text: Seq<char>) -> bool {
    payload_of(h, obj) == PayloadView::Str(text)
}

/// Whether an operation raises a new exception of this type with this message as its
/// only argument, and does nothing else.
pub open spec fn raises_new(n: Next, w: World, exc_type: PyTypeRef, msg: Seq<char>) -> bool {
    &&& n.step matches StepView::Done(Err(exc)) && {
        &&& class_of(n.world.heap, exc) == exc_type
        &&& dict_of(n.world.heap, exc) is Some
        &&& payload_of(n.world.heap, exc) matches PayloadView::Exception(args) && args.len() == 1
            && is_text(n.world.heap, args[0], msg)
    }
    &&& n.world.vm == w.vm
    &&& extends(n.world.heap, w.heap)
}

/// Whether there is room on a heap for a few more objects.
pub open spec fn has_room(w: World) -> bool {
    w.heap.len() + 8 <= usize::MAX
}

/// To raise with a message makes an exception of the type with the message.
pub proof fn raising_makes_the_exception(w: World, exc_type: PyTypeRef, msg: Seq<char>)
    requires
        has_room(w),
    ensures
        raises_new(raises_message(w, exc_type, msg), w, exc_type, msg),
{
    reveal(raises_message);
}

/// The message for operands that are not supported names the operator and the classes
/// of the operands, the left one first.
pub proof fn operand_message_names_both(
    h: Seq<ObjectView>,
    a: PyObjectRef,
    b: PyObjectRef,
    op: Seq<char>,
)
    ensures
        operand_message(h, a, b, op) == "Unsupported operand types for '"@ + op + "': '"@
            + type_at(h, class_of(h, a)).name + "' and '"@ + type_at(h, class_of(h, b)).name + "'"@,
{
}

/// Whether an operation begins with the call of `callable` with `args`, as it is while
/// nothing is traced: the call slot of its class is run, on that object and with those
/// arguments. What has no such slot raises a TypeError that names its class.
pub open spec fn begins_call(
    n: Next,
    w: World,
    callable: PyObjectRef,
    args: FuncArgsView,
) -> bool {
    match slot_of(w.heap, callable, SlotKind::Call) {
        Some(slot) => n.world == w && asks_for(n, Request::CallSlot { slot, callable, args }),
        None => has_room(w) ==> raises_new(
            n,
            w,
            w.vm.ctx.exceptions.type_error,
            "'"@ + type_at(w.heap, class_of(w.heap, callable)).name + "' object is not callable"@,
        ),
    }
}

/// Whether an operation begins with the `__get__` slot of `attr`, for `obj` and its
/// class. Without such a slot it comes to `attr` itself.
pub open spec fn begins_binding(n: Next, w: World, attr: PyObjectRef, obj: PyObjectRef) -> bool {
    match slot_of(w.heap, attr, SlotKind::DescrGet) {
        Some(slot) => n.world == w && asks_for(
            n,
            Request::DescrGet {
                slot,
                descr: attr,
                obj: Some(obj),
                cls: Some(class_of(w.heap, obj)),
            },
        ),
        None => n == yields(w, Value::Object(attr)),
    }
}

/// Whether an operation begins with the call of the method that the class of `obj`
/// has under a name: it is bound first if it is a descriptor, and called at once if
/// not. Without such a method a TypeError is raised.
pub open spec fn begins_method(
    n: Next,
    w: World,
    obj: PyObjectRef,
    method: Seq<char>,
    args: FuncArgsView,
) -> bool {
    match class_attr(w.heap, obj, method) {
        None => has_room(w) ==> raises_new(
            n,
            w,
            w.vm.ctx.exceptions.type_error,
            "Unsupported method: "@ + method,
        ),
        Some(func) => match slot_of(w.heap, func, SlotKind::DescrGet) {
            Some(slot) => begins_binding(n, w, func, obj),
            None => !is_traced(w) ==> begins_call(n, w, func, args),
        },
    }
}

/// A call runs the call slot of the object with the arguments.
pub proof fn call_begins(w: World, callable: PyObjectRef, args: FuncArgsView)
    requires
        !is_traced(w),
    ensures
        begins_call(invoke_next(w, callable, args), w, callable, args),
{
    reveal(invoke_next);
    reveal(trace_next);
    if has_room(w) {
        raising_makes_the_exception(
            w,
            w.vm.ctx.exceptions.type_error,
            "'"@ + type_at(w.heap, class_of(w.heap, callable)).name + "' object is not callable"@,
        );
    }
}

/// An attribute is bound to the object and to its class; what is no descriptor stays as
/// it is. What the descriptor gives is the result.
pub proof fn binding_begins(w: World, attr: PyObjectRef, obj: PyObjectRef, reply: Reply)
    ensures
        begins_binding(bind_attr_next(w, attr, obj), w, attr, obj),
        slot_of(w.heap, attr, SlotKind::DescrGet) is Some ==> {
            &&& begins_binding(bind_next(w, attr, obj), w, attr, obj)
            &&& drive(bind_attr_next(w, attr, obj), seq![reply]) == (Next {
                world: reply.world,
                step: StepView::Done(reply.outcome),
            })
        },
        slot_of(w.heap, attr, SlotKind::DescrGet) is None ==> bind_next(w, attr, obj) == yields(
            w,
            Value::Missing,
        ),
{
    if slot_of(w.heap, attr, SlotKind::DescrGet) is Some {
        run_of_last_request(bind_attr_next(w, attr, obj), seq![reply]);
    }
}

/// A descriptor is asked with the object and the class that it is given.
pub proof fn descriptor_is_asked(
    w: World,
    descr: PyObjectRef,
    obj: Option<PyObjectRef>,
    cls: Option<PyObjectRef>,
)
    ensures
        ({
            let n = descriptor_next(w, descr, obj, cls);
            match slot_of(w.heap, descr, SlotKind::DescrGet) {
                Some(slot) => n.world == w && asks_for(
                    n,
                    Request::DescrGet { slot, descr, obj, cls },
                ),
                None => n == yields(w, Value::Missing),
            }
        }),
{
}

/// A method is what the class of the object has under the name, bound to the object.
/// Where the class has nothing, the method is missing.
pub proof fn method_is_bound(w: World, obj: PyObjectRef, name: Seq<char>)
    ensures
        match class_attr(w.heap, obj, name) {
            Some(attr) => begins_binding(get_method_next(w, obj, name), w, attr, obj),
            None => get_method_next(w, obj, name) == yields(w, Value::Missing),
        },
{
}

/// A method call begins with the method of the class; once it is bound, what it was
/// bound to is called with the arguments.
pub proof fn method_begins(
    w: World,
    obj: PyObjectRef,
    method: Seq<char>,
    args: FuncArgsView,
    replies: Seq<Reply>,
)
    ensures
        begins_method(method_next(w, obj, method, args), w, obj, method, args),
        class_attr(w.heap, obj, method) matches Some(func) ==> slot_of(
            w.heap,
            func,
            SlotKind::DescrGet,
        ) is Some && replies.len() > 0 ==> match replies[0].outcome {
            Ok(Value::Object(bound)) => drive(method_next(w, obj, method, args), replies)
                == drive(
                invoke_next(replies[0].world, bound, args),
                replies.drop_first(),
            ),
            Err(e) => drive(method_next(w, obj, method, args), replies) == raises(
                replies[0].world,
                e,
            ),
            _ => drive(method_next(w, obj, method, args), replies).step is Panic,
        },
{
    reveal(method_next);
    match class_attr(w.heap, obj, method) {
        None => {
            if has_room(w) {
                raising_makes_the_exception(
                    w,
                    w.vm.ctx.exceptions.type_error,
                    "Unsupported method: "@ + method,
                );
            }
        },
        Some(func) => {
            if slot_of(w.heap, func, SlotKind::DescrGet) is Some {
                let k = CallKont::InvokeWrapped { args };
                let n = method_next(w, obj, method, args);
                assert(n.step->Ask_1 =~= seq![Kont::Call(k)]);
                if replies.len() > 0 {
                    applies_call(k);
                    reveal(apply_call);
                    run_of_one_request(n, Kont::Call(k), replies);
                }
            } else if !is_traced(w) {
                call_begins(w, func, args);
            }
        },
    }
}

} // verus!

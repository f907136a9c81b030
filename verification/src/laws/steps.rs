//! What every step of an operation keeps.
use crate::attributes::{generic_getattribute_next, getattr_from_class};
use crate::calls::{
    bind_attr_next, invoke_next, method_bound, method_next, trace_called, trace_next, trace_profile,
    untraced_next, with_tracing,
};
use crate::compare::{
    bool_next, compare_default, compare_forwarded, compare_next, compare_reflected, compare_replied,
    compare_reversed, membership_bound, membership_element, object_next, seq_next, seq_strict,
};
use crate::context::str_object;
use crate::errors::raises_message;
use crate::machine::{
    AttributeKont, CallKont, CompareKont, ConvertKont, Next, OperatorKont, StepView, VmView, World,
};
use crate::object::{class_attr, next_ref, type_attr, ObjectView, PyObjectRef, PyStrRef, PyTypeRef};
use crate::operators::{attempt_bound, attempt_result, attempts_next};
use crate::protocol::{
    positional, Attempt, FuncArgsView, OutcomeView, PyComparisonOp, TraceEvent, Unsupported, Value,
};
use crate::resume::{apply_attribute, apply_call, apply_compare, apply_convert, apply_operator};
use vstd::prelude::*;

verus! {

/// Whether a heap holds all the objects of another, unchanged.
pub open spec fn extends(h: Seq<ObjectView>, before: Seq<ObjectView>) -> bool {
    before.len() <= h.len() && forall|i: int| 0 <= i < before.len() ==> #[trigger] h[i] == before[i]
}

/// Whether a step adds objects only, and changes nothing else than the frames,
/// whether tracing is on and whether the machine is initialized.
pub open spec fn keeps(w: World, n: Next) -> bool {
    &&& extends(n.world.heap, w.heap)
    &&& n.world.vm == (VmView {
        frames: n.world.vm.frames,
        use_tracing: n.world.vm.use_tracing,
        initialized: n.world.vm.initialized,
        ..w.vm
    })
}

/// To raise an exception with a message keeps what `keeps` says, and ends the
/// operation.
pub broadcast proof fn raising_keeps(w: World, exc_type: PyTypeRef, msg: Seq<char>)
    ensures
        keeps(w, #[trigger] raises_message(w, exc_type, msg)),
        raises_message(w, exc_type, msg).step is Done,
{
    reveal(raises_message);
}

proof fn untraced_keeps(w: World, callable: PyObjectRef, args: FuncArgsView)
    ensures
        keeps(w, untraced_next(w, callable, args)),
{
    broadcast use raising_keeps;

}

proof fn trace_profile_keeps(w: World, profile_func: PyObjectRef, args: Seq<PyObjectRef>)
    ensures
        keeps(w, trace_profile(w, profile_func, args)),
{
    if profile_func != w.vm.ctx.none {
        untraced_keeps(with_tracing(w, false), profile_func, positional(args));
    }
}

proof fn trace_called_keeps(
    w: World,
    profile_func: PyObjectRef,
    args: Seq<PyObjectRef>,
    o: OutcomeView,
)
    ensures
        keeps(w, trace_called(w, profile_func, args, o)),
{
    if o is Ok {
        trace_profile_keeps(with_tracing(w, true), profile_func, args);
    }
}

/// Tracing keeps what `keeps` says.
pub proof fn trace_keeps(w: World, event: TraceEvent)
    ensures
        keeps(w, trace_next(w, event)),
{
    reveal(trace_next);
    let none = w.vm.ctx.none;
    if w.vm.use_tracing && w.vm.frames.len() > 0 {
        let args = seq![w.vm.frames.last().object, next_ref(w.heap), none];
        let w1 = World { vm: w.vm, heap: w.heap.push(str_object(w.vm.ctx, event.text())) };
        if w.vm.trace_func == none {
            trace_profile_keeps(w1, w.vm.profile_func, args);
        } else {
            let off = with_tracing(w1, false);
            let n = untraced_next(off, w.vm.trace_func, positional(args));
            untraced_keeps(off, w.vm.trace_func, positional(args));
            match n.step {
                StepView::Done(o) => {
                    trace_called_keeps(n.world, w.vm.profile_func, args, o);
                },
                _ => {},
            }
        }
    }
}

/// A call keeps what `keeps` says.
pub proof fn invoke_keeps(w: World, callable: PyObjectRef, args: FuncArgsView)
    ensures
        keeps(w, invoke_next(w, callable, args)),
{
    broadcast use raising_keeps;

    reveal(invoke_next);
    trace_keeps(w, TraceEvent::Call);
}

proof fn method_bound_keeps(w: World, args: FuncArgsView, o: OutcomeView)
    ensures
        keeps(w, method_bound(w, args, o)),
{
    match o {
        Ok(Value::Object(wrapped)) => {
            invoke_keeps(w, wrapped, args);
        },
        _ => {},
    }
}

/// A call of a method keeps what `keeps` says.
pub proof fn method_keeps(w: World, obj: PyObjectRef, name: Seq<char>, args: FuncArgsView)
    ensures
        keeps(w, method_next(w, obj, name, args)),
{
    broadcast use raising_keeps;

    reveal(method_next);
    match class_attr(w.heap, obj, name) {
        None => {},
        Some(func) => {
            let n = bind_attr_next(w, func, obj);
            match n.step {
                StepView::Done(o) => {
                    method_bound_keeps(n.world, args, o);
                },
                _ => {},
            }
        },
    }
}

pub(crate) proof fn call_keeps(
    w: World,
    k: CallKont<Seq<PyObjectRef>, FuncArgsView>,
    o: OutcomeView,
)
    ensures
        keeps(w, apply_call(w, k, o)),
{
    reveal(apply_call);
    match k {
        CallKont::InvokeReturn => {
            trace_keeps(w, TraceEvent::Return);
        },
        CallKont::TraceProfile { profile_func, args } => {
            trace_called_keeps(w, profile_func, args, o);
        },
        CallKont::InvokeWrapped { args } => {
            method_bound_keeps(w, args, o);
        },
        _ => {},
    }
}

proof fn getattr_from_class_keeps(
    w: World,
    obj: PyObjectRef,
    name: PyStrRef,
    cls: PyTypeRef,
    cls_attr: Option<PyObjectRef>,
)
    ensures
        keeps(w, getattr_from_class(w, obj, name, cls, cls_attr)),
{
    if cls_attr is None {
        match type_attr(w.heap, cls, "__getattr__"@) {
            Some(getter) => {
                invoke_keeps(w, getter, positional(seq![obj, name]));
            },
            None => {},
        }
    }
}

/// An attribute access keeps what `keeps` says.
pub proof fn getattribute_keeps(w: World, obj: PyObjectRef, name: PyStrRef)
    ensures
        keeps(w, generic_getattribute_next(w, obj, name)),
{
    let text = crate::attributes::str_text(w.heap, name);
    let cls = crate::object::class_of(w.heap, obj);
    getattr_from_class_keeps(w, obj, name, cls, type_attr(w.heap, cls, text));
}

pub(crate) proof fn attribute_keeps(w: World, k: AttributeKont, o: OutcomeView)
    ensures
        keeps(w, apply_attribute(w, k, o)),
{
    broadcast use raising_keeps;

    reveal(apply_attribute);
    match k {
        AttributeKont::GetattrDict { obj, name, cls, cls_attr } => {
            getattr_from_class_keeps(w, obj, name, cls, cls_attr);
        },
        _ => {},
    }
}

/// An operator keeps what `keeps` says.
pub proof fn attempts_keep(
    w: World,
    attempts: Seq<Attempt<Seq<char>>>,
    unsupported: Unsupported<Seq<char>>,
)
    ensures
        keeps(w, attempts_next(w, attempts, unsupported)),
    decreases attempts.len(), 0int,
{
    broadcast use raising_keeps;

    if attempts.len() > 0 {
        let a = attempts[0];
        let rest = attempts.drop_first();
        match class_attr(w.heap, a.receiver, a.method) {
            None => {
                attempts_keep(w, rest, unsupported);
            },
            Some(method) => {
                let n = bind_attr_next(w, method, a.receiver);
                match n.step {
                    StepView::Done(o) => {
                        attempt_bound_keeps(n.world, a.arg, rest, unsupported, o);
                    },
                    _ => {},
                }
            },
        }
    }
}

proof fn attempt_bound_keeps(
    w: World,
    arg: PyObjectRef,
    rest: Seq<Attempt<Seq<char>>>,
    unsupported: Unsupported<Seq<char>>,
    o: OutcomeView,
)
    ensures
        keeps(w, attempt_bound(w, arg, rest, unsupported, o)),
    decreases rest.len(), 2int,
{
    match o {
        Ok(Value::Object(method)) => {
            let n = invoke_next(w, method, positional(seq![arg]));
            invoke_keeps(w, method, positional(seq![arg]));
            match n.step {
                StepView::Done(o) => {
                    attempt_result_keeps(n.world, rest, unsupported, o);
                },
                _ => {},
            }
        },
        _ => {},
    }
}

proof fn attempt_result_keeps(
    w: World,
    rest: Seq<Attempt<Seq<char>>>,
    unsupported: Unsupported<Seq<char>>,
    o: OutcomeView,
)
    ensures
        keeps(w, attempt_result(w, rest, unsupported, o)),
    decreases rest.len(), 1int,
{
    attempts_keep(w, rest, unsupported);
}

pub(crate) proof fn operator_keeps(
    w: World,
    k: OperatorKont<Seq<char>, Seq<Attempt<Seq<char>>>>,
    o: OutcomeView,
)
    ensures
        keeps(w, apply_operator(w, k, o)),
{
    reveal(apply_operator);
    match k {
        OperatorKont::AttemptInvoke { arg, rest, unsupported } => {
            attempt_bound_keeps(w, arg, rest, unsupported, o);
        },
        OperatorKont::AttemptResult { rest, unsupported } => {
            attempt_result_keeps(w, rest, unsupported, o);
        },
    }
}

pub(crate) proof fn convert_keeps(w: World, k: ConvertKont<Seq<PyObjectRef>>, o: OutcomeView)
    ensures
        keeps(w, apply_convert(w, k, o)),
{
    broadcast use raising_keeps;

    reveal(apply_convert);
    match k {
        ConvertKont::IndexTried { obj } => {
            method_keeps(w, obj, "__index__"@, positional(Seq::empty()));
        },
        _ => {},
    }
}

proof fn comparison_is_silent(w: World, x: PyObjectRef, y: PyObjectRef, op: PyComparisonOp)
    ensures
        compare_next(w, x, y, op).world == w,
        bool_next(w, x, y, op).world == w,
        !(compare_next(w, x, y, op).step is Done),
        !(bool_next(w, x, y, op).step is Done),
{
    reveal(compare_next);
    reveal(bool_next);
}

/// A comparison keeps what `keeps` says.
pub proof fn comparison_keeps(w: World, x: PyObjectRef, y: PyObjectRef, op: PyComparisonOp)
    ensures
        keeps(w, compare_next(w, x, y, op)),
        keeps(w, bool_next(w, x, y, op)),
        keeps(w, object_next(w, x, y, op)),
        keeps(w, seq_next(w, x, y, op)),
{
    comparison_is_silent(w, x, y, op);
}

proof fn compare_slot_keeps(
    w: World,
    x: PyObjectRef,
    y: PyObjectRef,
    op: PyComparisonOp,
    o: OutcomeView,
)
    ensures
        keeps(w, compare_replied(w, o)),
        keeps(w, compare_default(w, x, y, op)),
        keeps(w, compare_reversed(w, x, y, op, o)),
{
    broadcast use raising_keeps;

}

proof fn compare_asked_keeps(
    w: World,
    x: PyObjectRef,
    y: PyObjectRef,
    op: PyComparisonOp,
    reversed: bool,
    o: OutcomeView,
)
    ensures
        keeps(w, compare_forwarded(w, x, y, op, reversed, o)),
        keeps(w, compare_reflected(w, x, y, op, o)),
{
    compare_slot_keeps(w, x, y, op, o);
}

proof fn seq_strict_keeps(w: World, a: PyObjectRef, b: PyObjectRef, o: OutcomeView)
    ensures
        keeps(w, seq_strict(w, a, b, o)),
{
    comparison_is_silent(w, a, b, PyComparisonOp::Eq);
}

proof fn membership_keeps(w: World, iter: PyObjectRef, needle: PyObjectRef, o: OutcomeView)
    ensures
        keeps(w, membership_bound(w, needle, o)),
        keeps(w, membership_element(w, iter, needle, o)),
{
    match o {
        Ok(Value::Object(obj)) => {
            invoke_keeps(w, obj, positional(seq![needle]));
            comparison_is_silent(w, needle, obj, PyComparisonOp::Eq);
        },
        _ => {},
    }
}

pub(crate) proof fn compare_keeps(w: World, k: CompareKont, o: OutcomeView)
    ensures
        keeps(w, apply_compare(w, k, o)),
{
    reveal(apply_compare);
    match k {
        CompareKont::CompareReverse { v: x, w: y, op } => {
            compare_slot_keeps(w, x, y, op, o);
        },
        CompareKont::CompareForward { v: x, w: y, op, reversed } => {
            compare_asked_keeps(w, x, y, op, reversed, o);
        },
        CompareKont::CompareReflected { v: x, w: y, op } => {
            compare_asked_keeps(w, x, y, op, false, o);
        },
        CompareKont::SeqStrict { a, b } => {
            seq_strict_keeps(w, a, b, o);
        },
        CompareKont::MembershipInvoke { needle } => {
            membership_keeps(w, needle, needle, o);
        },
        CompareKont::MembershipNext { iter, needle } => {
            membership_keeps(w, iter, needle, o);
        },
        _ => {},
    }
}

} // verus!

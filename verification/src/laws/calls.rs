//! Laws about calls and tracing.
use crate::calls::{
    invoke_next, invoke_return, trace_next, trace_profile, untraced_next, with_tracing,
};
use crate::context::str_object;
use crate::machine::{asks, CallKont, Kont, KontView, Next, StepView, VmView, World};
use crate::errors::raises_message;
use crate::object::{
    class_name, next_ref, slot_of, PyBaseExceptionRef, PyObjectRef, SlotFunc, SlotKind,
};
use crate::protocol::{positional, FuncArgsView, Request, TraceEvent, ValueView};
use crate::resume::{applies_call, apply_call};
use crate::runs::{asks_for, drive, followed, run_goes_on, run_of_one_request, span, Reply};
use vstd::prelude::*;

verus! {

broadcast use crate::runs::run_stops, crate::runs::span_stops;

/// Whether an event is reported to a trace or profile function.
pub open spec fn is_traced(w: World) -> bool {
    let none = w.vm.ctx.none;
    w.vm.use_tracing && (w.vm.trace_func != none || w.vm.profile_func != none)
        && w.vm.frames.len() > 0
}

/// Without tracing a call is one request, and it comes to what the slot did.
pub proof fn untraced_call(
    w: World,
    callable: PyObjectRef,
    args: FuncArgsView,
    slot: SlotFunc,
    reply: Reply,
)
    requires
        slot_of(w.heap, callable, SlotKind::Call) == Some(slot),
        !is_traced(w),
        !is_traced(reply.world),
        reply.outcome is Err || reply.outcome->Ok_0 is Object,
    ensures
        asks_for(invoke_next(w, callable, args), Request::CallSlot { slot, callable, args }),
        drive(invoke_next(w, callable, args), seq![reply]) == (Next {
            world: reply.world,
            step: StepView::Done(reply.outcome),
        }),
{
    reveal(invoke_next);
    reveal(trace_next);
    reveal(apply_call);
    let n = invoke_next(w, callable, args);
    let k: KontView = Kont::Call(CallKont::InvokeReturn);
    assert(n == asks(w, Request::CallSlot { slot, callable, args }, seq![k]));
    applies_call(CallKont::InvokeReturn);
    run_of_one_request(n, k, seq![reply]);
    assert(seq![reply].drop_first() =~= Seq::empty());
}

/// What has no call slot is not called: nothing is asked of the host, and a
/// TypeError is raised.
pub proof fn uncallable(w: World, callable: PyObjectRef, args: FuncArgsView)
    requires
        slot_of(w.heap, callable, SlotKind::Call) is None,
    ensures
        invoke_next(w, callable, args) == raises_message(
            w,
            w.vm.ctx.exceptions.type_error,
            "'"@ + class_name(w.heap, callable) + "' object is not callable"@,
        ),
{
    reveal(invoke_next);
}

/// Tracing is off while a trace or profile function runs. It gets the frame, the
/// name of the event and None.
pub proof fn tracing_is_off_in_trace_functions(w: World, event: TraceEvent)
    requires
        is_traced(w),
    ensures
        ({
            let none = w.vm.ctx.none;
            let n = trace_next(w, event);
            let func = if w.vm.trace_func != none {
                w.vm.trace_func
            } else {
                w.vm.profile_func
            };
            let args = positional(seq![w.vm.frames.last().object, next_ref(w.heap), none]);
            let heap = w.heap.push(str_object(w.vm.ctx, event.text()));
            match slot_of(heap, func, SlotKind::Call) {
                Some(slot) => {
                    &&& asks_for(n, Request::CallSlot { slot, callable: func, args })
                    &&& n.world == (World {
                        vm: VmView { use_tracing: false, ..w.vm },
                        heap,
                    })
                },
                None => n.step matches StepView::Done(Err(_)),
            }
        }),
{
    reveal(raises_message);
    reveal(trace_next);
}

/// While tracing is off a call is the call of the slot alone.
pub proof fn call_with_tracing_off(w: World, func: PyObjectRef, args: FuncArgsView)
    requires
        !w.vm.use_tracing,
    ensures
        invoke_next(w, func, args) == untraced_next(w, func, args),
{
    reveal(invoke_next);
    reveal(trace_next);
}

/// Tracing is on again when the trace and profile functions have run, whatever
/// they did.
pub proof fn tracing_is_on_after_trace_functions(w: World, event: TraceEvent, replies: Seq<Reply>)
    requires
        is_traced(w),
        drive(trace_next(w, event), replies).step is Done,
    ensures
        drive(trace_next(w, event), replies).world.vm.use_tracing,
{
    reveal(trace_next);
    reveal(apply_call);
    let none = w.vm.ctx.none;
    let args = seq![w.vm.frames.last().object, next_ref(w.heap), none];
    let w1 = World { vm: w.vm, heap: w.heap.push(str_object(w.vm.ctx, event.text())) };
    if w.vm.trace_func == none {
        on_after_profile(w1, w.vm.profile_func, args, replies);
    } else {
        let n = untraced_next(with_tracing(w1, false), w.vm.trace_func, positional(args));
        let k: KontView = Kont::Call(
            CallKont::TraceProfile { profile_func: w.vm.profile_func, args },
        );
        applies_call(CallKont::TraceProfile { profile_func: w.vm.profile_func, args });
        assert(trace_next(w, event) == followed(n, k));
        run_goes_on(n, k, replies);
        let m = drive(n, replies);
        match m.step {
            StepView::Done(o) => {
                let rest = replies.skip(span(n, replies) as int);
                if o is Ok {
                    on_after_profile(
                        with_tracing(m.world, true),
                        w.vm.profile_func,
                        args,
                        rest,
                    );
                }
            },
            _ => {},
        }
    }
}

proof fn on_after_profile(
    w: World,
    profile_func: PyObjectRef,
    args: Seq<PyObjectRef>,
    replies: Seq<Reply>,
)
    requires
        w.vm.use_tracing,
        drive(trace_profile(w, profile_func, args), replies).step is Done,
    ensures
        drive(trace_profile(w, profile_func, args), replies).world.vm.use_tracing,
{
    reveal(apply_call);
    if profile_func != w.vm.ctx.none {
        let n = untraced_next(with_tracing(w, false), profile_func, positional(args));
        let k: KontView = Kont::Call(CallKont::TraceEnd);
        applies_call(CallKont::TraceEnd);
        assert(trace_profile(w, profile_func, args) == followed(n, k));
        run_goes_on(n, k, replies);
    }
}

/// Trace and profile functions cannot change what a call comes to, except by
/// raising.
pub proof fn tracing_keeps_results(
    w: World,
    result: Result<PyObjectRef, PyBaseExceptionRef>,
    replies: Seq<Reply>,
)
    ensures
        drive(invoke_return(w, result), replies).step matches StepView::Done(Ok(v)) ==> result
            is Ok && v == ValueView::Object(result->Ok_0),
{
    reveal(apply_call);
    let n = trace_next(w, TraceEvent::Return);
    let k: KontView = Kont::Call(CallKont::InvokeDone { result });
    applies_call(CallKont::InvokeDone { result });
    assert(invoke_return(w, result) == followed(n, k));
    run_goes_on(n, k, replies);
}

} // verus!

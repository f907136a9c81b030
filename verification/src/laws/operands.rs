//! What an operator calls on its operands, what a frame runs, and whom an event is
//! reported to.
use crate::calls::{method_next, trace_next, untraced_next, with_tracing};
use crate::context::str_object;
use crate::errors::{operand_message, raises_message};
use crate::frames::{run_code_next, with_frames};
use crate::laws::asked::{has_room, raises_new, raising_makes_the_exception};
use crate::laws::calls::is_traced;
use crate::laws::operators::{
    inplace_falls_back, method_or_fallback, method_or_reflection_or_fallback,
};
use crate::laws::taken::{takes_invoke_return, takes_trace_end, takes_trace_profile};
use crate::machine::{CallKont, Kont, KontView, Next, StepView, VmView, World};
use crate::object::{
    class_attr, class_of, next_ref, payload_of, slot_of, FrameRef, PayloadView, PyCodeRef,
    PyObjectRef, Scope, SlotKind,
};
use crate::operators::{attempt, attempts_next, binary_next, inplace_next, unsupported_next};
use crate::protocol::{
    positional, Fallback, FrameBody, Request, TraceEvent, Unsupported, Value, ValueView,
};
use crate::runs::{asks_for, drive, followed, run_goes_on, run_of_one_request, span, Reply};
use vstd::prelude::*;

verus! {

broadcast use crate::runs::run_stops, crate::runs::span_stops;

/// Operands that no method supports: a TypeError that names the operator and the
/// operands, or what the host's fallback gives for the operands, the left one first.
pub proof fn unsupported_operands(w: World, a: PyObjectRef, b: PyObjectRef, op: Seq<char>, id: u64)
    ensures
        has_room(w) ==> raises_new(
            unsupported_next(w, Unsupported { a, b, fallback: Fallback::OperandError(op) }),
            w,
            w.vm.ctx.exceptions.type_error,
            operand_message(w.heap, a, b, op),
        ),
        asks_for(
            unsupported_next(w, Unsupported { a, b, fallback: Fallback::Custom(id) }),
            Request::Fallback { id, a, b },
        ),
        !(unsupported_next(w, Unsupported { a, b, fallback: Fallback::OperandError(op) }).step
            is Ask),
{
    if has_room(w) {
        raising_makes_the_exception(
            w,
            w.vm.ctx.exceptions.type_error,
            operand_message(w.heap, a, b, op),
        );
    }
    reveal(raises_message);
}

/// Whether the reflected method of the right operand decides: it is called with the left
/// operand. Where its class lacks it, or it is not implemented, the TypeError for the
/// operands is raised.
pub open spec fn reflection_decides(
    end: Next,
    w: World,
    a: PyObjectRef,
    b: PyObjectRef,
    reflection: Seq<char>,
    op: Seq<char>,
    replies: Seq<Reply>,
) -> bool {
    let m = drive(method_next(w, b, reflection, positional(seq![a])), replies);
    if class_attr(w.heap, b, reflection) is None {
        has_room(w) ==> raises_new(
            end,
            w,
            w.vm.ctx.exceptions.type_error,
            operand_message(w.heap, a, b, op),
        )
    } else {
        match m.step {
            StepView::Done(Ok(Value::Object(x))) => if x == m.world.vm.ctx.not_implemented {
                has_room(m.world) ==> raises_new(
                    end,
                    m.world,
                    m.world.vm.ctx.exceptions.type_error,
                    operand_message(m.world.heap, a, b, op),
                )
            } else {
                end == m
            },
            StepView::Done(Err(_)) => end == m,
            _ => true,
        }
    }
}

proof fn reflection_is_called(
    w: World,
    a: PyObjectRef,
    b: PyObjectRef,
    reflection: Seq<char>,
    op: Seq<char>,
    replies: Seq<Reply>,
)
    ensures
        reflection_decides(
            drive(
                attempts_next(
                    w,
                    seq![attempt(b, a, reflection)],
                    Unsupported { a, b, fallback: Fallback::OperandError(op) },
                ),
                replies,
            ),
            w,
            a,
            b,
            reflection,
            op,
            replies,
        ),
{
    let unsupported = Unsupported { a, b, fallback: Fallback::OperandError(op) };
    let m = drive(method_next(w, b, reflection, positional(seq![a])), replies);
    method_or_fallback(w, b, a, reflection, unsupported, replies);
    unsupported_operands(w, a, b, op, 0);
    unsupported_operands(m.world, a, b, op, 0);
}

/// A binary operator calls its method of the left operand with the right one. Where the
/// class of the left operand lacks it, or it gives NotImplemented, the reflected method
/// of the right operand decides.
pub proof fn binary_operator_calls_its_methods(
    w: World,
    a: PyObjectRef,
    b: PyObjectRef,
    method: Seq<char>,
    reflection: Seq<char>,
    op: Seq<char>,
    replies: Seq<Reply>,
)
    ensures
        ({
            let call = method_next(w, a, method, positional(seq![b]));
            let m = drive(call, replies);
            let rest = replies.skip(span(call, replies) as int);
            let end = drive(binary_next(w, a, b, method, reflection, op), replies);
            if class_attr(w.heap, a, method) is None {
                reflection_decides(end, w, a, b, reflection, op, replies)
            } else {
                match m.step {
                    StepView::Done(Ok(Value::Object(x))) => if x
                        == m.world.vm.ctx.not_implemented {
                        reflection_decides(end, m.world, a, b, reflection, op, rest)
                    } else {
                        end == m
                    },
                    StepView::Done(Err(_)) => end == m,
                    _ => true,
                }
            }
        }),
{
    let unsupported = Unsupported { a, b, fallback: Fallback::OperandError(op) };
    let call = method_next(w, a, method, positional(seq![b]));
    let m = drive(call, replies);
    let rest = replies.skip(span(call, replies) as int);
    method_or_reflection_or_fallback(w, a, b, method, reflection, unsupported, replies);
    reflection_is_called(w, a, b, reflection, op, replies);
    reflection_is_called(m.world, a, b, reflection, op, rest);
}

/// An in-place operator calls its own method of the left operand with the right one.
/// Where the class lacks it, or it gives NotImplemented, the binary operator decides.
pub proof fn inplace_operator_calls_its_method(
    w: World,
    a: PyObjectRef,
    b: PyObjectRef,
    inplace: Seq<char>,
    method: Seq<char>,
    reflection: Seq<char>,
    op: Seq<char>,
    replies: Seq<Reply>,
)
    ensures
        ({
            let call = method_next(w, a, inplace, positional(seq![b]));
            let m = drive(call, replies);
            let rest = replies.skip(span(call, replies) as int);
            let n = inplace_next(w, a, b, inplace, method, reflection, op);
            if class_attr(w.heap, a, inplace) is None {
                n == binary_next(w, a, b, method, reflection, op)
            } else {
                match m.step {
                    StepView::Done(Ok(Value::Object(x))) => if x
                        == m.world.vm.ctx.not_implemented {
                        drive(n, replies) == drive(
                            binary_next(m.world, a, b, method, reflection, op),
                            rest,
                        )
                    } else {
                        drive(n, replies) == m
                    },
                    StepView::Done(Err(_)) => drive(n, replies) == m,
                    _ => true,
                }
            }
        }),
{
    inplace_falls_back(w, a, b, inplace, method, reflection, op, replies);
}

/// Other frames are all that differs in a state with other frames.
pub proof fn only_the_frames_change(w: World, frames: Seq<FrameRef>)
    ensures
        with_frames(w, frames) == (World { vm: VmView { frames, ..w.vm }, heap: w.heap }),
{
}

/// A code object runs in a new frame on top of the others: the frame is for that code
/// and has that scope.
pub proof fn code_runs_in_a_frame_of_its_own(w: World, code: PyCodeRef, scope: Scope)
    requires
        has_room(w),
        w.vm.frames.len() <= w.vm.recursion_limit,
    ensures
        ({
            let n = run_code_next(w, code, scope);
            match n.step {
                StepView::Ask(Request::RunFrame { frame, body }, _) => {
                    &&& body == FrameBody::Code
                    &&& frame.scope == scope
                    &&& payload_of(n.world.heap, frame.object) == PayloadView::Frame(code)
                    &&& class_of(n.world.heap, frame.object) == w.vm.ctx.types.frame_type
                    &&& n.world.vm == (VmView { frames: w.vm.frames.push(frame), ..w.vm })
                },
                _ => false,
            }
        }),
{
}

/// When the trace function has returned, the profile function gets the same event, with
/// tracing still off.
pub proof fn profile_function_comes_second(w: World, event: TraceEvent, reply: Reply)
    requires
        is_traced(w),
        w.vm.trace_func != w.vm.ctx.none,
        w.vm.profile_func != reply.world.vm.ctx.none,
        slot_of(
            w.heap.push(str_object(w.vm.ctx, event.text())),
            w.vm.trace_func,
            SlotKind::Call,
        ) is Some,
        !reply.world.vm.use_tracing,
        reply.outcome is Err || reply.outcome->Ok_0 is Object,
    ensures
        ({
            let m = drive(trace_next(w, event), seq![reply]);
            let args = positional(
                seq![w.vm.frames.last().object, next_ref(w.heap), w.vm.ctx.none],
            );
            match reply.outcome {
                Ok(_) => match slot_of(reply.world.heap, w.vm.profile_func, SlotKind::Call) {
                    Some(slot) => {
                        &&& asks_for(
                            m,
                            Request::CallSlot { slot, callable: w.vm.profile_func, args },
                        )
                        &&& m.world == reply.world
                    },
                    None => m.step matches StepView::Done(Err(_)),
                },
                Err(e) => m.step == StepView::Done(Err(e)) && m.world == with_tracing(
                    reply.world,
                    true,
                ),
            }
        }),
{
    reveal(trace_next);
    let args = seq![w.vm.frames.last().object, next_ref(w.heap), w.vm.ctx.none];
    let w1 = World { vm: w.vm, heap: w.heap.push(str_object(w.vm.ctx, event.text())) };
    let func = w.vm.trace_func;
    let profile_func = w.vm.profile_func;
    let call = untraced_next(with_tracing(w1, false), func, positional(args));
    let k: KontView = Kont::Call(CallKont::TraceProfile { profile_func, args });
    let k1: KontView = Kont::Call(CallKont::InvokeReturn);
    takes_trace_profile(profile_func, args);
    takes_invoke_return();
    assert(trace_next(w, event) == followed(call, k));
    run_of_one_request(call, k1, seq![reply]);
    assert(seq![reply].drop_first() =~= Seq::empty());
    run_goes_on(call, k, seq![reply]);
    assert(seq![reply].skip(1) =~= Seq::empty());
    assert(with_tracing(with_tracing(reply.world, true), false) == reply.world);
    reveal(raises_message);
}

/// What the profile function returns is forgotten, and what it raises is raised.
pub proof fn profile_function_can_raise(w: World, event: TraceEvent, reply: Reply)
    requires
        is_traced(w),
        w.vm.trace_func == w.vm.ctx.none,
        slot_of(
            w.heap.push(str_object(w.vm.ctx, event.text())),
            w.vm.profile_func,
            SlotKind::Call,
        ) is Some,
        !reply.world.vm.use_tracing,
        reply.outcome is Err || reply.outcome->Ok_0 is Object,
    ensures
        ({
            let m = drive(trace_next(w, event), seq![reply]);
            match reply.outcome {
                Ok(_) => m.step == StepView::Done(Ok(ValueView::Unit)),
                Err(e) => m.step == StepView::Done(Err(e)),
            }
        }),
{
    reveal(trace_next);
    let args = seq![w.vm.frames.last().object, next_ref(w.heap), w.vm.ctx.none];
    let w1 = World { vm: w.vm, heap: w.heap.push(str_object(w.vm.ctx, event.text())) };
    let call = untraced_next(with_tracing(w1, false), w.vm.profile_func, positional(args));
    let k: KontView = Kont::Call(CallKont::TraceEnd);
    takes_trace_end();
    takes_invoke_return();
    assert(trace_next(w, event) == followed(call, k));
    run_of_one_request(call, Kont::Call(CallKont::InvokeReturn), seq![reply]);
    assert(seq![reply].drop_first() =~= Seq::empty());
    run_goes_on(call, k, seq![reply]);
}

} // verus!

//! Laws about frames, the stacks of the machine, and what runs at exit.
use crate::calls::invoke_next;
use crate::errors::raises_message;
use crate::frames::{
    atexit_called, atexit_next, exception_popped, exception_pushed, latest_exception,
    recursion_message, run_full_next, with_frame_next, with_frames,
};
use crate::guard::{guarded, released};
use crate::machine::{panics, raises, yields, FrameKont, Kont, Next, StepView, VmView, World};
use crate::object::{class_of, is_subclass, FrameRef, PyBaseExceptionRef};
use crate::protocol::{AtexitFunc, FrameBody, FuncArgsView, PanicReason, Request, Value};
use crate::resume::{applies_frame, apply_frame};
use crate::runs::{asks_for, drive, followed, run_goes_on, run_of_one_request, span, Reply};
use vstd::prelude::*;

verus! {

broadcast use crate::runs::run_stops, crate::runs::span_stops;

/// While something runs in a frame the frame is on top of the stack, and afterwards
/// the stack is what it was before, whatever the outcome. What runs has to leave the
/// stack as it found it.
pub proof fn frames_are_balanced(w: World, frame: FrameRef, body: FrameBody, reply: Reply)
    requires
        w.vm.frames.len() <= w.vm.recursion_limit,
        reply.world.vm.frames == w.vm.frames.push(frame),
    ensures
        asks_for(with_frame_next(w, frame, body), Request::RunFrame { frame, body }),
        with_frame_next(w, frame, body).world == with_frames(w, w.vm.frames.push(frame)),
        drive(with_frame_next(w, frame, body), seq![reply]) == (Next {
            world: with_frames(reply.world, w.vm.frames),
            step: StepView::Done(reply.outcome),
        }),
{
    reveal(apply_frame);
    let k = FrameKont::PopFrame;
    applies_frame(k);
    run_of_one_request(with_frame_next(w, frame, body), Kont::Frame(k), seq![reply]);
    assert(seq![reply].drop_first() =~= Seq::empty());
    assert(w.vm.frames.push(frame).drop_last() =~= w.vm.frames);
}

/// No frame runs where the stack is deeper than the limit: a RecursionError is
/// raised, and the stack stays as it is.
pub proof fn too_deep(w: World, frame: FrameRef, body: FrameBody)
    requires
        w.vm.frames.len() > w.vm.recursion_limit,
    ensures
        with_frame_next(w, frame, body) == raises_message(
            w,
            w.vm.ctx.exceptions.recursion_error,
            recursion_message(""@),
        ),
        with_frame_next(w, frame, body).world.vm == w.vm,
{
    reveal(raises_message);
}

/// The stack never gets deeper than the limit and one more.
pub proof fn depth_is_bounded(w: World, frame: FrameRef, body: FrameBody)
    requires
        w.vm.frames.len() <= w.vm.recursion_limit + 1,
    ensures
        with_frame_next(w, frame, body).world.vm.frames.len() <= w.vm.recursion_limit + 1,
{
    reveal(raises_message);
}

/// A frame that has to return yields what its code returned. Anything but a return
/// or an exception is a panic.
pub proof fn frame_must_return(w: World, frame: FrameRef, reply: Reply)
    requires
        w.vm.frames.len() <= w.vm.recursion_limit,
        reply.world.vm.frames == w.vm.frames.push(frame),
    ensures
        drive(run_full_next(w, frame), seq![reply]) == ({
            let end = with_frames(reply.world, w.vm.frames);
            match reply.outcome {
                Ok(Value::Returned(value)) => yields(end, Value::Object(value)),
                Ok(_) => panics(end, PanicReason::UnexpectedResult),
                Err(e) => raises(end, e),
            }
        }),
{
    reveal(apply_frame);
    let n = with_frame_next(w, frame, FrameBody::Code);
    let k = FrameKont::FrameReturned;
    applies_frame(k);
    frames_are_balanced(w, frame, FrameBody::Code, reply);
    assert(run_full_next(w, frame) == followed(n, Kont::Frame(k)));
    run_goes_on(n, Kont::Frame(k), seq![reply]);
}

/// The functions that run at exit run from the last to the first, each once. One
/// that raises does not keep the others from running, and is reported unless it
/// raises a SystemExit.
pub proof fn last_function_runs_first(
    w: World,
    others: Seq<AtexitFunc<FuncArgsView>>,
    f: AtexitFunc<FuncArgsView>,
    last: Option<PyBaseExceptionRef>,
    replies: Seq<Reply>,
)
    ensures
        ({
            let call = invoke_next(w, f.func, f.args);
            let m = drive(call, replies);
            let rest = replies.skip(span(call, replies) as int);
            let end = drive(atexit_next(w, others.push(f), last), replies);
            match m.step {
                StepView::Done(Ok(_)) => end == drive(atexit_next(m.world, others, last), rest),
                StepView::Done(Err(exc)) => {
                    let exits = is_subclass(
                        m.world.heap,
                        class_of(m.world.heap, exc),
                        m.world.vm.ctx.exceptions.system_exit,
                    );
                    let n = atexit_called(m.world, others, last, Err(exc));
                    &&& end == drive(n, rest)
                    &&& exits ==> n == atexit_next(m.world, others, Some(exc))
                    &&& !exits ==> asks_for(n, Request::ReportAtexitError { exc })
                },
                _ => true,
            }
        }),
{
    reveal(apply_frame);
    let call = invoke_next(w, f.func, f.args);
    let all = others.push(f);
    let k = FrameKont::AtexitCalled { rest: others, last };
    assert(all.drop_last() =~= others);
    applies_frame(k);
    assert(atexit_next(w, all, last) == followed(call, Kont::Frame(k)));
    run_goes_on(call, Kont::Frame(k), replies);
}

/// An exception that was reported is remembered, and the other functions run.
pub proof fn reported_exception_is_remembered(
    w: World,
    others: Seq<AtexitFunc<FuncArgsView>>,
    last: Option<PyBaseExceptionRef>,
    exc: PyBaseExceptionRef,
    replies: Seq<Reply>,
)
    requires
        !is_subclass(w.heap, class_of(w.heap, exc), w.vm.ctx.exceptions.system_exit),
        replies.len() > 0,
        replies[0].outcome is Ok,
    ensures
        drive(atexit_called(w, others, last, Err(exc)), replies) == drive(
            atexit_next(replies[0].world, others, Some(exc)),
            replies.drop_first(),
        ),
{
    reveal(apply_frame);
    let k = FrameKont::AtexitReported { rest: others, last: Some(exc) };
    applies_frame(k);
    run_of_one_request(
        atexit_called(w, others, last, Err(exc)),
        Kont::Frame(k),
        replies,
    );
}

/// When no function is left, the exception that came last is raised, if there was
/// one.
pub proof fn last_exception_is_raised(w: World, last: Option<PyBaseExceptionRef>)
    ensures
        atexit_next(w, Seq::empty(), last) == match last {
            Some(exc) => raises(w, exc),
            None => yields(w, Value::Unit),
        },
{
}

/// The stack of handled exceptions gives back what was put on it last.
pub proof fn exceptions_are_a_stack(vm: VmView, exc: PyBaseExceptionRef)
    ensures
        latest_exception(exception_pushed(vm, exc)) == Some(exc),
        exception_popped(exception_pushed(vm, exc)) == vm,
{
    assert(vm.exceptions.push(exc).drop_last() =~= vm.exceptions);
}

/// A guard is held until it is released, on its object only; with its release the
/// state is what it was.
pub proof fn guard_is_held_until_released(vm: VmView, id: usize, other: usize)
    requires
        !vm.repr_guards.contains(id),
    ensures
        guarded(vm, id).repr_guards.contains(id),
        other != id ==> guarded(vm, id).repr_guards.contains(other) == vm.repr_guards.contains(
            other,
        ),
        released(guarded(vm, id), id) == vm,
{
    assert(vm.repr_guards.insert(id).remove(id) =~= vm.repr_guards);
}

/// A thread that leaves the machine that it entered last is where it was before.
pub proof fn entering_and_leaving(vms: Seq<usize>, vm: usize)
    ensures
        vms.push(vm).last() == vm,
        vms.push(vm).drop_last() == vms,
{
    assert(vms.push(vm).drop_last() =~= vms);
}

} // verus!

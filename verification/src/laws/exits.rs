//! Laws about a whole run of the functions that run at exit.
use crate::calls::invoke_next;
use crate::frames::{atexit_called, atexit_next};
use crate::laws::frames::{last_exception_is_raised, last_function_runs_first};
use crate::machine::{asks, FrameKont, Kont, StepView, World};
use crate::object::{class_of, is_subclass, PyBaseExceptionRef};
use crate::protocol::{AtexitFunc, FuncArgsView, Request};
use crate::resume::{applies_frame, apply_frame};
use crate::runs::{drive, followed, run_goes_on, run_of_one_request, span, Reply};
use vstd::prelude::*;

verus! {

broadcast use crate::runs::run_stops, crate::runs::span_stops;

/// Whether each of the functions that run at exit succeeds, in a run with these
/// replies.
pub open spec fn all_succeed(
    w: World,
    funcs: Seq<AtexitFunc<FuncArgsView>>,
    replies: Seq<Reply>,
) -> bool
    decreases funcs.len(),
{
    if funcs.len() == 0 {
        true
    } else {
        let call = invoke_next(w, funcs.last().func, funcs.last().args);
        let m = drive(call, replies);
        &&& m.step is Done
        &&& m.step->Done_0 is Ok
        &&& all_succeed(
            m.world,
            funcs.drop_last(),
            replies.skip(span(call, replies) as int),
        )
    }
}

/// Whether a run of the functions that run at exit is over without an exception.
pub open spec fn exits_well(
    w: World,
    funcs: Seq<AtexitFunc<FuncArgsView>>,
    last: Option<PyBaseExceptionRef>,
    replies: Seq<Reply>,
) -> bool {
    let end = drive(atexit_next(w, funcs, last), replies);
    end.step is Done && end.step->Done_0 is Ok
}

proof fn call_must_be_over(
    w: World,
    others: Seq<AtexitFunc<FuncArgsView>>,
    f: AtexitFunc<FuncArgsView>,
    last: Option<PyBaseExceptionRef>,
    replies: Seq<Reply>,
)
    requires
        !(drive(invoke_next(w, f.func, f.args), replies).step is Done),
    ensures
        !exits_well(w, others.push(f), last, replies),
{
    let call = invoke_next(w, f.func, f.args);
    let k = FrameKont::AtexitCalled { rest: others, last };
    assert(others.push(f).drop_last() =~= others);
    applies_frame(k);
    reveal(apply_frame);
    assert(atexit_next(w, others.push(f), last) == followed(call, Kont::Frame(k)));
    run_goes_on(call, Kont::Frame(k), replies);
}

proof fn exception_is_not_forgotten(
    w: World,
    funcs: Seq<AtexitFunc<FuncArgsView>>,
    exc: PyBaseExceptionRef,
    replies: Seq<Reply>,
)
    ensures
        !exits_well(w, funcs, Some(exc), replies),
    decreases funcs.len(), 1int,
{
    if funcs.len() == 0 {
        assert(funcs =~= Seq::empty());
        last_exception_is_raised(w, Some(exc));
    } else {
        let f = funcs.last();
        let others = funcs.drop_last();
        let call = invoke_next(w, f.func, f.args);
        let m = drive(call, replies);
        let rest = replies.skip(span(call, replies) as int);
        assert(others.push(f) =~= funcs);
        match m.step {
            StepView::Done(Ok(_)) => {
                last_function_runs_first(w, others, f, Some(exc), replies);
                exception_is_not_forgotten(m.world, others, exc, rest);
            },
            StepView::Done(Err(raised)) => {
                last_function_runs_first(w, others, f, Some(exc), replies);
                raising_is_not_forgotten(m.world, others, Some(exc), raised, rest);
            },
            _ => {
                call_must_be_over(w, others, f, Some(exc), replies);
            },
        }
    }
}

proof fn last_function_raised(
    w: World,
    others: Seq<AtexitFunc<FuncArgsView>>,
    last: Option<PyBaseExceptionRef>,
    exc: PyBaseExceptionRef,
)
    ensures
        atexit_called(w, others, last, Err(exc)) == if is_subclass(
            w.heap,
            class_of(w.heap, exc),
            w.vm.ctx.exceptions.system_exit,
        ) {
            atexit_next(w, others, Some(exc))
        } else {
            asks(
                w,
                Request::ReportAtexitError { exc },
                seq![Kont::Frame(FrameKont::AtexitReported { rest: others, last: Some(exc) })],
            )
        },
{
}

proof fn raising_is_not_forgotten(
    w: World,
    others: Seq<AtexitFunc<FuncArgsView>>,
    last: Option<PyBaseExceptionRef>,
    raised: PyBaseExceptionRef,
    replies: Seq<Reply>,
)
    ensures
        ({
            let end = drive(atexit_called(w, others, last, Err(raised)), replies);
            !(end.step is Done && end.step->Done_0 is Ok)
        }),
    decreases others.len(), 2int,
{
    last_function_raised(w, others, last, raised);
    if is_subclass(w.heap, class_of(w.heap, raised), w.vm.ctx.exceptions.system_exit) {
        exception_is_not_forgotten(w, others, raised, replies);
    } else if replies.len() > 0 {
        reveal(apply_frame);
        let k = FrameKont::AtexitReported { rest: others, last: Some(raised) };
        applies_frame(k);
        run_of_one_request(
            atexit_called(w, others, last, Err(raised)),
            Kont::Frame(k),
            replies,
        );
        if replies[0].outcome is Ok {
            exception_is_not_forgotten(
                replies[0].world,
                others,
                raised,
                replies.drop_first(),
            );
        }
    }
}

/// A run of the functions that run at exit ends without an exception if and only if
/// each of them succeeds.
pub proof fn exit_succeeds_if_all_do(
    w: World,
    funcs: Seq<AtexitFunc<FuncArgsView>>,
    replies: Seq<Reply>,
)
    ensures
        exits_well(w, funcs, None, replies) <==> all_succeed(w, funcs, replies),
    decreases funcs.len(),
{
    if funcs.len() == 0 {
        assert(funcs =~= Seq::empty());
        last_exception_is_raised(w, None);
    } else {
        let f = funcs.last();
        let others = funcs.drop_last();
        let call = invoke_next(w, f.func, f.args);
        let m = drive(call, replies);
        let rest = replies.skip(span(call, replies) as int);
        assert(others.push(f) =~= funcs);
        match m.step {
            StepView::Done(Ok(_)) => {
                last_function_runs_first(w, others, f, None, replies);
                exit_succeeds_if_all_do(m.world, others, rest);
            },
            StepView::Done(Err(raised)) => {
                last_function_runs_first(w, others, f, None, replies);
                raising_is_not_forgotten(m.world, others, None, raised, rest);
            },
            _ => {
                call_must_be_over(w, others, f, None, replies);
            },
        }
    }
}

} // verus!

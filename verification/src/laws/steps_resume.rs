//! What the steps of frames and of exit functions keep, and what a reply keeps.
use crate::calls::invoke_next;
use crate::frames::{atexit_called, atexit_next};
use crate::laws::steps::{
    attribute_keeps, call_keeps, compare_keeps, convert_keeps, invoke_keeps, keeps, operator_keeps,
};
use crate::laws::steps_modules::module_keeps;
use crate::machine::{FrameKont, Kont, KontView, StepView, World};
use crate::object::PyBaseExceptionRef;
use crate::protocol::{AtexitFunc, FuncArgsView, OutcomeView};
use crate::resume::{
    applies_attribute, applies_call, applies_compare, applies_convert, applies_frame,
    applies_module, applies_operator, apply_frame, apply_next, resume_next,
};
use vstd::prelude::*;

verus! {

/// What runs at exit keeps what `keeps` says.
pub proof fn atexit_keeps(
    w: World,
    rest: Seq<AtexitFunc<FuncArgsView>>,
    last: Option<PyBaseExceptionRef>,
)
    ensures
        keeps(w, atexit_next(w, rest, last)),
    decreases rest.len(), 0int,
{
    if rest.len() > 0 {
        let n = invoke_next(w, rest.last().func, rest.last().args);
        invoke_keeps(w, rest.last().func, rest.last().args);
        match n.step {
            StepView::Done(o) => {
                atexit_called_keeps(n.world, rest.drop_last(), last, o);
            },
            _ => {},
        }
    }
}

proof fn atexit_called_keeps(
    w: World,
    rest: Seq<AtexitFunc<FuncArgsView>>,
    last: Option<PyBaseExceptionRef>,
    o: OutcomeView,
)
    ensures
        keeps(w, atexit_called(w, rest, last, o)),
    decreases rest.len(), 1int,
{
    match o {
        Ok(_) => {
            atexit_keeps(w, rest, last);
        },
        Err(exc) => {
            atexit_keeps(w, rest, Some(exc));
        },
    }
}

proof fn frame_keeps(
    w: World,
    k: FrameKont<Seq<AtexitFunc<FuncArgsView>>>,
    o: OutcomeView,
)
    ensures
        keeps(w, apply_frame(w, k, o)),
{
    reveal(apply_frame);
    match k {
        FrameKont::AtexitCalled { rest, last } => {
            atexit_called_keeps(w, rest, last, o);
        },
        FrameKont::AtexitReported { rest, last } => {
            atexit_keeps(w, rest, last);
        },
        _ => {},
    }
}

/// Whether nothing is left to do but calls, attribute accesses, operators,
/// conversions, comparisons, frames, exit functions and imports: nothing of the making
/// of a machine.
pub open spec fn is_plain(ks: Seq<KontView>) -> bool {
    forall|i: int| 0 <= i < ks.len() ==> !(#[trigger] ks[i] is Init)
}

/// Whatever the host replies to such an operation, the machine adds objects only; it
/// changes and removes none. Of its own state it changes nothing but the frames,
/// whether tracing is on and whether it is initialized.
pub proof fn resuming_keeps(w: World, ks: Seq<KontView>, o: OutcomeView)
    requires
        is_plain(ks),
    ensures
        keeps(w, resume_next(w, ks, o)),
    decreases ks.len(),
{
    reveal(resume_next);
    if ks.len() > 0 {
        let k = ks[ks.len() - 1];
        assert(!(k is Init));
        match k {
            Kont::Call(k) => {
                applies_call(k);
                call_keeps(w, k, o);
            },
            Kont::Attribute(k) => {
                applies_attribute(k);
                attribute_keeps(w, k, o);
            },
            Kont::Operator(k) => {
                applies_operator(k);
                operator_keeps(w, k, o);
            },
            Kont::Convert(k) => {
                applies_convert(k);
                convert_keeps(w, k, o);
            },
            Kont::Compare(k) => {
                applies_compare(k);
                compare_keeps(w, k, o);
            },
            Kont::Frame(k) => {
                applies_frame(k);
                frame_keeps(w, k, o);
            },
            Kont::Module(k) => {
                applies_module(k);
                module_keeps(w, k, o);
            },
            _ => {},
        }
        let n = apply_next(w, ks.last(), o);
        assert(keeps(w, n));
        match n.step {
            StepView::Done(o) => {
                let rest = ks.drop_last();
                assert forall|i: int| 0 <= i < rest.len() implies !(#[trigger] rest[i] is Init) by {
                    assert(rest[i] == ks[i]);
                }
                resuming_keeps(n.world, rest, o);
            },
            _ => {},
        }
    }
}

} // verus!

//! Frames, scopes, the stack of handled exceptions, and what is run at exit.
use crate::calls::invoke_next;
use crate::context::dict_object;
use crate::errors::{message_made, raises_message};
use crate::machine::{
    asks, next, panics, raises, waits, world, yields, FrameKont, Kont, Next, Step, StepView,
    VirtualMachine, VmView, World,
};
use crate::object::{
    class_of, is_subclass, next_ref, FrameRef, Heap, ObjectView, Payload, PayloadView,
    PyBaseExceptionRef, PyCodeRef, PyDictRef, PyResult, Scope,
};
use crate::protocol::{
    atexit_view, outcome_view, AtexitFunc, FrameBody, FuncArgsView, Outcome, OutcomeView,
    PanicReason, PyFuncArgs, Request, Value,
};
use vstd::prelude::*;
use vstd::string::*;

verus! {

/// The state with other frames.
pub open spec fn with_frames(w: World, frames: Seq<FrameRef>) -> World {
    World { vm: VmView { frames, ..w.vm }, heap: w.heap }
}

/// The message for a stack that is too deep.
pub open spec fn recursion_message(place: Seq<char>) -> Seq<char> {
    "maximum recursion depth exceeded "@ + place
}

/// Running something in a frame: the frame is on the stack meanwhile, unless the
/// stack is too deep already.
pub open spec fn with_frame_next(w: World, frame: FrameRef, body: FrameBody) -> Next {
    if w.vm.frames.len() > w.vm.recursion_limit {
        raises_message(w, w.vm.ctx.exceptions.recursion_error, recursion_message(""@))
    } else {
        asks(
            with_frames(w, w.vm.frames.push(frame)),
            Request::RunFrame { frame, body },
            seq![Kont::Frame(FrameKont::PopFrame)],
        )
    }
}

/// What ran in the frame is over: the frame is left, whatever the outcome.
pub open spec fn frame_left(w: World, o: OutcomeView) -> Next {
    Next {
        world: if w.vm.frames.len() == 0 {
            w
        } else {
            with_frames(w, w.vm.frames.drop_last())
        },
        step: StepView::Done(o),
    }
}

/// Running a frame that must return.
pub open spec fn run_full_next(w: World, frame: FrameRef) -> Next {
    let n = with_frame_next(w, frame, FrameBody::Code);
    match n.step {
        StepView::Done(o) => frame_returned(n.world, o),
        _ => waits(n, Kont::Frame(FrameKont::FrameReturned)),
    }
}

/// The frame must have returned.
pub open spec fn frame_returned(w: World, o: OutcomeView) -> Next {
    match o {
        Ok(Value::Returned(value)) => yields(w, Value::Object(value)),
        Ok(_) => panics(w, PanicReason::UnexpectedResult),
        Err(e) => raises(w, e),
    }
}

/// Running a code object in a frame of its own.
pub open spec fn run_code_next(w: World, code: PyCodeRef, scope: Scope) -> Next {
    let frame = ObjectView {
        class: w.vm.ctx.types.frame_type,
        dict: None,
        payload: PayloadView::Frame(code),
    };
    run_full_next(
        World { vm: w.vm, heap: w.heap.push(frame) },
        FrameRef { object: next_ref(w.heap), scope },
    )
}

/// Runs what is left of the functions to run at exit, from the last that was
/// registered to the first. The last exception among them is raised in the end.
pub open spec fn atexit_next(
    w: World,
    rest: Seq<AtexitFunc<FuncArgsView>>,
    last: Option<PyBaseExceptionRef>,
) -> Next
    decreases rest.len(), 0int,
{
    if rest.len() == 0 {
        match last {
            None => yields(w, Value::Unit),
            Some(e) => raises(w, e),
        }
    } else {
        let n = invoke_next(w, rest.last().func, rest.last().args);
        match n.step {
            StepView::Done(o) => atexit_called(n.world, rest.drop_last(), last, o),
            _ => waits(n, Kont::Frame(FrameKont::AtexitCalled { rest: rest.drop_last(), last })),
        }
    }
}

/// One function has run. What it raises is reported, unless it is a SystemExit.
pub open spec fn atexit_called(
    w: World,
    rest: Seq<AtexitFunc<FuncArgsView>>,
    last: Option<PyBaseExceptionRef>,
    o: OutcomeView,
) -> Next
    decreases rest.len(), 1int,
{
    match o {
        Ok(_) => atexit_next(w, rest, last),
        Err(exc) => if is_subclass(
            w.heap,
            class_of(w.heap, exc),
            w.vm.ctx.exceptions.system_exit,
        ) {
            atexit_next(w, rest, Some(exc))
        } else {
            asks(
                w,
                Request::ReportAtexitError { exc },
                seq![Kont::Frame(FrameKont::AtexitReported { rest, last: Some(exc) })],
            )
        },
    }
}

/// An exception was reported: the others run.
pub open spec fn atexit_reported(
    w: World,
    rest: Seq<AtexitFunc<FuncArgsView>>,
    last: Option<PyBaseExceptionRef>,
    o: OutcomeView,
) -> Next {
    match o {
        Ok(_) => atexit_next(w, rest, last),
        Err(_) => panics(w, PanicReason::UnexpectedReply),
    }
}

/// The state with one more exception that is being handled.
pub open spec fn exception_pushed(vm: VmView, exc: PyBaseExceptionRef) -> VmView {
    VmView { exceptions: vm.exceptions.push(exc), ..vm }
}

/// The state without the latest of the exceptions that are being handled.
pub open spec fn exception_popped(vm: VmView) -> VmView {
    if vm.exceptions.len() == 0 {
        vm
    } else {
        VmView { exceptions: vm.exceptions.drop_last(), ..vm }
    }
}

/// The latest of the exceptions that are being handled.
pub open spec fn latest_exception(vm: VmView) -> Option<PyBaseExceptionRef> {
    if vm.exceptions.len() == 0 {
        None
    } else {
        Some(vm.exceptions.last())
    }
}

impl VirtualMachine {
    /// Runs the functions that were registered to run at exit, the last one
    /// first, and takes them off the list. The last exception is raised.
    pub fn run_atexit_funcs(
        &mut self,
        heap: &mut Heap,
        atexit_funcs: &mut Vec<AtexitFunc<PyFuncArgs>>,
    ) -> (step: Step)
        ensures
            next(*final(self), *final(heap), step) == atexit_next(
                world(*old(self), *old(heap)),
                atexit_view(old(atexit_funcs)@),
                None,
            ),
            final(atexit_funcs)@.len() == 0,
    {
        let mut funcs: Vec<AtexitFunc<PyFuncArgs>> = Vec::new();
        std::mem::swap(&mut funcs, atexit_funcs);
        self.atexit_rest(heap, funcs, None)
    }

    fn atexit_rest(
        &mut self,
        heap: &mut Heap,
        rest: Vec<AtexitFunc<PyFuncArgs>>,
        last: Option<PyBaseExceptionRef>,
    ) -> (step: Step)
        ensures
            next(*final(self), *final(heap), step) == atexit_next(
                world(*old(self), *old(heap)),
                atexit_view(rest@),
                last,
            ),
        decreases rest.len(), 0int,
    {
        let mut rest = rest;
        let ghost all = rest@;
        match rest.pop() {
            None => match last {
                None => Step::Done(Ok(Value::Unit)),
                Some(e) => Step::Done(Err(e)),
            },
            Some(f) => {
                assert(atexit_view(rest@) =~= atexit_view(all).drop_last());
                assert(atexit_view(all).last() == f@);
                let step = self.invoke(heap, f.func, f.args);
                match step {
                    Step::Done(outcome) => self.atexit_called(heap, rest, last, outcome),
                    step => step.beneath(Kont::Frame(FrameKont::AtexitCalled { rest, last })),
                }
            },
        }
    }

    pub(crate) fn atexit_called(
        &mut self,
        heap: &mut Heap,
        rest: Vec<AtexitFunc<PyFuncArgs>>,
        last: Option<PyBaseExceptionRef>,
        outcome: Outcome,
    ) -> (step: Step)
        ensures
            next(*final(self), *final(heap), step) == atexit_called(
                world(*old(self), *old(heap)),
                atexit_view(rest@),
                last,
                outcome_view(outcome),
            ),
        decreases rest.len(), 1int,
    {
        match outcome {
            Ok(_) => self.atexit_rest(heap, rest, last),
            Err(exc) => {
                if heap.is_subclass(heap.class_of(exc), self.ctx.exceptions.system_exit) {
                    self.atexit_rest(heap, rest, Some(exc))
                } else {
                    Step::ask_for(
                        Request::ReportAtexitError { exc },
                        Kont::Frame(FrameKont::AtexitReported { rest, last: Some(exc) }),
                    )
                }
            },
        }
    }

    pub(crate) fn atexit_reported(
        &mut self,
        heap: &mut Heap,
        rest: Vec<AtexitFunc<PyFuncArgs>>,
        last: Option<PyBaseExceptionRef>,
        outcome: Outcome,
    ) -> (step: Step)
        ensures
            next(*final(self), *final(heap), step) == atexit_reported(
                world(*old(self), *old(heap)),
                atexit_view(rest@),
                last,
                outcome_view(outcome),
            ),
    {
        match outcome {
            Ok(_) => self.atexit_rest(heap, rest, last),
            Err(_) => Step::Panic(PanicReason::UnexpectedReply),
        }
    }

    /// Runs a code object in a frame of its own.
    pub fn run_code_obj(&mut self, heap: &mut Heap, code: PyCodeRef, scope: Scope) -> (step: Step)
        ensures
            next(*final(self), *final(heap), step) == run_code_next(
                world(*old(self), *old(heap)),
                code,
                scope,
            ),
    {
        let object = heap.new_object(self.ctx.types.frame_type, None, Payload::Frame(code));
        self.run_frame_full(heap, FrameRef { object, scope })
    }

    /// Runs a frame that must return.
    pub fn run_frame_full(&mut self, heap: &mut Heap, frame: FrameRef) -> (step: Step)
        ensures
            next(*final(self), *final(heap), step) == run_full_next(
                world(*old(self), *old(heap)),
                frame,
            ),
    {
        let step = self.run_frame(heap, frame);
        match step {
            Step::Done(outcome) => VirtualMachine::frame_returned(outcome),
            step => step.beneath(Kont::Frame(FrameKont::FrameReturned)),
        }
    }

    pub(crate) fn frame_returned(outcome: Outcome) -> (step: Step)
        ensures
            forall|w: World|
                (Next { world: w, step: step@ }) == #[trigger] frame_returned(
                    w,
                    outcome_view(outcome),
                ),
    {
        match outcome {
            Ok(Value::Returned(value)) => Step::object(value),
            Ok(_) => Step::Panic(PanicReason::UnexpectedResult),
            Err(e) => Step::Done(Err(e)),
        }
    }

    /// Runs something while a frame is on the stack.
    pub fn with_frame(&mut self, heap: &mut Heap, frame: FrameRef, body: FrameBody) -> (step: Step)
        ensures
            next(*final(self), *final(heap), step) == with_frame_next(
                world(*old(self), *old(heap)),
                frame,
                body,
            ),
    {
        reveal(raises_message);
        match self.check_recursive_call(heap, "") {
            Err(e) => Step::Done(Err(e)),
            Ok(_) => {
                self.frames.push(frame);
                Step::ask_for(Request::RunFrame { frame, body }, Kont::Frame(FrameKont::PopFrame))
            },
        }
    }

    pub(crate) fn leave_frame(&mut self, outcome: Outcome) -> (step: Step)
        ensures
            forall|h: Heap|
                #![trigger world(*old(self), h)]
                next(*final(self), h, step) == frame_left(
                    world(*old(self), h),
                    outcome_view(outcome),
                ),
    {
        let _popped = self.frames.pop();
        Step::Done(outcome)
    }

    /// Runs a frame.
    pub fn run_frame(&mut self, heap: &mut Heap, frame: FrameRef) -> (step: Step)
        ensures
            next(*final(self), *final(heap), step) == with_frame_next(
                world(*old(self), *old(heap)),
                frame,
                FrameBody::Code,
            ),
    {
        self.with_frame(heap, frame, FrameBody::Code)
    }

    /// Makes a RecursionError where more frames are on the stack than the limit
    /// allows.
    pub fn check_recursive_call(&self, heap: &mut Heap, _where: &str) -> (res: PyResult<()>)
        ensures
            self.frames@.len() <= self.recursion_limit ==> res is Ok && final(heap)@ == old(
                heap,
            )@,
            self.frames@.len() > self.recursion_limit ==> res is Err && (final(heap)@, res->Err_0)
                == message_made(
                self.ctx,
                old(heap)@,
                self.ctx.exceptions.recursion_error,
                recursion_message(_where@),
            ),
    {
        if self.frames.len() > self.recursion_limit {
            let msg = "maximum recursion depth exceeded ".to_owned().concat(_where);
            Err(self.new_recursion_error(heap, msg))
        } else {
            Ok(())
        }
    }

    /// The frame that runs.
    pub fn current_frame(&self) -> (frame: Option<FrameRef>)
        ensures
            frame == (if self.frames@.len() == 0 {
                None
            } else {
                Some(self.frames@.last())
            }),
    {
        if self.frames.len() == 0 {
            None
        } else {
            Some(self.frames[self.frames.len() - 1])
        }
    }

    /// The scope of the frame that runs.
    pub fn current_scope(&self) -> (scope: Scope)
        requires
            self.frames@.len() > 0,
        ensures
            scope == self.frames@.last().scope,
    {
        self.frames[self.frames.len() - 1].scope
    }

    /// The local variables of the frame that runs.
    pub fn get_locals(&self) -> (locals: PyDictRef)
        requires
            self.frames@.len() > 0,
        ensures
            locals == self.frames@.last().scope.locals,
    {
        self.current_scope().locals
    }

    /// A new scope that has the builtins.
    pub fn new_scope_with_builtins(&self, heap: &mut Heap) -> (step: Step)
        ensures
            next(*self, *final(heap), step) == asks(
                World { vm: self@, heap: old(heap)@.push(dict_object(self.ctx)) },
                Request::NewScope { globals: next_ref(old(heap)@) },
                Seq::empty(),
            ),
    {
        let globals = self.ctx.new_dict(heap);
        Step::ask(Request::NewScope { globals })
    }

    /// Checks for triggered signals and calls the appropriate handlers. A no-op on
    /// targets where signals are not supported.
    pub fn check_signals(&self) -> (step: Step)
        ensures
            self.state.has_signals ==> step@ == StepView::Ask(Request::CheckSignals, Seq::empty()),
            !self.state.has_signals ==> step@ == StepView::Done(Ok(Value::Unit)),
    {
        if self.state.has_signals {
            Step::ask(Request::CheckSignals)
        } else {
            Step::Done(Ok(Value::Unit))
        }
    }

    /// Puts an exception on the stack of those that are being handled.
    pub fn push_exception(&mut self, exc: PyBaseExceptionRef)
        ensures
            final(self)@ == exception_pushed(old(self)@, exc),
    {
        self.exceptions.push(exc);
    }

    /// Takes the latest exception off the stack.
    pub fn pop_exception(&mut self) -> (exc: Option<PyBaseExceptionRef>)
        ensures
            exc == latest_exception(old(self)@),
            final(self)@ == exception_popped(old(self)@),
    {
        self.exceptions.pop()
    }

    /// The latest exception on the stack.
    pub fn current_exception(&self) -> (exc: Option<PyBaseExceptionRef>)
        ensures
            exc == latest_exception(self@),
    {
        if self.exceptions.len() == 0 {
            None
        } else {
            Some(self.exceptions[self.exceptions.len() - 1])
        }
    }

    /// The value of a result that must be one.
    pub fn unwrap_pyresult<T>(&self, result: PyResult<T>) -> (value: T)
        requires
            result is Ok,
        ensures
            result == Ok::<T, PyBaseExceptionRef>(value),
    {
        match result {
            Ok(value) => value,
            Err(_) => vstd::pervasive::unreached(),
        }
    }

    /// The value of a result that must be one; the message is for the host's panic
    /// where it is not.
    pub fn expect_pyresult<T>(&self, result: PyResult<T>, _msg: &str) -> (value: T)
        requires
            result is Ok,
        ensures
            result == Ok::<T, PyBaseExceptionRef>(value),
    {
        self.unwrap_pyresult(result)
    }
}

} // verus!

//! How objects are called: slots, tracing, descriptors and methods.
use crate::context::str_object;
use crate::errors::raises_message;
use crate::machine::{
    asks, next, panics, raises, waits, world, yields, CallKont, Kont, Next, Step, StepView,
    VirtualMachine, World,
};
use crate::object::{
    class_attr, class_name, class_of, next_ref, slot_of, Heap, PyBaseExceptionRef, PyObjectRef,
    SlotFunc, SlotKind,
};
use crate::protocol::{
    outcome_view, positional, FuncArgsView, Outcome, OutcomeView, PanicReason, PyFuncArgs, Request,
    TraceEvent, Value,
};
use vstd::prelude::*;
use vstd::string::*;

verus! {

/// The state with tracing switched on or off.
pub open spec fn with_tracing(w: World, on: bool) -> World {
    World { vm: crate::machine::VmView { use_tracing: on, ..w.vm }, heap: w.heap }
}

/// A result as the outcome of an operation.
pub open spec fn finishes(w: World, result: Result<PyObjectRef, PyBaseExceptionRef>) -> Next {
    match result {
        Ok(obj) => yields(w, Value::Object(obj)),
        Err(e) => raises(w, e),
    }
}

/// Calling `callable` while tracing is off: the slot runs at once. What has no call
/// slot cannot be called.
pub open spec fn untraced_next(w: World, callable: PyObjectRef, args: FuncArgsView) -> Next {
    match slot_of(w.heap, callable, SlotKind::Call) {
        None => raises_message(
            w,
            w.vm.ctx.exceptions.type_error,
            "'"@ + class_name(w.heap, callable) + "' object is not callable"@,
        ),
        Some(slot) => asks(
            w,
            Request::CallSlot { slot, callable, args },
            seq![Kont::Call(CallKont::InvokeReturn)],
        ),
    }
}

/// Calling `callable`: its call event is traced before its slot runs. What has
/// no call slot cannot be called.
#[verifier::opaque]
pub open spec fn invoke_next(w: World, callable: PyObjectRef, args: FuncArgsView) -> Next
{
    match slot_of(w.heap, callable, SlotKind::Call) {
        None => raises_message(
            w,
            w.vm.ctx.exceptions.type_error,
            "'"@ + class_name(w.heap, callable) + "' object is not callable"@,
        ),
        Some(slot) => {
            let n = trace_next(w, TraceEvent::Call);
            match n.step {
                StepView::Done(o) => invoke_traced(n.world, slot, callable, args, o),
                _ => waits(n, Kont::Call(CallKont::InvokeCall { slot, callable, args })),
            }
        },
    }
}

/// The call event was traced: the slot runs, unless tracing raised.
pub open spec fn invoke_traced(
    w: World,
    slot: SlotFunc,
    callable: PyObjectRef,
    args: FuncArgsView,
    o: OutcomeView,
) -> Next {
    match o {
        Err(e) => raises(w, e),
        Ok(_) => asks(
            w,
            Request::CallSlot { slot, callable, args },
            seq![Kont::Call(CallKont::InvokeReturn)],
        ),
    }
}

/// The slot has run, with a value or an exception.
pub open spec fn invoke_returned(w: World, o: OutcomeView) -> Next {
    match o {
        Ok(Value::Object(obj)) => invoke_return(w, Ok(obj)),
        Ok(_) => panics(w, PanicReason::UnexpectedReply),
        Err(e) => invoke_return(w, Err(e)),
    }
}

/// The return event is traced, whatever the slot did.
pub open spec fn invoke_return(w: World, result: Result<PyObjectRef, PyBaseExceptionRef>) -> Next {
    let n = trace_next(w, TraceEvent::Return);
    match n.step {
        StepView::Done(o) => invoke_done(n.world, result, o),
        _ => waits(n, Kont::Call(CallKont::InvokeDone { result })),
    }
}

/// The return event was traced: the call yields what the slot did, unless
/// tracing raised.
pub open spec fn invoke_done(
    w: World,
    result: Result<PyObjectRef, PyBaseExceptionRef>,
    o: OutcomeView,
) -> Next {
    match o {
        Err(e) => raises(w, e),
        Ok(_) => finishes(w, result),
    }
}

/// Tracing an event: nothing happens unless tracing is on, a trace or profile
/// function is set and a frame runs. The functions get the frame, the name of
/// the event and None.
#[verifier::opaque]
pub open spec fn trace_next(w: World, event: TraceEvent) -> Next
{
    let none = w.vm.ctx.none;
    if !w.vm.use_tracing || (w.vm.trace_func == none && w.vm.profile_func == none)
        || w.vm.frames.len() == 0 {
        yields(w, Value::Unit)
    } else {
        let args = seq![w.vm.frames.last().object, next_ref(w.heap), none];
        let w1 = World { vm: w.vm, heap: w.heap.push(str_object(w.vm.ctx, event.text())) };
        if w.vm.trace_func == none {
            trace_profile(w1, w.vm.profile_func, args)
        } else {
            let n = untraced_next(with_tracing(w1, false), w.vm.trace_func, positional(args));
            match n.step {
                StepView::Done(o) => trace_called(n.world, w.vm.profile_func, args, o),
                _ => waits(
                    n,
                    Kont::Call(CallKont::TraceProfile { profile_func: w.vm.profile_func, args }),
                ),
            }
        }
    }
}

/// The trace function has run: tracing is switched on again.
pub open spec fn trace_called(
    w: World,
    profile_func: PyObjectRef,
    args: Seq<PyObjectRef>,
    o: OutcomeView,
) -> Next
{
    let on = with_tracing(w, true);
    match o {
        Err(e) => raises(on, e),
        Ok(_) => trace_profile(on, profile_func, args),
    }
}

/// The profile function runs, with tracing switched off.
pub open spec fn trace_profile(w: World, profile_func: PyObjectRef, args: Seq<PyObjectRef>) -> Next
{
    if profile_func == w.vm.ctx.none {
        yields(w, Value::Unit)
    } else {
        let n = untraced_next(with_tracing(w, false), profile_func, positional(args));
        match n.step {
            StepView::Done(o) => trace_end(n.world, o),
            _ => waits(n, Kont::Call(CallKont::TraceEnd)),
        }
    }
}

/// The profile function has run: tracing is switched on again.
pub open spec fn trace_end(w: World, o: OutcomeView) -> Next {
    let on = with_tracing(w, true);
    match o {
        Err(e) => raises(on, e),
        Ok(_) => yields(on, Value::Unit),
    }
}

/// Binding a descriptor, if `descr` is one; otherwise nothing comes of it.
pub open spec fn descriptor_next(
    w: World,
    descr: PyObjectRef,
    obj: Option<PyObjectRef>,
    cls: Option<PyObjectRef>,
) -> Next {
    match slot_of(w.heap, descr, SlotKind::DescrGet) {
        None => yields(w, Value::Missing),
        Some(slot) => asks(w, Request::DescrGet { slot, descr, obj, cls }, Seq::empty()),
    }
}

/// Binding `descr` to `obj` and its class.
pub open spec fn bind_next(w: World, descr: PyObjectRef, obj: PyObjectRef) -> Next {
    descriptor_next(w, descr, Some(obj), Some(class_of(w.heap, obj)))
}

/// Binding `attr` to `obj`. What is no descriptor stays as it is.
pub open spec fn bind_attr_next(w: World, attr: PyObjectRef, obj: PyObjectRef) -> Next {
    match slot_of(w.heap, attr, SlotKind::DescrGet) {
        None => yields(w, Value::Object(attr)),
        Some(_) => bind_next(w, attr, obj),
    }
}

/// Calling a method that is looked up on the class of `obj`, as is done for
/// magic methods.
#[verifier::opaque]
pub open spec fn method_next(
    w: World,
    obj: PyObjectRef,
    method_name: Seq<char>,
    args: FuncArgsView,
) -> Next {
    match class_attr(w.heap, obj, method_name) {
        None => raises_message(
            w,
            w.vm.ctx.exceptions.type_error,
            "Unsupported method: "@ + method_name,
        ),
        Some(func) => {
            let n = bind_attr_next(w, func, obj);
            match n.step {
                StepView::Done(o) => method_bound(n.world, args, o),
                _ => waits(n, Kont::Call(CallKont::InvokeWrapped { args })),
            }
        },
    }
}

/// The method is bound: it is called.
pub open spec fn method_bound(w: World, args: FuncArgsView, o: OutcomeView) -> Next {
    match o {
        Ok(Value::Object(wrapped)) => invoke_next(w, wrapped, args),
        Ok(_) => panics(w, PanicReason::UnexpectedReply),
        Err(e) => raises(w, e),
    }
}

impl VirtualMachine {
    /// Calls an object.
    pub fn invoke(&mut self, heap: &mut Heap, callable: PyObjectRef, args: PyFuncArgs) -> (step:
        Step)
        ensures
            next(*final(self), *final(heap), step) == invoke_next(
                world(*old(self), *old(heap)),
                callable,
                args@,
            ),
    {
        reveal(invoke_next);
        match heap.slot_of(callable, SlotKind::Call) {
            None => self.invoke_untraced(heap, callable, args),
            Some(slot) => {
                let step = self.trace_event(heap, TraceEvent::Call);
                match step {
                    Step::Done(outcome) => self.invoke_traced(slot, callable, args, outcome),
                    step => step.beneath(Kont::Call(CallKont::InvokeCall { slot, callable, args })),
                }
            },
        }
    }

    /// Calls an object while tracing is off.
    fn invoke_untraced(&self, heap: &mut Heap, callable: PyObjectRef, args: PyFuncArgs) -> (step:
        Step)
        ensures
            next(*self, *final(heap), step) == untraced_next(
                world(*self, *old(heap)),
                callable,
                args@,
            ),
    {
        match heap.slot_of(callable, SlotKind::Call) {
            None => {
                let msg = "'".to_owned().concat(heap.class_name(callable).as_str()).concat(
                    "' object is not callable",
                );
                self.raise_msg(heap, self.ctx.exceptions.type_error, msg)
            },
            Some(slot) => Step::ask_for(
                Request::CallSlot { slot, callable, args },
                Kont::Call(CallKont::InvokeReturn),
            ),
        }
    }

    pub(crate) fn invoke_traced(
        &self,
        slot: SlotFunc,
        callable: PyObjectRef,
        args: PyFuncArgs,
        outcome: Outcome,
    ) -> (step: Step)
        ensures
            forall|w: World|
                (Next { world: w, step: step@ }) == #[trigger] invoke_traced(
                    w,
                    slot,
                    callable,
                    args@,
                    outcome_view(outcome),
                ),
    {
        match outcome {
            Err(e) => Step::Done(Err(e)),
            Ok(_) => Step::ask_for(
                Request::CallSlot { slot, callable, args },
                Kont::Call(CallKont::InvokeReturn),
            ),
        }
    }

    pub(crate) fn invoke_returned(&mut self, heap: &mut Heap, outcome: Outcome) -> (step: Step)
        ensures
            next(*final(self), *final(heap), step) == invoke_returned(
                world(*old(self), *old(heap)),
                outcome_view(outcome),
            ),
    {
        match outcome {
            Ok(Value::Object(obj)) => self.invoke_return(heap, Ok(obj)),
            Ok(_) => Step::Panic(PanicReason::UnexpectedReply),
            Err(e) => self.invoke_return(heap, Err(e)),
        }
    }

    fn invoke_return(
        &mut self,
        heap: &mut Heap,
        result: Result<PyObjectRef, PyBaseExceptionRef>,
    ) -> (step: Step)
        ensures
            next(*final(self), *final(heap), step) == invoke_return(
                world(*old(self), *old(heap)),
                result,
            ),
    {
        let step = self.trace_event(heap, TraceEvent::Return);
        match step {
            Step::Done(outcome) => VirtualMachine::invoke_done(result, outcome),
            step => step.beneath(Kont::Call(CallKont::InvokeDone { result })),
        }
    }

    pub(crate) fn invoke_done(
        result: Result<PyObjectRef, PyBaseExceptionRef>,
        outcome: Outcome,
    ) -> (step: Step)
        ensures
            forall|w: World|
                (Next { world: w, step: step@ }) == #[trigger] invoke_done(
                    w,
                    result,
                    outcome_view(outcome),
                ),
    {
        match outcome {
            Err(e) => Step::Done(Err(e)),
            Ok(_) => match result {
                Ok(obj) => Step::object(obj),
                Err(e) => Step::Done(Err(e)),
            },
        }
    }

    /// Calls the registered trace and profile functions. Tracing is switched off
    /// while they run.
    pub fn trace_event(&mut self, heap: &mut Heap, event: TraceEvent) -> (step: Step)
        ensures
            next(*final(self), *final(heap), step) == trace_next(
                world(*old(self), *old(heap)),
                event,
            ),
    {
        reveal(trace_next);
        if !self.use_tracing {
            return Step::Done(Ok(Value::Unit));
        }
        let none = self.ctx.none;
        let trace_func = self.trace_func;
        let profile_func = self.profile_func;
        if trace_func == none && profile_func == none {
            return Step::Done(Ok(Value::Unit));
        }
        if self.frames.len() == 0 {
            return Step::Done(Ok(Value::Unit));
        }
        let frame = self.frames[self.frames.len() - 1].object;
        let event_name = self.ctx.new_str(heap, event.to_text());
        let mut args: Vec<PyObjectRef> = Vec::new();
        args.push(frame);
        args.push(event_name);
        args.push(none);
        let ghost arg_view = seq![frame, event_name, none];
        assert(args@ =~= arg_view);
        if trace_func == none {
            return self.trace_profile(heap, profile_func, args);
        }
        self.use_tracing = false;
        let step = self.invoke_untraced(heap, trace_func, PyFuncArgs::positional(args.clone()));
        match step {
            Step::Done(outcome) => self.trace_called(heap, profile_func, args, outcome),
            step => step.beneath(Kont::Call(CallKont::TraceProfile { profile_func, args })),
        }
    }

    pub(crate) fn trace_called(
        &mut self,
        heap: &mut Heap,
        profile_func: PyObjectRef,
        args: Vec<PyObjectRef>,
        outcome: Outcome,
    ) -> (step: Step)
        ensures
            next(*final(self), *final(heap), step) == trace_called(
                world(*old(self), *old(heap)),
                profile_func,
                args@,
                outcome_view(outcome),
            ),
    {
        self.use_tracing = true;
        match outcome {
            Err(e) => Step::Done(Err(e)),
            Ok(_) => self.trace_profile(heap, profile_func, args),
        }
    }

    fn trace_profile(
        &mut self,
        heap: &mut Heap,
        profile_func: PyObjectRef,
        args: Vec<PyObjectRef>,
    ) -> (step: Step)
        ensures
            next(*final(self), *final(heap), step) == trace_profile(
                world(*old(self), *old(heap)),
                profile_func,
                args@,
            ),
    {
        if profile_func == self.ctx.none {
            return Step::Done(Ok(Value::Unit));
        }
        self.use_tracing = false;
        let step = self.invoke_untraced(heap, profile_func, PyFuncArgs::positional(args));
        match step {
            Step::Done(outcome) => self.trace_end(outcome),
            step => step.beneath(Kont::Call(CallKont::TraceEnd)),
        }
    }

    pub(crate) fn trace_end(&mut self, outcome: Outcome) -> (step: Step)
        ensures
            forall|h: Heap|
                #![trigger world(*old(self), h)]
                next(*final(self), h, step) == trace_end(
                    world(*old(self), h),
                    outcome_view(outcome),
                ),
    {
        self.use_tracing = true;
        match outcome {
            Err(e) => Step::Done(Err(e)),
            Ok(_) => Step::Done(Ok(Value::Unit)),
        }
    }

    /// Binds a descriptor to an object and a class. What is no descriptor yields
    /// a missing value.
    pub fn call_get_descriptor_specific(
        &self,
        heap: &Heap,
        descr: PyObjectRef,
        obj: Option<PyObjectRef>,
        cls: Option<PyObjectRef>,
    ) -> (step: Step)
        ensures
            next(*self, *heap, step) == descriptor_next(world(*self, *heap), descr, obj, cls),
    {
        match heap.slot_of(descr, SlotKind::DescrGet) {
            None => Step::Done(Ok(Value::Missing)),
            Some(slot) => Step::ask(Request::DescrGet { slot, descr, obj, cls }),
        }
    }

    /// Binds a descriptor to an object and its class. What is no descriptor
    /// yields a missing value.
    pub fn call_get_descriptor(&self, heap: &Heap, descr: PyObjectRef, obj: PyObjectRef) -> (step:
        Step)
        ensures
            next(*self, *heap, step) == bind_next(world(*self, *heap), descr, obj),
    {
        let cls = heap.class_of(obj);
        self.call_get_descriptor_specific(heap, descr, Some(obj), Some(cls))
    }

    /// Binds an attribute to an object. What is no descriptor stays as it is.
    pub fn call_if_get_descriptor(&self, heap: &Heap, attr: PyObjectRef, obj: PyObjectRef) -> (step:
        Step)
        ensures
            next(*self, *heap, step) == bind_attr_next(world(*self, *heap), attr, obj),
    {
        match self.call_get_descriptor(heap, attr, obj) {
            Step::Done(_) => Step::object(attr),
            step => step,
        }
    }

    /// Calls a method of an object. This is for magic methods, which use a
    /// greatly simplified attribute lookup.
    pub fn call_method(
        &mut self,
        heap: &mut Heap,
        obj: PyObjectRef,
        method_name: &String,
        args: PyFuncArgs,
    ) -> (step: Step)
        ensures
            next(*final(self), *final(heap), step) == method_next(
                world(*old(self), *old(heap)),
                obj,
                method_name@,
                args@,
            ),
    {
        reveal(method_next);
        match heap.get_class_attr(obj, method_name) {
            None => {
                let msg = "Unsupported method: ".to_owned().concat(method_name.as_str());
                self.raise_msg(heap, self.ctx.exceptions.type_error, msg)
            },
            Some(func) => {
                let step = self.call_if_get_descriptor(heap, func, obj);
                match step {
                    Step::Done(outcome) => self.method_bound(heap, args, outcome),
                    step => step.beneath(Kont::Call(CallKont::InvokeWrapped { args })),
                }
            },
        }
    }

    pub(crate) fn method_bound(
        &mut self,
        heap: &mut Heap,
        args: PyFuncArgs,
        outcome: Outcome,
    ) -> (step: Step)
        ensures
            next(*final(self), *final(heap), step) == method_bound(
                world(*old(self), *old(heap)),
                args@,
                outcome_view(outcome),
            ),
    {
        match outcome {
            Ok(Value::Object(wrapped)) => self.invoke(heap, wrapped, args),
            Ok(_) => Step::Panic(PanicReason::UnexpectedReply),
            Err(e) => Step::Done(Err(e)),
        }
    }
}

} // verus!

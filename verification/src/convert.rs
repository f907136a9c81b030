//! Conversions: strings, integers, lists of elements and truth values.
use crate::attributes::str_text;
use crate::calls::method_next;
use crate::context::{int_object, str_object, PyContext};
use crate::errors::raises_message;
use crate::machine::{
    asks, next, panics, raises, waits, world, yields, ConvertKont, Kont, Next, Step, StepView,
    VirtualMachine, World,
};
use crate::object::{
    class_attr, class_name, class_of, next_ref, payload_of, Heap, ObjectView, Payload, PayloadView,
    PyObjectRef, PyTypeRef,
};
use crate::protocol::{
    outcome_view, positional, Conversion, Outcome, OutcomeView, PanicReason, PyFuncArgs, Request,
    Value,
};
use vstd::prelude::*;
use vstd::string::*;

verus! {

/// A value of the host's language that can become a Python object.
pub enum NativeValue {
    Nothing,
    Bool(bool),
    Int(i128),
    Str(String),
    Object(PyObjectRef),
}

/// The heap after a native value became an object, and the object.
pub open spec fn native_made(ctx: PyContext, h: Seq<ObjectView>, value: NativeValue) -> (
    Seq<ObjectView>,
    PyObjectRef,
) {
    match value {
        NativeValue::Nothing => (h, ctx.none),
        NativeValue::Bool(b) => (h, crate::context::bool_ref(ctx, b)),
        NativeValue::Int(i) => (h.push(int_object(ctx, i)), next_ref(h)),
        NativeValue::Str(s) => (h.push(str_object(ctx, s@)), next_ref(h)),
        NativeValue::Object(obj) => (h, obj),
    }
}

/// An object, unless it is None.
pub open spec fn some_unless_none(ctx: PyContext, obj: PyObjectRef) -> Option<PyObjectRef> {
    if obj == ctx.none {
        None
    } else {
        Some(obj)
    }
}

/// An object, or None where there is none.
pub open spec fn none_unless_some(ctx: PyContext, obj: Option<PyObjectRef>) -> PyObjectRef {
    match obj {
        Some(obj) => obj,
        None => ctx.none,
    }
}

/// The string that `str()` gives: a string stays as it is, for anything else
/// `__str__` decides.
pub open spec fn to_str_next(w: World, obj: PyObjectRef) -> Next {
    if class_of(w.heap, obj) == w.vm.ctx.types.str_type {
        yields(w, Value::Object(obj))
    } else {
        str_method_next(w, obj, "__str__"@)
    }
}

/// The string that a method without arguments gives.
pub open spec fn str_method_next(w: World, obj: PyObjectRef, method: Seq<char>) -> Next {
    let n = method_next(w, obj, method, positional(Seq::empty()));
    match n.step {
        StepView::Done(o) => str_checked(n.world, o),
        _ => waits(n, Kont::Convert(ConvertKont::ToStr)),
    }
}

/// The object must be a string.
pub open spec fn str_checked(w: World, o: OutcomeView) -> Next {
    match o {
        Ok(Value::Object(obj)) => asks(
            w,
            Request::Convert { obj, to: Conversion::Str },
            Seq::empty(),
        ),
        Ok(_) => panics(w, PanicReason::UnexpectedReply),
        Err(e) => raises(w, e),
    }
}

/// The text that `str()` gives.
pub open spec fn to_pystr_next(w: World, obj: PyObjectRef) -> Next {
    let n = to_str_next(w, obj);
    match n.step {
        StepView::Done(o) => str_text_taken(n.world, o),
        _ => waits(n, Kont::Convert(ConvertKont::StrText)),
    }
}

/// The string is there.
pub open spec fn str_text_taken(w: World, o: OutcomeView) -> Next {
    match o {
        Ok(Value::Object(obj)) => yields(w, Value::Text(str_text(w.heap, obj))),
        Ok(_) => panics(w, PanicReason::UnexpectedReply),
        Err(e) => raises(w, e),
    }
}

/// The string that `ascii()` gives.
pub open spec fn to_ascii_next(w: World, obj: PyObjectRef) -> Next {
    let n = str_method_next(w, obj, "__repr__"@);
    match n.step {
        StepView::Done(o) => ascii_escape(n.world, o),
        _ => waits(n, Kont::Convert(ConvertKont::AsciiText)),
    }
}

/// The representation is there: what is not ASCII in it is escaped.
pub open spec fn ascii_escape(w: World, o: OutcomeView) -> Next {
    match o {
        Ok(Value::Object(obj)) => asks(
            w,
            Request::Ascii { text: str_text(w.heap, obj) },
            seq![Kont::Convert(ConvertKont::AsciiStr)],
        ),
        Ok(_) => panics(w, PanicReason::UnexpectedReply),
        Err(e) => raises(w, e),
    }
}

/// The escaped text becomes a string.
pub open spec fn ascii_made(w: World, o: OutcomeView) -> Next {
    match o {
        Ok(Value::Text(text)) => yields(
            World { vm: w.vm, heap: w.heap.push(str_object(w.vm.ctx, text)) },
            Value::Object(next_ref(w.heap)),
        ),
        Ok(_) => panics(w, PanicReason::UnexpectedReply),
        Err(e) => raises(w, e),
    }
}

/// The integer that an object can be used as: itself if it is one.
pub open spec fn to_index_next(w: World, obj: PyObjectRef) -> Next {
    asks(
        w,
        Request::Convert { obj, to: Conversion::Int },
        seq![Kont::Convert(ConvertKont::IndexTried { obj })],
    )
}

/// Otherwise `__index__` decides; without it there is no such integer.
pub open spec fn index_tried(w: World, obj: PyObjectRef, o: OutcomeView) -> Next {
    match o {
        Ok(Value::Object(val)) => yields(w, Value::Object(val)),
        Ok(_) => panics(w, PanicReason::UnexpectedReply),
        Err(_) => if class_attr(w.heap, obj, "__index__"@) is Some {
            let n = method_next(w, obj, "__index__"@, positional(Seq::empty()));
            match n.step {
                StepView::Done(o) => index_called(n.world, obj, o),
                _ => waits(n, Kont::Convert(ConvertKont::IndexCalled { obj })),
            }
        } else {
            yields(w, Value::Missing)
        },
    }
}

/// What `__index__` returned must be an integer.
pub open spec fn index_called(w: World, obj: PyObjectRef, o: OutcomeView) -> Next {
    match o {
        Ok(Value::Object(r)) => asks(
            w,
            Request::Convert { obj: r, to: Conversion::Int },
            seq![Kont::Convert(ConvertKont::IndexConverted { obj })],
        ),
        Ok(_) => panics(w, PanicReason::UnexpectedReply),
        Err(e) => raises(w, e),
    }
}

/// If it is none, a TypeError is raised.
pub open spec fn index_converted(w: World, obj: PyObjectRef, o: OutcomeView) -> Next {
    match o {
        Ok(Value::Object(val)) => yields(w, Value::Object(val)),
        Ok(_) => panics(w, PanicReason::UnexpectedReply),
        Err(_) => raises_message(
            w,
            w.vm.ctx.exceptions.type_error,
            "__index__ returned non-int (type "@ + class_name(w.heap, obj) + ")"@,
        ),
    }
}

/// The elements of an object, each converted: those of a tuple or list
/// directly, those of anything else through an iterator.
pub open spec fn extract_next(w: World, value: PyObjectRef, to: Conversion) -> Next {
    let cls = class_of(w.heap, value);
    let types = w.vm.ctx.types;
    if cls == types.tuple_type {
        match payload_of(w.heap, value) {
            PayloadView::Tuple(items) => elements_next(w, Seq::empty(), items, to),
            _ => panics(w, PanicReason::NoPayload(value)),
        }
    } else if cls == types.list_type {
        match payload_of(w.heap, value) {
            PayloadView::List(items) => elements_next(w, Seq::empty(), items, to),
            _ => panics(w, PanicReason::NoPayload(value)),
        }
    } else {
        asks(
            w,
            Request::GetIter { obj: value },
            seq![Kont::Convert(ConvertKont::ElementsIter { to })],
        )
    }
}

/// Converts what is left, in order.
pub open spec fn elements_next(
    w: World,
    done: Seq<PyObjectRef>,
    rest: Seq<PyObjectRef>,
    to: Conversion,
) -> Next {
    if rest.len() == 0 {
        yields(w, Value::Elements(done))
    } else {
        asks(
            w,
            Request::Convert { obj: rest[0], to },
            seq![Kont::Convert(ConvertKont::Elements { done, rest: rest.drop_first(), to })],
        )
    }
}

/// One element was converted.
pub open spec fn element_converted(
    w: World,
    done: Seq<PyObjectRef>,
    rest: Seq<PyObjectRef>,
    to: Conversion,
    o: OutcomeView,
) -> Next {
    match o {
        Ok(Value::Object(obj)) => elements_next(w, done.push(obj), rest, to),
        Ok(_) => panics(w, PanicReason::UnexpectedReply),
        Err(e) => raises(w, e),
    }
}

/// The iterator is there.
pub open spec fn elements_iter(w: World, to: Conversion, o: OutcomeView) -> Next {
    match o {
        Ok(Value::Object(iter)) => asks(w, Request::GetAll { iter, to }, Seq::empty()),
        Ok(_) => panics(w, PanicReason::UnexpectedReply),
        Err(e) => raises(w, e),
    }
}

/// Whether `obj` is an instance of `cls`: an exact match decides at once, for
/// anything else `__instancecheck__` of the class does.
pub open spec fn isinstance_next(w: World, obj: PyObjectRef, cls: PyTypeRef) -> Next {
    if class_of(w.heap, obj) == cls {
        yields(w, Value::Bool(true))
    } else {
        truth_method_next(w, cls, "__instancecheck__"@, obj)
    }
}

/// The truth value of what a method of a class gives for an object.
pub open spec fn truth_method_next(
    w: World,
    cls: PyTypeRef,
    method: Seq<char>,
    arg: PyObjectRef,
) -> Next {
    let n = method_next(w, cls, method, positional(seq![arg]));
    match n.step {
        StepView::Done(o) => truth_taken(n.world, o),
        _ => waits(n, Kont::Convert(ConvertKont::Truth)),
    }
}

/// The object is there: its truth value is taken.
pub open spec fn truth_taken(w: World, o: OutcomeView) -> Next {
    match o {
        Ok(Value::Object(obj)) => asks(w, Request::Truth { obj }, Seq::empty()),
        Ok(_) => panics(w, PanicReason::UnexpectedReply),
        Err(e) => raises(w, e),
    }
}

impl VirtualMachine {
    /// Create a new python object.
    pub fn new_pyobj(&self, heap: &mut Heap, value: NativeValue) -> (obj: PyObjectRef)
        ensures
            (final(heap)@, obj) == native_made(self.ctx, old(heap)@, value),
    {
        match value {
            NativeValue::Nothing => self.ctx.none,
            NativeValue::Bool(b) => self.ctx.new_bool(b),
            NativeValue::Int(i) => self.ctx.new_int(heap, i),
            NativeValue::Str(s) => self.ctx.new_str(heap, s),
            NativeValue::Object(obj) => obj,
        }
    }

    /// Test whether a python object is `None`.
    pub fn is_none(&self, obj: PyObjectRef) -> (b: bool)
        ensures
            b == (obj == self.ctx.none),
    {
        obj == self.ctx.none
    }

    /// The object, unless it is `None`.
    pub fn option_if_none(&self, obj: PyObjectRef) -> (opt: Option<PyObjectRef>)
        ensures
            opt == some_unless_none(self.ctx, obj),
    {
        if self.is_none(obj) {
            None
        } else {
            Some(obj)
        }
    }

    /// The object, or `None` where there is none.
    pub fn unwrap_or_none(&self, obj: Option<PyObjectRef>) -> (res: PyObjectRef)
        ensures
            res == none_unless_some(self.ctx, obj),
    {
        match obj {
            Some(obj) => obj,
            None => self.ctx.none,
        }
    }

    /// The string that `str()` gives.
    pub fn to_str(&mut self, heap: &mut Heap, obj: PyObjectRef) -> (step: Step)
        ensures
            next(*final(self), *final(heap), step) == to_str_next(
                world(*old(self), *old(heap)),
                obj,
            ),
    {
        if heap.class_of(obj) == self.ctx.types.str_type {
            Step::object(obj)
        } else {
            self.str_method(heap, obj, "__str__")
        }
    }

    fn str_method(&mut self, heap: &mut Heap, obj: PyObjectRef, method: &str) -> (step: Step)
        ensures
            next(*final(self), *final(heap), step) == str_method_next(
                world(*old(self), *old(heap)),
                obj,
                method@,
            ),
    {
        let step = self.call_method(
            heap,
            obj,
            &method.to_owned(),
            PyFuncArgs::positional(Vec::new()),
        );
        match step {
            Step::Done(outcome) => VirtualMachine::str_checked(outcome),
            step => step.beneath(Kont::Convert(ConvertKont::ToStr)),
        }
    }

    pub(crate) fn str_checked(outcome: Outcome) -> (step: Step)
        ensures
            forall|w: World|
                (Next { world: w, step: step@ }) == #[trigger] str_checked(
                    w,
                    outcome_view(outcome),
                ),
    {
        match outcome {
            Ok(Value::Object(obj)) => Step::ask(Request::Convert { obj, to: Conversion::Str }),
            Ok(_) => Step::Panic(PanicReason::UnexpectedReply),
            Err(e) => Step::Done(Err(e)),
        }
    }

    /// The text that `str()` gives.
    pub fn to_pystr(&mut self, heap: &mut Heap, obj: PyObjectRef) -> (step: Step)
        ensures
            next(*final(self), *final(heap), step) == to_pystr_next(
                world(*old(self), *old(heap)),
                obj,
            ),
    {
        let step = self.to_str(heap, obj);
        match step {
            Step::Done(outcome) => VirtualMachine::str_text_taken(heap, outcome),
            step => step.beneath(Kont::Convert(ConvertKont::StrText)),
        }
    }

    pub(crate) fn str_text_taken(heap: &Heap, outcome: Outcome) -> (step: Step)
        ensures
            forall|w: World|
                #![trigger str_text_taken(w, outcome_view(outcome))]
                w.heap == heap@ ==> (Next { world: w, step: step@ }) == str_text_taken(
                    w,
                    outcome_view(outcome),
                ),
    {
        match outcome {
            Ok(Value::Object(obj)) => Step::Done(Ok(Value::Text(heap.str_text(obj)))),
            Ok(_) => Step::Panic(PanicReason::UnexpectedReply),
            Err(e) => Step::Done(Err(e)),
        }
    }

    /// The string that `repr()` gives.
    pub fn to_repr(&mut self, heap: &mut Heap, obj: PyObjectRef) -> (step: Step)
        ensures
            next(*final(self), *final(heap), step) == str_method_next(
                world(*old(self), *old(heap)),
                obj,
                "__repr__"@,
            ),
    {
        self.str_method(heap, obj, "__repr__")
    }

    /// The string that `ascii()` gives.
    pub fn to_ascii(&mut self, heap: &mut Heap, obj: PyObjectRef) -> (step: Step)
        ensures
            next(*final(self), *final(heap), step) == to_ascii_next(
                world(*old(self), *old(heap)),
                obj,
            ),
    {
        let step = self.to_repr(heap, obj);
        match step {
            Step::Done(outcome) => VirtualMachine::ascii_escape(heap, outcome),
            step => step.beneath(Kont::Convert(ConvertKont::AsciiText)),
        }
    }

    pub(crate) fn ascii_escape(heap: &Heap, outcome: Outcome) -> (step: Step)
        ensures
            forall|w: World|
                #![trigger ascii_escape(w, outcome_view(outcome))]
                w.heap == heap@ ==> (Next { world: w, step: step@ }) == ascii_escape(
                    w,
                    outcome_view(outcome),
                ),
    {
        match outcome {
            Ok(Value::Object(obj)) => Step::ask_for(
                Request::Ascii { text: heap.str_text(obj) },
                Kont::Convert(ConvertKont::AsciiStr),
            ),
            Ok(_) => Step::Panic(PanicReason::UnexpectedReply),
            Err(e) => Step::Done(Err(e)),
        }
    }

    pub(crate) fn ascii_made(&self, heap: &mut Heap, outcome: Outcome) -> (step: Step)
        ensures
            next(*self, *final(heap), step) == ascii_made(
                world(*self, *old(heap)),
                outcome_view(outcome),
            ),
    {
        match outcome {
            Ok(Value::Text(text)) => Step::object(self.ctx.new_str(heap, text)),
            Ok(_) => Step::Panic(PanicReason::UnexpectedReply),
            Err(e) => Step::Done(Err(e)),
        }
    }

    /// The integer that an object can be used as. Yields a missing value for an
    /// object that is no integer and has no `__index__`.
    pub fn to_index(&self, obj: PyObjectRef) -> (step: Step)
        ensures
            forall|w: World|
                (Next { world: w, step: step@ }) == #[trigger] to_index_next(w, obj),
    {
        Step::ask_for(
            Request::Convert { obj, to: Conversion::Int },
            Kont::Convert(ConvertKont::IndexTried { obj }),
        )
    }

    pub(crate) fn index_tried(
        &mut self,
        heap: &mut Heap,
        obj: PyObjectRef,
        outcome: Outcome,
    ) -> (step: Step)
        ensures
            next(*final(self), *final(heap), step) == index_tried(
                world(*old(self), *old(heap)),
                obj,
                outcome_view(outcome),
            ),
    {
        match outcome {
            Ok(Value::Object(val)) => Step::object(val),
            Ok(_) => Step::Panic(PanicReason::UnexpectedReply),
            Err(_) => {
                let name = "__index__".to_owned();
                if heap.get_class_attr(obj, &name).is_some() {
                    let args = PyFuncArgs::positional(Vec::new());
                    let step = self.call_method(heap, obj, &name, args);
                    match step {
                        Step::Done(outcome) => VirtualMachine::index_called(obj, outcome),
                        step => step.beneath(Kont::Convert(ConvertKont::IndexCalled { obj })),
                    }
                } else {
                    Step::Done(Ok(Value::Missing))
                }
            },
        }
    }

    pub(crate) fn index_called(obj: PyObjectRef, outcome: Outcome) -> (step: Step)
        ensures
            forall|w: World|
                (Next { world: w, step: step@ }) == #[trigger] index_called(
                    w,
                    obj,
                    outcome_view(outcome),
                ),
    {
        match outcome {
            Ok(Value::Object(r)) => Step::ask_for(
                Request::Convert { obj: r, to: Conversion::Int },
                Kont::Convert(ConvertKont::IndexConverted { obj }),
            ),
            Ok(_) => Step::Panic(PanicReason::UnexpectedReply),
            Err(e) => Step::Done(Err(e)),
        }
    }

    pub(crate) fn index_converted(
        &self,
        heap: &mut Heap,
        obj: PyObjectRef,
        outcome: Outcome,
    ) -> (step: Step)
        ensures
            next(*self, *final(heap), step) == index_converted(
                world(*self, *old(heap)),
                obj,
                outcome_view(outcome),
            ),
    {
        match outcome {
            Ok(Value::Object(val)) => Step::object(val),
            Ok(_) => Step::Panic(PanicReason::UnexpectedReply),
            Err(_) => {
                let msg = "__index__ returned non-int (type ".to_owned().concat(
                    heap.class_name(obj).as_str(),
                ).concat(")");
                self.raise_msg(heap, self.ctx.exceptions.type_error, msg)
            },
        }
    }

    /// The elements of an object, each converted.
    pub fn extract_elements(&self, heap: &Heap, value: PyObjectRef, to: Conversion) -> (step: Step)
        ensures
            next(*self, *heap, step) == extract_next(world(*self, *heap), value, to),
    {
        let cls = heap.class_of(value);
        if cls == self.ctx.types.tuple_type {
            if value.id < heap.objects.len() {
                if let Payload::Tuple(items) = &heap.objects[value.id].payload {
                    return VirtualMachine::elements_next(Vec::new(), items.clone(), to);
                }
            }
            Step::Panic(PanicReason::NoPayload(value))
        } else if cls == self.ctx.types.list_type {
            if value.id < heap.objects.len() {
                if let Payload::List(items) = &heap.objects[value.id].payload {
                    return VirtualMachine::elements_next(Vec::new(), items.clone(), to);
                }
            }
            Step::Panic(PanicReason::NoPayload(value))
        } else {
            Step::ask_for(
                Request::GetIter { obj: value },
                Kont::Convert(ConvertKont::ElementsIter { to }),
            )
        }
    }

    fn elements_next(done: Vec<PyObjectRef>, rest: Vec<PyObjectRef>, to: Conversion) -> (step: Step)
        ensures
            forall|w: World|
                (Next { world: w, step: step@ }) == #[trigger] elements_next(w, done@, rest@, to),
    {
        if rest.len() == 0 {
            Step::Done(Ok(Value::Elements(done)))
        } else {
            let mut rest = rest;
            let ghost all = rest@;
            let obj = rest.remove(0);
            assert(rest@ =~= all.drop_first());
            Step::ask_for(
                Request::Convert { obj, to },
                Kont::Convert(ConvertKont::Elements { done, rest, to }),
            )
        }
    }

    pub(crate) fn element_converted(
        done: Vec<PyObjectRef>,
        rest: Vec<PyObjectRef>,
        to: Conversion,
        outcome: Outcome,
    ) -> (step: Step)
        ensures
            forall|w: World|
                (Next { world: w, step: step@ }) == #[trigger] element_converted(
                    w,
                    done@,
                    rest@,
                    to,
                    outcome_view(outcome),
                ),
    {
        match outcome {
            Ok(Value::Object(obj)) => {
                let mut done = done;
                done.push(obj);
                VirtualMachine::elements_next(done, rest, to)
            },
            Ok(_) => Step::Panic(PanicReason::UnexpectedReply),
            Err(e) => Step::Done(Err(e)),
        }
    }

    pub(crate) fn elements_iter(to: Conversion, outcome: Outcome) -> (step: Step)
        ensures
            forall|w: World|
                (Next { world: w, step: step@ }) == #[trigger] elements_iter(
                    w,
                    to,
                    outcome_view(outcome),
                ),
    {
        match outcome {
            Ok(Value::Object(iter)) => Step::ask(Request::GetAll { iter, to }),
            Ok(_) => Step::Panic(PanicReason::UnexpectedReply),
            Err(e) => Step::Done(Err(e)),
        }
    }

    /// Determines if `obj` is an instance of `cls`, either directly, indirectly or
    /// virtually via the __instancecheck__ magic method.
    pub fn isinstance(&mut self, heap: &mut Heap, obj: PyObjectRef, cls: PyTypeRef) -> (step: Step)
        ensures
            next(*final(self), *final(heap), step) == isinstance_next(
                world(*old(self), *old(heap)),
                obj,
                cls,
            ),
    {
        if heap.class_of(obj) == cls {
            Step::Done(Ok(Value::Bool(true)))
        } else {
            self.truth_method(heap, cls, "__instancecheck__", obj)
        }
    }

    /// Determines if `subclass` is a subclass of `cls`, either directly, indirectly
    /// or virtually via the __subclasscheck__ magic method.
    pub fn issubclass(&mut self, heap: &mut Heap, subclass: PyTypeRef, cls: PyTypeRef) -> (step:
        Step)
        ensures
            next(*final(self), *final(heap), step) == truth_method_next(
                world(*old(self), *old(heap)),
                cls,
                "__subclasscheck__"@,
                subclass,
            ),
    {
        self.truth_method(heap, cls, "__subclasscheck__", subclass)
    }

    fn truth_method(
        &mut self,
        heap: &mut Heap,
        cls: PyTypeRef,
        method: &str,
        arg: PyObjectRef,
    ) -> (step: Step)
        ensures
            next(*final(self), *final(heap), step) == truth_method_next(
                world(*old(self), *old(heap)),
                cls,
                method@,
                arg,
            ),
    {
        let mut args: Vec<PyObjectRef> = Vec::new();
        args.push(arg);
        assert(args@ =~= seq![arg]);
        let step = self.call_method(
            heap,
            cls,
            &method.to_owned(),
            PyFuncArgs::positional(args),
        );
        match step {
            Step::Done(outcome) => VirtualMachine::truth_taken(outcome),
            step => step.beneath(Kont::Convert(ConvertKont::Truth)),
        }
    }

    pub(crate) fn truth_taken(outcome: Outcome) -> (step: Step)
        ensures
            forall|w: World|
                (Next { world: w, step: step@ }) == #[trigger] truth_taken(
                    w,
                    outcome_view(outcome),
                ),
    {
        match outcome {
            Ok(Value::Object(obj)) => Step::ask(Request::Truth { obj }),
            Ok(_) => Step::Panic(PanicReason::UnexpectedReply),
            Err(e) => Step::Done(Err(e)),
        }
    }
}

} // verus!

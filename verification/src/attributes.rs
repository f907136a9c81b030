//! Attribute access.
use crate::calls::{bind_attr_next, bind_next, invoke_next, method_next};
use crate::errors::raises_message;
use crate::machine::{
    asks, next, panics, raises, waits, world, yields, AttributeKont, Kont, Next, Step, StepView,
    VirtualMachine, World,
};
use crate::object::{
    class_attr, class_of, dict_of, payload_of, slot_of, type_attr, Heap, ObjectView, Payload,
    PayloadView, PyDictRef, PyObjectRef, PyStrRef, PyTypeRef, SlotKind,
};
use crate::protocol::{
    outcome_view, positional, Outcome, OutcomeView, PanicReason, PyFuncArgs, Request, Value,
};
use vstd::prelude::*;
use vstd::string::*;

verus! {

/// The text of a string object. What is no string has none.
pub open spec fn str_text(h: Seq<ObjectView>, s: PyStrRef) -> Seq<char> {
    match payload_of(h, s) {
        PayloadView::Str(text) => text,
        _ => Seq::empty(),
    }
}

impl Heap {
    /// The text of a string object.
    pub fn str_text(&self, s: PyStrRef) -> (text: String)
        ensures
            text@ == str_text(self@, s),
    {
        if s.id < self.objects.len() {
            match &self.objects[s.id].payload {
                Payload::Str(text) => text.clone(),
                _ => String::new(),
            }
        } else {
            String::new()
        }
    }
}

/// Full attribute access: the slot of the class decides.
pub open spec fn getattr_next(w: World, obj: PyObjectRef, name: PyStrRef) -> Next {
    match slot_of(w.heap, obj, SlotKind::GetAttro) {
        None => panics(w, PanicReason::MissingSlot(SlotKind::GetAttro)),
        Some(slot) => asks(w, Request::GetAttr { slot, obj, name }, Seq::empty()),
    }
}

/// Setting an attribute is up to `__setattr__`.
pub open spec fn setattr_next(
    w: World,
    obj: PyObjectRef,
    name: PyStrRef,
    value: PyObjectRef,
) -> Next {
    method_next(w, obj, "__setattr__"@, positional(seq![name, value]))
}

/// Deleting an attribute is up to `__delattr__`.
pub open spec fn delattr_next(w: World, obj: PyObjectRef, name: PyObjectRef) -> Next {
    let n = method_next(w, obj, "__delattr__"@, positional(seq![name]));
    match n.step {
        StepView::Done(o) => discarded(n.world, o),
        _ => waits(n, Kont::Attribute(AttributeKont::Discard)),
    }
}

/// Whatever the value was, it is forgotten.
pub open spec fn discarded(w: World, o: OutcomeView) -> Next {
    match o {
        Ok(_) => yields(w, Value::Unit),
        Err(e) => raises(w, e),
    }
}

/// The method `name` of `obj`, bound to it; missing where the class has none.
pub open spec fn get_method_next(w: World, obj: PyObjectRef, name: Seq<char>) -> Next {
    match class_attr(w.heap, obj, name) {
        None => yields(w, Value::Missing),
        Some(method) => bind_attr_next(w, method, obj),
    }
}

/// Whether a class attribute takes precedence over the instance dictionary: it
/// can be bound, and its class has `__set__`.
pub open spec fn is_data_descriptor(h: Seq<ObjectView>, attr: PyObjectRef) -> bool {
    class_attr(h, attr, "__set__"@) is Some && slot_of(h, attr, SlotKind::DescrGet) is Some
}

/// Generic attribute lookup: a data descriptor of the class comes first, then
/// the instance dictionary, then any other attribute of the class, then
/// `__getattr__`. If there is none of them the attribute is missing.
pub open spec fn generic_getattr_next(
    w: World,
    obj: PyObjectRef,
    name: PyStrRef,
    dict: Option<PyDictRef>,
) -> Next {
    let text = str_text(w.heap, name);
    let cls = class_of(w.heap, obj);
    let cls_attr = type_attr(w.heap, cls, text);
    if cls_attr is Some && is_data_descriptor(w.heap, cls_attr->0) {
        bind_next(w, cls_attr->0, obj)
    } else {
        match (if dict is Some { dict } else { dict_of(w.heap, obj) }) {
            Some(dict) => asks(
                w,
                Request::DictGet { dict, key: text },
                seq![Kont::Attribute(AttributeKont::GetattrDict { obj, name, cls, cls_attr })],
            ),
            None => getattr_from_class(w, obj, name, cls, cls_attr),
        }
    }
}

/// The instance dictionary was asked.
pub open spec fn getattr_looked_up(
    w: World,
    obj: PyObjectRef,
    name: PyStrRef,
    cls: PyTypeRef,
    cls_attr: Option<PyObjectRef>,
    o: OutcomeView,
) -> Next {
    match o {
        Ok(Value::Object(value)) => yields(w, Value::Object(value)),
        Ok(Value::Missing) => getattr_from_class(w, obj, name, cls, cls_attr),
        Ok(_) => panics(w, PanicReason::UnexpectedReply),
        Err(e) => raises(w, e),
    }
}

/// The instance has no such attribute of its own.
pub open spec fn getattr_from_class(
    w: World,
    obj: PyObjectRef,
    name: PyStrRef,
    cls: PyTypeRef,
    cls_attr: Option<PyObjectRef>,
) -> Next {
    match cls_attr {
        Some(attr) => bind_attr_next(w, attr, obj),
        None => match type_attr(w.heap, cls, "__getattr__"@) {
            Some(getter) => invoke_next(w, getter, positional(seq![obj, name])),
            None => yields(w, Value::Missing),
        },
    }
}

/// Generic attribute lookup that raises an AttributeError where the attribute is
/// missing.
pub open spec fn generic_getattribute_next(w: World, obj: PyObjectRef, name: PyStrRef) -> Next {
    let n = generic_getattr_next(w, obj, name, None);
    match n.step {
        StepView::Done(o) => getattr_checked(n.world, obj, name, o),
        _ => waits(n, Kont::Attribute(AttributeKont::GetattrRaise { obj, name })),
    }
}

/// The lookup is over: where the attribute is missing, the object's display is
/// needed for the message.
pub open spec fn getattr_checked(
    w: World,
    obj: PyObjectRef,
    name: PyStrRef,
    o: OutcomeView,
) -> Next {
    match o {
        Ok(Value::Missing) => asks(
            w,
            Request::Display { obj },
            seq![Kont::Attribute(AttributeKont::GetattrMessage { name })],
        ),
        Ok(v) => yields(w, v),
        Err(e) => raises(w, e),
    }
}

/// The object's display is there.
pub open spec fn getattr_displayed(w: World, name: PyStrRef, o: OutcomeView) -> Next {
    match o {
        Ok(Value::Text(text)) => raises_message(
            w,
            w.vm.ctx.exceptions.attribute_error,
            text + " has no attribute '"@ + str_text(w.heap, name) + "'"@,
        ),
        Ok(_) => panics(w, PanicReason::UnexpectedReply),
        Err(e) => raises(w, e),
    }
}

impl VirtualMachine {
    /// Full attribute access, usually from user code.
    pub fn get_attribute(&self, heap: &Heap, obj: PyObjectRef, attr_name: PyStrRef) -> (step: Step)
        ensures
            next(*self, *heap, step) == getattr_next(world(*self, *heap), obj, attr_name),
    {
        match heap.slot_of(obj, SlotKind::GetAttro) {
            None => Step::Panic(PanicReason::MissingSlot(SlotKind::GetAttro)),
            Some(slot) => Step::ask(Request::GetAttr { slot, obj, name: attr_name }),
        }
    }

    /// Sets an attribute.
    pub fn set_attr(
        &mut self,
        heap: &mut Heap,
        obj: PyObjectRef,
        attr_name: PyStrRef,
        attr_value: PyObjectRef,
    ) -> (step: Step)
        ensures
            next(*final(self), *final(heap), step) == setattr_next(
                world(*old(self), *old(heap)),
                obj,
                attr_name,
                attr_value,
            ),
    {
        let mut args: Vec<PyObjectRef> = Vec::new();
        args.push(attr_name);
        args.push(attr_value);
        assert(args@ =~= seq![attr_name, attr_value]);
        self.call_method(heap, obj, &"__setattr__".to_owned(), PyFuncArgs::positional(args))
    }

    /// Deletes an attribute.
    pub fn del_attr(&mut self, heap: &mut Heap, obj: PyObjectRef, attr_name: PyObjectRef) -> (step:
        Step)
        ensures
            next(*final(self), *final(heap), step) == delattr_next(
                world(*old(self), *old(heap)),
                obj,
                attr_name,
            ),
    {
        let mut args: Vec<PyObjectRef> = Vec::new();
        args.push(attr_name);
        assert(args@ =~= seq![attr_name]);
        let step = self.call_method(
            heap,
            obj,
            &"__delattr__".to_owned(),
            PyFuncArgs::positional(args),
        );
        match step {
            Step::Done(outcome) => VirtualMachine::discard(outcome),
            step => step.beneath(Kont::Attribute(AttributeKont::Discard)),
        }
    }

    pub(crate) fn discard(outcome: Outcome) -> (step: Step)
        ensures
            forall|w: World|
                (Next { world: w, step: step@ }) == #[trigger] discarded(w, outcome_view(outcome)),
    {
        match outcome {
            Ok(_) => Step::Done(Ok(Value::Unit)),
            Err(e) => Step::Done(Err(e)),
        }
    }

    /// Internal access to a magic method, by-passing the full getattribute
    /// look-up. Where there is none, a TypeError with `err_msg` is raised.
    pub fn get_method_or_type_error<F>(
        &self,
        heap: &mut Heap,
        obj: PyObjectRef,
        method_name: &String,
        err_msg: F,
    ) -> (step: Step) where F: FnOnce() -> String
        requires
            err_msg.requires(()),
        ensures
            match class_attr(old(heap)@, obj, method_name@) {
                Some(method) => next(*self, *final(heap), step) == bind_attr_next(
                    world(*self, *old(heap)),
                    method,
                    obj,
                ),
                None => exists|msg: String|
                    err_msg.ensures((), msg) && next(*self, *final(heap), step)
                        == #[trigger] raises_message(
                        world(*self, *old(heap)),
                        self.ctx.exceptions.type_error,
                        msg@,
                    ),
            },
    {
        match heap.get_class_attr(obj, method_name) {
            Some(method) => self.call_if_get_descriptor(heap, method, obj),
            None => {
                let msg = err_msg();
                self.raise_msg(heap, self.ctx.exceptions.type_error, msg)
            },
        }
    }

    /// Internal access to a magic method. May raise, if a `__get__` descriptor
    /// raises.
    pub fn get_method(&self, heap: &Heap, obj: PyObjectRef, method_name: &String) -> (step: Step)
        ensures
            next(*self, *heap, step) == get_method_next(world(*self, *heap), obj, method_name@),
    {
        match heap.get_class_attr(obj, method_name) {
            None => Step::Done(Ok(Value::Missing)),
            Some(method) => self.call_if_get_descriptor(heap, method, obj),
        }
    }

    /// Generic attribute lookup; raises where there is no such attribute.
    pub fn generic_getattribute(
        &mut self,
        heap: &mut Heap,
        obj: PyObjectRef,
        name: PyStrRef,
    ) -> (step: Step)
        ensures
            next(*final(self), *final(heap), step) == generic_getattribute_next(
                world(*old(self), *old(heap)),
                obj,
                name,
            ),
    {
        let step = self.generic_getattribute_opt(heap, obj, name, None);
        match step {
            Step::Done(outcome) => VirtualMachine::getattr_checked(obj, name, outcome),
            step => step.beneath(Kont::Attribute(AttributeKont::GetattrRaise { obj, name })),
        }
    }

    pub(crate) fn getattr_checked(
        obj: PyObjectRef,
        name: PyStrRef,
        outcome: Outcome,
    ) -> (step: Step)
        ensures
            forall|w: World|
                (Next { world: w, step: step@ }) == #[trigger] getattr_checked(
                    w,
                    obj,
                    name,
                    outcome_view(outcome),
                ),
    {
        match outcome {
            Ok(Value::Missing) => Step::ask_for(
                Request::Display { obj },
                Kont::Attribute(AttributeKont::GetattrMessage { name }),
            ),
            Ok(v) => Step::Done(Ok(v)),
            Err(e) => Step::Done(Err(e)),
        }
    }

    pub(crate) fn getattr_displayed(
        &self,
        heap: &mut Heap,
        name: PyStrRef,
        outcome: Outcome,
    ) -> (step: Step)
        ensures
            next(*self, *final(heap), step) == getattr_displayed(
                world(*self, *old(heap)),
                name,
                outcome_view(outcome),
            ),
    {
        match outcome {
            Ok(Value::Text(text)) => {
                let msg = text.concat(" has no attribute '").concat(
                    heap.str_text(name).as_str(),
                ).concat("'");
                self.raise_msg(heap, self.ctx.exceptions.attribute_error, msg)
            },
            Ok(_) => Step::Panic(PanicReason::UnexpectedReply),
            Err(e) => Step::Done(Err(e)),
        }
    }

    /// Generic attribute lookup, in the instance dictionary or in `dict` in its
    /// place. Yields a missing value where there is no such attribute.
    pub fn generic_getattribute_opt(
        &mut self,
        heap: &mut Heap,
        obj: PyObjectRef,
        name_str: PyStrRef,
        dict: Option<PyDictRef>,
    ) -> (step: Step)
        ensures
            next(*final(self), *final(heap), step) == generic_getattr_next(
                world(*old(self), *old(heap)),
                obj,
                name_str,
                dict,
            ),
    {
        let text = heap.str_text(name_str);
        let cls = heap.class_of(obj);
        let cls_attr = heap.type_attr(cls, &text);
        if let Some(attr) = cls_attr {
            if heap.get_class_attr(attr, &"__set__".to_owned()).is_some() {
                let step = self.call_get_descriptor(heap, attr, obj);
                match step {
                    Step::Done(_) => {},
                    step => {
                        return step;
                    },
                }
            }
        }
        let dict = match dict {
            Some(dict) => Some(dict),
            None => heap.dict_of(obj),
        };
        match dict {
            Some(dict) => Step::ask_for(
                Request::DictGet { dict, key: text },
                Kont::Attribute(AttributeKont::GetattrDict { obj, name: name_str, cls, cls_attr }),
            ),
            None => self.getattr_from_class(heap, obj, name_str, cls, cls_attr),
        }
    }

    pub(crate) fn getattr_looked_up(
        &mut self,
        heap: &mut Heap,
        obj: PyObjectRef,
        name: PyStrRef,
        cls: PyTypeRef,
        cls_attr: Option<PyObjectRef>,
        outcome: Outcome,
    ) -> (step: Step)
        ensures
            next(*final(self), *final(heap), step) == getattr_looked_up(
                world(*old(self), *old(heap)),
                obj,
                name,
                cls,
                cls_attr,
                outcome_view(outcome),
            ),
    {
        match outcome {
            Ok(Value::Object(value)) => Step::object(value),
            Ok(Value::Missing) => self.getattr_from_class(heap, obj, name, cls, cls_attr),
            Ok(_) => Step::Panic(PanicReason::UnexpectedReply),
            Err(e) => Step::Done(Err(e)),
        }
    }

    fn getattr_from_class(
        &mut self,
        heap: &mut Heap,
        obj: PyObjectRef,
        name: PyStrRef,
        cls: PyTypeRef,
        cls_attr: Option<PyObjectRef>,
    ) -> (step: Step)
        ensures
            next(*final(self), *final(heap), step) == getattr_from_class(
                world(*old(self), *old(heap)),
                obj,
                name,
                cls,
                cls_attr,
            ),
    {
        match cls_attr {
            Some(attr) => self.call_if_get_descriptor(heap, attr, obj),
            None => match heap.type_attr(cls, &"__getattr__".to_owned()) {
                Some(getter) => {
                    let mut args: Vec<PyObjectRef> = Vec::new();
                    args.push(obj);
                    args.push(name);
                    assert(args@ =~= seq![obj, name]);
                    self.invoke(heap, getter, PyFuncArgs::positional(args))
                },
                None => Step::Done(Ok(Value::Missing)),
            },
        }
    }

    /// Whether an object can be called.
    pub fn is_callable(&self, heap: &Heap, obj: PyObjectRef) -> (b: bool)
        ensures
            b == (slot_of(heap@, obj, SlotKind::Call) is Some),
    {
        heap.slot_of(obj, SlotKind::Call).is_some()
    }

    /// Sets an attribute of a module directly, as is done when it is made.
    pub fn __module_set_attr(
        &self,
        module: PyObjectRef,
        attr_name: PyStrRef,
        attr_value: PyObjectRef,
    ) -> (step: Step)
        ensures
            step@ == StepView::Ask(
                Request::SetModuleAttr { module, name: attr_name, value: attr_value },
                Seq::empty(),
            ),
    {
        Step::ask(Request::SetModuleAttr { module, name: attr_name, value: attr_value })
    }
}

} // verus!

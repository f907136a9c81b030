//! Laws about attribute access and conversions.
use crate::attributes::{
    generic_getattr_next, generic_getattribute_next, getattr_checked, is_data_descriptor, str_text,
};
use crate::calls::{bind_attr_next, bind_next, invoke_next};
use crate::context::PyContext;
use crate::convert::{
    elements_next, extract_next, isinstance_next, none_unless_some, some_unless_none, to_index_next,
    to_pystr_next, to_str_next,
};
use crate::errors::raises_message;
use crate::machine::{yields, AttributeKont, ConvertKont, Kont, Next, StepView, World};
use crate::object::{class_of, payload_of, type_attr, PayloadView, PyDictRef, PyObjectRef, PyStrRef};
use crate::protocol::{positional, Conversion, Request, Value, ValueView};
use crate::resume::{applies_attribute, applies_convert, apply_attribute, apply_convert};
use crate::runs::{asks_for, drive, followed, run_goes_on, run_of_one_request, span, Reply};
use vstd::prelude::*;

verus! {

broadcast use crate::runs::run_stops, crate::runs::span_stops;

/// The attribute that the class of an object has under a name.
pub open spec fn own_class_attr(w: World, obj: PyObjectRef, name: PyStrRef) -> Option<PyObjectRef> {
    type_attr(w.heap, class_of(w.heap, obj), str_text(w.heap, name))
}

/// A data descriptor of the class comes before everything else: the instance
/// dictionary is not asked.
pub proof fn data_descriptor_comes_first(
    w: World,
    obj: PyObjectRef,
    name: PyStrRef,
    dict: Option<PyDictRef>,
)
    requires
        own_class_attr(w, obj, name) is Some,
        is_data_descriptor(w.heap, own_class_attr(w, obj, name)->0),
    ensures
        generic_getattr_next(w, obj, name, dict) == bind_next(
            w,
            own_class_attr(w, obj, name)->0,
            obj,
        ),
{
}

/// Without a data descriptor the instance dictionary is asked, and what is in it
/// counts. What is not in it comes from the class: an attribute is bound to the
/// object; without one `__getattr__` is called; without that the attribute is
/// missing.
pub proof fn instance_dictionary_comes_second(
    w: World,
    obj: PyObjectRef,
    name: PyStrRef,
    dict: PyDictRef,
    replies: Seq<Reply>,
)
    requires
        own_class_attr(w, obj, name) is Some ==> !is_data_descriptor(
            w.heap,
            own_class_attr(w, obj, name)->0,
        ),
        replies.len() > 0,
    ensures
        ({
            let n = generic_getattr_next(w, obj, name, Some(dict));
            let reply = replies[0];
            let rest = replies.drop_first();
            &&& asks_for(n, Request::DictGet { dict, key: str_text(w.heap, name) })
            &&& match reply.outcome {
                Ok(Value::Object(value)) => drive(n, replies) == yields(
                    reply.world,
                    Value::Object(value),
                ),
                Ok(Value::Missing) => drive(n, replies) == drive(
                    match own_class_attr(w, obj, name) {
                        Some(attr) => bind_attr_next(reply.world, attr, obj),
                        None => match type_attr(
                            reply.world.heap,
                            class_of(w.heap, obj),
                            "__getattr__"@,
                        ) {
                            Some(getter) => invoke_next(
                                reply.world,
                                getter,
                                positional(seq![obj, name]),
                            ),
                            None => yields(reply.world, Value::Missing),
                        },
                    },
                    rest,
                ),
                Err(_) => drive(n, replies) == (Next {
                    world: reply.world,
                    step: StepView::Done(reply.outcome),
                }),
                _ => drive(n, replies).step is Panic,
            }
        }),
{
    reveal(apply_attribute);
    let cls = class_of(w.heap, obj);
    let cls_attr = own_class_attr(w, obj, name);
    let k = AttributeKont::GetattrDict { obj, name, cls, cls_attr };
    applies_attribute(k);
    run_of_one_request(
        generic_getattr_next(w, obj, name, Some(dict)),
        Kont::Attribute(k),
        replies,
    );
}

/// An attribute access raises an AttributeError if and only if the lookup finds the
/// attribute missing; otherwise it is the lookup.
pub proof fn missing_attribute_raises(
    w: World,
    obj: PyObjectRef,
    name: PyStrRef,
    replies: Seq<Reply>,
)
    ensures
        ({
            let lookup = generic_getattr_next(w, obj, name, None);
            let m = drive(lookup, replies);
            let rest = replies.skip(span(lookup, replies) as int);
            let end = drive(generic_getattribute_next(w, obj, name), replies);
            match m.step {
                StepView::Done(Ok(Value::Missing)) => if rest.len() == 0 {
                    asks_for(end, Request::Display { obj })
                } else {
                    rest[0].outcome matches Ok(Value::Text(text)) ==> end == raises_message(
                        rest[0].world,
                        rest[0].world.vm.ctx.exceptions.attribute_error,
                        text + " has no attribute '"@ + str_text(rest[0].world.heap, name) + "'"@,
                    )
                },
                StepView::Done(_) => end == m,
                _ => true,
            }
        }),
{
    reveal(raises_message);
    reveal(apply_attribute);
    let lookup = generic_getattr_next(w, obj, name, None);
    let m = drive(lookup, replies);
    let rest = replies.skip(span(lookup, replies) as int);
    let k = AttributeKont::GetattrRaise { obj, name };
    let k1 = AttributeKont::GetattrMessage { name };
    applies_attribute(k);
    applies_attribute(k1);
    assert(generic_getattribute_next(w, obj, name) == followed(lookup, Kont::Attribute(k)));
    run_goes_on(lookup, Kont::Attribute(k), replies);
    if m.step == StepView::Done(Ok(ValueView::Missing)) && rest.len() > 0 {
        run_of_one_request(
            getattr_checked(m.world, obj, name, Ok(Value::Missing)),
            Kont::Attribute(k1),
            rest,
        );
    }
}

/// To leave None out and to put it in undo each other: of every object the one, of
/// everything but None itself the other.
pub proof fn none_and_nothing(ctx: PyContext, obj: PyObjectRef, opt: Option<PyObjectRef>)
    ensures
        none_unless_some(ctx, some_unless_none(ctx, obj)) == obj,
        opt != Some(ctx.none) ==> some_unless_none(ctx, none_unless_some(ctx, opt)) == opt,
{
}

/// An object is an instance of its own class, and nothing is asked.
pub proof fn instance_of_own_class(w: World, obj: PyObjectRef)
    ensures
        isinstance_next(w, obj, class_of(w.heap, obj)) == yields(w, Value::Bool(true)),
{
}

/// A string is its own string, and its text is read at once.
pub proof fn string_of_a_string(w: World, obj: PyObjectRef)
    requires
        class_of(w.heap, obj) == w.vm.ctx.types.str_type,
    ensures
        to_str_next(w, obj) == yields(w, Value::Object(obj)),
        to_pystr_next(w, obj) == yields(w, Value::Text(str_text(w.heap, obj))),
{
}

/// What converts to an integer is its own index; `__index__` is not asked.
pub proof fn index_of_an_integer(w: World, obj: PyObjectRef, world: World, val: PyObjectRef)
    ensures
        drive(
            to_index_next(w, obj),
            seq![Reply { world, outcome: Ok(Value::Object(val)) }],
        ) == yields(world, Value::Object(val)),
{
    reveal(apply_convert);
    let replies = seq![Reply { world, outcome: Ok(Value::Object(val)) }];
    let k = ConvertKont::IndexTried { obj };
    applies_convert(k);
    run_of_one_request(to_index_next(w, obj), Kont::Convert(k), replies);
    assert(replies.drop_first() =~= Seq::empty());
}

/// The objects in replies that yield objects.
pub open spec fn objects_of(replies: Seq<Reply>) -> Seq<PyObjectRef> {
    replies.map_values(|r: Reply| r.outcome->Ok_0->Object_0)
}

/// Elements are converted one by one, in order, and all of them come out.
pub proof fn elements_come_in_order(
    w: World,
    done: Seq<PyObjectRef>,
    items: Seq<PyObjectRef>,
    to: Conversion,
    replies: Seq<Reply>,
)
    requires
        replies.len() == items.len(),
        forall|i: int|
            0 <= i < replies.len() ==> (#[trigger] replies[i]).outcome is Ok
                && replies[i].outcome->Ok_0 is Object,
    ensures
        drive(elements_next(w, done, items, to), replies) == yields(
            if replies.len() == 0 {
                w
            } else {
                replies.last().world
            },
            Value::Elements(done + objects_of(replies)),
        ),
    decreases items.len(),
{
    if items.len() == 0 {
        assert(done + objects_of(replies) =~= done);
    } else {
        reveal(apply_convert);
        let rest = items.drop_first();
        let obj = replies[0].outcome->Ok_0->Object_0;
        let k = ConvertKont::Elements { done, rest, to };
        applies_convert(k);
        run_of_one_request(elements_next(w, done, items, to), Kont::Convert(k), replies);
        let others = replies.drop_first();
        assert forall|i: int| 0 <= i < others.len() implies (#[trigger] others[i]).outcome is Ok
            && others[i].outcome->Ok_0 is Object by {
            assert(others[i] == replies[i + 1]);
        }
        elements_come_in_order(replies[0].world, done.push(obj), rest, to, others);
        assert(done.push(obj) + objects_of(others) =~= done + objects_of(replies));
    }
}

/// The elements of a tuple or a list are its items, each converted.
pub proof fn elements_of_a_tuple_or_list(
    w: World,
    value: PyObjectRef,
    items: Seq<PyObjectRef>,
    to: Conversion,
    replies: Seq<Reply>,
)
    requires
        ({
            let cls = class_of(w.heap, value);
            let types = w.vm.ctx.types;
            let payload = payload_of(w.heap, value);
            ||| cls == types.tuple_type && payload == PayloadView::Tuple(items)
            ||| cls == types.list_type && cls != types.tuple_type && payload
                == PayloadView::List(items)
        }),
        replies.len() == items.len(),
        forall|i: int|
            0 <= i < replies.len() ==> (#[trigger] replies[i]).outcome is Ok
                && replies[i].outcome->Ok_0 is Object,
    ensures
        drive(extract_next(w, value, to), replies).step == StepView::Done(
            Ok(ValueView::Elements(objects_of(replies))),
        ),
{
    elements_come_in_order(w, Seq::empty(), items, to, replies);
    assert(Seq::<PyObjectRef>::empty() + objects_of(replies) =~= objects_of(replies));
}

} // verus!

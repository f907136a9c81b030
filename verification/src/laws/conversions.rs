//! What conversions and checks of instances ask, and what they make of it.
use crate::attributes::str_text;
use crate::calls::method_next;
use crate::compile::code_object;
use crate::context::{bool_ref, dict_object, list_object, tuple_object, PyContext};
use crate::convert::{
    elements_next, extract_next, index_converted, index_tried, isinstance_next, native_made,
    str_method_next, to_ascii_next, to_index_next, to_pystr_next, to_str_next, truth_method_next,
    NativeValue,
};
use crate::errors::raises_message;
use crate::laws::asked::{has_room, is_text, raises_new, raising_makes_the_exception};
use crate::laws::steps::extends;
use crate::laws::taken::{
    takes_ascii_str, takes_ascii_text, takes_elements, takes_elements_iter, takes_index_called,
    takes_index_converted, takes_index_tried, takes_str_text, takes_to_str, takes_truth,
};
use crate::machine::{raises, yields, ConvertKont, Kont, KontView, Next, StepView, World};
use crate::object::{
    class_attr, class_of, payload_of, type_at, ObjectView, PayloadView, PyObjectRef, PyTypeRef,
};
use crate::protocol::{positional, Conversion, Request, RequestView, Value};
use crate::resume::apply_next;
use crate::runs::{
    asks_for, drive, followed, run_goes_on, run_of_last_request, run_of_one_request, span, Reply,
};
use vstd::prelude::*;

verus! {

broadcast use crate::runs::run_stops, crate::runs::span_stops;

/// Whether a run first goes as that of `call` does. Where that comes to an object, the
/// host is asked for `request` of the object, and its reply is what the run comes to;
/// what it raises is raised.
pub open spec fn ends_with_reply(
    n: Next,
    call: Next,
    request: spec_fn(PyObjectRef) -> RequestView,
    replies: Seq<Reply>,
) -> bool {
    let m = drive(call, replies);
    let rest = replies.skip(span(call, replies) as int);
    let end = drive(n, replies);
    match m.step {
        StepView::Done(Ok(Value::Object(obj))) => if rest.len() == 0 {
            end.world == m.world && asks_for(end, request(obj))
        } else {
            end == (Next { world: rest[0].world, step: StepView::Done(rest[0].outcome) })
        },
        StepView::Done(Err(_)) => end == m,
        _ => true,
    }
}

/// The truth value of what a method of a class returns for an argument is asked, and is
/// the result; so where it is false, the result is false.
pub proof fn method_decides(
    w: World,
    cls: PyTypeRef,
    method: Seq<char>,
    arg: PyObjectRef,
    replies: Seq<Reply>,
)
    ensures
        ends_with_reply(
            truth_method_next(w, cls, method, arg),
            method_next(w, cls, method, positional(seq![arg])),
            |obj: PyObjectRef| Request::Truth { obj },
            replies,
        ),
{
    let args = positional(seq![arg]);
    let call = method_next(w, cls, method, args);
    let k: KontView = Kont::Convert(ConvertKont::Truth);
    takes_truth();
    assert(truth_method_next(w, cls, method, arg) == followed(call, k));
    run_goes_on(call, k, replies);
    let m = drive(call, replies);
    let rest = replies.skip(span(call, replies) as int);
    if m.step is Done && rest.len() > 0 {
        let asked = apply_next(m.world, k, m.step->Done_0);
        if asked.step is Ask {
            run_of_last_request(asked, rest);
        }
    }
}

/// Of an object of another class `__instancecheck__` of the class decides: the truth
/// value of what it returns for the object is the answer. For subclasses
/// `__subclasscheck__` does.
pub proof fn checks_decide(
    w: World,
    obj: PyObjectRef,
    cls: PyTypeRef,
    subclass: PyTypeRef,
    replies: Seq<Reply>,
)
    ensures
        class_of(w.heap, obj) != cls ==> ends_with_reply(
            isinstance_next(w, obj, cls),
            method_next(w, cls, "__instancecheck__"@, positional(seq![obj])),
            |obj: PyObjectRef| Request::Truth { obj },
            replies,
        ),
        ends_with_reply(
            truth_method_next(w, cls, "__subclasscheck__"@, subclass),
            method_next(w, cls, "__subclasscheck__"@, positional(seq![subclass])),
            |obj: PyObjectRef| Request::Truth { obj },
            replies,
        ),
{
    method_decides(w, cls, "__instancecheck__"@, obj, replies);
    method_decides(w, cls, "__subclasscheck__"@, subclass, replies);
}

/// What a method without arguments returns must be a string: it is converted to one.
/// `str()` takes `__str__` of what is no string.
pub proof fn string_methods_give_strings(
    w: World,
    obj: PyObjectRef,
    method: Seq<char>,
    replies: Seq<Reply>,
)
    ensures
        ends_with_reply(
            str_method_next(w, obj, method),
            method_next(w, obj, method, positional(Seq::empty())),
            |obj: PyObjectRef| Request::Convert { obj, to: Conversion::Str },
            replies,
        ),
        class_of(w.heap, obj) != w.vm.ctx.types.str_type ==> to_str_next(w, obj)
            == str_method_next(w, obj, "__str__"@),
{
    let call = method_next(w, obj, method, positional(Seq::empty()));
    let k: KontView = Kont::Convert(ConvertKont::ToStr);
    takes_to_str();
    assert(str_method_next(w, obj, method) == followed(call, k));
    run_goes_on(call, k, replies);
    let m = drive(call, replies);
    let rest = replies.skip(span(call, replies) as int);
    if m.step is Done && rest.len() > 0 {
        let asked = apply_next(m.world, k, m.step->Done_0);
        if asked.step is Ask {
            run_of_last_request(asked, rest);
        }
    }
}

/// The text of an object is the text of the string that `str()` gives.
pub proof fn text_is_that_of_the_string(w: World, obj: PyObjectRef, replies: Seq<Reply>)
    ensures
        ({
            let m = drive(to_str_next(w, obj), replies);
            let end = drive(to_pystr_next(w, obj), replies);
            &&& end.world == m.world
            &&& match m.step {
                StepView::Done(Ok(Value::Object(s))) => end == yields(
                    m.world,
                    Value::Text(str_text(m.world.heap, s)),
                ),
                StepView::Done(Err(_)) => end == m,
                _ => true,
            }
        }),
{
    let n = to_str_next(w, obj);
    let k: KontView = Kont::Convert(ConvertKont::StrText);
    takes_str_text();
    assert(to_pystr_next(w, obj) == followed(n, k));
    run_goes_on(n, k, replies);
}

/// The text of a string object is what the object holds.
pub proof fn text_of_a_string(h: Seq<ObjectView>, s: PyObjectRef, text: Seq<char>)
    requires
        is_text(h, s, text),
    ensures
        str_text(h, s) == text,
{
}

/// `ascii()` takes the representation, has the host escape its text, and gives a new
/// string with the escaped text.
pub proof fn ascii_escapes_the_representation(w: World, obj: PyObjectRef, replies: Seq<Reply>)
    ensures
        ({
            let repr = str_method_next(w, obj, "__repr__"@);
            let m = drive(repr, replies);
            let rest = replies.skip(span(repr, replies) as int);
            let end = drive(to_ascii_next(w, obj), replies);
            match m.step {
                StepView::Done(Ok(Value::Object(s))) => if rest.len() == 0 {
                    &&& end.world == m.world
                    &&& asks_for(end, Request::Ascii { text: str_text(m.world.heap, s) })
                } else {
                    match rest[0].outcome {
                        Ok(Value::Text(text)) => has_room(rest[0].world) ==> {
                            &&& end.step matches StepView::Done(Ok(Value::Object(a))) && is_text(
                                end.world.heap,
                                a,
                                text,
                            ) && class_of(end.world.heap, a) == end.world.vm.ctx.types.str_type
                            &&& end.world.vm == rest[0].world.vm
                            &&& extends(end.world.heap, rest[0].world.heap)
                        },
                        Err(e) => end == raises(rest[0].world, e),
                        _ => end.step is Panic,
                    }
                },
                StepView::Done(Err(_)) => end == m,
                _ => true,
            }
        }),
{
    let repr = str_method_next(w, obj, "__repr__"@);
    let k: KontView = Kont::Convert(ConvertKont::AsciiText);
    takes_ascii_text();
    assert(to_ascii_next(w, obj) == followed(repr, k));
    run_goes_on(repr, k, replies);
    let m = drive(repr, replies);
    let rest = replies.skip(span(repr, replies) as int);
    if m.step is Done && rest.len() > 0 {
        let asked = apply_next(m.world, k, m.step->Done_0);
        if asked.step is Ask {
            takes_ascii_str();
            run_of_one_request(asked, Kont::Convert(ConvertKont::AsciiStr), rest);
        }
    }
}

/// An index is asked for as an integer first. For what is none, `__index__` of its class
/// is called; without that there is no index.
pub proof fn index_needs_an_integer(w: World, obj: PyObjectRef, first: Reply, replies: Seq<Reply>)
    requires
        first.outcome is Err,
    ensures
        to_index_next(w, obj).world == w,
        asks_for(to_index_next(w, obj), Request::Convert { obj, to: Conversion::Int }),
        drive(to_index_next(w, obj), seq![first] + replies) == drive(
            index_tried(first.world, obj, first.outcome),
            replies,
        ),
        class_attr(first.world.heap, obj, "__index__"@) is None ==> index_tried(
            first.world,
            obj,
            first.outcome,
        ) == yields(first.world, Value::Missing),
{
    let n = to_index_next(w, obj);
    let all = seq![first] + replies;
    takes_index_tried(obj);
    run_of_one_request(n, Kont::Convert(ConvertKont::IndexTried { obj }), all);
    assert(all.drop_first() =~= replies);
}

/// What `__index__` returns is asked for as an integer in turn, and that is the index.
/// If it is none, a TypeError names the class of the object.
pub proof fn index_method_gives_an_integer(
    w: World,
    obj: PyObjectRef,
    failed: PyObjectRef,
    replies: Seq<Reply>,
)
    requires
        class_attr(w.heap, obj, "__index__"@) is Some,
    ensures
        ({
            let call = method_next(w, obj, "__index__"@, positional(Seq::empty()));
            let m = drive(call, replies);
            let rest = replies.skip(span(call, replies) as int);
            let end = drive(index_tried(w, obj, Err(failed)), replies);
            match m.step {
                StepView::Done(Ok(Value::Object(r))) => if rest.len() == 0 {
                    &&& end.world == m.world
                    &&& asks_for(end, Request::Convert { obj: r, to: Conversion::Int })
                } else {
                    index_is_checked(end, obj, rest[0])
                },
                StepView::Done(Err(_)) => end == m,
                _ => true,
            }
        }),
{
    let call = method_next(w, obj, "__index__"@, positional(Seq::empty()));
    let k: KontView = Kont::Convert(ConvertKont::IndexCalled { obj });
    takes_index_called(obj);
    assert(index_tried(w, obj, Err(failed)) == followed(call, k));
    run_goes_on(call, k, replies);
    let m = drive(call, replies);
    let rest = replies.skip(span(call, replies) as int);
    if m.step is Done && rest.len() > 0 {
        let asked = apply_next(m.world, k, m.step->Done_0);
        if asked.step is Ask {
            takes_index_converted(obj);
            run_of_one_request(
                asked,
                Kont::Convert(ConvertKont::IndexConverted { obj }),
                rest,
            );
            index_ends(obj, rest[0]);
        }
    }
}

/// Whether an index is what the host converted it to, or a TypeError where it could not.
pub open spec fn index_is_checked(n: Next, obj: PyObjectRef, reply: Reply) -> bool {
    let w = reply.world;
    match reply.outcome {
        Ok(Value::Object(val)) => n == yields(w, Value::Object(val)),
        Err(_) => has_room(w) ==> raises_new(
            n,
            w,
            w.vm.ctx.exceptions.type_error,
            "__index__ returned non-int (type "@ + type_at(w.heap, class_of(w.heap, obj)).name
                + ")"@,
        ),
        _ => n.step is Panic,
    }
}

proof fn index_ends(obj: PyObjectRef, reply: Reply)
    ensures
        index_is_checked(index_converted(reply.world, obj, reply.outcome), obj, reply),
        !(index_converted(reply.world, obj, reply.outcome).step is Ask),
{
    let w = reply.world;
    if has_room(w) {
        raising_makes_the_exception(
            w,
            w.vm.ctx.exceptions.type_error,
            "__index__ returned non-int (type "@ + type_at(w.heap, class_of(w.heap, obj)).name
                + ")"@,
        );
    }
    assert(!(index_converted(w, obj, reply.outcome).step is Ask)) by {
        reveal(raises_message);
    }
}

/// The next element to be converted is the first of those that are left, and one that
/// cannot be converted ends it all with its exception.
pub proof fn each_element_is_converted(
    w: World,
    done: Seq<PyObjectRef>,
    items: Seq<PyObjectRef>,
    to: Conversion,
    reply: Reply,
)
    requires
        items.len() > 0,
    ensures
        elements_next(w, done, items, to).world == w,
        asks_for(elements_next(w, done, items, to), Request::Convert { obj: items[0], to }),
        ({
            let end = drive(elements_next(w, done, items, to), seq![reply]);
            match reply.outcome {
                Ok(Value::Object(obj)) => end == elements_next(
                    reply.world,
                    done.push(obj),
                    items.drop_first(),
                    to,
                ),
                Err(e) => end == raises(reply.world, e),
                _ => end.step is Panic,
            }
        }),
{
    let k = ConvertKont::Elements { done, rest: items.drop_first(), to };
    takes_elements(done, items.drop_first(), to);
    run_of_one_request(elements_next(w, done, items, to), Kont::Convert(k), seq![reply]);
    assert(seq![reply].drop_first() =~= Seq::empty());
}

/// The elements of a tuple or a list are its items, from the first on. Those of anything
/// else come from an iterator over it, which the host exhausts.
pub proof fn elements_come_from_items_or_an_iterator(
    w: World,
    value: PyObjectRef,
    to: Conversion,
    first: Reply,
    second: Reply,
)
    ensures
        ({
            let n = extract_next(w, value, to);
            let cls = class_of(w.heap, value);
            let types = w.vm.ctx.types;
            let asked = drive(n, seq![first]);
            &&& cls == types.tuple_type ==> match payload_of(w.heap, value) {
                PayloadView::Tuple(items) => n == elements_next(w, Seq::empty(), items, to),
                _ => n.step is Panic,
            }
            &&& cls == types.list_type && cls != types.tuple_type ==> match payload_of(
                w.heap,
                value,
            ) {
                PayloadView::List(items) => n == elements_next(w, Seq::empty(), items, to),
                _ => n.step is Panic,
            }
            &&& cls != types.list_type && cls != types.tuple_type ==> {
                &&& n.world == w
                &&& asks_for(n, Request::GetIter { obj: value })
                &&& match first.outcome {
                    Ok(Value::Object(iter)) => {
                        &&& asked.world == first.world
                        &&& asks_for(asked, Request::GetAll { iter, to })
                        &&& drive(n, seq![first, second]) == (Next {
                            world: second.world,
                            step: StepView::Done(second.outcome),
                        })
                    },
                    Err(e) => asked == raises(first.world, e),
                    _ => asked.step is Panic,
                }
            }
        }),
{
    let n = extract_next(w, value, to);
    let cls = class_of(w.heap, value);
    let types = w.vm.ctx.types;
    if cls != types.list_type && cls != types.tuple_type {
        let k = ConvertKont::ElementsIter { to };
        takes_elements_iter(to);
        run_of_one_request(n, Kont::Convert(k), seq![first]);
        run_of_one_request(n, Kont::Convert(k), seq![first, second]);
        assert(seq![first].drop_first() =~= Seq::empty());
        assert(seq![first, second].drop_first() =~= seq![second]);
        let asked = apply_next(first.world, Kont::Convert(k), first.outcome);
        if asked.step is Ask {
            run_of_last_request(asked, seq![second]);
        }
    }
}

/// A native value becomes the object that it is: nothing None, a truth value True or
/// False, a number or a text a new object that holds it, and an object itself.
pub proof fn native_values_are_kept(ctx: PyContext, h: Seq<ObjectView>, value: NativeValue)
    requires
        h.len() < usize::MAX,
    ensures
        ({
            let (after, obj) = native_made(ctx, h, value);
            &&& extends(after, h)
            &&& match value {
                NativeValue::Nothing => obj == ctx.none && after == h,
                NativeValue::Bool(true) => obj == ctx.true_value && after == h,
                NativeValue::Bool(false) => obj == ctx.false_value && after == h,
                NativeValue::Int(i) => payload_of(after, obj) == PayloadView::Int(i) && class_of(
                    after,
                    obj,
                ) == ctx.types.int_type,
                NativeValue::Str(s) => is_text(after, obj, s@) && class_of(after, obj)
                    == ctx.types.str_type,
                NativeValue::Object(o) => obj == o && after == h,
            }
        }),
        bool_ref(ctx, true) == ctx.true_value,
        bool_ref(ctx, false) == ctx.false_value,
{
}

/// A container holds the items that it is made of, and is of its class.
pub proof fn containers_hold_their_items(ctx: PyContext, items: Seq<PyObjectRef>, code: u64)
    ensures
        tuple_object(ctx, items).payload == PayloadView::Tuple(items),
        tuple_object(ctx, items).class == ctx.types.tuple_type,
        list_object(ctx, items).payload == PayloadView::List(items),
        list_object(ctx, items).class == ctx.types.list_type,
        dict_object(ctx).class == ctx.types.dict_type,
        code_object(ctx, code).payload == PayloadView::Native(code),
        code_object(ctx, code).class == ctx.types.code_type,
{
}

} // verus!

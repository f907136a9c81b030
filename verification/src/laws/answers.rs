//! What the operands of a comparison answer, and what the comparison makes of it.
use crate::compare::{
    bool_next, compare_forwarded, compare_next, compare_reflected, hash_next,
    identical_or_equal_next, membership_advance, membership_next, object_next,
};
use crate::errors::{operand_message, raises_message};
use crate::laws::asked::{has_room, raises_new, raising_makes_the_exception};
use crate::laws::taken::{
    takes_compare_forward, takes_compare_object, takes_compare_reflected, takes_compare_reverse,
    takes_compare_truth, takes_membership_iter,
};
use crate::machine::{yields, CompareKont, Kont, KontView, Next, StepView, World};
use crate::object::{class_attr, class_of, slot_of, type_at, ObjectView, PyObjectRef, SlotKind};
use crate::protocol::{OutcomeView, PyComparisonOp, Request, Value};
use crate::resume::apply_next;
use crate::runs::{
    asks_for, drive, followed, run_goes_on, run_of_last_request, run_of_one_request, span, Reply,
};
use vstd::prelude::*;

verus! {

broadcast use crate::runs::run_stops, crate::runs::span_stops;

/// The operator that says the same with its operands exchanged, and how each operator
/// is written.
pub proof fn operators_are_mirrored()
    ensures
        PyComparisonOp::Lt.spec_swapped() == PyComparisonOp::Gt,
        PyComparisonOp::Gt.spec_swapped() == PyComparisonOp::Lt,
        PyComparisonOp::Le.spec_swapped() == PyComparisonOp::Ge,
        PyComparisonOp::Ge.spec_swapped() == PyComparisonOp::Le,
        PyComparisonOp::Eq.spec_swapped() == PyComparisonOp::Eq,
        PyComparisonOp::Ne.spec_swapped() == PyComparisonOp::Ne,
        PyComparisonOp::Lt.token() == "<"@,
        PyComparisonOp::Gt.token() == ">"@,
        PyComparisonOp::Le.token() == "<="@,
        PyComparisonOp::Ge.token() == ">="@,
        PyComparisonOp::Eq.token() == "=="@,
        PyComparisonOp::Ne.token() == "!="@,
{
}

/// Whether the right operand is asked before the left one: its class is another one and
/// derives from that of the left one.
pub open spec fn right_comes_first(h: Seq<ObjectView>, x: PyObjectRef, y: PyObjectRef) -> bool {
    class_of(h, x) != class_of(h, y) && type_at(h, class_of(h, y)).mro.contains(class_of(h, x))
}

/// Whether an operation asks the comparison slot of `obj` how it compares to `other`.
pub open spec fn asks_operand(
    n: Next,
    w: World,
    obj: PyObjectRef,
    other: PyObjectRef,
    op: PyComparisonOp,
) -> bool {
    match slot_of(w.heap, obj, SlotKind::Compare) {
        Some(slot) => n.world == w && asks_for(n, Request::Compare { slot, obj, other, op }),
        None => n.step is Panic,
    }
}

/// Whether an operand does not implement the comparison.
pub open spec fn refuses(w: World, o: OutcomeView) -> bool {
    o == OutcomeView::Ok(Value::Missing) || o == OutcomeView::Ok(
        Value::Object(w.vm.ctx.not_implemented),
    )
}

/// Whether the answer of an operand is what the comparison comes to.
pub open spec fn passes_on(n: Next, reply: Reply) -> bool {
    match reply.outcome {
        Ok(Value::Object(_)) | Ok(Value::Bool(_)) | Err(_) => n == (Next {
            world: reply.world,
            step: StepView::Done(reply.outcome),
        }),
        _ => n.step is Panic,
    }
}

/// The left operand is asked how it compares to the right one, or the right one first
/// where its class derives from that of the left one. An answer is the result. One that
/// does not implement the comparison has the other operand asked, the other way round.
pub proof fn first_operand_answers(
    w: World,
    x: PyObjectRef,
    y: PyObjectRef,
    op: PyComparisonOp,
    reply: Reply,
)
    ensures
        ({
            let n = compare_next(w, x, y, op);
            let m = drive(n, seq![reply]);
            let mirrored = op.spec_swapped();
            if right_comes_first(w.heap, x, y) {
                &&& asks_operand(n, w, y, x, mirrored)
                &&& n.step is Ask ==> if refuses(reply.world, reply.outcome) {
                    asks_operand(m, reply.world, x, y, op)
                } else {
                    passes_on(m, reply)
                }
            } else {
                &&& asks_operand(n, w, x, y, op)
                &&& n.step is Ask ==> if refuses(reply.world, reply.outcome) {
                    asks_operand(m, reply.world, y, x, mirrored)
                } else {
                    passes_on(m, reply)
                }
            }
        }),
{
    reveal(compare_next);
    takes_compare_reverse(x, y, op);
    takes_compare_forward(x, y, op, false);
    let n = compare_next(w, x, y, op);
    let o = reply.outcome;
    let replies = seq![reply];
    assert(replies.drop_first() =~= Seq::empty());
    if n.step is Ask {
        if right_comes_first(w.heap, x, y) {
            let k: KontView = Kont::Compare(CompareKont::CompareReverse { v: x, w: y, op });
            run_of_one_request(n, k, replies);
        } else {
            let k: KontView = Kont::Compare(
                CompareKont::CompareForward { v: x, w: y, op, reversed: false },
            );
            run_of_one_request(n, k, replies);
        }
    }
}

/// Whether an answer that nobody can be asked after decides a comparison: it is the
/// result. Where it does not implement the comparison either, an object is equal to
/// itself and unequal to every other one, and any order is a TypeError that names the
/// operator and both classes.
pub open spec fn answer_decides(
    n: Next,
    x: PyObjectRef,
    y: PyObjectRef,
    op: PyComparisonOp,
    reply: Reply,
) -> bool {
    let w = reply.world;
    if !refuses(w, reply.outcome) {
        passes_on(n, reply)
    } else {
        match op {
            PyComparisonOp::Eq => n == yields(w, Value::Bool(x == y)),
            PyComparisonOp::Ne => n == yields(w, Value::Bool(x != y)),
            _ => has_room(w) ==> raises_new(
                n,
                w,
                w.vm.ctx.exceptions.type_error,
                operand_message(w.heap, x, y, op.token()),
            ),
        }
    }
}

proof fn last_answer_decides(x: PyObjectRef, y: PyObjectRef, op: PyComparisonOp, reply: Reply)
    ensures
        answer_decides(
            compare_reflected(reply.world, x, y, op, reply.outcome),
            x,
            y,
            op,
            reply,
        ),
        !(compare_reflected(reply.world, x, y, op, reply.outcome).step is Ask),
        compare_forwarded(reply.world, x, y, op, true, reply.outcome) == compare_reflected(
            reply.world,
            x,
            y,
            op,
            reply.outcome,
        ),
{
    let w = reply.world;
    if has_room(w) {
        raising_makes_the_exception(
            w,
            w.vm.ctx.exceptions.type_error,
            operand_message(w.heap, x, y, op.token()),
        );
    }
    assert(!(compare_reflected(w, x, y, op, reply.outcome).step is Ask)) by {
        reveal(raises_message);
    }
}

/// The answer of the operand that is asked second decides.
pub proof fn second_operand_answers(
    w: World,
    x: PyObjectRef,
    y: PyObjectRef,
    op: PyComparisonOp,
    first: Reply,
    second: Reply,
)
    requires
        compare_next(w, x, y, op).step is Ask,
        refuses(first.world, first.outcome),
        drive(compare_next(w, x, y, op), seq![first]).step is Ask,
    ensures
        answer_decides(
            drive(compare_next(w, x, y, op), seq![first, second]),
            x,
            y,
            op,
            second,
        ),
{
    reveal(compare_next);
    takes_compare_reverse(x, y, op);
    takes_compare_forward(x, y, op, false);
    takes_compare_forward(x, y, op, true);
    takes_compare_reflected(x, y, op);
    last_answer_decides(x, y, op, second);
    let n = compare_next(w, x, y, op);
    let replies = seq![first, second];
    assert(replies.drop_first() =~= seq![second]);
    assert(seq![first].drop_first() =~= Seq::empty());
    assert(seq![second].drop_first() =~= Seq::empty());
    let (k, k1): (KontView, KontView) = if right_comes_first(w.heap, x, y) {
        (
            Kont::Compare(CompareKont::CompareReverse { v: x, w: y, op }),
            Kont::Compare(CompareKont::CompareForward { v: x, w: y, op, reversed: true }),
        )
    } else {
        (
            Kont::Compare(CompareKont::CompareForward { v: x, w: y, op, reversed: false }),
            Kont::Compare(CompareKont::CompareReflected { v: x, w: y, op }),
        )
    };
    run_of_one_request(n, k, replies);
    run_of_one_request(n, k, seq![first]);
    run_of_one_request(apply_next(first.world, k, first.outcome), k1, seq![second]);
}

/// A comparison as an object: a truth value becomes the object True or False that it
/// is, an object stays what it is, and an exception is raised.
pub proof fn comparison_as_an_object(
    w: World,
    a: PyObjectRef,
    b: PyObjectRef,
    op: PyComparisonOp,
    replies: Seq<Reply>,
)
    ensures
        ({
            let m = drive(compare_next(w, a, b, op), replies);
            let end = drive(object_next(w, a, b, op), replies);
            let ctx = m.world.vm.ctx;
            &&& end.world == m.world
            &&& match m.step {
                StepView::Done(Ok(Value::Bool(true))) => end == yields(
                    m.world,
                    Value::Object(ctx.true_value),
                ),
                StepView::Done(Ok(Value::Bool(false))) => end == yields(
                    m.world,
                    Value::Object(ctx.false_value),
                ),
                StepView::Done(Ok(Value::Object(_))) => end == m,
                StepView::Done(Err(_)) => end == m,
                _ => true,
            }
        }),
{
    let n = compare_next(w, a, b, op);
    let k: KontView = Kont::Compare(CompareKont::CompareObject);
    takes_compare_object();
    let m = drive(n, replies);
    assert(object_next(w, a, b, op) == followed(n, k));
    run_goes_on(n, k, replies);
}

/// A comparison as a truth value: a truth value stays what it is, of an object the truth
/// value is asked, and an exception is raised.
pub proof fn comparison_as_a_truth_value(
    w: World,
    a: PyObjectRef,
    b: PyObjectRef,
    op: PyComparisonOp,
    replies: Seq<Reply>,
)
    ensures
        ({
            let n = compare_next(w, a, b, op);
            let m = drive(n, replies);
            let rest = replies.skip(span(n, replies) as int);
            let end = drive(bool_next(w, a, b, op), replies);
            match m.step {
                StepView::Done(Ok(Value::Bool(_))) => end == m,
                StepView::Done(Ok(Value::Object(obj))) => if rest.len() == 0 {
                    end.world == m.world && asks_for(end, Request::Truth { obj })
                } else {
                    end == (Next {
                        world: rest[0].world,
                        step: StepView::Done(rest[0].outcome),
                    })
                },
                StepView::Done(Err(_)) => end == m,
                _ => true,
            }
        }),
{
    reveal(bool_next);
    let n = compare_next(w, a, b, op);
    let k: KontView = Kont::Compare(CompareKont::CompareTruth);
    takes_compare_truth();
    let m = drive(n, replies);
    assert(bool_next(w, a, b, op) == followed(n, k));
    run_goes_on(n, k, replies);
    let rest = replies.skip(span(n, replies) as int);
    if m.step is Done && rest.len() > 0 {
        let asked = apply_next(m.world, k, m.step->Done_0);
        if asked.step is Ask {
            run_of_last_request(asked, rest);
        }
    }
}

/// Two objects that are not the same are identical or equal if they are equal.
pub proof fn equality_of_different_objects(w: World, a: PyObjectRef, b: PyObjectRef)
    requires
        a != b,
    ensures
        identical_or_equal_next(w, a, b) == bool_next(w, a, b, PyComparisonOp::Eq),
{
}

/// The hash of an object is what the slot of its class gives for it.
pub proof fn hash_is_up_to_the_slot(w: World, obj: PyObjectRef, reply: Reply)
    ensures
        match slot_of(w.heap, obj, SlotKind::Hash) {
            Some(slot) => {
                let n = hash_next(w, obj);
                &&& n.world == w
                &&& asks_for(n, Request::Hash { slot, obj })
                &&& drive(n, seq![reply]) == (Next {
                    world: reply.world,
                    step: StepView::Done(reply.outcome),
                })
            },
            None => hash_next(w, obj).step is Panic,
        },
{
    if slot_of(w.heap, obj, SlotKind::Hash) is Some {
        run_of_last_request(hash_next(w, obj), seq![reply]);
    }
}

/// Without `__contains__` a container is searched: an iterator over it is made, and its
/// elements are asked for one after the other.
pub proof fn search_begins(
    w: World,
    haystack: PyObjectRef,
    needle: PyObjectRef,
    replies: Seq<Reply>,
)
    requires
        class_attr(w.heap, haystack, "__contains__"@) is None,
        replies.len() > 0,
    ensures
        ({
            let n = membership_next(w, haystack, needle);
            let first = replies[0];
            &&& n.world == w
            &&& asks_for(n, Request::GetIter { obj: haystack })
            &&& match first.outcome {
                Ok(Value::Object(iter)) => {
                    &&& drive(n, replies) == drive(
                        membership_advance(first.world, iter, needle),
                        replies.drop_first(),
                    )
                    &&& membership_advance(first.world, iter, needle).world == first.world
                    &&& asks_for(
                        membership_advance(first.world, iter, needle),
                        Request::NextObject { iter },
                    )
                },
                Err(_) => drive(n, replies) == (Next {
                    world: first.world,
                    step: StepView::Done(first.outcome),
                }),
                _ => drive(n, replies).step is Panic,
            }
        }),
{
    let k: KontView = Kont::Compare(CompareKont::MembershipIter { needle });
    takes_membership_iter(needle);
    run_of_one_request(membership_next(w, haystack, needle), k, replies);
}

} // verus!

//! Laws about comparisons and membership.
use crate::compare::{
    bool_next, compare_forwarded, compare_next, compare_reflected, compare_replied, declines,
    identical_or_equal_next, membership_advance, membership_compared, membership_next, seq_next,
    strictly_refines,
};
use crate::calls::{bind_attr_next, method_next};
use crate::errors::{operand_message, raises_message};
use crate::laws::taken::{
    takes_compare_forward, takes_compare_reflected, takes_compare_reverse, takes_invoke_wrapped,
    takes_membership_equal, takes_membership_invoke, takes_membership_next, takes_seq_equal,
    takes_seq_strict,
};
use crate::machine::{yields, CallKont, CompareKont, Kont, KontView, Next, StepView, World};
use crate::object::{class_attr, slot_of, PyObjectRef, SlotKind};
use crate::protocol::{positional, OutcomeView, PyComparisonOp, Request, Value, ValueView};
use crate::resume::apply_next;
use crate::runs::{
    asks_for, drive, followed, run_goes_on, run_needs_no_more, run_of_one_request, span, Reply,
};
use vstd::prelude::*;

verus! {

broadcast use crate::runs::run_stops, crate::runs::span_stops;

/// Exchanging the operands twice changes nothing, and equality reads the same both
/// ways.
pub proof fn swapping_twice(op: PyComparisonOp)
    ensures
        op.spec_swapped().spec_swapped() == op,
        op is Eq || op is Ne ==> op.spec_swapped() == op,
{
}

/// One question of a comparison.
pub ghost struct Question {
    pub obj: PyObjectRef,
    pub other: PyObjectRef,
    pub op: PyComparisonOp,
}

/// The questions of a comparison, in order: the right operand is asked first if its
/// class is a proper subclass of that of the left one.
pub open spec fn questions(w: World, x: PyObjectRef, y: PyObjectRef, op: PyComparisonOp) -> (
    Question,
    Question,
) {
    let forward = Question { obj: x, other: y, op };
    let reflected = Question { obj: y, other: x, op: op.spec_swapped() };
    if strictly_refines(w.heap, y, x) {
        (reflected, forward)
    } else {
        (forward, reflected)
    }
}

/// Whether an operation puts a question to the slot of its object.
pub open spec fn puts(n: Next, w: World, q: Question) -> bool {
    match slot_of(w.heap, q.obj, SlotKind::Compare) {
        Some(slot) => n.world == w && asks_for(
            n,
            Request::Compare { slot, obj: q.obj, other: q.other, op: q.op },
        ),
        None => n.step is Panic,
    }
}

/// What takes the reply of the operand that is asked first.
spec fn first_kont(w: World, x: PyObjectRef, y: PyObjectRef, op: PyComparisonOp) -> CompareKont {
    if strictly_refines(w.heap, y, x) {
        CompareKont::CompareReverse { v: x, w: y, op }
    } else {
        CompareKont::CompareForward { v: x, w: y, op, reversed: false }
    }
}

/// What takes the reply of the operand that is asked second.
spec fn second_kont(w: World, x: PyObjectRef, y: PyObjectRef, op: PyComparisonOp) -> CompareKont {
    if strictly_refines(w.heap, y, x) {
        CompareKont::CompareForward { v: x, w: y, op, reversed: true }
    } else {
        CompareKont::CompareReflected { v: x, w: y, op }
    }
}

/// The questions are put in their order; the second only if the first is declined.
pub proof fn operands_are_asked_in_order(
    w: World,
    x: PyObjectRef,
    y: PyObjectRef,
    op: PyComparisonOp,
    reply: Reply,
)
    ensures
        puts(compare_next(w, x, y, op), w, questions(w, x, y, op).0),
        slot_of(w.heap, questions(w, x, y, op).0.obj, SlotKind::Compare) is Some ==> ({
            let m = drive(compare_next(w, x, y, op), seq![reply]);
            if declines(reply.world, reply.outcome) {
                puts(m, reply.world, questions(w, x, y, op).1)
            } else {
                m == compare_replied(reply.world, reply.outcome)
            }
        }),
{
    reveal(compare_next);
    takes_compare_reverse(x, y, op);
    takes_compare_forward(x, y, op, false);
    let n = compare_next(w, x, y, op);
    let k = first_kont(w, x, y, op);
    if n.step is Ask {
        run_of_one_request(n, Kont::Compare(k), seq![reply]);
        assert(seq![reply].drop_first() =~= Seq::empty());
    }
}

proof fn last_answer_is_final(
    w: World,
    x: PyObjectRef,
    y: PyObjectRef,
    op: PyComparisonOp,
    o: OutcomeView,
)
    ensures
        !(compare_reflected(w, x, y, op, o).step is Ask),
        !(compare_forwarded(w, x, y, op, true, o).step is Ask),
{
    reveal(raises_message);
}

/// Each operand is asked at most once: after two replies a comparison is over.
pub proof fn each_operand_is_asked_once(
    w: World,
    x: PyObjectRef,
    y: PyObjectRef,
    op: PyComparisonOp,
    replies: Seq<Reply>,
)
    requires
        replies.len() >= 2,
    ensures
        !(drive(compare_next(w, x, y, op), replies).step is Ask),
{
    reveal(compare_next);
    takes_compare_reverse(x, y, op);
    takes_compare_forward(x, y, op, false);
    takes_compare_forward(x, y, op, true);
    takes_compare_reflected(x, y, op);
    let n = compare_next(w, x, y, op);
    let rest = replies.drop_first();
    if n.step is Ask {
        let k = first_kont(w, x, y, op);
        run_of_one_request(n, Kont::Compare(k), replies);
        let n1 = apply_next(replies[0].world, Kont::Compare(k), replies[0].outcome);
        if n1.step is Ask {
            let k1 = second_kont(w, x, y, op);
            last_answer_is_final(rest[0].world, x, y, op, rest[0].outcome);
            run_of_one_request(n1, Kont::Compare(k1), rest);
        }
    }
}

/// Where both operands decline, equality is identity, inequality is its negation,
/// and every other operator raises a TypeError.
pub proof fn default_comparison(
    w: World,
    x: PyObjectRef,
    y: PyObjectRef,
    op: PyComparisonOp,
    first: Reply,
    second: Reply,
)
    requires
        compare_next(w, x, y, op).step is Ask,
        drive(compare_next(w, x, y, op), seq![first]).step is Ask,
        declines(second.world, second.outcome),
    ensures
        drive(compare_next(w, x, y, op), seq![first, second]) == match op {
            PyComparisonOp::Eq => yields(second.world, Value::Bool(x == y)),
            PyComparisonOp::Ne => yields(second.world, Value::Bool(!(x == y))),
            _ => raises_message(
                second.world,
                second.world.vm.ctx.exceptions.type_error,
                operand_message(second.world.heap, x, y, op.token()),
            ),
        },
{
    reveal(compare_next);
    takes_compare_reverse(x, y, op);
    takes_compare_forward(x, y, op, false);
    takes_compare_forward(x, y, op, true);
    takes_compare_reflected(x, y, op);
    last_answer_is_final(second.world, x, y, op, second.outcome);
    let n = compare_next(w, x, y, op);
    let replies = seq![first, second];
    assert(replies.drop_first() =~= seq![second]);
    assert(seq![first].drop_first() =~= Seq::empty());
    assert(seq![second].drop_first() =~= Seq::empty());
    let k = first_kont(w, x, y, op);
    run_of_one_request(n, Kont::Compare(k), replies);
    run_of_one_request(n, Kont::Compare(k), seq![first]);
    let n1 = apply_next(first.world, Kont::Compare(k), first.outcome);
    let k1 = second_kont(w, x, y, op);
    run_of_one_request(n1, Kont::Compare(k1), seq![second]);
}

/// An object is identical or equal to itself without any question.
pub proof fn identity_needs_no_question(w: World, a: PyObjectRef)
    ensures
        identical_or_equal_next(w, a, a) == yields(w, Value::Bool(true)),
{
}

/// Two elements decide a strict comparison of sequences: the strict comparison
/// itself if it holds; otherwise they decide against it unless they are equal.
pub proof fn elements_decide(
    w: World,
    a: PyObjectRef,
    b: PyObjectRef,
    op: PyComparisonOp,
    replies: Seq<Reply>,
)
    ensures
        ({
            let strict = bool_next(w, a, b, op);
            let m = drive(strict, replies);
            let rest = replies.skip(span(strict, replies) as int);
            let equal = bool_next(m.world, a, b, PyComparisonOp::Eq);
            let m1 = drive(equal, rest);
            let end = drive(seq_next(w, a, b, op), replies);
            match m.step {
                StepView::Done(Ok(Value::Bool(true))) => end == m,
                StepView::Done(Ok(Value::Bool(false))) => match m1.step {
                    StepView::Done(Ok(Value::Bool(true))) => end == yields(
                        m1.world,
                        Value::Missing,
                    ),
                    StepView::Done(Ok(Value::Bool(false))) => end == yields(
                        m1.world,
                        Value::Bool(false),
                    ),
                    StepView::Done(Err(_)) => end == m1,
                    _ => true,
                },
                StepView::Done(Err(_)) => end == m,
                _ => true,
            }
        }),
{
    let strict = bool_next(w, a, b, op);
    let k: KontView = Kont::Compare(CompareKont::SeqStrict { a, b });
    takes_seq_strict(a, b);
    assert(seq_next(w, a, b, op) == followed(strict, k));
    run_goes_on(strict, k, replies);
    let m = drive(strict, replies);
    let rest = replies.skip(span(strict, replies) as int);
    if m.step == StepView::Done(Ok(ValueView::Bool(false))) {
        let equal = bool_next(m.world, a, b, PyComparisonOp::Eq);
        let k1: KontView = Kont::Compare(CompareKont::SeqEqual);
        takes_seq_equal();
        assert(apply_next(m.world, k, Ok(ValueView::Bool(false))) == followed(equal, k1));
        run_goes_on(equal, k1, rest);
    }
}

/// Where the class of the container has `__contains__`, membership is a call of it.
pub proof fn contains_decides(
    w: World,
    haystack: PyObjectRef,
    needle: PyObjectRef,
    replies: Seq<Reply>,
)
    requires
        class_attr(w.heap, haystack, "__contains__"@) is Some,
        drive(
            method_next(w, haystack, "__contains__"@, positional(seq![needle])),
            replies,
        ).step is Done,
    ensures
        drive(membership_next(w, haystack, needle), replies) == drive(
            method_next(w, haystack, "__contains__"@, positional(seq![needle])),
            replies,
        ),
{
    reveal(method_next);
    let args = positional(seq![needle]);
    let method = class_attr(w.heap, haystack, "__contains__"@)->0;
    let b = bind_attr_next(w, method, haystack);
    let k1 = CallKont::InvokeWrapped { args };
    let k2 = CompareKont::MembershipInvoke { needle };
    takes_invoke_wrapped(args);
    takes_membership_invoke(needle);
    assert(membership_next(w, haystack, needle) == followed(b, Kont::Compare(k2)));
    assert(method_next(w, haystack, "__contains__"@, args) == followed(b, Kont::Call(k1)));
    run_goes_on(b, Kont::Call(k1), replies);
    run_goes_on(b, Kont::Compare(k2), replies);
}

/// One round of a search: the reply of the iterator, and those for the comparison
/// of the needle with the element.
pub ghost struct Round {
    pub element: Reply,
    pub equal: Seq<Reply>,
}

/// The comparison of a round.
pub open spec fn round_compares(needle: PyObjectRef, round: Round) -> Next {
    bool_next(
        round.element.world,
        needle,
        round.element.outcome->Ok_0->Object_0,
        PyComparisonOp::Eq,
    )
}

/// Whether the iterator yields an element in a round, and how its comparison with
/// the needle ends.
pub open spec fn round_ends(needle: PyObjectRef, round: Round, equal: bool) -> bool {
    let n = round_compares(needle, round);
    &&& round.element.outcome is Ok
    &&& round.element.outcome->Ok_0 is Object
    &&& drive(n, round.equal).step == StepView::Done(Ok(ValueView::Bool(equal)))
    &&& span(n, round.equal) == round.equal.len()
}

/// The replies of several rounds.
pub open spec fn round_replies(rounds: Seq<Round>) -> Seq<Reply>
    decreases rounds.len(),
{
    if rounds.len() == 0 {
        Seq::empty()
    } else {
        seq![rounds[0].element] + rounds[0].equal + round_replies(rounds.drop_first())
    }
}

proof fn one_round(
    w: World,
    iter: PyObjectRef,
    needle: PyObjectRef,
    round: Round,
    equal: bool,
    tail: Seq<Reply>,
)
    requires
        round_ends(needle, round, equal),
    ensures
        ({
            let end = drive(round_compares(needle, round), round.equal).world;
            drive(
                membership_advance(w, iter, needle),
                seq![round.element] + round.equal + tail,
            ) == drive(membership_compared(end, iter, needle, Ok(Value::Bool(equal))), tail)
        }),
{
    let replies = seq![round.element] + round.equal + tail;
    let rest = round.equal + tail;
    let k1 = CompareKont::MembershipNext { iter, needle };
    let k2 = CompareKont::MembershipEqual { iter, needle };
    let n = round_compares(needle, round);
    takes_membership_next(iter, needle);
    takes_membership_equal(iter, needle);
    run_of_one_request(membership_advance(w, iter, needle), Kont::Compare(k1), replies);
    assert(replies.drop_first() =~= rest);
    assert(apply_next(round.element.world, Kont::Compare(k1), round.element.outcome)
        == followed(n, Kont::Compare(k2)));
    run_goes_on(n, Kont::Compare(k2), rest);
    run_needs_no_more(n, round.equal, tail);
    assert(rest.skip(round.equal.len() as int) =~= tail);
}

/// A search passes over the elements that are not equal to the needle.
pub proof fn search_passes_over_unequal_elements(
    w: World,
    iter: PyObjectRef,
    needle: PyObjectRef,
    rounds: Seq<Round>,
    tail: Seq<Reply>,
)
    requires
        forall|i: int| 0 <= i < rounds.len() ==> round_ends(needle, #[trigger] rounds[i], false),
        tail.len() > 0,
    ensures
        drive(membership_advance(w, iter, needle), round_replies(rounds) + tail) == drive(
            membership_advance(w, iter, needle),
            tail,
        ),
    decreases rounds.len(),
{
    if rounds.len() == 0 {
        assert(round_replies(rounds) + tail =~= tail);
    } else {
        let others = rounds.drop_first();
        let rest = round_replies(others) + tail;
        let end = drive(round_compares(needle, rounds[0]), rounds[0].equal).world;
        assert(round_replies(rounds) + tail =~= seq![rounds[0].element] + rounds[0].equal + rest);
        one_round(w, iter, needle, rounds[0], false, rest);
        assert forall|i: int| 0 <= i < others.len() implies round_ends(
            needle,
            #[trigger] others[i],
            false,
        ) by {
            assert(others[i] == rounds[i + 1]);
        }
        search_passes_over_unequal_elements(end, iter, needle, others, tail);
        let k = CompareKont::MembershipNext { iter, needle };
        run_of_one_request(membership_advance(w, iter, needle), Kont::Compare(k), tail);
        run_of_one_request(membership_advance(end, iter, needle), Kont::Compare(k), tail);
    }
}

/// A search ends with True at the first element that is equal to the needle.
pub proof fn search_finds_an_equal_element(
    w: World,
    iter: PyObjectRef,
    needle: PyObjectRef,
    rounds: Seq<Round>,
    found: Round,
)
    requires
        forall|i: int| 0 <= i < rounds.len() ==> round_ends(needle, #[trigger] rounds[i], false),
        round_ends(needle, found, true),
    ensures
        ({
            let end = drive(round_compares(needle, found), found.equal).world;
            drive(
                membership_advance(w, iter, needle),
                round_replies(rounds) + (seq![found.element] + found.equal),
            ) == yields(end, Value::Object(end.vm.ctx.true_value))
        }),
{
    let tail = seq![found.element] + found.equal;
    search_passes_over_unequal_elements(w, iter, needle, rounds, tail);
    one_round(w, iter, needle, found, true, Seq::empty());
    assert(tail + Seq::<Reply>::empty() =~= tail);
}

/// A search ends with False where the iterator ends.
pub proof fn search_ends_with_the_iterator(
    w: World,
    iter: PyObjectRef,
    needle: PyObjectRef,
    rounds: Seq<Round>,
    end: World,
)
    requires
        forall|i: int| 0 <= i < rounds.len() ==> round_ends(needle, #[trigger] rounds[i], false),
    ensures
        drive(
            membership_advance(w, iter, needle),
            round_replies(rounds) + seq![Reply { world: end, outcome: Ok(Value::Missing) }],
        ) == yields(end, Value::Object(end.vm.ctx.false_value)),
{
    let last = Reply { world: end, outcome: Ok(Value::Missing) };
    let k = CompareKont::MembershipNext { iter, needle };
    search_passes_over_unequal_elements(w, iter, needle, rounds, seq![last]);
    takes_membership_next(iter, needle);
    run_of_one_request(membership_advance(w, iter, needle), Kont::Compare(k), seq![last]);
    assert(seq![last].drop_first() =~= Seq::empty());
}

} // verus!

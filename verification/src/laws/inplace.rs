//! Laws that set the in-place operators beside the binary ones.
use crate::calls::{bind_attr_next, method_bound, method_next};
use crate::errors::raises_message;
use crate::laws::operators::{
    attempt_call, attempt_is_a_method_call, has_method, inplace_falls_back,
};
use crate::machine::{
    panics, raises, yields, CallKont, Kont, KontView, Next, OperatorKont, StepView, World,
};
use crate::object::{class_attr, PyObjectRef};
use crate::operators::{
    attempt, attempts_next, binary_attempts, binary_next, inplace_next, unsupported_next,
};
use crate::protocol::{positional, Attempt, Fallback, OutcomeView, PanicReason, Unsupported, Value};
use crate::resume::{applies_call, applies_operator, apply_call, apply_next, apply_operator};
use crate::runs::{drive, followed, run_goes_on, span, Reply};
use vstd::prelude::*;

verus! {

broadcast use crate::runs::run_stops, crate::runs::span_stops;

/// What an attempt binds before it calls.
spec fn bound_method(w: World, a: Attempt<Seq<char>>) -> Next {
    bind_attr_next(w, class_attr(w.heap, a.receiver, a.method)->0, a.receiver)
}

proof fn attempt_shape(
    w: World,
    attempts: Seq<Attempt<Seq<char>>>,
    unsupported: Unsupported<Seq<char>>,
)
    requires
        attempts.len() > 0,
    ensures
        ({
            let a = attempts[0];
            let rest = attempts.drop_first();
            let n = attempts_next(w, attempts, unsupported);
            &&& !has_method(w, a) ==> n == attempts_next(w, rest, unsupported)
            &&& has_method(w, a) ==> n == followed(
                bound_method(w, a),
                Kont::Operator(OperatorKont::AttemptInvoke { arg: a.arg, rest, unsupported }),
            )
            &&& has_method(w, a) ==> attempt_call(w, a) == followed(
                bound_method(w, a),
                Kont::Call(CallKont::InvokeWrapped { args: positional(seq![a.arg]) }),
            )
        }),
{
    let a = attempts[0];
    reveal(method_next);
    reveal(apply_operator);
    reveal(apply_call);
    applies_call(CallKont::InvokeWrapped { args: positional(seq![a.arg]) });
    applies_operator(
        OperatorKont::AttemptInvoke { arg: a.arg, rest: attempts.drop_first(), unsupported },
    );
}

proof fn attempt_konts(
    w: World,
    arg: PyObjectRef,
    rest: Seq<Attempt<Seq<char>>>,
    unsupported: Unsupported<Seq<char>>,
    o: OutcomeView,
)
    ensures
        apply_next(
            w,
            Kont::Call(CallKont::InvokeWrapped { args: positional(seq![arg]) }),
            o,
        ) == method_bound(w, positional(seq![arg]), o),
        apply_next(
            w,
            Kont::Operator(OperatorKont::AttemptInvoke { arg, rest, unsupported }),
            o,
        ) == followed(
            method_bound(w, positional(seq![arg]), o),
            Kont::Operator(OperatorKont::AttemptResult { rest, unsupported }),
        ),
{
    reveal(apply_operator);
    reveal(apply_call);
    applies_call(CallKont::InvokeWrapped { args: positional(seq![arg]) });
    applies_operator(OperatorKont::AttemptInvoke { arg, rest, unsupported });
    applies_operator(OperatorKont::AttemptResult { rest, unsupported });
}

/// Any value of an attempt but NotImplemented counts, and so does an exception.
pub proof fn result_of_an_attempt(
    w: World,
    others: Seq<Attempt<Seq<char>>>,
    unsupported: Unsupported<Seq<char>>,
    o: OutcomeView,
)
    ensures
        apply_next(
            w,
            Kont::Operator(OperatorKont::AttemptResult { rest: others, unsupported }),
            o,
        ) == match o {
            Ok(Value::Object(x)) => if x == w.vm.ctx.not_implemented {
                attempts_next(w, others, unsupported)
            } else {
                yields(w, Value::Object(x))
            },
            Ok(_) => panics(w, PanicReason::UnexpectedReply),
            Err(e) => raises(w, e),
        },
        others.len() == 0 ==> attempts_next(w, others, unsupported) == unsupported_next(
            w,
            unsupported,
        ),
{
    reveal(apply_operator);
    applies_operator(OperatorKont::AttemptResult { rest: others, unsupported });
}

proof fn unfinished_attempt(
    w: World,
    attempts: Seq<Attempt<Seq<char>>>,
    unsupported: Unsupported<Seq<char>>,
    replies: Seq<Reply>,
)
    requires
        attempts.len() > 0,
        has_method(w, attempts[0]),
        !(drive(attempt_call(w, attempts[0]), replies).step is Done),
    ensures
        !(drive(attempts_next(w, attempts, unsupported), replies).step is Done),
{
    let a = attempts[0];
    let others = attempts.drop_first();
    let args = positional(seq![a.arg]);
    let b = bound_method(w, a);
    let k1: KontView = Kont::Call(CallKont::InvokeWrapped { args });
    let k2: KontView = Kont::Operator(
        OperatorKont::AttemptInvoke { arg: a.arg, rest: others, unsupported },
    );
    let k3: KontView = Kont::Operator(OperatorKont::AttemptResult { rest: others, unsupported });
    attempt_shape(w, attempts, unsupported);
    run_goes_on(b, k1, replies);
    run_goes_on(b, k2, replies);
    let m = drive(b, replies);
    let rest = replies.skip(span(b, replies) as int);
    match m.step {
        StepView::Done(o) => {
            let n = method_bound(m.world, args, o);
            attempt_konts(m.world, a.arg, others, unsupported, o);
            run_goes_on(n, k3, rest);
        },
        _ => {},
    }
}

/// Whether a call came to NotImplemented.
pub open spec fn declined(m: Next) -> bool {
    m.step matches StepView::Done(Ok(Value::Object(x))) && x == m.world.vm.ctx.not_implemented
}

/// Whether two runs come to the same, but for the token in the TypeError for operands
/// that are not supported.
pub open spec fn differ_in_token(
    m1: Next,
    m2: Next,
    a: PyObjectRef,
    b: PyObjectRef,
    op1: Seq<char>,
    op2: Seq<char>,
) -> bool {
    &&& m1.step is Done <==> m2.step is Done
    &&& m1.step is Done ==> m1 == m2 || exists|w: World|
        m1 == #[trigger] unsupported_next(
            w,
            Unsupported { a, b, fallback: Fallback::OperandError(op1) },
        ) && m2 == unsupported_next(w, Unsupported { a, b, fallback: Fallback::OperandError(op2) })
}

proof fn attempts_differ_in_token(
    w: World,
    attempts: Seq<Attempt<Seq<char>>>,
    a: PyObjectRef,
    b: PyObjectRef,
    op1: Seq<char>,
    op2: Seq<char>,
    replies: Seq<Reply>,
)
    ensures
        ({
            let u1 = Unsupported { a, b, fallback: Fallback::OperandError(op1) };
            let u2 = Unsupported { a, b, fallback: Fallback::OperandError(op2) };
            differ_in_token(
                drive(attempts_next(w, attempts, u1), replies),
                drive(attempts_next(w, attempts, u2), replies),
                a,
                b,
                op1,
                op2,
            )
        }),
    decreases attempts.len(),
{
    reveal(raises_message);
    let u1 = Unsupported { a, b, fallback: Fallback::OperandError(op1) };
    let u2 = Unsupported { a, b, fallback: Fallback::OperandError(op2) };
    if attempts.len() == 0 {
        result_of_an_attempt(w, attempts, u1, Err(a));
        result_of_an_attempt(w, attempts, u2, Err(a));
    } else {
        let others = attempts.drop_first();
        attempt_is_a_method_call(w, attempts, u1, replies);
        attempt_is_a_method_call(w, attempts, u2, replies);
        if !has_method(w, attempts[0]) {
            attempts_differ_in_token(w, others, a, b, op1, op2, replies);
        } else {
            let call = attempt_call(w, attempts[0]);
            let m = drive(call, replies);
            let rest = replies.skip(span(call, replies) as int);
            if m.step is Done {
                result_of_an_attempt(m.world, others, u1, m.step->Done_0);
                result_of_an_attempt(m.world, others, u2, m.step->Done_0);
                attempts_differ_in_token(m.world, others, a, b, op1, op2, rest);
            } else {
                unfinished_attempt(w, attempts, u1, replies);
                unfinished_attempt(w, attempts, u2, replies);
            }
        }
    }
}

/// An in-place operator comes to what the binary operator comes to, whatever the host
/// replies, where the class of the left operand lacks its method; and so does the rest
/// of its run where the method gives NotImplemented. Only the token in the TypeError
/// for operands that are not supported differs.
pub proof fn inplace_comes_to_the_same(
    w: World,
    a: PyObjectRef,
    b: PyObjectRef,
    inplace: Seq<char>,
    method: Seq<char>,
    reflection: Seq<char>,
    inplace_op: Seq<char>,
    op: Seq<char>,
    replies: Seq<Reply>,
)
    ensures
        ({
            let first = attempt(a, b, inplace);
            let call = attempt_call(w, first);
            let m = drive(call, replies);
            let rest = replies.skip(span(call, replies) as int);
            let end = drive(
                inplace_next(w, a, b, inplace, method, reflection, inplace_op),
                replies,
            );
            &&& !has_method(w, first) ==> differ_in_token(
                end,
                drive(binary_next(w, a, b, method, reflection, op), replies),
                a,
                b,
                inplace_op,
                op,
            )
            &&& has_method(w, first) && declined(m) ==> differ_in_token(
                end,
                drive(binary_next(m.world, a, b, method, reflection, op), rest),
                a,
                b,
                inplace_op,
                op,
            )
        }),
{
    let call = attempt_call(w, attempt(a, b, inplace));
    let m = drive(call, replies);
    let rest = replies.skip(span(call, replies) as int);
    let attempts = binary_attempts(a, b, method, reflection);
    inplace_falls_back(w, a, b, inplace, method, reflection, inplace_op, replies);
    attempts_differ_in_token(w, attempts, a, b, inplace_op, op, replies);
    attempts_differ_in_token(m.world, attempts, a, b, inplace_op, op, rest);
}

} // verus!

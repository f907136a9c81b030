//! Laws about operators.
use crate::calls::{bind_attr_next, method_bound, method_next};
use crate::machine::{CallKont, Kont, KontView, Next, OperatorKont, StepView, World};
use crate::object::{class_attr, PyObjectRef};
use crate::operators::{
    attempt, attempt_bound, attempts_next, binary_attempts, binary_next, inplace_next,
    unsupported_next,
};
use crate::protocol::{positional, Attempt, Fallback, OutcomeView, Unsupported, Value};
use crate::resume::{applies_call, applies_operator, apply_call, apply_next, apply_operator};
use crate::runs::{drive, drive_on, followed, run_goes_on, span, Reply};
use vstd::prelude::*;

verus! {

broadcast use crate::runs::run_stops, crate::runs::span_stops;

/// Whether the class of the receiver has the method of an attempt.
pub open spec fn has_method(w: World, a: Attempt<Seq<char>>) -> bool {
    class_attr(w.heap, a.receiver, a.method) is Some
}

/// The method call that an attempt makes.
pub open spec fn attempt_call(w: World, a: Attempt<Seq<char>>) -> Next {
    method_next(w, a.receiver, a.method, positional(seq![a.arg]))
}

proof fn bound_attempt(
    w: World,
    arg: PyObjectRef,
    rest: Seq<Attempt<Seq<char>>>,
    unsupported: Unsupported<Seq<char>>,
    o: OutcomeView,
)
    ensures
        attempt_bound(w, arg, rest, unsupported, o) == followed(
            method_bound(w, positional(seq![arg]), o),
            Kont::Operator(OperatorKont::AttemptResult { rest, unsupported }),
        ),
{
    applies_operator(OperatorKont::AttemptResult { rest, unsupported });
    reveal(apply_operator);
}

/// The first attempt of an operator is a call of the receiver's method with the
/// argument. If the class lacks the method, the others are tried at once.
pub proof fn attempt_is_a_method_call(
    w: World,
    attempts: Seq<Attempt<Seq<char>>>,
    unsupported: Unsupported<Seq<char>>,
    replies: Seq<Reply>,
)
    requires
        attempts.len() > 0,
    ensures
        !has_method(w, attempts[0]) ==> attempts_next(w, attempts, unsupported)
            == attempts_next(w, attempts.drop_first(), unsupported),
        has_method(w, attempts[0]) && drive(attempt_call(w, attempts[0]), replies).step is Done
            ==> drive(attempts_next(w, attempts, unsupported), replies) == drive_on(
            drive(attempt_call(w, attempts[0]), replies),
            Kont::Operator(
                OperatorKont::AttemptResult { rest: attempts.drop_first(), unsupported },
            ),
            replies.skip(span(attempt_call(w, attempts[0]), replies) as int),
        ),
{
    let a = attempts[0];
    let others = attempts.drop_first();
    if has_method(w, a) && drive(attempt_call(w, a), replies).step is Done {
        reveal(method_next);
        reveal(apply_operator);
        reveal(apply_call);
        let args = positional(seq![a.arg]);
        let b = bind_attr_next(w, class_attr(w.heap, a.receiver, a.method)->0, a.receiver);
        let k1: KontView = Kont::Call(CallKont::InvokeWrapped { args });
        let k2: KontView = Kont::Operator(
            OperatorKont::AttemptInvoke { arg: a.arg, rest: others, unsupported },
        );
        let k3: KontView = Kont::Operator(
            OperatorKont::AttemptResult { rest: others, unsupported },
        );
        applies_call(CallKont::InvokeWrapped { args });
        applies_operator(OperatorKont::AttemptInvoke { arg: a.arg, rest: others, unsupported });
        assert(attempt_call(w, a) == followed(b, k1));
        assert(attempts_next(w, attempts, unsupported) == followed(b, k2));
        run_goes_on(b, k1, replies);
        run_goes_on(b, k2, replies);
        let m = drive(b, replies);
        let rest = replies.skip(span(b, replies) as int);
        match m.step {
            StepView::Done(o) => {
                let n = method_bound(m.world, args, o);
                bound_attempt(m.world, a.arg, others, unsupported, o);
                assert(apply_next(m.world, k2, o) == followed(n, k3));
                run_goes_on(n, k3, rest);
                assert(rest.skip(span(n, rest) as int) =~= replies.skip(
                    span(attempt_call(w, a), replies) as int,
                ));
            },
            _ => {},
        }
    }
}

/// Calls a method on `obj` passing `arg`, if the method exists. Otherwise, or if
/// the result is NotImplemented, the fallback counts.
pub proof fn method_or_fallback(
    w: World,
    obj: PyObjectRef,
    arg: PyObjectRef,
    method: Seq<char>,
    unsupported: Unsupported<Seq<char>>,
    replies: Seq<Reply>,
)
    ensures
        ({
            let a = attempt(obj, arg, method);
            let n = attempts_next(w, seq![a], unsupported);
            let m = drive(attempt_call(w, a), replies);
            let rest = replies.skip(span(attempt_call(w, a), replies) as int);
            &&& !has_method(w, a) ==> n == unsupported_next(w, unsupported)
            &&& has_method(w, a) ==> match m.step {
                StepView::Done(Ok(Value::Object(x))) => if x == m.world.vm.ctx.not_implemented {
                    drive(n, replies) == drive(unsupported_next(m.world, unsupported), rest)
                } else {
                    drive(n, replies) == m
                },
                StepView::Done(Err(_)) => drive(n, replies) == m,
                _ => true,
            }
        }),
{
    let a = attempt(obj, arg, method);
    attempt_is_a_method_call(w, seq![a], unsupported, replies);
    assert(seq![a].drop_first() =~= Seq::empty());
    applies_operator(OperatorKont::AttemptResult { rest: Seq::empty(), unsupported });
    reveal(apply_operator);
}

/// Calls the method of the left operand with the right one. If that is not
/// implemented, calls the reflected method of the right operand with the left one.
/// If that is not implemented either, the fallback counts.
pub proof fn method_or_reflection_or_fallback(
    w: World,
    lhs: PyObjectRef,
    rhs: PyObjectRef,
    default: Seq<char>,
    reflection: Seq<char>,
    unsupported: Unsupported<Seq<char>>,
    replies: Seq<Reply>,
)
    ensures
        ({
            let first = attempt(lhs, rhs, default);
            let second = attempt(rhs, lhs, reflection);
            let n = attempts_next(
                w,
                binary_attempts(lhs, rhs, default, reflection),
                unsupported,
            );
            let m = drive(attempt_call(w, first), replies);
            let rest = replies.skip(span(attempt_call(w, first), replies) as int);
            &&& !has_method(w, first) ==> n == attempts_next(w, seq![second], unsupported)
            &&& has_method(w, first) ==> match m.step {
                StepView::Done(Ok(Value::Object(x))) => if x == m.world.vm.ctx.not_implemented {
                    drive(n, replies) == drive(
                        attempts_next(m.world, seq![second], unsupported),
                        rest,
                    )
                } else {
                    drive(n, replies) == m
                },
                StepView::Done(Err(_)) => drive(n, replies) == m,
                _ => true,
            }
        }),
{
    let all = binary_attempts(lhs, rhs, default, reflection);
    attempt_is_a_method_call(w, all, unsupported, replies);
    assert(all.drop_first() =~= seq![attempt(rhs, lhs, reflection)]);
    applies_operator(OperatorKont::AttemptResult { rest: all.drop_first(), unsupported });
    reveal(apply_operator);
}

/// An in-place operator is the binary operator where the class of the left operand
/// lacks its method, or the method is not implemented.
pub proof fn inplace_falls_back(
    w: World,
    a: PyObjectRef,
    b: PyObjectRef,
    inplace: Seq<char>,
    method: Seq<char>,
    reflection: Seq<char>,
    op: Seq<char>,
    replies: Seq<Reply>,
)
    ensures
        ({
            let first = attempt(a, b, inplace);
            let n = inplace_next(w, a, b, inplace, method, reflection, op);
            let m = drive(attempt_call(w, first), replies);
            let rest = replies.skip(span(attempt_call(w, first), replies) as int);
            &&& !has_method(w, first) ==> n == binary_next(w, a, b, method, reflection, op)
            &&& has_method(w, first) ==> match m.step {
                StepView::Done(Ok(Value::Object(x))) => if x == m.world.vm.ctx.not_implemented {
                    drive(n, replies) == drive(
                        binary_next(m.world, a, b, method, reflection, op),
                        rest,
                    )
                } else {
                    drive(n, replies) == m
                },
                StepView::Done(Err(_)) => drive(n, replies) == m,
                _ => true,
            }
        }),
{
    let all = seq![attempt(a, b, inplace)] + binary_attempts(a, b, method, reflection);
    let unsupported = Unsupported { a, b, fallback: Fallback::OperandError(op) };
    attempt_is_a_method_call(w, all, unsupported, replies);
    assert(all.drop_first() =~= binary_attempts(a, b, method, reflection));
    applies_operator(OperatorKont::AttemptResult { rest: all.drop_first(), unsupported });
    reveal(apply_operator);
}

} // verus!

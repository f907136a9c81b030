//! Binary operators and their in-place forms.
use crate::calls::{bind_attr_next, invoke_next};
use crate::errors::{operand_message, raises_message};
use crate::machine::{
    asks, next, panics, raises, waits, world, yields, Kont, Next, OperatorKont, Step, StepView,
    VirtualMachine, World,
};
use crate::object::{class_attr, Heap, PyObjectRef};
use crate::protocol::{
    attempts_view, outcome_view, positional, Attempt, Fallback, Outcome, OutcomeView, PanicReason,
    PyFuncArgs, Request, Unsupported, Value,
};
use vstd::prelude::*;

verus! {

/// Makes the attempts in order. A class that lacks the method of an attempt does
/// not implement it.
pub open spec fn attempts_next(
    w: World,
    attempts: Seq<Attempt<Seq<char>>>,
    unsupported: Unsupported<Seq<char>>,
) -> Next
    decreases attempts.len(), 0int,
{
    if attempts.len() == 0 {
        unsupported_next(w, unsupported)
    } else {
        let attempt = attempts[0];
        let rest = attempts.drop_first();
        match class_attr(w.heap, attempt.receiver, attempt.method) {
            None => attempts_next(w, rest, unsupported),
            Some(method) => {
                let n = bind_attr_next(w, method, attempt.receiver);
                match n.step {
                    StepView::Done(o) => attempt_bound(n.world, attempt.arg, rest, unsupported, o),
                    _ => waits(
                        n,
                        Kont::Operator(
                            OperatorKont::AttemptInvoke { arg: attempt.arg, rest, unsupported },
                        ),
                    ),
                }
            },
        }
    }
}

/// The method of an attempt is bound: it is called.
pub open spec fn attempt_bound(
    w: World,
    arg: PyObjectRef,
    rest: Seq<Attempt<Seq<char>>>,
    unsupported: Unsupported<Seq<char>>,
    o: OutcomeView,
) -> Next
    decreases rest.len(), 2int,
{
    match o {
        Ok(Value::Object(method)) => {
            let n = invoke_next(w, method, positional(seq![arg]));
            match n.step {
                StepView::Done(o) => attempt_result(n.world, rest, unsupported, o),
                _ => waits(n, Kont::Operator(OperatorKont::AttemptResult { rest, unsupported })),
            }
        },
        Ok(_) => panics(w, PanicReason::UnexpectedReply),
        Err(e) => raises(w, e),
    }
}

/// An attempt was made. It counts unless its value is NotImplemented.
pub open spec fn attempt_result(
    w: World,
    rest: Seq<Attempt<Seq<char>>>,
    unsupported: Unsupported<Seq<char>>,
    o: OutcomeView,
) -> Next
    decreases rest.len(), 1int,
{
    match o {
        Ok(Value::Object(x)) => if x == w.vm.ctx.not_implemented {
            attempts_next(w, rest, unsupported)
        } else {
            yields(w, Value::Object(x))
        },
        Ok(_) => panics(w, PanicReason::UnexpectedReply),
        Err(e) => raises(w, e),
    }
}

/// No attempt is implemented.
pub open spec fn unsupported_next(w: World, unsupported: Unsupported<Seq<char>>) -> Next {
    let (a, b) = (unsupported.a, unsupported.b);
    match unsupported.fallback {
        Fallback::OperandError(op) => raises_message(
            w,
            w.vm.ctx.exceptions.type_error,
            operand_message(w.heap, a, b, op),
        ),
        Fallback::Custom(id) => asks(w, Request::Fallback { id, a, b }, Seq::empty()),
    }
}

/// One attempt.
pub open spec fn attempt(a: PyObjectRef, b: PyObjectRef, method: Seq<char>) -> Attempt<Seq<char>> {
    Attempt { receiver: a, arg: b, method }
}

/// A binary operator: the method of the left operand, then the reflected method
/// of the right one.
pub open spec fn binary_attempts(
    a: PyObjectRef,
    b: PyObjectRef,
    method: Seq<char>,
    reflection: Seq<char>,
) -> Seq<Attempt<Seq<char>>> {
    seq![attempt(a, b, method), attempt(b, a, reflection)]
}

/// A binary operator that raises a TypeError where it is not implemented.
pub open spec fn binary_next(
    w: World,
    a: PyObjectRef,
    b: PyObjectRef,
    method: Seq<char>,
    reflection: Seq<char>,
    op: Seq<char>,
) -> Next {
    attempts_next(
        w,
        binary_attempts(a, b, method, reflection),
        Unsupported { a, b, fallback: Fallback::OperandError(op) },
    )
}

/// An in-place operator: its own method of the left operand, then the binary
/// operator.
pub open spec fn inplace_next(
    w: World,
    a: PyObjectRef,
    b: PyObjectRef,
    inplace: Seq<char>,
    method: Seq<char>,
    reflection: Seq<char>,
    op: Seq<char>,
) -> Next {
    attempts_next(
        w,
        seq![attempt(a, b, inplace)] + binary_attempts(a, b, method, reflection),
        Unsupported { a, b, fallback: Fallback::OperandError(op) },
    )
}

impl VirtualMachine {
    /// Calls a method on `obj` passing `arg`, if the method exists.
    ///
    /// Otherwise, or if the result is the special `NotImplemented` built-in constant,
    /// `unsupported` determines the fallback value.
    pub fn call_or_unsupported(
        &mut self,
        heap: &mut Heap,
        obj: PyObjectRef,
        arg: PyObjectRef,
        method: &str,
        unsupported: Fallback<String>,
    ) -> (step: Step)
        ensures
            next(*final(self), *final(heap), step) == attempts_next(
                world(*old(self), *old(heap)),
                seq![attempt(obj, arg, method@)],
                Unsupported { a: obj, b: arg, fallback: unsupported@ },
            ),
    {
        let mut attempts: Vec<Attempt<String>> = Vec::new();
        attempts.push(Attempt { receiver: obj, arg, method: method.to_owned() });
        assert(attempts_view(attempts@) =~= seq![attempt(obj, arg, method@)]);
        self.attempt_all(heap, attempts, Unsupported { a: obj, b: arg, fallback: unsupported })
    }

    /// Calls a method, falling back to its reflection with the operands
    /// reversed, and then to the value that `unsupported` determines.
    ///
    /// For example: the following:
    ///
    /// `call_or_reflection(lhs, rhs, "__and__", "__rand__", unsupported)`
    ///
    /// 1. Calls `__and__` with `lhs` and `rhs`.
    /// 2. If above is not implemented, calls `__rand__` with `rhs` and `lhs`.
    /// 3. If above is not implemented, takes the fallback for the result.
    pub fn call_or_reflection(
        &mut self,
        heap: &mut Heap,
        lhs: PyObjectRef,
        rhs: PyObjectRef,
        default: &str,
        reflection: &str,
        unsupported: Fallback<String>,
    ) -> (step: Step)
        ensures
            next(*final(self), *final(heap), step) == attempts_next(
                world(*old(self), *old(heap)),
                binary_attempts(lhs, rhs, default@, reflection@),
                Unsupported { a: lhs, b: rhs, fallback: unsupported@ },
            ),
    {
        let mut attempts: Vec<Attempt<String>> = Vec::new();
        attempts.push(Attempt { receiver: lhs, arg: rhs, method: default.to_owned() });
        attempts.push(Attempt { receiver: rhs, arg: lhs, method: reflection.to_owned() });
        assert(attempts_view(attempts@) =~= binary_attempts(lhs, rhs, default@, reflection@));
        self.attempt_all(heap, attempts, Unsupported { a: lhs, b: rhs, fallback: unsupported })
    }

    fn attempt_all(
        &mut self,
        heap: &mut Heap,
        attempts: Vec<Attempt<String>>,
        unsupported: Unsupported<String>,
    ) -> (step: Step)
        ensures
            next(*final(self), *final(heap), step) == attempts_next(
                world(*old(self), *old(heap)),
                attempts_view(attempts@),
                unsupported@,
            ),
        decreases attempts.len(), 0int,
    {
        if attempts.len() == 0 {
            return self.unsupported(heap, unsupported);
        }
        let mut rest = attempts;
        let ghost all = rest@;
        let attempt = rest.remove(0);
        assert(attempts_view(rest@) =~= attempts_view(all).drop_first());
        match heap.get_class_attr(attempt.receiver, &attempt.method) {
            None => self.attempt_all(heap, rest, unsupported),
            Some(method) => {
                let step = self.call_if_get_descriptor(heap, method, attempt.receiver);
                match step {
                    Step::Done(outcome) => self.attempt_bound(
                        heap,
                        attempt.arg,
                        rest,
                        unsupported,
                        outcome,
                    ),
                    step => step.beneath(
                        Kont::Operator(
                            OperatorKont::AttemptInvoke { arg: attempt.arg, rest, unsupported },
                        ),
                    ),
                }
            },
        }
    }

    pub(crate) fn attempt_bound(
        &mut self,
        heap: &mut Heap,
        arg: PyObjectRef,
        rest: Vec<Attempt<String>>,
        unsupported: Unsupported<String>,
        outcome: Outcome,
    ) -> (step: Step)
        ensures
            next(*final(self), *final(heap), step) == attempt_bound(
                world(*old(self), *old(heap)),
                arg,
                attempts_view(rest@),
                unsupported@,
                outcome_view(outcome),
            ),
        decreases rest.len(), 2int,
    {
        match outcome {
            Ok(Value::Object(method)) => {
                let mut args: Vec<PyObjectRef> = Vec::new();
                args.push(arg);
                assert(args@ =~= seq![arg]);
                let step = self.invoke(heap, method, PyFuncArgs::positional(args));
                match step {
                    Step::Done(outcome) => self.attempt_result(heap, rest, unsupported, outcome),
                    step => step.beneath(
                        Kont::Operator(OperatorKont::AttemptResult { rest, unsupported }),
                    ),
                }
            },
            Ok(_) => Step::Panic(PanicReason::UnexpectedReply),
            Err(e) => Step::Done(Err(e)),
        }
    }

    pub(crate) fn attempt_result(
        &mut self,
        heap: &mut Heap,
        rest: Vec<Attempt<String>>,
        unsupported: Unsupported<String>,
        outcome: Outcome,
    ) -> (step: Step)
        ensures
            next(*final(self), *final(heap), step) == attempt_result(
                world(*old(self), *old(heap)),
                attempts_view(rest@),
                unsupported@,
                outcome_view(outcome),
            ),
        decreases rest.len(), 1int,
    {
        match outcome {
            Ok(Value::Object(x)) => {
                if x == self.ctx.not_implemented {
                    self.attempt_all(heap, rest, unsupported)
                } else {
                    Step::object(x)
                }
            },
            Ok(_) => Step::Panic(PanicReason::UnexpectedReply),
            Err(e) => Step::Done(Err(e)),
        }
    }

    fn unsupported(&self, heap: &mut Heap, unsupported: Unsupported<String>) -> (step: Step)
        ensures
            next(*self, *final(heap), step) == unsupported_next(
                world(*self, *old(heap)),
                unsupported@,
            ),
    {
        let a = unsupported.a;
        let b = unsupported.b;
        match unsupported.fallback {
            Fallback::OperandError(op) => {
                let msg = VirtualMachine::operand_message(heap, a, b, op.as_str());
                self.raise_msg(heap, self.ctx.exceptions.type_error, msg)
            },
            Fallback::Custom(id) => Step::ask(Request::Fallback { id, a, b }),
        }
    }

    fn binary(
        &mut self,
        heap: &mut Heap,
        a: PyObjectRef,
        b: PyObjectRef,
        method: &str,
        reflection: &str,
        op: &str,
    ) -> (step: Step)
        ensures
            next(*final(self), *final(heap), step) == binary_next(
                world(*old(self), *old(heap)),
                a,
                b,
                method@,
                reflection@,
                op@,
            ),
    {
        self.call_or_reflection(
            heap,
            a,
            b,
            method,
            reflection,
            Fallback::OperandError(op.to_owned()),
        )
    }

    fn inplace(
        &mut self,
        heap: &mut Heap,
        a: PyObjectRef,
        b: PyObjectRef,
        inplace: &str,
        method: &str,
        reflection: &str,
        op: &str,
    ) -> (step: Step)
        ensures
            next(*final(self), *final(heap), step) == inplace_next(
                world(*old(self), *old(heap)),
                a,
                b,
                inplace@,
                method@,
                reflection@,
                op@,
            ),
    {
        let mut attempts: Vec<Attempt<String>> = Vec::new();
        attempts.push(Attempt { receiver: a, arg: b, method: inplace.to_owned() });
        attempts.push(Attempt { receiver: a, arg: b, method: method.to_owned() });
        attempts.push(Attempt { receiver: b, arg: a, method: reflection.to_owned() });
        assert(attempts_view(attempts@) =~= seq![attempt(a, b, inplace@)] + binary_attempts(
            a,
            b,
            method@,
            reflection@,
        ));
        let fallback = Fallback::OperandError(op.to_owned());
        self.attempt_all(heap, attempts, Unsupported { a, b, fallback })
    }

    /// `a - b`
    pub fn _sub(&mut self, heap: &mut Heap, a: PyObjectRef, b: PyObjectRef) -> (step: Step)
        ensures
            next(*final(self), *final(heap), step) == binary_next(
                world(*old(self), *old(heap)),
                a,
                b,
                "__sub__"@,
                "__rsub__"@,
                "-"@,
            ),
    {
        self.binary(heap, a, b, "__sub__", "__rsub__", "-")
    }

    /// `a -= b`
    pub fn _isub(&mut self, heap: &mut Heap, a: PyObjectRef, b: PyObjectRef) -> (step: Step)
        ensures
            next(*final(self), *final(heap), step) == inplace_next(
                world(*old(self), *old(heap)),
                a,
                b,
                "__isub__"@,
                "__sub__"@,
                "__rsub__"@,
                "-="@,
            ),
    {
        self.inplace(heap, a, b, "__isub__", "__sub__", "__rsub__", "-=")
    }

    /// `a + b`
    pub fn _add(&mut self, heap: &mut Heap, a: PyObjectRef, b: PyObjectRef) -> (step: Step)
        ensures
            next(*final(self), *final(heap), step) == binary_next(
                world(*old(self), *old(heap)),
                a,
                b,
                "__add__"@,
                "__radd__"@,
                "+"@,
            ),
    {
        self.binary(heap, a, b, "__add__", "__radd__", "+")
    }

    /// `a += b`
    pub fn _iadd(&mut self, heap: &mut Heap, a: PyObjectRef, b: PyObjectRef) -> (step: Step)
        ensures
            next(*final(self), *final(heap), step) == inplace_next(
                world(*old(self), *old(heap)),
                a,
                b,
                "__iadd__"@,
                "__add__"@,
                "__radd__"@,
                "+="@,
            ),
    {
        self.inplace(heap, a, b, "__iadd__", "__add__", "__radd__", "+=")
    }

    /// `a * b`
    pub fn _mul(&mut self, heap: &mut Heap, a: PyObjectRef, b: PyObjectRef) -> (step: Step)
        ensures
            next(*final(self), *final(heap), step) == binary_next(
                world(*old(self), *old(heap)),
                a,
                b,
                "__mul__"@,
                "__rmul__"@,
                "*"@,
            ),
    {
        self.binary(heap, a, b, "__mul__", "__rmul__", "*")
    }

    /// `a *= b`
    pub fn _imul(&mut self, heap: &mut Heap, a: PyObjectRef, b: PyObjectRef) -> (step: Step)
        ensures
            next(*final(self), *final(heap), step) == inplace_next(
                world(*old(self), *old(heap)),
                a,
                b,
                "__imul__"@,
                "__mul__"@,
                "__rmul__"@,
                "*="@,
            ),
    {
        self.inplace(heap, a, b, "__imul__", "__mul__", "__rmul__", "*=")
    }

    /// `a @ b`
    pub fn _matmul(&mut self, heap: &mut Heap, a: PyObjectRef, b: PyObjectRef) -> (step: Step)
        ensures
            next(*final(self), *final(heap), step) == binary_next(
                world(*old(self), *old(heap)),
                a,
                b,
                "__matmul__"@,
                "__rmatmul__"@,
                "@"@,
            ),
    {
        self.binary(heap, a, b, "__matmul__", "__rmatmul__", "@")
    }

    /// `a @= b`
    pub fn _imatmul(&mut self, heap: &mut Heap, a: PyObjectRef, b: PyObjectRef) -> (step: Step)
        ensures
            next(*final(self), *final(heap), step) == inplace_next(
                world(*old(self), *old(heap)),
                a,
                b,
                "__imatmul__"@,
                "__matmul__"@,
                "__rmatmul__"@,
                "@="@,
            ),
    {
        self.inplace(heap, a, b, "__imatmul__", "__matmul__", "__rmatmul__", "@=")
    }

    /// `a / b`
    pub fn _truediv(&mut self, heap: &mut Heap, a: PyObjectRef, b: PyObjectRef) -> (step: Step)
        ensures
            next(*final(self), *final(heap), step) == binary_next(
                world(*old(self), *old(heap)),
                a,
                b,
                "__truediv__"@,
                "__rtruediv__"@,
                "/"@,
            ),
    {
        self.binary(heap, a, b, "__truediv__", "__rtruediv__", "/")
    }

    /// `a /= b`
    pub fn _itruediv(&mut self, heap: &mut Heap, a: PyObjectRef, b: PyObjectRef) -> (step: Step)
        ensures
            next(*final(self), *final(heap), step) == inplace_next(
                world(*old(self), *old(heap)),
                a,
                b,
                "__itruediv__"@,
                "__truediv__"@,
                "__rtruediv__"@,
                "/="@,
            ),
    {
        self.inplace(heap, a, b, "__itruediv__", "__truediv__", "__rtruediv__", "/=")
    }

    /// `a // b`
    pub fn _floordiv(&mut self, heap: &mut Heap, a: PyObjectRef, b: PyObjectRef) -> (step: Step)
        ensures
            next(*final(self), *final(heap), step) == binary_next(
                world(*old(self), *old(heap)),
                a,
                b,
                "__floordiv__"@,
                "__rfloordiv__"@,
                "//"@,
            ),
    {
        self.binary(heap, a, b, "__floordiv__", "__rfloordiv__", "//")
    }

    /// `a //= b`
    pub fn _ifloordiv(&mut self, heap: &mut Heap, a: PyObjectRef, b: PyObjectRef) -> (step: Step)
        ensures
            next(*final(self), *final(heap), step) == inplace_next(
                world(*old(self), *old(heap)),
                a,
                b,
                "__ifloordiv__"@,
                "__floordiv__"@,
                "__rfloordiv__"@,
                "//="@,
            ),
    {
        self.inplace(heap, a, b, "__ifloordiv__", "__floordiv__", "__rfloordiv__", "//=")
    }

    /// `a ** b`
    pub fn _pow(&mut self, heap: &mut Heap, a: PyObjectRef, b: PyObjectRef) -> (step: Step)
        ensures
            next(*final(self), *final(heap), step) == binary_next(
                world(*old(self), *old(heap)),
                a,
                b,
                "__pow__"@,
                "__rpow__"@,
                "**"@,
            ),
    {
        self.binary(heap, a, b, "__pow__", "__rpow__", "**")
    }

    /// `a **= b`
    pub fn _ipow(&mut self, heap: &mut Heap, a: PyObjectRef, b: PyObjectRef) -> (step: Step)
        ensures
            next(*final(self), *final(heap), step) == inplace_next(
                world(*old(self), *old(heap)),
                a,
                b,
                "__ipow__"@,
                "__pow__"@,
                "__rpow__"@,
                "**="@,
            ),
    {
        self.inplace(heap, a, b, "__ipow__", "__pow__", "__rpow__", "**=")
    }

    /// `a % b`
    pub fn _mod(&mut self, heap: &mut Heap, a: PyObjectRef, b: PyObjectRef) -> (step: Step)
        ensures
            next(*final(self), *final(heap), step) == binary_next(
                world(*old(self), *old(heap)),
                a,
                b,
                "__mod__"@,
                "__rmod__"@,
                "%"@,
            ),
    {
        self.binary(heap, a, b, "__mod__", "__rmod__", "%")
    }

    /// `a %= b`
    pub fn _imod(&mut self, heap: &mut Heap, a: PyObjectRef, b: PyObjectRef) -> (step: Step)
        ensures
            next(*final(self), *final(heap), step) == inplace_next(
                world(*old(self), *old(heap)),
                a,
                b,
                "__imod__"@,
                "__mod__"@,
                "__rmod__"@,
                "%="@,
            ),
    {
        self.inplace(heap, a, b, "__imod__", "__mod__", "__rmod__", "%=")
    }

    /// `a << b`
    pub fn _lshift(&mut self, heap: &mut Heap, a: PyObjectRef, b: PyObjectRef) -> (step: Step)
        ensures
            next(*final(self), *final(heap), step) == binary_next(
                world(*old(self), *old(heap)),
                a,
                b,
                "__lshift__"@,
                "__rlshift__"@,
                "<<"@,
            ),
    {
        self.binary(heap, a, b, "__lshift__", "__rlshift__", "<<")
    }

    /// `a <<= b`
    pub fn _ilshift(&mut self, heap: &mut Heap, a: PyObjectRef, b: PyObjectRef) -> (step: Step)
        ensures
            next(*final(self), *final(heap), step) == inplace_next(
                world(*old(self), *old(heap)),
                a,
                b,
                "__ilshift__"@,
                "__lshift__"@,
                "__rlshift__"@,
                "<<="@,
            ),
    {
        self.inplace(heap, a, b, "__ilshift__", "__lshift__", "__rlshift__", "<<=")
    }

    /// `a >> b`
    pub fn _rshift(&mut self, heap: &mut Heap, a: PyObjectRef, b: PyObjectRef) -> (step: Step)
        ensures
            next(*final(self), *final(heap), step) == binary_next(
                world(*old(self), *old(heap)),
                a,
                b,
                "__rshift__"@,
                "__rrshift__"@,
                ">>"@,
            ),
    {
        self.binary(heap, a, b, "__rshift__", "__rrshift__", ">>")
    }

    /// `a >>= b`
    pub fn _irshift(&mut self, heap: &mut Heap, a: PyObjectRef, b: PyObjectRef) -> (step: Step)
        ensures
            next(*final(self), *final(heap), step) == inplace_next(
                world(*old(self), *old(heap)),
                a,
                b,
                "__irshift__"@,
                "__rshift__"@,
                "__rrshift__"@,
                ">>="@,
            ),
    {
        self.inplace(heap, a, b, "__irshift__", "__rshift__", "__rrshift__", ">>=")
    }

    /// `a ^ b`
    pub fn _xor(&mut self, heap: &mut Heap, a: PyObjectRef, b: PyObjectRef) -> (step: Step)
        ensures
            next(*final(self), *final(heap), step) == binary_next(
                world(*old(self), *old(heap)),
                a,
                b,
                "__xor__"@,
                "__rxor__"@,
                "^"@,
            ),
    {
        self.binary(heap, a, b, "__xor__", "__rxor__", "^")
    }

    /// `a ^= b`
    pub fn _ixor(&mut self, heap: &mut Heap, a: PyObjectRef, b: PyObjectRef) -> (step: Step)
        ensures
            next(*final(self), *final(heap), step) == inplace_next(
                world(*old(self), *old(heap)),
                a,
                b,
                "__ixor__"@,
                "__xor__"@,
                "__rxor__"@,
                "^="@,
            ),
    {
        self.inplace(heap, a, b, "__ixor__", "__xor__", "__rxor__", "^=")
    }

    /// `a | b`
    pub fn _or(&mut self, heap: &mut Heap, a: PyObjectRef, b: PyObjectRef) -> (step: Step)
        ensures
            next(*final(self), *final(heap), step) == binary_next(
                world(*old(self), *old(heap)),
                a,
                b,
                "__or__"@,
                "__ror__"@,
                "|"@,
            ),
    {
        self.binary(heap, a, b, "__or__", "__ror__", "|")
    }

    /// `a |= b`
    pub fn _ior(&mut self, heap: &mut Heap, a: PyObjectRef, b: PyObjectRef) -> (step: Step)
        ensures
            next(*final(self), *final(heap), step) == inplace_next(
                world(*old(self), *old(heap)),
                a,
                b,
                "__ior__"@,
                "__or__"@,
                "__ror__"@,
                "|="@,
            ),
    {
        self.inplace(heap, a, b, "__ior__", "__or__", "__ror__", "|=")
    }

    /// `a & b`
    pub fn _and(&mut self, heap: &mut Heap, a: PyObjectRef, b: PyObjectRef) -> (step: Step)
        ensures
            next(*final(self), *final(heap), step) == binary_next(
                world(*old(self), *old(heap)),
                a,
                b,
                "__and__"@,
                "__rand__"@,
                "&"@,
            ),
    {
        self.binary(heap, a, b, "__and__", "__rand__", "&")
    }

    /// `a &= b`
    pub fn _iand(&mut self, heap: &mut Heap, a: PyObjectRef, b: PyObjectRef) -> (step: Step)
        ensures
            next(*final(self), *final(heap), step) == inplace_next(
                world(*old(self), *old(heap)),
                a,
                b,
                "__iand__"@,
                "__and__"@,
                "__rand__"@,
                "&="@,
            ),
    {
        self.inplace(heap, a, b, "__iand__", "__and__", "__rand__", "&=")
    }
}

} // verus!

//! Comparisons, hashes and membership.
use crate::attributes::get_method_next;
use crate::calls::invoke_next;
use crate::context::bool_ref;
use crate::errors::{operand_message, raises_message};
use crate::machine::{
    asks, kont_view, next, panics, raises, waits, world, yields, CompareKont, Continuation, Kont,
    KontView, Next, Step, StepView, VirtualMachine, World,
};
use crate::object::{
    class_attr, class_of, is_subclass, slot_of, Heap, ObjectView, PyObjectRef, SlotKind,
};
use crate::protocol::{
    outcome_view, positional, Outcome, OutcomeView, PanicReason, PyComparisonOp, PyFuncArgs,
    Request, Value,
};
use vstd::prelude::*;

verus! {

/// Asks the comparison slot of `obj`.
pub open spec fn compare_slot_next(
    w: World,
    obj: PyObjectRef,
    other: PyObjectRef,
    op: PyComparisonOp,
    k: KontView,
) -> Next {
    match slot_of(w.heap, obj, SlotKind::Compare) {
        None => panics(w, PanicReason::MissingSlot(SlotKind::Compare)),
        Some(slot) => asks(w, Request::Compare { slot, obj, other, op }, seq![k]),
    }
}

/// Whether the class of `y` is a proper subclass of that of `x`.
pub open spec fn strictly_refines(h: Seq<ObjectView>, y: PyObjectRef, x: PyObjectRef) -> bool {
    class_of(h, x) != class_of(h, y) && is_subclass(h, class_of(h, y), class_of(h, x))
}

/// A comparison: the left operand is asked first, unless the class of the right
/// one is a proper subclass of its class.
#[verifier::opaque]
pub open spec fn compare_next(
    w: World,
    x: PyObjectRef,
    y: PyObjectRef,
    op: PyComparisonOp,
) -> Next {
    if strictly_refines(w.heap, y, x) {
        compare_slot_next(
            w,
            y,
            x,
            op.spec_swapped(),
            Kont::Compare(CompareKont::CompareReverse { v: x, w: y, op }),
        )
    } else {
        compare_slot_next(
            w,
            x,
            y,
            op,
            Kont::Compare(CompareKont::CompareForward { v: x, w: y, op, reversed: false }),
        )
    }
}

/// Whether a reply of a comparison slot says that the comparison is not
/// implemented.
pub open spec fn declines(w: World, o: OutcomeView) -> bool {
    match o {
        Ok(Value::Object(obj)) => obj == w.vm.ctx.not_implemented,
        Ok(Value::Missing) => true,
        _ => false,
    }
}

/// What a reply that does not decline comes to.
pub open spec fn compare_replied(w: World, o: OutcomeView) -> Next {
    match o {
        Ok(Value::Object(obj)) => yields(w, Value::Object(obj)),
        Ok(Value::Bool(b)) => yields(w, Value::Bool(b)),
        Ok(_) => panics(w, PanicReason::UnexpectedReply),
        Err(e) => raises(w, e),
    }
}

/// The right operand was asked first: if it declines, the left one is asked.
pub open spec fn compare_reversed(
    w: World,
    x: PyObjectRef,
    y: PyObjectRef,
    op: PyComparisonOp,
    o: OutcomeView,
) -> Next {
    if declines(w, o) {
        compare_slot_next(
            w,
            x,
            y,
            op,
            Kont::Compare(CompareKont::CompareForward { v: x, w: y, op, reversed: true }),
        )
    } else {
        compare_replied(w, o)
    }
}

/// The left operand was asked: if it declines, the right one is asked, unless
/// that was done before.
pub open spec fn compare_forwarded(
    w: World,
    x: PyObjectRef,
    y: PyObjectRef,
    op: PyComparisonOp,
    reversed: bool,
    o: OutcomeView,
) -> Next {
    if !declines(w, o) {
        compare_replied(w, o)
    } else if reversed {
        compare_default(w, x, y, op)
    } else {
        compare_slot_next(
            w,
            y,
            x,
            op.spec_swapped(),
            Kont::Compare(CompareKont::CompareReflected { v: x, w: y, op }),
        )
    }
}

/// The right operand was asked last.
pub open spec fn compare_reflected(
    w: World,
    x: PyObjectRef,
    y: PyObjectRef,
    op: PyComparisonOp,
    o: OutcomeView,
) -> Next {
    if declines(w, o) {
        compare_default(w, x, y, op)
    } else {
        compare_replied(w, o)
    }
}

/// Both operands declined: they are equal if and only if they are the same
/// object, and they have no order.
pub open spec fn compare_default(
    w: World,
    x: PyObjectRef,
    y: PyObjectRef,
    op: PyComparisonOp,
) -> Next {
    match op {
        PyComparisonOp::Eq => yields(w, Value::Bool(x == y)),
        PyComparisonOp::Ne => yields(w, Value::Bool(x != y)),
        _ => raises_message(
            w,
            w.vm.ctx.exceptions.type_error,
            operand_message(w.heap, x, y, op.token()),
        ),
    }
}

/// The truth value of a comparison.
#[verifier::opaque]
pub open spec fn bool_next(w: World, a: PyObjectRef, b: PyObjectRef, op: PyComparisonOp) -> Next {
    let n = compare_next(w, a, b, op);
    match n.step {
        StepView::Done(o) => compare_truth(n.world, o),
        _ => waits(n, Kont::Compare(CompareKont::CompareTruth)),
    }
}

/// The comparison is there.
pub open spec fn compare_truth(w: World, o: OutcomeView) -> Next {
    match o {
        Ok(Value::Object(obj)) => asks(w, Request::Truth { obj }, Seq::empty()),
        Ok(Value::Bool(b)) => yields(w, Value::Bool(b)),
        Ok(_) => panics(w, PanicReason::UnexpectedReply),
        Err(e) => raises(w, e),
    }
}

/// A comparison as an object.
pub open spec fn object_next(w: World, a: PyObjectRef, b: PyObjectRef, op: PyComparisonOp) -> Next {
    let n = compare_next(w, a, b, op);
    match n.step {
        StepView::Done(o) => compare_object(n.world, o),
        _ => waits(n, Kont::Compare(CompareKont::CompareObject)),
    }
}

/// The comparison is there.
pub open spec fn compare_object(w: World, o: OutcomeView) -> Next {
    match o {
        Ok(Value::Object(obj)) => yields(w, Value::Object(obj)),
        Ok(Value::Bool(b)) => yields(w, Value::Object(bool_ref(w.vm.ctx, b))),
        Ok(_) => panics(w, PanicReason::UnexpectedReply),
        Err(e) => raises(w, e),
    }
}

/// Whether `a` and `b` are the same object or equal.
pub open spec fn identical_or_equal_next(w: World, a: PyObjectRef, b: PyObjectRef) -> Next {
    if a == b {
        yields(w, Value::Bool(true))
    } else {
        bool_next(w, a, b, PyComparisonOp::Eq)
    }
}

/// Whether the elements `a` and `b` decide the strict comparison `op` of two
/// sequences, and how; missing where they are equal and decide nothing.
pub open spec fn seq_next(w: World, a: PyObjectRef, b: PyObjectRef, op: PyComparisonOp) -> Next {
    let n = bool_next(w, a, b, op);
    match n.step {
        StepView::Done(o) => seq_strict(n.world, a, b, o),
        _ => waits(n, Kont::Compare(CompareKont::SeqStrict { a, b })),
    }
}

/// It is known whether `op` holds: if it does not, equality is asked.
pub open spec fn seq_strict(w: World, a: PyObjectRef, b: PyObjectRef, o: OutcomeView) -> Next {
    match o {
        Ok(Value::Bool(true)) => yields(w, Value::Bool(true)),
        Ok(Value::Bool(false)) => {
            let n = bool_next(w, a, b, PyComparisonOp::Eq);
            match n.step {
                StepView::Done(o) => seq_equal(n.world, o),
                _ => waits(n, Kont::Compare(CompareKont::SeqEqual)),
            }
        },
        Ok(_) => panics(w, PanicReason::UnexpectedReply),
        Err(e) => raises(w, e),
    }
}

/// It is known whether the elements are equal.
pub open spec fn seq_equal(w: World, o: OutcomeView) -> Next {
    match o {
        Ok(Value::Bool(true)) => yields(w, Value::Missing),
        Ok(Value::Bool(false)) => yields(w, Value::Bool(false)),
        Ok(_) => panics(w, PanicReason::UnexpectedReply),
        Err(e) => raises(w, e),
    }
}

/// The hash of an object is up to its slot.
pub open spec fn hash_next(w: World, obj: PyObjectRef) -> Next {
    match slot_of(w.heap, obj, SlotKind::Hash) {
        None => panics(w, PanicReason::MissingSlot(SlotKind::Hash)),
        Some(slot) => asks(w, Request::Hash { slot, obj }, Seq::empty()),
    }
}

/// Membership: `__contains__` decides if the class has it; otherwise the
/// elements are compared one by one.
pub open spec fn membership_next(w: World, haystack: PyObjectRef, needle: PyObjectRef) -> Next {
    if class_attr(w.heap, haystack, "__contains__"@) is Some {
        let n = get_method_next(w, haystack, "__contains__"@);
        match n.step {
            StepView::Done(o) => membership_bound(n.world, needle, o),
            _ => waits(n, Kont::Compare(CompareKont::MembershipInvoke { needle })),
        }
    } else {
        asks(
            w,
            Request::GetIter { obj: haystack },
            seq![Kont::Compare(CompareKont::MembershipIter { needle })],
        )
    }
}

/// `__contains__` is bound: it is called.
pub open spec fn membership_bound(w: World, needle: PyObjectRef, o: OutcomeView) -> Next {
    match o {
        Ok(Value::Object(method)) => invoke_next(w, method, positional(seq![needle])),
        Ok(_) => panics(w, PanicReason::UnexpectedReply),
        Err(e) => raises(w, e),
    }
}

/// The next element is asked for.
pub open spec fn membership_advance(w: World, iter: PyObjectRef, needle: PyObjectRef) -> Next {
    asks(
        w,
        Request::NextObject { iter },
        seq![Kont::Compare(CompareKont::MembershipNext { iter, needle })],
    )
}

/// The iterator is there.
pub open spec fn membership_iter(w: World, needle: PyObjectRef, o: OutcomeView) -> Next {
    match o {
        Ok(Value::Object(iter)) => membership_advance(w, iter, needle),
        Ok(_) => panics(w, PanicReason::UnexpectedReply),
        Err(e) => raises(w, e),
    }
}

/// An element is there, or the iterator is at its end.
pub open spec fn membership_element(
    w: World,
    iter: PyObjectRef,
    needle: PyObjectRef,
    o: OutcomeView,
) -> Next {
    match o {
        Ok(Value::Object(element)) => {
            let n = bool_next(w, needle, element, PyComparisonOp::Eq);
            match n.step {
                StepView::Done(o) => membership_compared(n.world, iter, needle, o),
                _ => waits(n, Kont::Compare(CompareKont::MembershipEqual { iter, needle })),
            }
        },
        Ok(Value::Missing) => yields(w, Value::Object(w.vm.ctx.false_value)),
        Ok(_) => panics(w, PanicReason::UnexpectedReply),
        Err(e) => raises(w, e),
    }
}

/// An element was compared: an equal one ends the search.
pub open spec fn membership_compared(
    w: World,
    iter: PyObjectRef,
    needle: PyObjectRef,
    o: OutcomeView,
) -> Next {
    match o {
        Ok(Value::Bool(true)) => yields(w, Value::Object(w.vm.ctx.true_value)),
        Ok(Value::Bool(false)) => membership_advance(w, iter, needle),
        Ok(_) => panics(w, PanicReason::UnexpectedReply),
        Err(e) => raises(w, e),
    }
}

impl VirtualMachine {
    fn compare_slot(
        &self,
        heap: &Heap,
        obj: PyObjectRef,
        other: PyObjectRef,
        op: PyComparisonOp,
        k: Continuation,
    ) -> (step: Step)
        ensures
            next(*self, *heap, step) == compare_slot_next(
                world(*self, *heap),
                obj,
                other,
                op,
                kont_view(k),
            ),
    {
        match heap.slot_of(obj, SlotKind::Compare) {
            None => Step::Panic(PanicReason::MissingSlot(SlotKind::Compare)),
            Some(slot) => Step::ask_for(Request::Compare { slot, obj, other, op }, k),
        }
    }

    /// Performs a comparison. Raises a TypeError when the requested comparison
    /// operator is not supported.
    pub fn _cmp(&self, heap: &Heap, v: PyObjectRef, w: PyObjectRef, op: PyComparisonOp) -> (step:
        Step)
        ensures
            next(*self, *heap, step) == compare_next(world(*self, *heap), v, w, op),
    {
        reveal(compare_next);
        let swapped = op.swapped();
        let v_class = heap.class_of(v);
        let w_class = heap.class_of(w);
        if v_class != w_class && heap.is_subclass(w_class, v_class) {
            self.compare_slot(
                heap,
                w,
                v,
                swapped,
                Kont::Compare(CompareKont::CompareReverse { v, w, op }),
            )
        } else {
            self.compare_slot(
                heap,
                v,
                w,
                op,
                Kont::Compare(CompareKont::CompareForward { v, w, op, reversed: false }),
            )
        }
    }

    fn declines(&self, outcome: &Outcome) -> (b: bool)
        ensures
            forall|w: World|
                #![trigger declines(w, outcome_view(*outcome))]
                w.vm == self@ ==> b == declines(w, outcome_view(*outcome)),
    {
        match outcome {
            Ok(Value::Object(obj)) => *obj == self.ctx.not_implemented,
            Ok(Value::Missing) => true,
            _ => false,
        }
    }

    fn compare_replied(outcome: Outcome) -> (step: Step)
        ensures
            forall|w: World|
                (Next { world: w, step: step@ }) == #[trigger] compare_replied(
                    w,
                    outcome_view(outcome),
                ),
    {
        match outcome {
            Ok(Value::Object(obj)) => Step::object(obj),
            Ok(Value::Bool(b)) => Step::Done(Ok(Value::Bool(b))),
            Ok(_) => Step::Panic(PanicReason::UnexpectedReply),
            Err(e) => Step::Done(Err(e)),
        }
    }

    pub(crate) fn compare_reversed(
        &self,
        heap: &Heap,
        v: PyObjectRef,
        w: PyObjectRef,
        op: PyComparisonOp,
        outcome: Outcome,
    ) -> (step: Step)
        ensures
            next(*self, *heap, step) == compare_reversed(
                world(*self, *heap),
                v,
                w,
                op,
                outcome_view(outcome),
            ),
    {
        if self.declines(&outcome) {
            self.compare_slot(
                heap,
                v,
                w,
                op,
                Kont::Compare(CompareKont::CompareForward { v, w, op, reversed: true }),
            )
        } else {
            VirtualMachine::compare_replied(outcome)
        }
    }

    pub(crate) fn compare_forwarded(
        &self,
        heap: &mut Heap,
        v: PyObjectRef,
        w: PyObjectRef,
        op: PyComparisonOp,
        reversed: bool,
        outcome: Outcome,
    ) -> (step: Step)
        ensures
            next(*self, *final(heap), step) == compare_forwarded(
                world(*self, *old(heap)),
                v,
                w,
                op,
                reversed,
                outcome_view(outcome),
            ),
    {
        if !self.declines(&outcome) {
            VirtualMachine::compare_replied(outcome)
        } else if reversed {
            self.compare_default(heap, v, w, op)
        } else {
            self.compare_slot(
                heap,
                w,
                v,
                op.swapped(),
                Kont::Compare(CompareKont::CompareReflected { v, w, op }),
            )
        }
    }

    pub(crate) fn compare_reflected(
        &self,
        heap: &mut Heap,
        v: PyObjectRef,
        w: PyObjectRef,
        op: PyComparisonOp,
        outcome: Outcome,
    ) -> (step: Step)
        ensures
            next(*self, *final(heap), step) == compare_reflected(
                world(*self, *old(heap)),
                v,
                w,
                op,
                outcome_view(outcome),
            ),
    {
        if self.declines(&outcome) {
            self.compare_default(heap, v, w, op)
        } else {
            VirtualMachine::compare_replied(outcome)
        }
    }

    fn compare_default(
        &self,
        heap: &mut Heap,
        v: PyObjectRef,
        w: PyObjectRef,
        op: PyComparisonOp,
    ) -> (step: Step)
        ensures
            next(*self, *final(heap), step) == compare_default(
                world(*self, *old(heap)),
                v,
                w,
                op,
            ),
    {
        match op {
            PyComparisonOp::Eq => Step::Done(Ok(Value::Bool(v == w))),
            PyComparisonOp::Ne => Step::Done(Ok(Value::Bool(v != w))),
            _ => {
                let token = op.operator_token();
                let msg = VirtualMachine::operand_message(heap, v, w, token.as_str());
                self.raise_msg(heap, self.ctx.exceptions.type_error, msg)
            },
        }
    }

    /// The truth value of a comparison.
    pub fn bool_cmp(
        &self,
        heap: &Heap,
        a: PyObjectRef,
        b: PyObjectRef,
        op: PyComparisonOp,
    ) -> (step: Step)
        ensures
            next(*self, *heap, step) == bool_next(world(*self, *heap), a, b, op),
    {
        reveal(bool_next);
        let step = self._cmp(heap, a, b, op);
        match step {
            Step::Done(outcome) => VirtualMachine::compare_truth(outcome),
            step => step.beneath(Kont::Compare(CompareKont::CompareTruth)),
        }
    }

    pub(crate) fn compare_truth(outcome: Outcome) -> (step: Step)
        ensures
            forall|w: World|
                (Next { world: w, step: step@ }) == #[trigger] compare_truth(
                    w,
                    outcome_view(outcome),
                ),
    {
        match outcome {
            Ok(Value::Object(obj)) => Step::ask(Request::Truth { obj }),
            Ok(Value::Bool(b)) => Step::Done(Ok(Value::Bool(b))),
            Ok(_) => Step::Panic(PanicReason::UnexpectedReply),
            Err(e) => Step::Done(Err(e)),
        }
    }

    /// A comparison as an object.
    pub fn obj_cmp(&self, heap: &Heap, a: PyObjectRef, b: PyObjectRef, op: PyComparisonOp) -> (step:
        Step)
        ensures
            next(*self, *heap, step) == object_next(world(*self, *heap), a, b, op),
    {
        let step = self._cmp(heap, a, b, op);
        match step {
            Step::Done(outcome) => self.compare_object(outcome),
            step => step.beneath(Kont::Compare(CompareKont::CompareObject)),
        }
    }

    pub(crate) fn compare_object(&self, outcome: Outcome) -> (step: Step)
        ensures
            forall|w: World|
                #![trigger compare_object(w, outcome_view(outcome))]
                w.vm == self@ ==> (Next { world: w, step: step@ }) == compare_object(
                    w,
                    outcome_view(outcome),
                ),
    {
        match outcome {
            Ok(Value::Object(obj)) => Step::object(obj),
            Ok(Value::Bool(b)) => Step::object(self.ctx.new_bool(b)),
            Ok(_) => Step::Panic(PanicReason::UnexpectedReply),
            Err(e) => Step::Done(Err(e)),
        }
    }

    /// Whether two objects are equal.
    pub fn bool_eq(&self, heap: &Heap, a: PyObjectRef, b: PyObjectRef) -> (step: Step)
        ensures
            next(*self, *heap, step) == bool_next(world(*self, *heap), a, b, PyComparisonOp::Eq),
    {
        self.bool_cmp(heap, a, b, PyComparisonOp::Eq)
    }

    /// Whether two objects are the same or equal.
    pub fn identical_or_equal(&self, heap: &Heap, a: PyObjectRef, b: PyObjectRef) -> (step: Step)
        ensures
            next(*self, *heap, step) == identical_or_equal_next(world(*self, *heap), a, b),
    {
        if a == b {
            Step::Done(Ok(Value::Bool(true)))
        } else {
            self.bool_eq(heap, a, b)
        }
    }

    /// Whether two elements decide that one sequence is less than another, and
    /// how. Yields a missing value where they are equal.
    pub fn bool_seq_lt(&self, heap: &Heap, a: PyObjectRef, b: PyObjectRef) -> (step: Step)
        ensures
            next(*self, *heap, step) == seq_next(world(*self, *heap), a, b, PyComparisonOp::Lt),
    {
        self.bool_seq(heap, a, b, PyComparisonOp::Lt)
    }

    /// Whether two elements decide that one sequence is greater than another, and
    /// how. Yields a missing value where they are equal.
    pub fn bool_seq_gt(&self, heap: &Heap, a: PyObjectRef, b: PyObjectRef) -> (step: Step)
        ensures
            next(*self, *heap, step) == seq_next(world(*self, *heap), a, b, PyComparisonOp::Gt),
    {
        self.bool_seq(heap, a, b, PyComparisonOp::Gt)
    }

    fn bool_seq(&self, heap: &Heap, a: PyObjectRef, b: PyObjectRef, op: PyComparisonOp) -> (step:
        Step)
        ensures
            next(*self, *heap, step) == seq_next(world(*self, *heap), a, b, op),
    {
        let step = self.bool_cmp(heap, a, b, op);
        match step {
            Step::Done(outcome) => self.seq_strict(heap, a, b, outcome),
            step => step.beneath(Kont::Compare(CompareKont::SeqStrict { a, b })),
        }
    }

    pub(crate) fn seq_strict(
        &self,
        heap: &Heap,
        a: PyObjectRef,
        b: PyObjectRef,
        outcome: Outcome,
    ) -> (step: Step)
        ensures
            next(*self, *heap, step) == seq_strict(
                world(*self, *heap),
                a,
                b,
                outcome_view(outcome),
            ),
    {
        match outcome {
            Ok(Value::Bool(strict)) => {
                if strict {
                    Step::Done(Ok(Value::Bool(true)))
                } else {
                    let step = self.bool_eq(heap, a, b);
                    match step {
                        Step::Done(outcome) => VirtualMachine::seq_equal(outcome),
                        step => step.beneath(Kont::Compare(CompareKont::SeqEqual)),
                    }
                }
            },
            Ok(_) => Step::Panic(PanicReason::UnexpectedReply),
            Err(e) => Step::Done(Err(e)),
        }
    }

    pub(crate) fn seq_equal(outcome: Outcome) -> (step: Step)
        ensures
            forall|w: World|
                (Next { world: w, step: step@ }) == #[trigger] seq_equal(w, outcome_view(outcome)),
    {
        match outcome {
            Ok(Value::Bool(equal)) => {
                if equal {
                    Step::Done(Ok(Value::Missing))
                } else {
                    Step::Done(Ok(Value::Bool(false)))
                }
            },
            Ok(_) => Step::Panic(PanicReason::UnexpectedReply),
            Err(e) => Step::Done(Err(e)),
        }
    }

    /// The hash of an object.
    pub fn _hash(&self, heap: &Heap, obj: PyObjectRef) -> (step: Step)
        ensures
            next(*self, *heap, step) == hash_next(world(*self, *heap), obj),
    {
        match heap.slot_of(obj, SlotKind::Hash) {
            None => Step::Panic(PanicReason::MissingSlot(SlotKind::Hash)),
            Some(slot) => Step::ask(Request::Hash { slot, obj }),
        }
    }

    /// `needle in haystack`. Without `__contains__` the elements are compared by
    /// equality alone: one that is identical to the needle but not equal to it is not
    /// found.
    pub fn _membership(
        &mut self,
        heap: &mut Heap,
        haystack: PyObjectRef,
        needle: PyObjectRef,
    ) -> (step: Step)
        ensures
            next(*final(self), *final(heap), step) == membership_next(
                world(*old(self), *old(heap)),
                haystack,
                needle,
            ),
    {
        let name = "__contains__".to_owned();
        if heap.get_class_attr(haystack, &name).is_some() {
            let step = self.get_method(heap, haystack, &name);
            match step {
                Step::Done(outcome) => self.membership_bound(heap, needle, outcome),
                step => step.beneath(Kont::Compare(CompareKont::MembershipInvoke { needle })),
            }
        } else {
            self._membership_iter_search(haystack, needle)
        }
    }

    fn _membership_iter_search(&self, haystack: PyObjectRef, needle: PyObjectRef) -> (step: Step)
        ensures
            step@ == StepView::Ask(
                Request::GetIter { obj: haystack },
                seq![Kont::Compare(CompareKont::MembershipIter { needle })],
            ),
    {
        Step::ask_for(
            Request::GetIter { obj: haystack },
            Kont::Compare(CompareKont::MembershipIter { needle }),
        )
    }

    pub(crate) fn membership_bound(
        &mut self,
        heap: &mut Heap,
        needle: PyObjectRef,
        outcome: Outcome,
    ) -> (step: Step)
        ensures
            next(*final(self), *final(heap), step) == membership_bound(
                world(*old(self), *old(heap)),
                needle,
                outcome_view(outcome),
            ),
    {
        match outcome {
            Ok(Value::Object(method)) => {
                let mut args: Vec<PyObjectRef> = Vec::new();
                args.push(needle);
                assert(args@ =~= seq![needle]);
                self.invoke(heap, method, PyFuncArgs::positional(args))
            },
            Ok(_) => Step::Panic(PanicReason::UnexpectedReply),
            Err(e) => Step::Done(Err(e)),
        }
    }

    fn membership_advance(iter: PyObjectRef, needle: PyObjectRef) -> (step: Step)
        ensures
            forall|w: World|
                (Next { world: w, step: step@ }) == #[trigger] membership_advance(w, iter, needle),
    {
        Step::ask_for(
            Request::NextObject { iter },
            Kont::Compare(CompareKont::MembershipNext { iter, needle }),
        )
    }

    pub(crate) fn membership_iter(needle: PyObjectRef, outcome: Outcome) -> (step: Step)
        ensures
            forall|w: World|
                (Next { world: w, step: step@ }) == #[trigger] membership_iter(
                    w,
                    needle,
                    outcome_view(outcome),
                ),
    {
        match outcome {
            Ok(Value::Object(iter)) => VirtualMachine::membership_advance(iter, needle),
            Ok(_) => Step::Panic(PanicReason::UnexpectedReply),
            Err(e) => Step::Done(Err(e)),
        }
    }

    pub(crate) fn membership_element(
        &self,
        heap: &Heap,
        iter: PyObjectRef,
        needle: PyObjectRef,
        outcome: Outcome,
    ) -> (step: Step)
        ensures
            next(*self, *heap, step) == membership_element(
                world(*self, *heap),
                iter,
                needle,
                outcome_view(outcome),
            ),
    {
        match outcome {
            Ok(Value::Object(element)) => {
                let step = self.bool_eq(heap, needle, element);
                match step {
                    Step::Done(outcome) => self.membership_compared(iter, needle, outcome),
                    step => step.beneath(
                        Kont::Compare(CompareKont::MembershipEqual { iter, needle }),
                    ),
                }
            },
            Ok(Value::Missing) => Step::object(self.ctx.false_value),
            Ok(_) => Step::Panic(PanicReason::UnexpectedReply),
            Err(e) => Step::Done(Err(e)),
        }
    }

    pub(crate) fn membership_compared(
        &self,
        iter: PyObjectRef,
        needle: PyObjectRef,
        outcome: Outcome,
    ) -> (step: Step)
        ensures
            forall|w: World|
                #![trigger membership_compared(w, iter, needle, outcome_view(outcome))]
                w.vm == self@ ==> (Next { world: w, step: step@ }) == membership_compared(
                    w,
                    iter,
                    needle,
                    outcome_view(outcome),
                ),
    {
        match outcome {
            Ok(Value::Bool(equal)) => {
                if equal {
                    Step::object(self.ctx.true_value)
                } else {
                    VirtualMachine::membership_advance(iter, needle)
                }
            },
            Ok(_) => Step::Panic(PanicReason::UnexpectedReply),
            Err(e) => Step::Done(Err(e)),
        }
    }
}

} // verus!

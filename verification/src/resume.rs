//! How an operation goes on when the host has replied.
use crate::attributes::{discarded, getattr_checked, getattr_displayed, getattr_looked_up};
use crate::calls::{
    invoke_done, invoke_returned, invoke_traced, method_bound, trace_called, trace_end,
};
use crate::compare::{
    compare_forwarded, compare_object, compare_reflected, compare_reversed, compare_truth,
    membership_bound, membership_compared, membership_element, membership_iter, seq_equal,
    seq_strict,
};
use crate::convert::{
    ascii_escape, ascii_made, element_converted, elements_iter, index_called, index_converted,
    index_tried, str_checked, str_text_taken, truth_taken,
};
use crate::frames::{atexit_called, atexit_reported, frame_left, frame_returned};
use crate::lifecycle::{
    boot_builtins, boot_sys, init_builtins, init_done, init_importer, init_io, init_open,
    init_signal, init_sys, stdio_dunder, stdio_opened, stdio_plain,
};
use crate::machine::{
    call_view, convert_view, frame_view, kont_view, module_view, next, operator_view, world,
    AttributeKont, CallKont, CompareKont, Continuation, ConvertKont, FrameKont, InitKont, Kont,
    KontView, ModuleKont, Next, OperatorKont, Step, StepView, Suspended, VirtualMachine, World,
};
use crate::modules::{
    attr_set, class_found, class_module, codec_module, import_cached, import_done, import_found,
    import_modules, module_made, needed_class, needed_module, raised,
};
use crate::object::{Heap, PyObjectRef};
use crate::operators::{attempt_bound, attempt_result};
use crate::protocol::{
    outcome_view, AtexitFunc, Attempt, FuncArgsView, Outcome, OutcomeView, PyFuncArgs,
};
use vstd::prelude::*;

verus! {

/// The continuations of a call.
#[verifier::opaque]
pub open spec fn apply_call(
    w: World,
    k: CallKont<Seq<PyObjectRef>, FuncArgsView>,
    o: OutcomeView,
) -> Next {
    match k {
        CallKont::InvokeCall { slot, callable, args } => invoke_traced(w, slot, callable, args, o),
        CallKont::InvokeReturn => invoke_returned(w, o),
        CallKont::InvokeDone { result } => invoke_done(w, result, o),
        CallKont::TraceProfile { profile_func, args } => trace_called(w, profile_func, args, o),
        CallKont::TraceEnd => trace_end(w, o),
        CallKont::InvokeWrapped { args } => method_bound(w, args, o),
    }
}

/// The continuations of an attribute access.
#[verifier::opaque]
pub open spec fn apply_attribute(w: World, k: AttributeKont, o: OutcomeView) -> Next {
    match k {
        AttributeKont::Discard => discarded(w, o),
        AttributeKont::GetattrDict { obj, name, cls, cls_attr } => getattr_looked_up(
            w,
            obj,
            name,
            cls,
            cls_attr,
            o,
        ),
        AttributeKont::GetattrRaise { obj, name } => getattr_checked(w, obj, name, o),
        AttributeKont::GetattrMessage { name } => getattr_displayed(w, name, o),
    }
}

/// The continuations of an operator.
#[verifier::opaque]
pub open spec fn apply_operator(
    w: World,
    k: OperatorKont<Seq<char>, Seq<Attempt<Seq<char>>>>,
    o: OutcomeView,
) -> Next {
    match k {
        OperatorKont::AttemptInvoke { arg, rest, unsupported } => attempt_bound(
            w,
            arg,
            rest,
            unsupported,
            o,
        ),
        OperatorKont::AttemptResult { rest, unsupported } => attempt_result(
            w,
            rest,
            unsupported,
            o,
        ),
    }
}

/// The continuations of a conversion.
#[verifier::opaque]
pub open spec fn apply_convert(w: World, k: ConvertKont<Seq<PyObjectRef>>, o: OutcomeView) -> Next {
    match k {
        ConvertKont::Truth => truth_taken(w, o),
        ConvertKont::ToStr => str_checked(w, o),
        ConvertKont::StrText => str_text_taken(w, o),
        ConvertKont::AsciiText => ascii_escape(w, o),
        ConvertKont::AsciiStr => ascii_made(w, o),
        ConvertKont::IndexTried { obj } => index_tried(w, obj, o),
        ConvertKont::IndexCalled { obj } => index_called(w, obj, o),
        ConvertKont::IndexConverted { obj } => index_converted(w, obj, o),
        ConvertKont::Elements { done, rest, to } => element_converted(w, done, rest, to, o),
        ConvertKont::ElementsIter { to } => elements_iter(w, to, o),
    }
}

/// The continuations of a comparison or a membership test.
#[verifier::opaque]
pub open spec fn apply_compare(w: World, k: CompareKont, o: OutcomeView) -> Next {
    match k {
        CompareKont::CompareReverse { v: x, w: y, op } => compare_reversed(w, x, y, op, o),
        CompareKont::CompareForward { v: x, w: y, op, reversed } => compare_forwarded(
            w,
            x,
            y,
            op,
            reversed,
            o,
        ),
        CompareKont::CompareReflected { v: x, w: y, op } => compare_reflected(w, x, y, op, o),
        CompareKont::CompareTruth => compare_truth(w, o),
        CompareKont::CompareObject => compare_object(w, o),
        CompareKont::SeqStrict { a, b } => seq_strict(w, a, b, o),
        CompareKont::SeqEqual => seq_equal(w, o),
        CompareKont::MembershipInvoke { needle } => membership_bound(w, needle, o),
        CompareKont::MembershipIter { needle } => membership_iter(w, needle, o),
        CompareKont::MembershipNext { iter, needle } => membership_element(w, iter, needle, o),
        CompareKont::MembershipEqual { iter, needle } => membership_compared(w, iter, needle, o),
    }
}

/// The continuations of a frame, or of the functions that run at exit.
#[verifier::opaque]
pub open spec fn apply_frame(
    w: World,
    k: FrameKont<Seq<AtexitFunc<FuncArgsView>>>,
    o: OutcomeView,
) -> Next {
    match k {
        FrameKont::PopFrame => frame_left(w, o),
        FrameKont::FrameReturned => frame_returned(w, o),
        FrameKont::AtexitCalled { rest, last } => atexit_called(w, rest, last, o),
        FrameKont::AtexitReported { rest, last } => atexit_reported(w, rest, last, o),
    }
}

/// The continuations of an import, or of what needs one.
#[verifier::opaque]
pub open spec fn apply_module(
    w: World,
    k: ModuleKont<Seq<char>, Seq<PyObjectRef>>,
    o: OutcomeView,
) -> Next {
    match k {
        ModuleKont::ImportModules { module } => import_modules(w, module, o),
        ModuleKont::ImportCached { module } => import_cached(w, module, o),
        ModuleKont::ImportFunc { module, from_list, level } => import_found(
            w,
            module,
            from_list,
            level,
            o,
        ),
        ModuleKont::ImportDone => import_done(w, o),
        ModuleKont::Raise => raised(w, o),
        ModuleKont::SetAttrs { exc, names, values } => attr_set(w, exc, names, values, o),
        ModuleKont::ClassModule { class } => class_module(w, class, o),
        ModuleKont::ClassFound => class_found(w, o),
        ModuleKont::NeededModule { class } => needed_module(w, class, o),
        ModuleKont::NeededClass { module } => needed_class(w, module, o),
        ModuleKont::CodecModule { func, args } => codec_module(w, func, args, o),
        ModuleKont::ModuleMade { dict } => module_made(w, dict, o),
    }
}

/// The continuations of the making of a machine.
#[verifier::opaque]
pub open spec fn apply_init(w: World, k: InitKont, o: OutcomeView) -> Next {
    match k {
        InitKont::NewBuiltins { sys_dict, init } => boot_builtins(w, sys_dict, init, o),
        InitKont::NewSys { init } => boot_sys(w, init, o),
        InitKont::InitBuiltins { init } => init_builtins(w, init, o),
        InitKont::InitSys { init } => init_sys(w, init, o),
        InitKont::InitSignal { init } => init_signal(w, init, o),
        InitKont::InitIo { init } => init_io(w, init, o),
        InitKont::InitOpen { init } => init_open(w, init, o),
        InitKont::InitStdio { init, open, stream } => stdio_opened(w, init, open, stream, o),
        InitKont::InitDunder { init, open, stream, stdio } => stdio_dunder(
            w,
            init,
            open,
            stream,
            stdio,
            o,
        ),
        InitKont::InitPlain { init, open, stream } => stdio_plain(w, init, open, stream, o),
        InitKont::InitImporter { init } => init_importer(w, init, o),
        InitKont::InitDone => init_done(w, o),
    }
}

/// What one continuation does with the outcome that it waited for.
#[verifier::opaque]
pub open spec fn apply_next(w: World, k: KontView, o: OutcomeView) -> Next {
    match k {
        Kont::Call(k) => apply_call(w, k, o),
        Kont::Attribute(k) => apply_attribute(w, k, o),
        Kont::Operator(k) => apply_operator(w, k, o),
        Kont::Convert(k) => apply_convert(w, k, o),
        Kont::Compare(k) => apply_compare(w, k, o),
        Kont::Frame(k) => apply_frame(w, k, o),
        Kont::Module(k) => apply_module(w, k, o),
        Kont::Init(k) => apply_init(w, k, o),
    }
}

/// How a continuation of this kind is applied.
pub proof fn applies_call(k: CallKont<Seq<PyObjectRef>, FuncArgsView>)
    ensures
        forall|w: World, o: OutcomeView|
            #[trigger] apply_next(w, Kont::Call(k), o) == apply_call(w, k, o),
{
    reveal(apply_next);
}

/// How a continuation of this kind is applied.
pub proof fn applies_attribute(k: AttributeKont)
    ensures
        forall|w: World, o: OutcomeView|
            #[trigger] apply_next(w, Kont::Attribute(k), o) == apply_attribute(w, k, o),
{
    reveal(apply_next);
}

/// How a continuation of this kind is applied.
pub proof fn applies_operator(k: OperatorKont<Seq<char>, Seq<Attempt<Seq<char>>>>)
    ensures
        forall|w: World, o: OutcomeView|
            #[trigger] apply_next(w, Kont::Operator(k), o) == apply_operator(w, k, o),
{
    reveal(apply_next);
}

/// How a continuation of this kind is applied.
pub proof fn applies_convert(k: ConvertKont<Seq<PyObjectRef>>)
    ensures
        forall|w: World, o: OutcomeView|
            #[trigger] apply_next(w, Kont::Convert(k), o) == apply_convert(w, k, o),
{
    reveal(apply_next);
}

/// How a continuation of this kind is applied.
pub proof fn applies_compare(k: CompareKont)
    ensures
        forall|w: World, o: OutcomeView|
            #[trigger] apply_next(w, Kont::Compare(k), o) == apply_compare(w, k, o),
{
    reveal(apply_next);
}

/// How a continuation of this kind is applied.
pub proof fn applies_frame(k: FrameKont<Seq<AtexitFunc<FuncArgsView>>>)
    ensures
        forall|w: World, o: OutcomeView|
            #[trigger] apply_next(w, Kont::Frame(k), o) == apply_frame(w, k, o),
{
    reveal(apply_next);
}

/// How a continuation of this kind is applied.
pub proof fn applies_module(k: ModuleKont<Seq<char>, Seq<PyObjectRef>>)
    ensures
        forall|w: World, o: OutcomeView|
            #[trigger] apply_next(w, Kont::Module(k), o) == apply_module(w, k, o),
{
    reveal(apply_next);
}

/// How a continuation of this kind is applied.
pub proof fn applies_init(k: InitKont)
    ensures
        forall|w: World, o: OutcomeView|
            #[trigger] apply_next(w, Kont::Init(k), o) == apply_init(w, k, o),
{
    reveal(apply_next);
}

/// What a suspended operation does with an outcome: the last continuation takes
/// it, the one before takes what comes of that, and so on, until one of them asks
/// the host again or none is left.
#[verifier::opaque]
pub open spec fn resume_next(w: World, ks: Seq<KontView>, o: OutcomeView) -> Next
    decreases ks.len(),
{
    if ks.len() == 0 {
        Next { world: w, step: StepView::Done(o) }
    } else {
        let n = apply_next(w, ks.last(), o);
        match n.step {
            StepView::Done(o) => resume_next(n.world, ks.drop_last(), o),
            StepView::Ask(request, inner) => Next {
                world: n.world,
                step: StepView::Ask(request, ks.drop_last() + inner),
            },
            StepView::Panic(_) => n,
        }
    }
}

impl VirtualMachine {
    fn apply_call(
        &mut self,
        heap: &mut Heap,
        k: CallKont<Vec<PyObjectRef>, PyFuncArgs>,
        outcome: Outcome,
    ) -> (step: Step)
        ensures
            next(*final(self), *final(heap), step) == apply_call(
                world(*old(self), *old(heap)),
                call_view(k),
                outcome_view(outcome),
            ),
    {
        reveal(apply_call);
        match k {
            CallKont::InvokeCall { slot, callable, args } => self.invoke_traced(
                slot,
                callable,
                args,
                outcome,
            ),
            CallKont::InvokeReturn => self.invoke_returned(heap, outcome),
            CallKont::InvokeDone { result } => VirtualMachine::invoke_done(result, outcome),
            CallKont::TraceProfile { profile_func, args } => self.trace_called(
                heap,
                profile_func,
                args,
                outcome,
            ),
            CallKont::TraceEnd => self.trace_end(outcome),
            CallKont::InvokeWrapped { args } => self.method_bound(heap, args, outcome),
        }
    }

    fn apply_attribute(
        &mut self,
        heap: &mut Heap,
        k: AttributeKont,
        outcome: Outcome,
    ) -> (step: Step)
        ensures
            next(*final(self), *final(heap), step) == apply_attribute(
                world(*old(self), *old(heap)),
                k,
                outcome_view(outcome),
            ),
    {
        reveal(apply_attribute);
        match k {
            AttributeKont::Discard => VirtualMachine::discard(outcome),
            AttributeKont::GetattrDict { obj, name, cls, cls_attr } => self.getattr_looked_up(
                heap,
                obj,
                name,
                cls,
                cls_attr,
                outcome,
            ),
            AttributeKont::GetattrRaise { obj, name } => VirtualMachine::getattr_checked(
                obj,
                name,
                outcome,
            ),
            AttributeKont::GetattrMessage { name } => self.getattr_displayed(heap, name, outcome),
        }
    }

    fn apply_operator(
        &mut self,
        heap: &mut Heap,
        k: OperatorKont<String, Vec<Attempt<String>>>,
        outcome: Outcome,
    ) -> (step: Step)
        ensures
            next(*final(self), *final(heap), step) == apply_operator(
                world(*old(self), *old(heap)),
                operator_view(k),
                outcome_view(outcome),
            ),
    {
        reveal(apply_operator);
        match k {
            OperatorKont::AttemptInvoke { arg, rest, unsupported } => self.attempt_bound(
                heap,
                arg,
                rest,
                unsupported,
                outcome,
            ),
            OperatorKont::AttemptResult { rest, unsupported } => self.attempt_result(
                heap,
                rest,
                unsupported,
                outcome,
            ),
        }
    }

    fn apply_convert(
        &mut self,
        heap: &mut Heap,
        k: ConvertKont<Vec<PyObjectRef>>,
        outcome: Outcome,
    ) -> (step: Step)
        ensures
            next(*final(self), *final(heap), step) == apply_convert(
                world(*old(self), *old(heap)),
                convert_view(k),
                outcome_view(outcome),
            ),
    {
        reveal(apply_convert);
        match k {
            ConvertKont::Truth => VirtualMachine::truth_taken(outcome),
            ConvertKont::ToStr => VirtualMachine::str_checked(outcome),
            ConvertKont::StrText => VirtualMachine::str_text_taken(heap, outcome),
            ConvertKont::AsciiText => VirtualMachine::ascii_escape(heap, outcome),
            ConvertKont::AsciiStr => self.ascii_made(heap, outcome),
            ConvertKont::IndexTried { obj } => self.index_tried(heap, obj, outcome),
            ConvertKont::IndexCalled { obj } => VirtualMachine::index_called(obj, outcome),
            ConvertKont::IndexConverted { obj } => self.index_converted(heap, obj, outcome),
            ConvertKont::Elements { done, rest, to } => VirtualMachine::element_converted(
                done,
                rest,
                to,
                outcome,
            ),
            ConvertKont::ElementsIter { to } => VirtualMachine::elements_iter(to, outcome),
        }
    }

    fn apply_compare(
        &mut self,
        heap: &mut Heap,
        k: CompareKont,
        outcome: Outcome,
    ) -> (step: Step)
        ensures
            next(*final(self), *final(heap), step) == apply_compare(
                world(*old(self), *old(heap)),
                k,
                outcome_view(outcome),
            ),
    {
        reveal(apply_compare);
        match k {
            CompareKont::CompareReverse { v: x, w: y, op } => self.compare_reversed(
                heap,
                x,
                y,
                op,
                outcome,
            ),
            CompareKont::CompareForward { v: x, w: y, op, reversed } => self.compare_forwarded(
                heap,
                x,
                y,
                op,
                reversed,
                outcome,
            ),
            CompareKont::CompareReflected { v: x, w: y, op } => self.compare_reflected(
                heap,
                x,
                y,
                op,
                outcome,
            ),
            CompareKont::CompareTruth => VirtualMachine::compare_truth(outcome),
            CompareKont::CompareObject => self.compare_object(outcome),
            CompareKont::SeqStrict { a, b } => self.seq_strict(heap, a, b, outcome),
            CompareKont::SeqEqual => VirtualMachine::seq_equal(outcome),
            CompareKont::MembershipInvoke { needle } => self.membership_bound(
                heap,
                needle,
                outcome,
            ),
            CompareKont::MembershipIter { needle } => VirtualMachine::membership_iter(
                needle,
                outcome,
            ),
            CompareKont::MembershipNext { iter, needle } => self.membership_element(
                heap,
                iter,
                needle,
                outcome,
            ),
            CompareKont::MembershipEqual { iter, needle } => self.membership_compared(
                iter,
                needle,
                outcome,
            ),
        }
    }

    fn apply_frame(
        &mut self,
        heap: &mut Heap,
        k: FrameKont<Vec<AtexitFunc<PyFuncArgs>>>,
        outcome: Outcome,
    ) -> (step: Step)
        ensures
            next(*final(self), *final(heap), step) == apply_frame(
                world(*old(self), *old(heap)),
                frame_view(k),
                outcome_view(outcome),
            ),
    {
        reveal(apply_frame);
        match k {
            FrameKont::PopFrame => self.leave_frame(outcome),
            FrameKont::FrameReturned => VirtualMachine::frame_returned(outcome),
            FrameKont::AtexitCalled { rest, last } => self.atexit_called(heap, rest, last, outcome),
            FrameKont::AtexitReported { rest, last } => self.atexit_reported(
                heap,
                rest,
                last,
                outcome,
            ),
        }
    }

    fn apply_module(
        &mut self,
        heap: &mut Heap,
        k: ModuleKont<String, Vec<PyObjectRef>>,
        outcome: Outcome,
    ) -> (step: Step)
        ensures
            next(*final(self), *final(heap), step) == apply_module(
                world(*old(self), *old(heap)),
                module_view(k),
                outcome_view(outcome),
            ),
    {
        reveal(apply_module);
        match k {
            ModuleKont::ImportModules { module } => VirtualMachine::import_modules(module, outcome),
            ModuleKont::ImportCached { module } => self.import_cached(heap, &module, outcome),
            ModuleKont::ImportFunc { module, from_list, level } => self.import_found(
                heap,
                &module,
                from_list,
                level,
                outcome,
            ),
            ModuleKont::ImportDone => VirtualMachine::import_done(outcome),
            ModuleKont::Raise => VirtualMachine::raised(outcome),
            ModuleKont::SetAttrs { exc, names, values } => self.attr_set(
                heap,
                exc,
                names,
                values,
                outcome,
            ),
            ModuleKont::ClassModule { class } => self.class_module(heap, &class, outcome),
            ModuleKont::ClassFound => VirtualMachine::class_found(heap, outcome),
            ModuleKont::NeededModule { class } => self.needed_module(heap, &class, outcome),
            ModuleKont::NeededClass { module } => VirtualMachine::needed_class(
                heap,
                module,
                outcome,
            ),
            ModuleKont::CodecModule { func, args } => self.codec_module(
                heap,
                func.as_str(),
                args,
                outcome,
            ),
            ModuleKont::ModuleMade { dict } => self.module_made(heap, dict, outcome),
        }
    }

    fn apply_init(
        &mut self,
        heap: &mut Heap,
        k: InitKont,
        outcome: Outcome,
    ) -> (step: Step)
        ensures
            next(*final(self), *final(heap), step) == apply_init(
                world(*old(self), *old(heap)),
                k,
                outcome_view(outcome),
            ),
    {
        reveal(apply_init);
        match k {
            InitKont::NewBuiltins { sys_dict, init } => self.boot_builtins(
                heap,
                sys_dict,
                init,
                outcome,
            ),
            InitKont::NewSys { init } => self.boot_sys(init, outcome),
            InitKont::InitBuiltins { init } => self.init_builtins(init, outcome),
            InitKont::InitSys { init } => self.init_sys(init, outcome),
            InitKont::InitSignal { init } => self.init_signal(init, outcome),
            InitKont::InitIo { init } => self.init_io(heap, init, outcome),
            InitKont::InitOpen { init } => self.init_open(heap, init, outcome),
            InitKont::InitStdio { init, open, stream } => self.stdio_opened(
                heap,
                init,
                open,
                stream,
                outcome,
            ),
            InitKont::InitDunder { init, open, stream, stdio } => self.stdio_dunder(
                heap,
                init,
                open,
                stream,
                stdio,
                outcome,
            ),
            InitKont::InitPlain { init, open, stream } => self.stdio_plain(
                heap,
                init,
                open,
                stream,
                outcome,
            ),
            InitKont::InitImporter { init } => VirtualMachine::init_importer(init, outcome),
            InitKont::InitDone => self.init_done(outcome),
        }
    }

    fn apply(&mut self, heap: &mut Heap, k: Continuation, outcome: Outcome) -> (step: Step)
        ensures
            next(*final(self), *final(heap), step) == apply_next(
                world(*old(self), *old(heap)),
                kont_view(k),
                outcome_view(outcome),
            ),
    {
        reveal(apply_next);
        match k {
            Kont::Call(k) => self.apply_call(heap, k, outcome),
            Kont::Attribute(k) => self.apply_attribute(heap, k, outcome),
            Kont::Operator(k) => self.apply_operator(heap, k, outcome),
            Kont::Convert(k) => self.apply_convert(heap, k, outcome),
            Kont::Compare(k) => self.apply_compare(heap, k, outcome),
            Kont::Frame(k) => self.apply_frame(heap, k, outcome),
            Kont::Module(k) => self.apply_module(heap, k, outcome),
            Kont::Init(k) => self.apply_init(heap, k, outcome),
        }
    }

    /// Goes on with an operation: `outcome` is the host's reply to the request.
    pub fn resume(&mut self, heap: &mut Heap, suspended: Suspended, outcome: Outcome) -> (step:
        Step)
        ensures
            next(*final(self), *final(heap), step) == resume_next(
                world(*old(self), *old(heap)),
                suspended@,
                outcome_view(outcome),
            ),
        decreases suspended.konts.len(),
    {
        reveal(resume_next);
        let ghost ks = suspended@;
        let mut suspended = suspended;
        match suspended.konts.pop() {
            None => Step::Done(outcome),
            Some(k) => {
                assert(suspended@ =~= ks.drop_last());
                assert(ks.last() == kont_view(k));
                match self.apply(heap, k, outcome) {
                    Step::Done(outcome) => self.resume(heap, suspended, outcome),
                    Step::Ask(request, inner) => {
                        let mut inner = inner;
                        let ghost above = inner@;
                        suspended.konts.append(&mut inner.konts);
                        assert(suspended@ =~= ks.drop_last() + above);
                        Step::Ask(request, suspended)
                    },
                    Step::Panic(reason) => Step::Panic(reason),
                }
            },
        }
    }
}

} // verus!

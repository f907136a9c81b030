//! The state of the machine, its continuations and its steps.
use crate::context::PyContext;
use crate::object::{
    FrameRef, Heap, ObjectView, PyBaseExceptionRef, PyDictRef, PyObjectRef, PyStrRef, PyTypeRef,
    SlotFunc,
};
use crate::protocol::{
    atexit_view, attempts_view, outcome_view, AtexitFunc, Attempt, Conversion, FuncArgsView,
    HostRequest, Outcome, OutcomeView, PanicReason, PyComparisonOp, PyFuncArgs, RequestView,
    StdStream, Unsupported, ValueView,
};
use crate::settings::{InitParameter, PySettings};
use crossbeam_utils::atomic::AtomicCell;
use std::collections::HashSet;
use std::sync::Arc;
use vstd::prelude::*;

verus! {

/// `crossbeam_utils::atomic::AtomicCell`: a memory location that threads share.
#[verifier::external_type_specification]
#[verifier::external_body]
#[verifier::reject_recursive_types(T)]
pub struct ExAtomicCell<T: ?Sized>(AtomicCell<T>);

/// The value that a cell was made with. What it holds later is not a property
/// of the cell: other threads write to it.
pub uninterp spec fn made_with(cell: AtomicCell<usize>) -> usize;

/// `AtomicCell::new`: makes a cell that is initialized with `value`.
#[verifier::external_body]
pub(crate) fn new_counter(value: usize) -> (cell: AtomicCell<usize>)
    ensures
        made_with(cell) == value,
{
    AtomicCell::new(value)
}

/// `rand::random`: two random numbers. Nothing is promised of them.
#[verifier::external_body]
fn random_keys() -> (keys: (u64, u64))
{
    rand::random()
}

/// What the hashes of strings are keyed with.
#[derive(Clone, Copy, PartialEq, Eq, Structural, Debug)]
pub enum HashSecret {
    /// The keys that follow from a seed.
    Seeded(u32),
    /// Keys drawn at random.
    Random { k0: u64, k1: u64 },
}

impl HashSecret {
    /// The secret for the setting PYTHONHASHSEED.
    pub fn from_setting(hash_seed: Option<u32>) -> (secret: HashSecret)
        ensures
            secret.fits(hash_seed),
    {
        match hash_seed {
            Some(seed) => HashSecret::Seeded(seed),
            None => {
                let (k0, k1) = random_keys();
                HashSecret::Random { k0, k1 }
            },
        }
    }

    /// A seed fixes the secret; without one it is random.
    pub open spec fn fits(self, hash_seed: Option<u32>) -> bool {
        match hash_seed {
            Some(seed) => self == HashSecret::Seeded(seed),
            None => self is Random,
        }
    }
}

/// What the build of the host brings along.
pub struct BuildInfo {
    /// Whether the target has signals: WebAssembly has none.
    pub has_signals: bool,
    /// Whether the target has standard streams and environment variables: WebAssembly
    /// without a system interface has none.
    pub has_system: bool,
    pub debug_assertions: bool,
    /// The modules that are built in, with the host's number for each.
    pub stdlib_inits: Vec<(String, u64)>,
    /// The frozen modules, with the host's number for each.
    pub frozen: Vec<(String, u64)>,
}

/// What all threads of an interpreter share. The functions to run at exit, which they
/// share too, are a list that the host keeps.
pub struct PyGlobalState {
    pub settings: PySettings,
    pub stdlib_inits: Vec<(String, u64)>,
    pub frozen: Vec<(String, u64)>,
    pub stacksize: AtomicCell<usize>,
    pub thread_count: AtomicCell<usize>,
    pub hash_secret: HashSecret,
    pub has_signals: bool,
    pub has_system: bool,
}

/// Top level container of a python virtual machine. In theory you could
/// create more instances of this struct and have them operate fully isolated.
pub struct VirtualMachine {
    pub builtins: PyObjectRef,
    pub sys_module: PyObjectRef,
    pub ctx: PyContext,
    pub frames: Vec<FrameRef>,
    pub wasm_id: Option<String>,
    pub exceptions: Vec<PyBaseExceptionRef>,
    pub import_func: PyObjectRef,
    pub profile_func: PyObjectRef,
    pub trace_func: PyObjectRef,
    pub use_tracing: bool,
    pub recursion_limit: usize,
    pub signal_handlers: Option<Vec<PyObjectRef>>,
    pub repr_guards: HashSet<usize>,
    pub state: Arc<PyGlobalState>,
    pub initialized: bool,
}

/// The state of a virtual machine, as a value.
pub ghost struct VmView {
    pub builtins: PyObjectRef,
    pub sys_module: PyObjectRef,
    pub ctx: PyContext,
    pub frames: Seq<FrameRef>,
    pub wasm_id: Option<Seq<char>>,
    pub exceptions: Seq<PyBaseExceptionRef>,
    pub import_func: PyObjectRef,
    pub profile_func: PyObjectRef,
    pub trace_func: PyObjectRef,
    pub use_tracing: bool,
    pub recursion_limit: usize,
    pub signal_handlers: Option<Seq<PyObjectRef>>,
    pub repr_guards: Set<usize>,
    pub state: Arc<PyGlobalState>,
    pub initialized: bool,
}

impl View for VirtualMachine {
    type V = VmView;

    open spec fn view(&self) -> VmView {
        VmView {
            builtins: self.builtins,
            sys_module: self.sys_module,
            ctx: self.ctx,
            frames: self.frames@,
            wasm_id: match self.wasm_id {
                Some(id) => Some(id@),
                None => None,
            },
            exceptions: self.exceptions@,
            import_func: self.import_func,
            profile_func: self.profile_func,
            trace_func: self.trace_func,
            use_tracing: self.use_tracing,
            recursion_limit: self.recursion_limit,
            signal_handlers: match self.signal_handlers {
                Some(handlers) => Some(handlers@),
                None => None,
            },
            repr_guards: self.repr_guards@,
            state: self.state,
            initialized: self.initialized,
        }
    }
}

/// All that an operation reads and changes: a machine and the heap.
pub ghost struct World {
    pub vm: VmView,
    pub heap: Seq<ObjectView>,
}

pub open spec fn world(vm: VirtualMachine, heap: Heap) -> World {
    World { vm: vm@, heap: heap@ }
}

// In the continuations `S` stands for text, `L` for a list of objects, `P` for the
// arguments of a call, `A` for a list of attempts and `F` for a list of functions to
// run at exit.

/// What is left to do of a call.
pub enum CallKont<L, P> {
    /// The call event was traced: run the slot.
    InvokeCall { slot: SlotFunc, callable: PyObjectRef, args: P },
    /// The slot has run: trace the return event.
    InvokeReturn,
    /// The return event was traced: yield what the slot did.
    InvokeDone { result: Result<PyObjectRef, PyBaseExceptionRef> },
    /// The trace function has run: run the profile function.
    TraceProfile { profile_func: PyObjectRef, args: L },
    /// The profile function has run.
    TraceEnd,
    /// The method is bound: call it.
    InvokeWrapped { args: P },
}

/// What is left to do of an attribute access.
pub enum AttributeKont {
    /// Forget the value.
    Discard,
    /// The instance dictionary was asked: go on with the class attribute.
    GetattrDict {
        obj: PyObjectRef,
        name: PyStrRef,
        cls: PyTypeRef,
        cls_attr: Option<PyObjectRef>,
    },
    /// Raise where there is no attribute.
    GetattrRaise { obj: PyObjectRef, name: PyStrRef },
    /// The object's display is there: raise.
    GetattrMessage { name: PyStrRef },
}

/// What is left to do of an operator.
pub enum OperatorKont<S, A> {
    /// The method of an attempt is bound: call it.
    AttemptInvoke { arg: PyObjectRef, rest: A, unsupported: Unsupported<S> },
    /// An attempt was made: take its value, or go on.
    AttemptResult { rest: A, unsupported: Unsupported<S> },
}

/// What is left to do of a conversion.
pub enum ConvertKont<L> {
    /// Take the truth value of the object.
    Truth,
    /// Check that the object is a string.
    ToStr,
    /// Take the text of the string.
    StrText,
    /// Escape the text of the string.
    AsciiText,
    /// Make a string of the text.
    AsciiStr,
    /// It was checked whether the object is an integer.
    IndexTried { obj: PyObjectRef },
    /// `__index__` has run.
    IndexCalled { obj: PyObjectRef },
    /// It was checked whether `__index__` returned an integer.
    IndexConverted { obj: PyObjectRef },
    /// One element was converted: convert the others.
    Elements { done: L, rest: L, to: Conversion },
    /// The iterator is there: exhaust it.
    ElementsIter { to: Conversion },
}

/// What is left to do of a comparison or a membership test.
pub enum CompareKont {
    /// The reflected comparison was tried before the other.
    CompareReverse { v: PyObjectRef, w: PyObjectRef, op: PyComparisonOp },
    /// The comparison was tried.
    CompareForward { v: PyObjectRef, w: PyObjectRef, op: PyComparisonOp, reversed: bool },
    /// The reflected comparison was tried after the other.
    CompareReflected { v: PyObjectRef, w: PyObjectRef, op: PyComparisonOp },
    /// Take the truth value of a comparison.
    CompareTruth,
    /// Make an object of a comparison.
    CompareObject,
    /// It is known whether the one operand goes strictly before the other.
    SeqStrict { a: PyObjectRef, b: PyObjectRef },
    /// It is known whether the operands are equal.
    SeqEqual,
    /// `__contains__` is bound: call it.
    MembershipInvoke { needle: PyObjectRef },
    /// The iterator is there: look at its elements.
    MembershipIter { needle: PyObjectRef },
    /// One element is there: compare it.
    MembershipNext { iter: PyObjectRef, needle: PyObjectRef },
    /// One element was compared.
    MembershipEqual { iter: PyObjectRef, needle: PyObjectRef },
}

/// What is left to do of a frame, or of the functions that run at exit.
pub enum FrameKont<F> {
    /// Leave the frame.
    PopFrame,
    /// Take what the frame returned.
    FrameReturned,
    /// One function was run at exit.
    AtexitCalled { rest: F, last: Option<PyBaseExceptionRef> },
    /// Its exception was reported: run the others.
    AtexitReported { rest: F, last: Option<PyBaseExceptionRef> },
}

/// What is left to do of an import, or of what needs one.
pub enum ModuleKont<S, L> {
    /// `sys.modules` is there: ask it for the module.
    ImportModules { module: S },
    /// `sys.modules` was asked.
    ImportCached { module: S },
    /// `__import__` was looked up: call it.
    ImportFunc { module: S, from_list: PyObjectRef, level: usize },
    /// `__import__` has run.
    ImportDone,
    /// Raise the object.
    Raise,
    /// One attribute of a new exception was set: set the others.
    SetAttrs { exc: PyBaseExceptionRef, names: L, values: L },
    /// The module is imported: look the class up.
    ClassModule { class: S },
    /// The class is looked up.
    ClassFound,
    /// The module that must be there is imported: look the class up.
    NeededModule { class: S },
    /// The class that must be there is looked up.
    NeededClass { module: PyObjectRef },
    /// The codecs module is imported: look the function up.
    CodecModule { func: S, args: L },
    /// The dictionary of a new module is filled: make the module.
    ModuleMade { dict: PyDictRef },
}

/// What is left to do of the making of a machine.
pub enum InitKont {
    /// The dictionary of `builtins` is set up.
    NewBuiltins { sys_dict: PyDictRef, init: Option<InitParameter> },
    /// The dictionary of `sys` is set up.
    NewSys { init: Option<InitParameter> },
    /// `builtins` is filled.
    InitBuiltins { init: InitParameter },
    /// `sys` is filled.
    InitSys { init: InitParameter },
    /// `_signal` is imported.
    InitSignal { init: InitParameter },
    /// `_io` is imported.
    InitIo { init: InitParameter },
    /// `_io.open` is looked up.
    InitOpen { init: InitParameter },
    /// A standard stream is opened.
    InitStdio { init: InitParameter, open: PyObjectRef, stream: StdStream },
    /// It is set under its name between underscores.
    InitDunder {
        init: InitParameter,
        open: PyObjectRef,
        stream: StdStream,
        stdio: PyObjectRef,
    },
    /// It is set under its own name.
    InitPlain { init: InitParameter, open: PyObjectRef, stream: StdStream },
    /// `builtins.open` is set.
    InitImporter { init: InitParameter },
    /// The import machinery is set up.
    InitDone,
}

/// What is left to do of an operation once the reply to a request, or the
/// outcome of a smaller operation, is there.
pub enum Kont<S, L, P, A, F> {
    Call(CallKont<L, P>),
    Attribute(AttributeKont),
    Operator(OperatorKont<S, A>),
    Convert(ConvertKont<L>),
    Compare(CompareKont),
    Frame(FrameKont<F>),
    Module(ModuleKont<S, L>),
    Init(InitKont),
}

pub type Continuation = Kont<
    String,
    Vec<PyObjectRef>,
    PyFuncArgs,
    Vec<Attempt<String>>,
    Vec<AtexitFunc<PyFuncArgs>>,
>;

pub type KontView = Kont<
    Seq<char>,
    Seq<PyObjectRef>,
    FuncArgsView,
    Seq<Attempt<Seq<char>>>,
    Seq<AtexitFunc<FuncArgsView>>,
>;

pub open spec fn call_view(k: CallKont<Vec<PyObjectRef>, PyFuncArgs>) -> CallKont<
    Seq<PyObjectRef>,
    FuncArgsView,
> {
    match k {
        CallKont::InvokeCall { slot, callable, args } => CallKont::InvokeCall {
            slot,
            callable,
            args: args@,
        },
        CallKont::InvokeReturn => CallKont::InvokeReturn,
        CallKont::InvokeDone { result } => CallKont::InvokeDone { result },
        CallKont::TraceProfile { profile_func, args } => CallKont::TraceProfile {
            profile_func,
            args: args@,
        },
        CallKont::TraceEnd => CallKont::TraceEnd,
        CallKont::InvokeWrapped { args } => CallKont::InvokeWrapped { args: args@ },
    }
}

pub open spec fn operator_view(k: OperatorKont<String, Vec<Attempt<String>>>) -> OperatorKont<
    Seq<char>,
    Seq<Attempt<Seq<char>>>,
> {
    match k {
        OperatorKont::AttemptInvoke { arg, rest, unsupported } => OperatorKont::AttemptInvoke {
            arg,
            rest: attempts_view(rest@),
            unsupported: unsupported@,
        },
        OperatorKont::AttemptResult { rest, unsupported } => OperatorKont::AttemptResult {
            rest: attempts_view(rest@),
            unsupported: unsupported@,
        },
    }
}

pub open spec fn convert_view(k: ConvertKont<Vec<PyObjectRef>>) -> ConvertKont<Seq<PyObjectRef>> {
    match k {
        ConvertKont::Truth => ConvertKont::Truth,
        ConvertKont::ToStr => ConvertKont::ToStr,
        ConvertKont::StrText => ConvertKont::StrText,
        ConvertKont::AsciiText => ConvertKont::AsciiText,
        ConvertKont::AsciiStr => ConvertKont::AsciiStr,
        ConvertKont::IndexTried { obj } => ConvertKont::IndexTried { obj },
        ConvertKont::IndexCalled { obj } => ConvertKont::IndexCalled { obj },
        ConvertKont::IndexConverted { obj } => ConvertKont::IndexConverted { obj },
        ConvertKont::Elements { done, rest, to } => ConvertKont::Elements {
            done: done@,
            rest: rest@,
            to,
        },
        ConvertKont::ElementsIter { to } => ConvertKont::ElementsIter { to },
    }
}

pub open spec fn frame_view(k: FrameKont<Vec<AtexitFunc<PyFuncArgs>>>) -> FrameKont<
    Seq<AtexitFunc<FuncArgsView>>,
> {
    match k {
        FrameKont::PopFrame => FrameKont::PopFrame,
        FrameKont::FrameReturned => FrameKont::FrameReturned,
        FrameKont::AtexitCalled { rest, last } => FrameKont::AtexitCalled {
            rest: atexit_view(rest@),
            last,
        },
        FrameKont::AtexitReported { rest, last } => FrameKont::AtexitReported {
            rest: atexit_view(rest@),
            last,
        },
    }
}

pub open spec fn module_view(k: ModuleKont<String, Vec<PyObjectRef>>) -> ModuleKont<
    Seq<char>,
    Seq<PyObjectRef>,
> {
    match k {
        ModuleKont::ImportModules { module } => ModuleKont::ImportModules { module: module@ },
        ModuleKont::ImportCached { module } => ModuleKont::ImportCached { module: module@ },
        ModuleKont::ImportFunc { module, from_list, level } => ModuleKont::ImportFunc {
            module: module@,
            from_list,
            level,
        },
        ModuleKont::ImportDone => ModuleKont::ImportDone,
        ModuleKont::Raise => ModuleKont::Raise,
        ModuleKont::SetAttrs { exc, names, values } => ModuleKont::SetAttrs {
            exc,
            names: names@,
            values: values@,
        },
        ModuleKont::ClassModule { class } => ModuleKont::ClassModule { class: class@ },
        ModuleKont::ClassFound => ModuleKont::ClassFound,
        ModuleKont::NeededModule { class } => ModuleKont::NeededModule { class: class@ },
        ModuleKont::NeededClass { module } => ModuleKont::NeededClass { module },
        ModuleKont::CodecModule { func, args } => ModuleKont::CodecModule {
            func: func@,
            args: args@,
        },
        ModuleKont::ModuleMade { dict } => ModuleKont::ModuleMade { dict },
    }
}

pub open spec fn kont_view(k: Continuation) -> KontView {
    match k {
        Kont::Call(k) => Kont::Call(call_view(k)),
        Kont::Attribute(k) => Kont::Attribute(k),
        Kont::Operator(k) => Kont::Operator(operator_view(k)),
        Kont::Convert(k) => Kont::Convert(convert_view(k)),
        Kont::Compare(k) => Kont::Compare(k),
        Kont::Frame(k) => Kont::Frame(frame_view(k)),
        Kont::Module(k) => Kont::Module(module_view(k)),
        Kont::Init(k) => Kont::Init(k),
    }
}

/// An operation that waits for the host. Its continuations run from the last
/// to the first.
pub struct Suspended {
    pub konts: Vec<Continuation>,
}

impl View for Suspended {
    type V = Seq<KontView>;

    open spec fn view(&self) -> Seq<KontView> {
        self.konts@.map_values(|k: Continuation| kont_view(k))
    }
}

/// Where an operation stands.
pub enum Step {
    /// It is over.
    Done(Outcome),
    /// It goes on when the host replies to the request.
    Ask(HostRequest, Suspended),
    /// The host must panic.
    Panic(PanicReason),
}

/// Where an operation stands, as a value.
pub ghost enum StepView {
    Done(OutcomeView),
    Ask(RequestView, Seq<KontView>),
    Panic(PanicReason),
}

impl View for Step {
    type V = StepView;

    open spec fn view(&self) -> StepView {
        match *self {
            Step::Done(outcome) => StepView::Done(outcome_view(outcome)),
            Step::Ask(request, suspended) => StepView::Ask(request@, suspended@),
            Step::Panic(reason) => StepView::Panic(reason),
        }
    }
}

/// What an operation leaves behind: the state, and where it stands.
pub ghost struct Next {
    pub world: World,
    pub step: StepView,
}

pub open spec fn next(vm: VirtualMachine, heap: Heap, step: Step) -> Next {
    Next { world: world(vm, heap), step: step@ }
}

/// The operation is over and yields `v`.
pub open spec fn yields(w: World, v: ValueView) -> Next {
    Next { world: w, step: StepView::Done(Ok(v)) }
}

/// The operation is over and raises `e`.
pub open spec fn raises(w: World, e: PyBaseExceptionRef) -> Next {
    Next { world: w, step: StepView::Done(Err(e)) }
}

/// The operation asks the host; its reply goes to `konts`.
pub open spec fn asks(w: World, request: RequestView, konts: Seq<KontView>) -> Next {
    Next { world: w, step: StepView::Ask(request, konts) }
}

/// The host must panic.
pub open spec fn panics(w: World, reason: PanicReason) -> Next {
    Next { world: w, step: StepView::Panic(reason) }
}

/// A step that is not over, with one more continuation beneath those it has.
pub open spec fn beneath(step: StepView, k: KontView) -> StepView {
    match step {
        StepView::Ask(request, konts) => StepView::Ask(request, seq![k] + konts),
        _ => step,
    }
}

/// Goes on with `k` when the host has replied and what waits for it is over.
pub open spec fn waits(n: Next, k: KontView) -> Next {
    Next { world: n.world, step: beneath(n.step, k) }
}

impl Step {
    /// The operation is over and yields an object.
    pub fn object(obj: PyObjectRef) -> (step: Step)
        ensures
            step@ == StepView::Done(Ok(ValueView::Object(obj))),
    {
        Step::Done(Ok(crate::protocol::Value::Object(obj)))
    }

    /// The operation asks the host; the reply is its outcome.
    pub fn ask(request: HostRequest) -> (step: Step)
        ensures
            step@ == StepView::Ask(request@, Seq::empty()),
    {
        let suspended = Suspended { konts: Vec::new() };
        assert(suspended@ =~= Seq::empty());
        Step::Ask(request, suspended)
    }

    /// The operation asks the host; the reply goes to `k`.
    pub fn ask_for(request: HostRequest, k: Continuation) -> (step: Step)
        ensures
            step@ == StepView::Ask(request@, seq![kont_view(k)]),
    {
        let mut konts: Vec<Continuation> = Vec::new();
        konts.push(k);
        let suspended = Suspended { konts };
        assert(suspended@ =~= seq![kont_view(k)]);
        Step::Ask(request, suspended)
    }

    /// Puts a continuation beneath those of a step that is not over.
    pub fn beneath(self, k: Continuation) -> (step: Step)
        ensures
            step@ == beneath(self@, kont_view(k)),
    {
        match self {
            Step::Ask(request, suspended) => {
                let mut konts = suspended.konts;
                konts.insert(0, k);
                let outer = Suspended { konts };
                assert(outer@ =~= seq![kont_view(k)] + suspended@);
                Step::Ask(request, outer)
            },
            step => step,
        }
    }
}

} // verus!

//! How a machine begins: its making, its initialization, and its threads.
use crate::attributes::setattr_next;
use crate::calls::invoke_next;
use crate::context::{dict_object, initial_context, initial_heap, int_object, PyContext};
use crate::machine::{
    asks, made_with, new_counter, next, panics, waits, world, yields, BuildInfo, HashSecret,
    InitKont, Kont, Next, PyGlobalState, Step, StepView, VirtualMachine, VmView, World,
};
use crate::modules::{getattr_text_next, module_object, with_str};
use crate::object::{next_ref, Heap, ObjectView, Payload, PyDictRef, PyObjectRef};
use crate::protocol::{
    outcome_view, positional, AtexitFunc, CoreModule, Outcome, OutcomeView, PanicReason, PyFuncArgs,
    Request, StdStream, Value,
};
use crate::settings::{InitParameter, NSIG, PySettings};
use std::collections::HashSet;
use std::sync::Arc;
use vstd::prelude::*;
use vstd::string::*;

verus! {

impl StdStream {
    pub open spec fn name(self) -> Seq<char> {
        match self {
            StdStream::Stdin => "stdin"@,
            StdStream::Stdout => "stdout"@,
            StdStream::Stderr => "stderr"@,
        }
    }

    pub open spec fn fd(self) -> i128 {
        match self {
            StdStream::Stdin => 0,
            StdStream::Stdout => 1,
            StdStream::Stderr => 2,
        }
    }

    pub open spec fn mode(self) -> Seq<char> {
        match self {
            StdStream::Stdin => "r"@,
            StdStream::Stdout => "w"@,
            StdStream::Stderr => "w"@,
        }
    }

    /// The name in `sys`.
    fn to_name(self) -> (name: &'static str)
        ensures
            name@ == self.name(),
    {
        match self {
            StdStream::Stdin => "stdin",
            StdStream::Stdout => "stdout",
            StdStream::Stderr => "stderr",
        }
    }

    /// The file descriptor.
    fn to_fd(self) -> (fd: i128)
        ensures
            fd == self.fd(),
    {
        match self {
            StdStream::Stdin => 0,
            StdStream::Stdout => 1,
            StdStream::Stderr => 2,
        }
    }

    /// The mode that it is opened in.
    fn to_mode(self) -> (mode: &'static str)
        ensures
            mode@ == self.mode(),
    {
        match self {
            StdStream::Stdin => "r",
            StdStream::Stdout => "w",
            StdStream::Stderr => "w",
        }
    }

    /// How many streams come after it.
    pub open spec fn rank(self) -> int {
        match self {
            StdStream::Stdin => 2,
            StdStream::Stdout => 1,
            StdStream::Stderr => 0,
        }
    }
}

/// Initialization: the host fills the core modules, then `_signal` and `_io` are
/// imported, the standard streams are opened and set in `sys`, `open` is set in
/// `builtins`, and the import machinery is set up. What the target lacks is left out.
pub open spec fn initialize_next(w: World, init: InitParameter) -> Next {
    if w.vm.initialized {
        panics(w, PanicReason::DoubleInitialize)
    } else {
        asks(
            w,
            Request::MakeModule {
                kind: CoreModule::Builtins,
                module: w.vm.builtins,
                builtins: w.vm.builtins,
            },
            seq![Kont::Init(InitKont::InitBuiltins { init })],
        )
    }
}

pub open spec fn init_builtins(w: World, init: InitParameter, o: OutcomeView) -> Next {
    match o {
        Ok(_) => asks(
            w,
            Request::MakeModule {
                kind: CoreModule::Sys,
                module: w.vm.sys_module,
                builtins: w.vm.builtins,
            },
            seq![Kont::Init(InitKont::InitSys { init })],
        ),
        Err(_) => panics(w, PanicReason::UnexpectedReply),
    }
}

pub open spec fn init_sys(w: World, init: InitParameter, o: OutcomeView) -> Next {
    match o {
        Ok(_) => signal_next(w, init),
        Err(_) => panics(w, PanicReason::UnexpectedReply),
    }
}

/// `_signal` is imported, unless the target has no signals.
pub open spec fn signal_next(w: World, init: InitParameter) -> Next {
    if w.vm.state.has_signals {
        asks(
            w,
            Request::ImportBuiltin { name: "_signal"@ },
            seq![Kont::Init(InitKont::InitSignal { init })],
        )
    } else {
        io_next(w, init)
    }
}

pub open spec fn init_signal(w: World, init: InitParameter, o: OutcomeView) -> Next {
    match o {
        Ok(_) => io_next(w, init),
        Err(e) => panics(w, PanicReason::InitializationFailed(e)),
    }
}

/// `_io` is imported for the standard streams and `open`, unless the target has no
/// streams.
pub open spec fn io_next(w: World, init: InitParameter) -> Next {
    if w.vm.state.has_system {
        asks(
            w,
            Request::ImportBuiltin { name: "_io"@ },
            seq![Kont::Init(InitKont::InitIo { init })],
        )
    } else {
        importlib_next(w, init)
    }
}

/// The import machinery is set up.
pub open spec fn importlib_next(w: World, init: InitParameter) -> Next {
    asks(w, Request::InitImportlib { init }, seq![Kont::Init(InitKont::InitDone)])
}

pub open spec fn init_io(w: World, init: InitParameter, o: OutcomeView) -> Next {
    match o {
        Ok(Value::Object(io)) => {
            let n = getattr_text_next(w, io, "open"@);
            match n.step {
                StepView::Done(o) => init_open(n.world, init, o),
                _ => waits(n, Kont::Init(InitKont::InitOpen { init })),
            }
        },
        Ok(_) => panics(w, PanicReason::UnexpectedReply),
        Err(e) => panics(w, PanicReason::InitializationFailed(e)),
    }
}

pub open spec fn init_open(w: World, init: InitParameter, o: OutcomeView) -> Next {
    match o {
        Ok(Value::Object(open)) => stdio_next(w, init, open, StdStream::Stdin),
        Ok(_) => panics(w, PanicReason::UnexpectedReply),
        Err(e) => panics(w, PanicReason::InitializationFailed(e)),
    }
}

/// Opens a standard stream.
pub open spec fn stdio_next(
    w: World,
    init: InitParameter,
    open: PyObjectRef,
    stream: StdStream,
) -> Next
    decreases stream.rank(), 3int,
{
    let w1 = World { vm: w.vm, heap: w.heap.push(int_object(w.vm.ctx, stream.fd())) };
    let w2 = with_str(w1, stream.mode());
    let n = invoke_next(w2, open, positional(seq![next_ref(w.heap), next_ref(w1.heap)]));
    match n.step {
        StepView::Done(o) => stdio_opened(n.world, init, open, stream, o),
        _ => waits(n, Kont::Init(InitKont::InitStdio { init, open, stream })),
    }
}

/// Sets it under its name between underscores.
pub open spec fn stdio_opened(
    w: World,
    init: InitParameter,
    open: PyObjectRef,
    stream: StdStream,
    o: OutcomeView,
) -> Next
    decreases stream.rank(), 2int,
{
    match o {
        Ok(Value::Object(stdio)) => {
            let w1 = with_str(w, "__"@ + stream.name() + "__"@);
            let n = setattr_next(w1, w.vm.sys_module, next_ref(w.heap), stdio);
            match n.step {
                StepView::Done(o) => stdio_dunder(n.world, init, open, stream, stdio, o),
                _ => waits(n, Kont::Init(InitKont::InitDunder { init, open, stream, stdio })),
            }
        },
        Ok(_) => panics(w, PanicReason::UnexpectedReply),
        Err(e) => panics(w, PanicReason::InitializationFailed(e)),
    }
}

/// Sets it under its own name.
pub open spec fn stdio_dunder(
    w: World,
    init: InitParameter,
    open: PyObjectRef,
    stream: StdStream,
    stdio: PyObjectRef,
    o: OutcomeView,
) -> Next
    decreases stream.rank(), 1int,
{
    match o {
        Ok(_) => {
            let w1 = with_str(w, stream.name());
            let n = setattr_next(w1, w.vm.sys_module, next_ref(w.heap), stdio);
            match n.step {
                StepView::Done(o) => stdio_plain(n.world, init, open, stream, o),
                _ => waits(n, Kont::Init(InitKont::InitPlain { init, open, stream })),
            }
        },
        Err(e) => panics(w, PanicReason::InitializationFailed(e)),
    }
}

/// Goes on with the next stream; after the last, `builtins.open` is set.
pub open spec fn stdio_plain(
    w: World,
    init: InitParameter,
    open: PyObjectRef,
    stream: StdStream,
    o: OutcomeView,
) -> Next
    decreases stream.rank(), 0int,
{
    match o {
        Ok(_) => match stream {
            StdStream::Stdin => stdio_next(w, init, open, StdStream::Stdout),
            StdStream::Stdout => stdio_next(w, init, open, StdStream::Stderr),
            StdStream::Stderr => {
                let n = setattr_next(
                    with_str(w, "open"@),
                    w.vm.builtins,
                    next_ref(w.heap),
                    open,
                );
                match n.step {
                    StepView::Done(o) => init_importer(n.world, init, o),
                    _ => waits(n, Kont::Init(InitKont::InitImporter { init })),
                }
            },
        },
        Err(e) => panics(w, PanicReason::InitializationFailed(e)),
    }
}

pub open spec fn init_importer(w: World, init: InitParameter, o: OutcomeView) -> Next {
    match o {
        Ok(_) => importlib_next(w, init),
        Err(e) => panics(w, PanicReason::InitializationFailed(e)),
    }
}

/// The machine is initialized.
pub open spec fn init_done(w: World, o: OutcomeView) -> Next {
    match o {
        Ok(_) => yields(
            World { vm: VmView { initialized: true, ..w.vm }, heap: w.heap },
            Value::Unit,
        ),
        Err(e) => panics(w, PanicReason::InitializationFailed(e)),
    }
}

/// A new machine has the dictionaries of its core modules set up, and is then
/// initialized if `init` says how.
pub open spec fn boot_next(
    w: World,
    builtins_dict: PyDictRef,
    sys_dict: PyDictRef,
    init: Option<InitParameter>,
) -> Next {
    asks(
        with_str(w, "builtins"@),
        Request::InitModuleDict {
            dict: builtins_dict,
            name: next_ref(w.heap),
            doc: w.vm.ctx.none,
        },
        seq![Kont::Init(InitKont::NewBuiltins { sys_dict, init })],
    )
}

pub open spec fn boot_builtins(
    w: World,
    sys_dict: PyDictRef,
    init: Option<InitParameter>,
    o: OutcomeView,
) -> Next {
    match o {
        Ok(_) => asks(
            with_str(w, "sys"@),
            Request::InitModuleDict {
                dict: sys_dict,
                name: next_ref(w.heap),
                doc: w.vm.ctx.none,
            },
            seq![Kont::Init(InitKont::NewSys { init })],
        ),
        Err(_) => panics(w, PanicReason::UnexpectedReply),
    }
}

pub open spec fn boot_sys(w: World, init: Option<InitParameter>, o: OutcomeView) -> Next {
    match o {
        Ok(_) => match init {
            Some(init) => initialize_next(w, init),
            None => yields(w, Value::Unit),
        },
        Err(_) => panics(w, PanicReason::UnexpectedReply),
    }
}

/// The heap of a new machine: the built-in objects, and the two core modules with
/// their dictionaries.
pub open spec fn fresh_heap() -> Seq<ObjectView> {
    let ctx = initial_context();
    let h = initial_heap();
    h.push(dict_object(ctx)).push(module_object(ctx, next_ref(h))).push(dict_object(ctx)).push(
        module_object(ctx, PyObjectRef { id: 43 }),
    )
}

/// A machine that was just made.
pub open spec fn is_fresh(vm: VmView, settings: PySettings, build: BuildInfo) -> bool {
    let none = initial_context().none;
    &&& vm.builtins == PyObjectRef { id: 42 }
    &&& vm.sys_module == PyObjectRef { id: 44 }
    &&& vm.ctx == initial_context()
    &&& vm.frames == Seq::<crate::object::FrameRef>::empty()
    &&& vm.wasm_id is None
    &&& vm.exceptions == Seq::<PyObjectRef>::empty()
    &&& vm.import_func == none
    &&& vm.profile_func == none
    &&& vm.trace_func == none
    &&& !vm.use_tracing
    &&& vm.recursion_limit == if build.debug_assertions { 256usize } else { 512usize }
    &&& vm.signal_handlers == Some(Seq::new(NSIG as nat, |i: int| none))
    &&& vm.repr_guards == Set::<usize>::empty()
    &&& vm.state.settings == settings
    &&& vm.state.stdlib_inits == build.stdlib_inits
    &&& vm.state.frozen == build.frozen
    &&& made_with(vm.state.stacksize) == 0
    &&& made_with(vm.state.thread_count) == 0
    &&& vm.state.hash_secret.fits(settings.hash_seed)
    &&& vm.state.has_signals == build.has_signals
    &&& vm.state.has_system == build.has_system
    &&& !vm.initialized
}

/// The state of a machine for another thread: what belongs to the interpreter is
/// shared, what belongs to the thread starts anew.
pub open spec fn thread_view(vm: VmView) -> VmView {
    VmView {
        frames: Seq::empty(),
        exceptions: Seq::empty(),
        profile_func: vm.ctx.none,
        trace_func: vm.ctx.none,
        use_tracing: false,
        signal_handlers: None,
        repr_guards: Set::empty(),
        ..vm
    }
}

/// A machine to be used on another thread.
#[must_use]
pub struct PyThread {
    pub thread_vm: VirtualMachine,
}

/// An interpreter: a machine, the heap, the step at which its making stands, and the
/// functions that its threads have registered to run at exit.
pub struct Interpreter {
    pub vm: VirtualMachine,
    pub heap: Heap,
    pub boot: Step,
    /// The functions to run at exit, in the order of their registration.
    pub atexit_funcs: Vec<AtexitFunc<PyFuncArgs>>,
}

impl VirtualMachine {
    /// Create a new `VirtualMachine` structure, its heap, the step at which its making
    /// stands, and the list of the functions to run at exit, which has none yet.
    pub fn new(settings: PySettings, build: BuildInfo, init: Option<InitParameter>) -> (made: (
        VirtualMachine,
        Heap,
        Step,
        Vec<AtexitFunc<PyFuncArgs>>,
    ))
        ensures
            is_fresh(made.0@, settings, build),
            made.3@.len() == 0,
            next(made.0, made.1, made.2) == boot_next(
                World { vm: made.0@, heap: fresh_heap() },
                PyObjectRef { id: 41 },
                PyObjectRef { id: 43 },
                init,
            ),
    {
        let (ctx, heap) = PyContext::new();
        let mut heap = heap;
        let builtins_dict = ctx.new_dict(&mut heap);
        let builtins = heap.new_object(
            ctx.types.module_type,
            Some(builtins_dict),
            Payload::Opaque,
        );
        let sysmod_dict = ctx.new_dict(&mut heap);
        let sysmod = heap.new_object(ctx.types.module_type, Some(sysmod_dict), Payload::Opaque);
        let signal_handlers = VirtualMachine::empty_handlers(ctx.none);
        let hash_secret = HashSecret::from_setting(settings.hash_seed);
        let recursion_limit: usize = if build.debug_assertions {
            256
        } else {
            512
        };
        let state = PyGlobalState {
            settings,
            stdlib_inits: build.stdlib_inits,
            frozen: build.frozen,
            stacksize: new_counter(0),
            thread_count: new_counter(0),
            hash_secret,
            has_signals: build.has_signals,
            has_system: build.has_system,
        };
        let vm = VirtualMachine {
            builtins,
            sys_module: sysmod,
            ctx,
            frames: Vec::new(),
            wasm_id: None,
            exceptions: Vec::new(),
            import_func: ctx.none,
            profile_func: ctx.none,
            trace_func: ctx.none,
            use_tracing: false,
            recursion_limit,
            signal_handlers: Some(signal_handlers),
            repr_guards: HashSet::new(),
            state: Arc::new(state),
            initialized: false,
        };
        assert(heap@ =~= fresh_heap());
        let name = ctx.new_str(&mut heap, "builtins".to_owned());
        let step = Step::ask_for(
            Request::InitModuleDict { dict: builtins_dict, name, doc: ctx.none },
            Kont::Init(InitKont::NewBuiltins { sys_dict: sysmod_dict, init }),
        );
        (vm, heap, step, Vec::new())
    }

    /// No handler for any signal.
    fn empty_handlers(none: PyObjectRef) -> (handlers: Vec<PyObjectRef>)
        ensures
            handlers@ == Seq::new(NSIG as nat, |i: int| none),
    {
        let mut handlers: Vec<PyObjectRef> = Vec::new();
        let mut i: usize = 0;
        while i < NSIG
            invariant
                i <= NSIG,
                handlers@ == Seq::new(i as nat, |j: int| none),
            decreases NSIG - i,
        {
            handlers.push(none);
            i = i + 1;
            assert(handlers@ =~= Seq::new(i as nat, |j: int| none));
        }
        handlers
    }

    pub(crate) fn boot_builtins(
        &self,
        heap: &mut Heap,
        sys_dict: PyDictRef,
        init: Option<InitParameter>,
        outcome: Outcome,
    ) -> (step: Step)
        ensures
            next(*self, *final(heap), step) == boot_builtins(
                world(*self, *old(heap)),
                sys_dict,
                init,
                outcome_view(outcome),
            ),
    {
        match outcome {
            Ok(_) => {
                let name = self.ctx.new_str(heap, "sys".to_owned());
                Step::ask_for(
                    Request::InitModuleDict { dict: sys_dict, name, doc: self.ctx.none },
                    Kont::Init(InitKont::NewSys { init }),
                )
            },
            Err(_) => Step::Panic(PanicReason::UnexpectedReply),
        }
    }

    pub(crate) fn boot_sys(&self, init: Option<InitParameter>, outcome: Outcome) -> (step: Step)
        ensures
            forall|w: World|
                #![trigger boot_sys(w, init, outcome_view(outcome))]
                w.vm == self@ ==> (Next { world: w, step: step@ }) == boot_sys(
                    w,
                    init,
                    outcome_view(outcome),
                ),
    {
        match outcome {
            Ok(_) => match init {
                Some(init) => self.initialize(init),
                None => Step::Done(Ok(Value::Unit)),
            },
            Err(_) => Step::Panic(PanicReason::UnexpectedReply),
        }
    }

    /// Initializes a new machine. To initialize it twice is a panic.
    pub fn initialize(&self, init: InitParameter) -> (step: Step)
        ensures
            forall|w: World|
                #![trigger initialize_next(w, init)]
                w.vm == self@ ==> (Next { world: w, step: step@ }) == initialize_next(w, init),
    {
        if self.initialized {
            Step::Panic(PanicReason::DoubleInitialize)
        } else {
            Step::ask_for(
                Request::MakeModule {
                    kind: CoreModule::Builtins,
                    module: self.builtins,
                    builtins: self.builtins,
                },
                Kont::Init(InitKont::InitBuiltins { init }),
            )
        }
    }

    pub(crate) fn init_builtins(&self, init: InitParameter, outcome: Outcome) -> (step: Step)
        ensures
            forall|w: World|
                #![trigger init_builtins(w, init, outcome_view(outcome))]
                w.vm == self@ ==> (Next { world: w, step: step@ }) == init_builtins(
                    w,
                    init,
                    outcome_view(outcome),
                ),
    {
        match outcome {
            Ok(_) => Step::ask_for(
                Request::MakeModule {
                    kind: CoreModule::Sys,
                    module: self.sys_module,
                    builtins: self.builtins,
                },
                Kont::Init(InitKont::InitSys { init }),
            ),
            Err(_) => Step::Panic(PanicReason::UnexpectedReply),
        }
    }

    pub(crate) fn init_sys(&self, init: InitParameter, outcome: Outcome) -> (step: Step)
        ensures
            forall|w: World|
                #![trigger init_sys(w, init, outcome_view(outcome))]
                w.vm == self@ ==> (Next { world: w, step: step@ }) == init_sys(
                    w,
                    init,
                    outcome_view(outcome),
                ),
    {
        match outcome {
            Ok(_) => {
                if self.state.has_signals {
                    Step::ask_for(
                        Request::ImportBuiltin { name: "_signal".to_owned() },
                        Kont::Init(InitKont::InitSignal { init }),
                    )
                } else {
                    self.import_io(init)
                }
            },
            Err(_) => Step::Panic(PanicReason::UnexpectedReply),
        }
    }

    fn import_io(&self, init: InitParameter) -> (step: Step)
        ensures
            forall|w: World|
                #![trigger io_next(w, init)]
                w.vm == self@ ==> (Next { world: w, step: step@ }) == io_next(w, init),
    {
        if self.state.has_system {
            Step::ask_for(
                Request::ImportBuiltin { name: "_io".to_owned() },
                Kont::Init(InitKont::InitIo { init }),
            )
        } else {
            VirtualMachine::init_importlib(init)
        }
    }

    fn init_importlib(init: InitParameter) -> (step: Step)
        ensures
            forall|w: World|
                (Next { world: w, step: step@ }) == #[trigger] importlib_next(w, init),
    {
        Step::ask_for(Request::InitImportlib { init }, Kont::Init(InitKont::InitDone))
    }

    pub(crate) fn init_signal(&self, init: InitParameter, outcome: Outcome) -> (step: Step)
        ensures
            forall|w: World|
                #![trigger init_signal(w, init, outcome_view(outcome))]
                w.vm == self@ ==> (Next { world: w, step: step@ }) == init_signal(
                    w,
                    init,
                    outcome_view(outcome),
                ),
    {
        match outcome {
            Ok(_) => self.import_io(init),
            Err(e) => Step::Panic(PanicReason::InitializationFailed(e)),
        }
    }

    pub(crate) fn init_io(
        &mut self,
        heap: &mut Heap,
        init: InitParameter,
        outcome: Outcome,
    ) -> (step: Step)
        ensures
            next(*final(self), *final(heap), step) == init_io(
                world(*old(self), *old(heap)),
                init,
                outcome_view(outcome),
            ),
    {
        match outcome {
            Ok(Value::Object(io)) => {
                let name = self.ctx.new_str(heap, "open".to_owned());
                let step = self.get_attribute(heap, io, name);
                match step {
                    Step::Done(outcome) => self.init_open(heap, init, outcome),
                    step => step.beneath(Kont::Init(InitKont::InitOpen { init })),
                }
            },
            Ok(_) => Step::Panic(PanicReason::UnexpectedReply),
            Err(e) => Step::Panic(PanicReason::InitializationFailed(e)),
        }
    }

    pub(crate) fn init_open(
        &mut self,
        heap: &mut Heap,
        init: InitParameter,
        outcome: Outcome,
    ) -> (step: Step)
        ensures
            next(*final(self), *final(heap), step) == init_open(
                world(*old(self), *old(heap)),
                init,
                outcome_view(outcome),
            ),
    {
        match outcome {
            Ok(Value::Object(open)) => self.stdio(heap, init, open, StdStream::Stdin),
            Ok(_) => Step::Panic(PanicReason::UnexpectedReply),
            Err(e) => Step::Panic(PanicReason::InitializationFailed(e)),
        }
    }

    fn stdio(
        &mut self,
        heap: &mut Heap,
        init: InitParameter,
        open: PyObjectRef,
        stream: StdStream,
    ) -> (step: Step)
        ensures
            next(*final(self), *final(heap), step) == stdio_next(
                world(*old(self), *old(heap)),
                init,
                open,
                stream,
            ),
        decreases stream.rank(), 3int,
    {
        let fd = self.ctx.new_int(heap, stream.to_fd());
        let mode = self.ctx.new_str(heap, stream.to_mode().to_owned());
        let mut args: Vec<PyObjectRef> = Vec::new();
        args.push(fd);
        args.push(mode);
        assert(args@ =~= seq![fd, mode]);
        let step = self.invoke(heap, open, PyFuncArgs::positional(args));
        match step {
            Step::Done(outcome) => self.stdio_opened(heap, init, open, stream, outcome),
            step => step.beneath(Kont::Init(InitKont::InitStdio { init, open, stream })),
        }
    }

    pub(crate) fn stdio_opened(
        &mut self,
        heap: &mut Heap,
        init: InitParameter,
        open: PyObjectRef,
        stream: StdStream,
        outcome: Outcome,
    ) -> (step: Step)
        ensures
            next(*final(self), *final(heap), step) == stdio_opened(
                world(*old(self), *old(heap)),
                init,
                open,
                stream,
                outcome_view(outcome),
            ),
        decreases stream.rank(), 2int,
    {
        match outcome {
            Ok(Value::Object(stdio)) => {
                let dunder = "__".to_owned().concat(stream.to_name()).concat("__");
                let name = self.ctx.new_str(heap, dunder);
                let step = self.set_attr(heap, self.sys_module, name, stdio);
                match step {
                    Step::Done(outcome) => self.stdio_dunder(
                        heap,
                        init,
                        open,
                        stream,
                        stdio,
                        outcome,
                    ),
                    step => step.beneath(
                        Kont::Init(InitKont::InitDunder { init, open, stream, stdio }),
                    ),
                }
            },
            Ok(_) => Step::Panic(PanicReason::UnexpectedReply),
            Err(e) => Step::Panic(PanicReason::InitializationFailed(e)),
        }
    }

    pub(crate) fn stdio_dunder(
        &mut self,
        heap: &mut Heap,
        init: InitParameter,
        open: PyObjectRef,
        stream: StdStream,
        stdio: PyObjectRef,
        outcome: Outcome,
    ) -> (step: Step)
        ensures
            next(*final(self), *final(heap), step) == stdio_dunder(
                world(*old(self), *old(heap)),
                init,
                open,
                stream,
                stdio,
                outcome_view(outcome),
            ),
        decreases stream.rank(), 1int,
    {
        match outcome {
            Ok(_) => {
                let name = self.ctx.new_str(heap, stream.to_name().to_owned());
                let step = self.set_attr(heap, self.sys_module, name, stdio);
                match step {
                    Step::Done(outcome) => self.stdio_plain(heap, init, open, stream, outcome),
                    step => step.beneath(Kont::Init(InitKont::InitPlain { init, open, stream })),
                }
            },
            Err(e) => Step::Panic(PanicReason::InitializationFailed(e)),
        }
    }

    pub(crate) fn stdio_plain(
        &mut self,
        heap: &mut Heap,
        init: InitParameter,
        open: PyObjectRef,
        stream: StdStream,
        outcome: Outcome,
    ) -> (step: Step)
        ensures
            next(*final(self), *final(heap), step) == stdio_plain(
                world(*old(self), *old(heap)),
                init,
                open,
                stream,
                outcome_view(outcome),
            ),
        decreases stream.rank(), 0int,
    {
        match outcome {
            Ok(_) => match stream {
                StdStream::Stdin => self.stdio(heap, init, open, StdStream::Stdout),
                StdStream::Stdout => self.stdio(heap, init, open, StdStream::Stderr),
                StdStream::Stderr => {
                    let name = self.ctx.new_str(heap, "open".to_owned());
                    let step = self.set_attr(heap, self.builtins, name, open);
                    match step {
                        Step::Done(outcome) => VirtualMachine::init_importer(init, outcome),
                        step => step.beneath(Kont::Init(InitKont::InitImporter { init })),
                    }
                },
            },
            Err(e) => Step::Panic(PanicReason::InitializationFailed(e)),
        }
    }

    pub(crate) fn init_importer(init: InitParameter, outcome: Outcome) -> (step: Step)
        ensures
            forall|w: World|
                (Next { world: w, step: step@ }) == #[trigger] init_importer(
                    w,
                    init,
                    outcome_view(outcome),
                ),
    {
        match outcome {
            Ok(_) => VirtualMachine::init_importlib(init),
            Err(e) => Step::Panic(PanicReason::InitializationFailed(e)),
        }
    }

    pub(crate) fn init_done(&mut self, outcome: Outcome) -> (step: Step)
        ensures
            forall|h: Heap|
                #![trigger world(*old(self), h)]
                next(*final(self), h, step) == init_done(
                    world(*old(self), h),
                    outcome_view(outcome),
                ),
    {
        match outcome {
            Ok(_) => {
                self.initialized = true;
                Step::Done(Ok(Value::Unit))
            },
            Err(e) => Step::Panic(PanicReason::InitializationFailed(e)),
        }
    }

    /// Create a new VM thread that can be moved to another thread, to use the
    /// same interpreter there.
    pub fn new_thread(&self) -> (thread: PyThread)
        ensures
            thread.thread_vm@ == thread_view(self@),
    {
        let wasm_id = match &self.wasm_id {
            Some(id) => Some(id.clone()),
            None => None,
        };
        let thread_vm = VirtualMachine {
            builtins: self.builtins,
            sys_module: self.sys_module,
            ctx: self.ctx,
            frames: Vec::new(),
            wasm_id,
            exceptions: Vec::new(),
            import_func: self.import_func,
            profile_func: self.ctx.none,
            trace_func: self.ctx.none,
            use_tracing: false,
            recursion_limit: self.recursion_limit,
            signal_handlers: None,
            repr_guards: HashSet::new(),
            state: Arc::clone(&self.state),
            initialized: self.initialized,
        };
        assert(thread_vm@ =~= thread_view(self@));
        PyThread { thread_vm }
    }
}

impl BuildInfo {
    /// A build for a target with signals and a system interface, without debug
    /// assertions, built-in modules and frozen modules.
    pub fn bare() -> (build: BuildInfo)
        ensures
            build.is_bare(),
    {
        BuildInfo {
            has_signals: true,
            has_system: true,
            debug_assertions: false,
            stdlib_inits: Vec::new(),
            frozen: Vec::new(),
        }
    }

    pub open spec fn is_bare(&self) -> bool {
        &&& self.has_signals && self.has_system && !self.debug_assertions
        &&& self.stdlib_inits@.len() == 0 && self.frozen@.len() == 0
    }
}

impl Interpreter {
    /// An interpreter whose making stands where that of its machine does.
    pub open spec fn begins(
        &self,
        settings: PySettings,
        build: BuildInfo,
        init: Option<InitParameter>,
    ) -> bool {
        &&& is_fresh(self.vm@, settings, build)
        &&& self.atexit_funcs@.len() == 0
        &&& next(self.vm, self.heap, self.boot) == boot_next(
            World { vm: self.vm@, heap: fresh_heap() },
            PyObjectRef { id: 41 },
            PyObjectRef { id: 43 },
            init,
        )
    }

    /// An interpreter that initializes itself once its `boot` step is carried on.
    pub fn new(settings: PySettings, build: BuildInfo, init: InitParameter) -> (interpreter:
        Interpreter)
        ensures
            interpreter.begins(settings, build, Some(init)),
    {
        let (vm, heap, boot, atexit_funcs) = VirtualMachine::new(settings, build, Some(init));
        Interpreter { vm, heap, boot, atexit_funcs }
    }

    /// An interpreter that is not initialized yet once its `boot` step is over, so
    /// that the host can prepare the machine; `initialize` does the rest.
    pub fn new_with_init(settings: PySettings, build: BuildInfo) -> (interpreter: Interpreter)
        ensures
            interpreter.begins(settings, build, None),
    {
        let (vm, heap, boot, atexit_funcs) = VirtualMachine::new(settings, build, None);
        Interpreter { vm, heap, boot, atexit_funcs }
    }

    /// An interpreter with the default settings, for a build.
    pub fn default(build: BuildInfo) -> (interpreter: Interpreter)
        ensures
            exists|settings: PySettings|
                settings.is_default() && #[trigger] interpreter.begins(
                    settings,
                    build,
                    Some(InitParameter::External),
                ),
    {
        Interpreter::new(PySettings::default(), build, InitParameter::External)
    }
}

} // verus!

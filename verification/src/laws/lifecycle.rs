//! Laws about the beginning of machines and threads.
use crate::attributes::setattr_next;
use crate::calls::invoke_next;
use crate::lifecycle::{
    boot_builtins, boot_next, boot_sys, init_builtins, init_done, init_importer, init_io, init_open,
    init_signal, init_sys, initialize_next, stdio_dunder, stdio_next, stdio_opened, stdio_plain,
    thread_view,
};
use crate::machine::{panics, waits, InitKont, Kont, KontView, Next, StepView, VmView, World};
use crate::modules::{getattr_text_next, with_str};
use crate::object::{next_ref, PyBaseExceptionRef, PyDictRef, PyObjectRef};
use crate::protocol::{OutcomeView, PanicReason, StdStream, Value, ValueView};
use crate::resume::{applies_init, apply_init, apply_next, resume_next};
use crate::runs::{drive, followed, resume_goes_upwards, Reply};
use crate::settings::InitParameter;
use vstd::prelude::*;

verus! {

broadcast use crate::runs::run_stops, crate::runs::span_stops;

/// Whether a continuation belongs to the initialization of a machine.
pub open spec fn initializes(k: KontView) -> bool {
    match k {
        Kont::Init(InitKont::NewBuiltins { init, .. }) => init is Some,
        Kont::Init(InitKont::NewSys { init }) => init is Some,
        Kont::Init(_) => true,
        _ => false,
    }
}

/// An operation that can end in no other way than with a machine that is
/// initialized, or with a panic.
pub open spec fn ends_initialized(n: Next) -> bool {
    match n.step {
        StepView::Done(o) => o == Ok::<ValueView, PyBaseExceptionRef>(Value::Unit)
            && n.world.vm.initialized,
        StepView::Ask(_, ks) => ks.len() > 0 && initializes(ks[0]),
        StepView::Panic(_) => true,
    }
}

proof fn waiting_initializes(n: Next, k: KontView)
    requires
        !(n.step is Done),
        initializes(k),
    ensures
        ends_initialized(waits(n, k)),
{
}

proof fn importer_initializes(w: World, init: InitParameter, o: OutcomeView)
    ensures
        ends_initialized(init_importer(w, init, o)),
{
}

proof fn stdio_initializes(w: World, init: InitParameter, open: PyObjectRef, stream: StdStream)
    ensures
        ends_initialized(stdio_next(w, init, open, stream)),
    decreases stream.rank(), 3int,
{
    let n = stdio_next(w, init, open, stream);
    let w1 = World {
        vm: w.vm,
        heap: w.heap.push(crate::context::int_object(w.vm.ctx, stream.fd())),
    };
    let call = invoke_next(
        with_str(w1, stream.mode()),
        open,
        crate::protocol::positional(seq![next_ref(w.heap), next_ref(w1.heap)]),
    );
    match call.step {
        StepView::Done(o) => {
            stdio_opened_initializes(call.world, init, open, stream, o);
        },
        _ => {
            waiting_initializes(call, Kont::Init(InitKont::InitStdio { init, open, stream }));
        },
    }
}

proof fn stdio_opened_initializes(
    w: World,
    init: InitParameter,
    open: PyObjectRef,
    stream: StdStream,
    o: OutcomeView,
)
    ensures
        ends_initialized(stdio_opened(w, init, open, stream, o)),
    decreases stream.rank(), 2int,
{
    match o {
        Ok(Value::Object(stdio)) => {
            let w1 = with_str(w, "__"@ + stream.name() + "__"@);
            let n = setattr_next(w1, w.vm.sys_module, next_ref(w.heap), stdio);
            match n.step {
                StepView::Done(o) => {
                    stdio_dunder_initializes(n.world, init, open, stream, stdio, o);
                },
                _ => {
                    waiting_initializes(
                        n,
                        Kont::Init(InitKont::InitDunder { init, open, stream, stdio }),
                    );
                },
            }
        },
        _ => {},
    }
}

proof fn stdio_dunder_initializes(
    w: World,
    init: InitParameter,
    open: PyObjectRef,
    stream: StdStream,
    stdio: PyObjectRef,
    o: OutcomeView,
)
    ensures
        ends_initialized(stdio_dunder(w, init, open, stream, stdio, o)),
    decreases stream.rank(), 1int,
{
    let n = setattr_next(
        with_str(w, stream.name()),
        w.vm.sys_module,
        next_ref(w.heap),
        stdio,
    );
    match n.step {
        StepView::Done(o) => {
            stdio_plain_initializes(n.world, init, open, stream, o);
        },
        _ => {
            waiting_initializes(n, Kont::Init(InitKont::InitPlain { init, open, stream }));
        },
    }
}

proof fn stdio_plain_initializes(
    w: World,
    init: InitParameter,
    open: PyObjectRef,
    stream: StdStream,
    o: OutcomeView,
)
    ensures
        ends_initialized(stdio_plain(w, init, open, stream, o)),
    decreases stream.rank(), 0int,
{
    if o is Ok {
        match stream {
            StdStream::Stdin => {
                stdio_initializes(w, init, open, StdStream::Stdout);
            },
            StdStream::Stdout => {
                stdio_initializes(w, init, open, StdStream::Stderr);
            },
            StdStream::Stderr => {
                let n = setattr_next(
                    with_str(w, "open"@),
                    w.vm.builtins,
                    next_ref(w.heap),
                    open,
                );
                match n.step {
                    StepView::Done(o) => {
                        importer_initializes(n.world, init, o);
                    },
                    _ => {
                        waiting_initializes(n, Kont::Init(InitKont::InitImporter { init }));
                    },
                }
            },
        }
    }
}

proof fn open_initializes(w: World, init: InitParameter, o: OutcomeView)
    ensures
        ends_initialized(init_open(w, init, o)),
{
    match o {
        Ok(Value::Object(open)) => {
            stdio_initializes(w, init, open, StdStream::Stdin);
        },
        _ => {},
    }
}

proof fn io_initializes(w: World, init: InitParameter, o: OutcomeView)
    ensures
        ends_initialized(init_io(w, init, o)),
{
    match o {
        Ok(Value::Object(io)) => {
            let n = getattr_text_next(w, io, "open"@);
            match n.step {
                StepView::Done(o) => {
                    open_initializes(n.world, init, o);
                },
                _ => {
                    waiting_initializes(n, Kont::Init(InitKont::InitOpen { init }));
                },
            }
        },
        _ => {},
    }
}

proof fn signal_initializes(w: World, init: InitParameter, o: OutcomeView)
    ensures
        ends_initialized(init_sys(w, init, o)),
        ends_initialized(init_signal(w, init, o)),
{
}

proof fn boot_initializes(w: World, dict: PyDictRef, init: InitParameter, o: OutcomeView)
    ensures
        ends_initialized(boot_builtins(w, dict, Some(init), o)),
        ends_initialized(boot_sys(w, Some(init), o)),
        ends_initialized(init_builtins(w, init, o)),
        ends_initialized(init_done(w, o)),
{
}

#[verifier::rlimit(30)]
proof fn continuation_initializes(w: World, k: InitKont, o: OutcomeView)
    requires
        initializes(Kont::Init(k)),
    ensures
        ends_initialized(apply_next(w, Kont::Init(k), o)),
{
    applies_init(k);
    reveal(apply_init);
    match k {
        InitKont::NewBuiltins { sys_dict, init } => {
            boot_initializes(w, sys_dict, init->0, o);
        },
        InitKont::NewSys { init } => {
            boot_initializes(w, w.vm.builtins, init->0, o);
        },
        InitKont::InitBuiltins { init } => {
            boot_initializes(w, w.vm.builtins, init, o);
        },
        InitKont::InitSys { init } => {
            signal_initializes(w, init, o);
        },
        InitKont::InitSignal { init } => {
            signal_initializes(w, init, o);
        },
        InitKont::InitIo { init } => {
            io_initializes(w, init, o);
        },
        InitKont::InitOpen { init } => {
            open_initializes(w, init, o);
        },
        InitKont::InitStdio { init, open, stream } => {
            stdio_opened_initializes(w, init, open, stream, o);
        },
        InitKont::InitDunder { init, open, stream, stdio } => {
            stdio_dunder_initializes(w, init, open, stream, stdio, o);
        },
        InitKont::InitPlain { init, open, stream } => {
            stdio_plain_initializes(w, init, open, stream, o);
        },
        InitKont::InitImporter { init } => {
            importer_initializes(w, init, o);
        },
        InitKont::InitDone => {
            boot_initializes(w, w.vm.builtins, InitParameter::Internal, o);
        },
    }
}

proof fn run_initializes(n: Next, replies: Seq<Reply>)
    requires
        ends_initialized(n),
    ensures
        ends_initialized(drive(n, replies)),
    decreases replies.len(),
{
    reveal(drive);
    match n.step {
        StepView::Ask(_, ks) => {
            if replies.len() > 0 {
                let r = replies[0];
                let above = ks.drop_first();
                let inner = resume_next(r.world, above, r.outcome);
                assert(seq![ks[0]] + above =~= ks);
                resume_goes_upwards(r.world, ks[0], above, r.outcome);
                match inner.step {
                    StepView::Done(o) => {
                        continuation_initializes(inner.world, ks[0]->Init_0, o);
                    },
                    _ => {
                        waiting_initializes(inner, ks[0]);
                    },
                }
                run_initializes(followed(inner, ks[0]), replies.drop_first());
            }
        },
        _ => {},
    }
}

/// An initialization that does not panic ends with a machine that is initialized. An
/// exception in it is always a panic.
pub proof fn initialization_initializes(w: World, init: InitParameter, replies: Seq<Reply>)
    ensures
        drive(initialize_next(w, init), replies).step matches StepView::Done(o) ==> o == Ok::<
            ValueView,
            PyBaseExceptionRef,
        >(Value::Unit) && drive(initialize_next(w, init), replies).world.vm.initialized,
{
    run_initializes(initialize_next(w, init), replies);
}

/// The making of a machine that is told how to initialize itself ends the same way.
pub proof fn making_initializes(
    w: World,
    builtins_dict: PyDictRef,
    sys_dict: PyDictRef,
    init: InitParameter,
    replies: Seq<Reply>,
)
    ensures
        ({
            let end = drive(boot_next(w, builtins_dict, sys_dict, Some(init)), replies);
            end.step matches StepView::Done(o) ==> o == Ok::<ValueView, PyBaseExceptionRef>(
                Value::Unit,
            ) && end.world.vm.initialized
        }),
{
    run_initializes(boot_next(w, builtins_dict, sys_dict, Some(init)), replies);
}

/// A machine is not initialized twice.
pub proof fn no_double_initialization(w: World, init: InitParameter)
    requires
        w.vm.initialized,
    ensures
        initialize_next(w, init) == panics(w, PanicReason::DoubleInitialize),
{
}

/// A thread uses the same interpreter, and starts with nothing of its own: no frame,
/// no exception, no guard, no trace function and no signal handler.
pub proof fn threads_share_the_interpreter(vm: VmView)
    ensures
        ({
            let t = thread_view(vm);
            &&& t.state == vm.state
            &&& t.ctx == vm.ctx
            &&& t.builtins == vm.builtins
            &&& t.sys_module == vm.sys_module
            &&& t.import_func == vm.import_func
            &&& t.recursion_limit == vm.recursion_limit
            &&& t.initialized == vm.initialized
            &&& t.frames.len() == 0 && t.exceptions.len() == 0
            &&& forall|id: usize| !t.repr_guards.contains(id)
            &&& t.trace_func == vm.ctx.none && t.profile_func == vm.ctx.none && !t.use_tracing
            &&& t.signal_handlers is None
        }),
        thread_view(thread_view(vm)) == thread_view(vm),
{
}

} // verus!

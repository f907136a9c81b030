use pyvm::compile::{CompileError, Mode};
use pyvm::convert::NativeValue;
use pyvm::guard::ReprGuard;
use pyvm::lifecycle::Interpreter;
use pyvm::machine::{BuildInfo, HashSecret, Step, Suspended, VirtualMachine};
use pyvm::object::{
    FrameRef, Heap, Payload, PyObjectRef, PyType, PyTypeSlots, Scope, SlotFunc, SlotKind,
};
use pyvm::protocol::{
    AtexitFunc, Conversion, Fallback, FrameBody, HostRequest, Outcome, PanicReason,
    PyComparisonOp, PyFuncArgs, Request, TraceEvent, Value,
};
use pyvm::settings::{InitParameter, PySettings, NSIG};
use pyvm::thread::VmStack;
use std::collections::HashMap;
use std::sync::Arc;

type Native = fn(&mut Host, &mut VirtualMachine, &mut Heap, &[PyObjectRef]) -> Outcome;

const CALL_NATIVE: u64 = 100;
const BIND_NATIVE: u64 = 101;
const CALL_BOUND: u64 = 102;
const COMPARE_INT: u64 = 103;
const COMPARE_NEVER: u64 = 104;
const COMPARE_FALSE: u64 = 105;

/// A small host: native functions, bound methods and dictionaries.
struct Host {
    natives: Vec<Native>,
    dicts: HashMap<usize, HashMap<String, PyObjectRef>>,
    iterators: HashMap<usize, Vec<PyObjectRef>>,
    function_type: PyObjectRef,
    method_type: PyObjectRef,
    /// What was asked, in order.
    log: Vec<String>,
    /// Whether tracing was on when each native function ran.
    tracing: Vec<bool>,
    /// What frames come to.
    frame_reply: fn(FrameRef) -> Outcome,
    custom_fallback: Option<PyObjectRef>,
}

fn slots() -> PyTypeSlots {
    PyTypeSlots { call: None, descr_get: None, getattro: None, compare: None, hash: None }
}

fn new_class(vm: &VirtualMachine, heap: &mut Heap, name: &str, base: PyObjectRef, slots: PyTypeSlots) -> PyObjectRef {
    let base_mro = match &heap.objects[base.id].payload {
        Payload::Type(t) => t.mro.clone(),
        _ => panic!("the base is no class"),
    };
    let class = heap.new_object(vm.ctx.types.type_type, None, Payload::Opaque);
    let mut mro = vec![class];
    mro.extend(base_mro);
    heap.objects[class.id].payload = Payload::Type(PyType {
        name: name.to_owned(),
        mro,
        attributes: vec![],
        slots,
    });
    class
}

fn set_class_attr(heap: &mut Heap, class: PyObjectRef, name: &str, value: PyObjectRef) {
    match &mut heap.objects[class.id].payload {
        Payload::Type(t) => t.attributes.insert(0, (name.to_owned(), value)),
        _ => panic!("no class"),
    }
}

fn int_of(heap: &Heap, obj: PyObjectRef) -> Option<i128> {
    match heap.objects[obj.id].payload {
        Payload::Int(i) => Some(i),
        Payload::Bool(b) => Some(if b { 1 } else { 0 }),
        _ => None,
    }
}

fn text_of(heap: &Heap, obj: PyObjectRef) -> String {
    heap.str_text(obj)
}

fn message_of(heap: &Heap, exc: PyObjectRef) -> String {
    match &heap.objects[exc.id].payload {
        Payload::Exception(args) => text_of(heap, args[0]),
        _ => panic!("no exception"),
    }
}

impl Host {
    fn new(vm: &VirtualMachine, heap: &mut Heap) -> Host {
        let object = vm.ctx.types.object_type;
        let function_type = new_class(
            vm,
            heap,
            "builtin_function",
            object,
            PyTypeSlots {
                call: Some(SlotFunc { id: CALL_NATIVE }),
                descr_get: Some(SlotFunc { id: BIND_NATIVE }),
                ..slots()
            },
        );
        let method_type = new_class(
            vm,
            heap,
            "method",
            object,
            PyTypeSlots { call: Some(SlotFunc { id: CALL_BOUND }), ..slots() },
        );
        let mut host = Host {
            natives: vec![],
            dicts: HashMap::new(),
            iterators: HashMap::new(),
            function_type,
            method_type,
            log: vec![],
            tracing: vec![],
            frame_reply: |frame| Ok(Value::Returned(frame.object)),
            custom_fallback: None,
        };
        host.method(heap, object, "__setattr__", setattr);
        host.method(heap, vm.ctx.types.int_type, "__add__", int_add);
        host.method(heap, vm.ctx.types.str_type, "__mul__", str_mul);
        if let Payload::Type(t) = &mut heap.objects[vm.ctx.types.int_type.id].payload {
            t.slots.compare = Some(SlotFunc { id: COMPARE_INT });
        }
        host
    }

    fn function(&mut self, heap: &mut Heap, f: Native) -> PyObjectRef {
        self.natives.push(f);
        let id = (self.natives.len() - 1) as u64;
        heap.new_object(self.function_type, None, Payload::Native(id))
    }

    fn method(&mut self, heap: &mut Heap, class: PyObjectRef, name: &str, f: Native) {
        let func = self.function(heap, f);
        set_class_attr(heap, class, name, func);
    }

    fn dict_set(&mut self, dict: PyObjectRef, name: &str, value: PyObjectRef) {
        self.dicts.entry(dict.id).or_default().insert(name.to_owned(), value);
    }

    fn dict_get(&self, dict: PyObjectRef, name: &str) -> Option<PyObjectRef> {
        self.dicts.get(&dict.id).and_then(|d| d.get(name)).copied()
    }

    fn attr_of(&self, heap: &Heap, obj: PyObjectRef, name: &str) -> Option<PyObjectRef> {
        self.dict_get(heap.objects[obj.id].dict.unwrap(), name)
    }

    fn call_native(&mut self, vm: &mut VirtualMachine, heap: &mut Heap, func: PyObjectRef, args: &[PyObjectRef]) -> Outcome {
        let id = match heap.objects[func.id].payload {
            Payload::Native(id) => id,
            _ => panic!("no native function"),
        };
        self.tracing.push(vm.use_tracing);
        self.natives[id as usize](self, vm, heap, args)
    }

    fn reply(&mut self, vm: &mut VirtualMachine, heap: &mut Heap, request: HostRequest) -> Outcome {
        match request {
            Request::CallSlot { slot, callable, args } => match slot.id {
                CALL_NATIVE => {
                    self.log.push(format!("call {}", callable.id));
                    self.call_native(vm, heap, callable, &args.args)
                }
                CALL_BOUND => {
                    let (func, this) = match &heap.objects[callable.id].payload {
                        Payload::Tuple(items) => (items[0], items[1]),
                        _ => panic!("no bound method"),
                    };
                    let mut all = vec![this];
                    all.extend(args.args);
                    self.call_native(vm, heap, func, &all)
                }
                _ => panic!("an unknown slot"),
            },
            Request::DescrGet { descr, obj, .. } => {
                let method = heap.new_object(
                    self.method_type,
                    None,
                    Payload::Tuple(vec![descr, obj.unwrap()]),
                );
                Ok(Value::Object(method))
            }
            Request::GetAttr { obj, name, .. } => {
                self.log.push(format!("getattr {}", text_of(heap, name)));
                let step = vm.generic_getattribute(heap, obj, name);
                self.run(vm, heap, step)
            }
            Request::Compare { slot, obj, other, op } => {
                self.log.push(format!("compare {} {} {:?}", obj.id, other.id, op));
                match slot.id {
                    COMPARE_INT => match (int_of(heap, obj), int_of(heap, other)) {
                        (Some(a), Some(b)) => Ok(Value::Bool(match op {
                            PyComparisonOp::Lt => a < b,
                            PyComparisonOp::Gt => a > b,
                            PyComparisonOp::Ne => a != b,
                            PyComparisonOp::Eq => a == b,
                            PyComparisonOp::Le => a <= b,
                            PyComparisonOp::Ge => a >= b,
                        })),
                        _ => Ok(Value::Missing),
                    },
                    COMPARE_FALSE => Ok(Value::Bool(false)),
                    COMPARE_NEVER => Ok(Value::Object(vm.ctx.not_implemented)),
                    _ => Ok(Value::Missing),
                }
            }
            Request::Hash { obj, .. } => Ok(Value::Hash(obj.id as i64)),
            Request::Truth { obj } => Ok(Value::Bool(match heap.objects[obj.id].payload {
                Payload::Bool(b) => b,
                Payload::Int(i) => i != 0,
                _ => true,
            })),
            Request::Convert { obj, to } => {
                let fits = match (to, &heap.objects[obj.id].payload) {
                    (Conversion::Str, Payload::Str(_)) => true,
                    (Conversion::Int, Payload::Int(_)) => true,
                    (Conversion::Custom(_), _) => true,
                    _ => false,
                };
                if fits {
                    Ok(Value::Object(obj))
                } else {
                    Err(vm.new_type_error(heap, "wrong type".to_owned()))
                }
            }
            Request::DictGet { dict, key } => {
                self.log.push(format!("dict {}", key));
                Ok(match self.dict_get(dict, &key) {
                    Some(value) => Value::Object(value),
                    None => Value::Missing,
                })
            }
            Request::GetItem { obj, key } => {
                self.log.push(format!("item {}", key));
                match self.dict_get(obj, &key) {
                    Some(value) => Ok(Value::Object(value)),
                    None => {
                        let key = vm.ctx.new_str(heap, key);
                        Err(vm.new_key_error(heap, key))
                    }
                }
            }
            Request::GetIter { obj } => {
                let items = match &heap.objects[obj.id].payload {
                    Payload::Tuple(items) | Payload::List(items) => items.clone(),
                    _ => self.iterators.get(&obj.id).cloned().unwrap_or_default(),
                };
                let iter = heap.new_object(vm.ctx.types.object_type, None, Payload::Opaque);
                self.iterators.insert(iter.id, items);
                Ok(Value::Object(iter))
            }
            Request::NextObject { iter } => {
                self.log.push("next".to_owned());
                let items = self.iterators.get_mut(&iter.id).unwrap();
                Ok(if items.is_empty() { Value::Missing } else { Value::Object(items.remove(0)) })
            }
            Request::GetAll { iter, .. } => {
                Ok(Value::Elements(self.iterators.remove(&iter.id).unwrap()))
            }
            Request::Ascii { text } => {
                Ok(Value::Text(text.chars().map(|c| if c.is_ascii() { c } else { '?' }).collect()))
            }
            Request::Display { obj } => Ok(Value::Text(format!("object {}", obj.id))),
            Request::RunFrame { frame, .. } => {
                self.log.push(format!("frames {}", vm.frames.len()));
                (self.frame_reply)(frame)
            }
            Request::Fallback { .. } => Ok(Value::Object(self.custom_fallback.unwrap())),
            Request::ReportAtexitError { exc } => {
                self.log.push(format!("report {}", message_of(heap, exc)));
                Ok(Value::Unit)
            }
            Request::RemoveImportlibFrames { exc } => {
                self.log.push("trim".to_owned());
                Ok(Value::Object(exc))
            }
            Request::MakeModule { kind, .. } => {
                self.log.push(format!("make {:?}", kind));
                Ok(Value::Unit)
            }
            Request::ImportBuiltin { name } => {
                self.log.push(format!("builtin {}", name));
                let dict = vm.ctx.new_dict(heap);
                let module = heap.new_object(vm.ctx.types.module_type, Some(dict), Payload::Opaque);
                let open = self.function(heap, open_stream);
                self.dict_set(dict, "open", open);
                Ok(Value::Object(module))
            }
            Request::InitImportlib { init } => {
                self.log.push(
                    match init {
                        InitParameter::Internal => "importlib internal",
                        InitParameter::External => "importlib external",
                    }
                    .to_owned(),
                );
                Ok(Value::Unit)
            }
            Request::InitModuleDict { dict, name, .. } => {
                self.log.push(format!("module {}", text_of(heap, name)));
                self.dict_set(dict, "__name__", name);
                Ok(Value::Unit)
            }
            Request::SetModuleAttr { module, name, value } => {
                let name = text_of(heap, name);
                self.dict_set(heap.objects[module.id].dict.unwrap(), &name, value);
                Ok(Value::Unit)
            }
            Request::NewScope { globals } => {
                Ok(Value::Scope(Scope { locals: globals, globals }))
            }
            Request::CheckSignals => Ok(Value::Unit),
        }
    }

    fn run(&mut self, vm: &mut VirtualMachine, heap: &mut Heap, step: Step) -> Outcome {
        let mut step = step;
        loop {
            match step {
                Step::Done(outcome) => return outcome,
                Step::Ask(request, suspended) => {
                    let outcome = self.reply(vm, heap, request);
                    step = vm.resume(heap, suspended, outcome);
                }
                Step::Panic(reason) => panic!("{:?}", reason),
            }
        }
    }

    fn object(&mut self, vm: &mut VirtualMachine, heap: &mut Heap, step: Step) -> PyObjectRef {
        match self.run(vm, heap, step) {
            Ok(Value::Object(obj)) => obj,
            Ok(_) => panic!("no object"),
            Err(e) => panic!("{}", message_of(heap, e)),
        }
    }

    fn boolean(&mut self, vm: &mut VirtualMachine, heap: &mut Heap, step: Step) -> bool {
        match self.run(vm, heap, step) {
            Ok(Value::Bool(b)) => b,
            _ => panic!("no bool"),
        }
    }

    fn error(&mut self, vm: &mut VirtualMachine, heap: &mut Heap, step: Step) -> (PyObjectRef, String) {
        match self.run(vm, heap, step) {
            Err(e) => (heap.class_of(e), message_of(heap, e)),
            Ok(_) => panic!("nothing was raised"),
        }
    }
}

fn setattr(host: &mut Host, vm: &mut VirtualMachine, heap: &mut Heap, args: &[PyObjectRef]) -> Outcome {
    let name = text_of(heap, args[1]);
    host.dict_set(heap.objects[args[0].id].dict.unwrap(), &name, args[2]);
    Ok(Value::Object(vm.ctx.none))
}

fn int_add(_: &mut Host, vm: &mut VirtualMachine, heap: &mut Heap, args: &[PyObjectRef]) -> Outcome {
    match (int_of(heap, args[0]), int_of(heap, args[1])) {
        (Some(a), Some(b)) => Ok(Value::Object(vm.ctx.new_int(heap, a + b))),
        _ => Ok(Value::Object(vm.ctx.not_implemented)),
    }
}

fn str_mul(_: &mut Host, vm: &mut VirtualMachine, heap: &mut Heap, args: &[PyObjectRef]) -> Outcome {
    match int_of(heap, args[1]) {
        Some(n) => {
            let text = text_of(heap, args[0]).repeat(n as usize);
            Ok(Value::Object(vm.ctx.new_str(heap, text)))
        }
        None => Ok(Value::Object(vm.ctx.not_implemented)),
    }
}

fn open_stream(host: &mut Host, vm: &mut VirtualMachine, heap: &mut Heap, args: &[PyObjectRef]) -> Outcome {
    let line = format!("open {} {}", int_of(heap, args[0]).unwrap(), text_of(heap, args[1]));
    host.log.push(line);
    let stream = heap.new_object(vm.ctx.types.object_type, None, Payload::Opaque);
    Ok(Value::Object(stream))
}

fn not_implemented(host: &mut Host, vm: &mut VirtualMachine, _: &mut Heap, args: &[PyObjectRef]) -> Outcome {
    host.log.push(format!("declined {} {}", args[0].id, args[1].id));
    Ok(Value::Object(vm.ctx.not_implemented))
}

fn returns_last(_: &mut Host, _: &mut VirtualMachine, _: &mut Heap, args: &[PyObjectRef]) -> Outcome {
    Ok(Value::Object(args[args.len() - 1]))
}

fn returns_true(_: &mut Host, vm: &mut VirtualMachine, _: &mut Heap, _: &[PyObjectRef]) -> Outcome {
    Ok(Value::Object(vm.ctx.true_value))
}

fn raises_value_error(_: &mut Host, vm: &mut VirtualMachine, heap: &mut Heap, _: &[PyObjectRef]) -> Outcome {
    Err(vm.new_value_error(heap, "bad value".to_owned()))
}

fn raises_exit(_: &mut Host, vm: &mut VirtualMachine, heap: &mut Heap, _: &[PyObjectRef]) -> Outcome {
    Err(vm.new_exception_msg(heap, vm.ctx.exceptions.system_exit, "exit".to_owned()))
}

fn traces(host: &mut Host, vm: &mut VirtualMachine, heap: &mut Heap, args: &[PyObjectRef]) -> Outcome {
    let line = format!("trace {} {}", args[0].id, text_of(heap, args[1]));
    host.log.push(line);
    assert_eq!(args[2], vm.ctx.none);
    Ok(Value::Object(vm.ctx.none))
}

fn some_text(_: &mut Host, vm: &mut VirtualMachine, heap: &mut Heap, _: &[PyObjectRef]) -> Outcome {
    Ok(Value::Object(vm.ctx.new_str(heap, "h\u{e9}llo".to_owned())))
}

fn forty_two(_: &mut Host, vm: &mut VirtualMachine, heap: &mut Heap, _: &[PyObjectRef]) -> Outcome {
    Ok(Value::Object(vm.ctx.new_int(heap, 42)))
}

fn a_module(_: &mut Host, vm: &mut VirtualMachine, heap: &mut Heap, args: &[PyObjectRef]) -> Outcome {
    assert_eq!(args.len(), 5);
    let items = vec![args[0], args[1], args[2], args[3], args[4]];
    Ok(Value::Object(vm.ctx.new_tuple(heap, items)))
}

/// A machine that is initialized, its heap and its host.
fn started() -> (VirtualMachine, Heap, Host) {
    let Interpreter { mut vm, mut heap, boot, atexit_funcs } =
        Interpreter::default(BuildInfo::bare());
    assert!(atexit_funcs.is_empty());
    let mut host = Host::new(&vm, &mut heap);
    assert!(matches!(host.run(&mut vm, &mut heap, boot), Ok(Value::Unit)));
    (vm, heap, host)
}

fn instance(vm: &VirtualMachine, heap: &mut Heap, class: PyObjectRef) -> PyObjectRef {
    let dict = vm.ctx.new_dict(heap);
    heap.new_object(class, Some(dict), Payload::Opaque)
}

fn plain_class(vm: &VirtualMachine, heap: &mut Heap, name: &str) -> PyObjectRef {
    new_class(vm, heap, name, vm.ctx.types.object_type, slots())
}

fn frame_of(vm: &VirtualMachine, heap: &mut Heap) -> FrameRef {
    let dict = vm.ctx.new_dict(heap);
    let object = heap.new_object(vm.ctx.types.frame_type, None, Payload::Opaque);
    FrameRef { object, scope: Scope { locals: dict, globals: dict } }
}

#[test]
fn test_add_py_integers() {
    let (mut vm, mut heap, mut host) = started();
    let a = vm.ctx.new_int(&mut heap, 33);
    let b = vm.ctx.new_int(&mut heap, 12);
    let step = vm._add(&mut heap, a, b);
    let res = host.object(&mut vm, &mut heap, step);
    assert_eq!(int_of(&heap, res), Some(45));
}

#[test]
fn test_multiply_str() {
    let (mut vm, mut heap, mut host) = started();
    let a = vm.ctx.new_str(&mut heap, String::from("Hello "));
    let b = vm.ctx.new_int(&mut heap, 4);
    let step = vm._mul(&mut heap, a, b);
    let res = host.object(&mut vm, &mut heap, step);
    assert_eq!(text_of(&heap, res), String::from("Hello Hello Hello Hello "));
}

#[test]
fn initialization_goes_through_all_steps() {
    let (vm, heap, host) = started();
    assert!(vm.initialized);
    let expected = [
        "module builtins",
        "module sys",
        "make Builtins",
        "make Sys",
        "builtin _signal",
        "builtin _io",
        "getattr open",
        "dict open",
    ];
    assert_eq!(host.log[..8].to_vec(), expected.to_vec());
    for line in ["open 0 r", "open 1 w", "open 2 w"] {
        assert!(host.log.iter().any(|l| l == line));
    }
    assert_eq!(host.log.last().unwrap(), "importlib external");
    for name in ["stdin", "stdout", "stderr"] {
        let plain = host.attr_of(&heap, vm.sys_module, name).unwrap();
        let dunder = host.attr_of(&heap, vm.sys_module, &format!("__{}__", name)).unwrap();
        assert_eq!(plain, dunder);
    }
    assert!(host.attr_of(&heap, vm.builtins, "open").is_some());
}

#[test]
fn initialization_happens_once() {
    let (vm, _, _) = started();
    assert!(matches!(
        vm.initialize(InitParameter::Internal),
        Step::Panic(PanicReason::DoubleInitialize)
    ));
}

#[test]
fn failed_initialization_panics() {
    let Interpreter { mut vm, mut heap, boot, .. } = Interpreter::new(
        PySettings::default(),
        BuildInfo::bare(),
        InitParameter::Internal,
    );
    let exc = vm.new_runtime_error(&mut heap, "no".to_owned());
    let mut step = boot;
    loop {
        match step {
            Step::Ask(Request::ImportBuiltin { .. }, suspended) => {
                step = vm.resume(&mut heap, suspended, Err(exc));
            }
            Step::Ask(_, suspended) => step = vm.resume(&mut heap, suspended, Ok(Value::Unit)),
            Step::Done(_) => panic!("it is over"),
            Step::Panic(reason) => {
                assert_eq!(reason, PanicReason::InitializationFailed(exc));
                break;
            }
        }
    }
    assert!(!vm.initialized);
}

#[test]
fn host_prepares_the_machine_before_it_is_initialized() {
    let Interpreter { mut vm, mut heap, boot, .. } =
        Interpreter::new_with_init(PySettings::default(), BuildInfo::bare());
    let mut host = Host::new(&vm, &mut heap);
    assert!(matches!(host.run(&mut vm, &mut heap, boot), Ok(Value::Unit)));
    assert!(!vm.initialized);
    vm.wasm_id = Some("prepared".to_owned());
    let step = vm.initialize(InitParameter::Internal);
    assert!(matches!(host.run(&mut vm, &mut heap, step), Ok(Value::Unit)));
    assert!(vm.initialized);
    assert_eq!(host.log.last().unwrap(), "importlib internal");
}

#[test]
fn new_machine_has_its_defaults() {
    let build = BuildInfo {
        has_signals: false,
        has_system: true,
        debug_assertions: true,
        stdlib_inits: vec![("math".to_owned(), 7)],
        frozen: vec![("zipimport".to_owned(), 8)],
    };
    let settings = PySettings { hash_seed: Some(5), optimize: 2, ..PySettings::default() };
    let (vm, heap, _, atexit_funcs) = VirtualMachine::new(settings, build, None);
    assert!(atexit_funcs.is_empty());
    assert!(!vm.state.has_signals && vm.state.has_system);
    assert_eq!(vm.recursion_limit, 256);
    assert_eq!(vm.state.stacksize.load(), 0);
    assert_eq!(vm.state.thread_count.load(), 0);
    assert_eq!(vm.state.hash_secret, HashSecret::Seeded(5));
    assert_eq!(vm.state.stdlib_inits, vec![("math".to_owned(), 7)]);
    assert_eq!(vm.state.frozen, vec![("zipimport".to_owned(), 8)]);
    assert_eq!(vm.signal_handlers.as_ref().unwrap().len(), NSIG);
    assert!(vm.signal_handlers.as_ref().unwrap().iter().all(|h| *h == vm.ctx.none));
    assert_eq!(vm.compile_opts().optimize, 2);
    assert_eq!(heap.class_of(vm.builtins), vm.ctx.types.module_type);
    assert!(!vm.initialized && !vm.use_tracing);
    let (other, _, _, _) = VirtualMachine::new(PySettings::default(), BuildInfo::bare(), None);
    assert_eq!(other.recursion_limit, 512);
    assert!(matches!(other.state.hash_secret, HashSecret::Random { .. }));
    let (third, _, _, _) = VirtualMachine::new(PySettings::default(), BuildInfo::bare(), None);
    assert_ne!(other.state.hash_secret, third.state.hash_secret);
}

#[test]
fn threads_share_the_interpreter() {
    let (mut vm, mut heap, _) = started();
    let frame = frame_of(&vm, &mut heap);
    vm.frames.push(frame);
    vm.use_tracing = true;
    vm.wasm_id = Some("w".to_owned());
    let thread = vm.new_thread();
    assert!(Arc::ptr_eq(&vm.state, &thread.thread_vm.state));
    assert_eq!(thread.thread_vm.builtins, vm.builtins);
    assert_eq!(thread.thread_vm.recursion_limit, vm.recursion_limit);
    assert_eq!(thread.thread_vm.wasm_id, Some("w".to_owned()));
    assert!(thread.thread_vm.initialized);
    assert!(thread.thread_vm.frames.is_empty() && !thread.thread_vm.use_tracing);
    assert!(thread.thread_vm.signal_handlers.is_none());
}

#[test]
fn calls_without_a_slot_are_type_errors() {
    let (mut vm, mut heap, mut host) = started();
    let n = vm.ctx.new_int(&mut heap, 1);
    assert!(!vm.is_callable(&heap, n));
    let step = vm.invoke(&mut heap, n, PyFuncArgs::positional(vec![]));
    let (class, message) = host.error(&mut vm, &mut heap, step);
    assert_eq!(class, vm.ctx.exceptions.type_error);
    assert_eq!(message, "'int' object is not callable");
    let step = vm.call_method(&mut heap, n, &"__nope__".to_owned(), PyFuncArgs::positional(vec![]));
    let (class, message) = host.error(&mut vm, &mut heap, step);
    assert_eq!(class, vm.ctx.exceptions.type_error);
    assert_eq!(message, "Unsupported method: __nope__");
}

#[test]
fn trace_functions_see_calls_with_tracing_off() {
    let (mut vm, mut heap, mut host) = started();
    let func = host.function(&mut heap, forty_two);
    let tracer = host.function(&mut heap, traces);
    let frame = frame_of(&vm, &mut heap);
    vm.frames.push(frame);
    vm.trace_func = tracer;
    vm.profile_func = tracer;
    vm.use_tracing = true;
    host.log.clear();
    host.tracing.clear();
    let step = vm.invoke(&mut heap, func, PyFuncArgs::positional(vec![]));
    let res = host.object(&mut vm, &mut heap, step);
    assert_eq!(int_of(&heap, res), Some(42));
    let events: Vec<&String> = host.log.iter().filter(|l| l.starts_with("trace")).collect();
    let call = format!("trace {} call", frame.object.id);
    let ret = format!("trace {} return", frame.object.id);
    assert_eq!(events, vec![&call, &call, &ret, &ret]);
    assert_eq!(host.tracing, vec![false, false, true, false, false]);
    assert!(vm.use_tracing);
    assert_eq!(TraceEvent::Call.to_text(), "call");
}

#[test]
fn trace_function_that_raises_stops_the_call() {
    let (mut vm, mut heap, mut host) = started();
    let func = host.function(&mut heap, forty_two);
    let tracer = host.function(&mut heap, raises_value_error);
    let frame = frame_of(&vm, &mut heap);
    vm.frames.push(frame);
    vm.trace_func = tracer;
    vm.use_tracing = true;
    let step = vm.invoke(&mut heap, func, PyFuncArgs::positional(vec![]));
    let (_, message) = host.error(&mut vm, &mut heap, step);
    assert_eq!(message, "bad value");
    assert!(vm.use_tracing);
}

#[test]
fn reflected_method_comes_second() {
    let (mut vm, mut heap, mut host) = started();
    let left = plain_class(&vm, &mut heap, "Left");
    let right = plain_class(&vm, &mut heap, "Right");
    host.method(&mut heap, left, "__sub__", not_implemented);
    host.method(&mut heap, right, "__rsub__", returns_last);
    let a = instance(&vm, &mut heap, left);
    let b = instance(&vm, &mut heap, right);
    let step = vm._sub(&mut heap, a, b);
    assert_eq!(host.object(&mut vm, &mut heap, step), a);
    assert_eq!(host.log.last().unwrap(), &format!("declined {} {}", a.id, b.id));
}

#[test]
fn unsupported_operands_are_type_errors() {
    let (mut vm, mut heap, mut host) = started();
    let left = plain_class(&vm, &mut heap, "Left");
    let right = plain_class(&vm, &mut heap, "Right");
    let a = instance(&vm, &mut heap, left);
    let b = instance(&vm, &mut heap, right);
    let type_error = vm.ctx.exceptions.type_error;
    type Operator = fn(&mut VirtualMachine, &mut Heap, PyObjectRef, PyObjectRef) -> Step;
    let operators: Vec<(Operator, &str)> = vec![
        (VirtualMachine::_sub, "-"),
        (VirtualMachine::_isub, "-="),
        (VirtualMachine::_add, "+"),
        (VirtualMachine::_iadd, "+="),
        (VirtualMachine::_mul, "*"),
        (VirtualMachine::_imul, "*="),
        (VirtualMachine::_matmul, "@"),
        (VirtualMachine::_imatmul, "@="),
        (VirtualMachine::_truediv, "/"),
        (VirtualMachine::_itruediv, "/="),
        (VirtualMachine::_floordiv, "//"),
        (VirtualMachine::_ifloordiv, "//="),
        (VirtualMachine::_pow, "**"),
        (VirtualMachine::_ipow, "**="),
        (VirtualMachine::_mod, "%"),
        (VirtualMachine::_imod, "%="),
        (VirtualMachine::_lshift, "<<"),
        (VirtualMachine::_ilshift, "<<="),
        (VirtualMachine::_rshift, ">>"),
        (VirtualMachine::_irshift, ">>="),
        (VirtualMachine::_xor, "^"),
        (VirtualMachine::_ixor, "^="),
        (VirtualMachine::_or, "|"),
        (VirtualMachine::_ior, "|="),
        (VirtualMachine::_and, "&"),
        (VirtualMachine::_iand, "&="),
    ];
    for (operator, token) in operators {
        let step = operator(&mut vm, &mut heap, a, b);
        let (class, message) = host.error(&mut vm, &mut heap, step);
        assert_eq!(class, type_error);
        assert_eq!(
            message,
            format!("Unsupported operand types for '{}': 'Left' and 'Right'", token)
        );
    }
}

#[test]
fn inplace_operators_fall_back_to_the_binary_ones() {
    let (mut vm, mut heap, mut host) = started();
    let a = vm.ctx.new_int(&mut heap, 5);
    let b = vm.ctx.new_int(&mut heap, 6);
    let step = vm._iadd(&mut heap, a, b);
    let res = host.object(&mut vm, &mut heap, step);
    assert_eq!(int_of(&heap, res), Some(11));
    host.method(&mut heap, vm.ctx.types.int_type, "__iadd__", returns_last);
    let step = vm._iadd(&mut heap, a, b);
    assert_eq!(host.object(&mut vm, &mut heap, step), b);
}

#[test]
fn custom_fallback_is_asked_of_the_host() {
    let (mut vm, mut heap, mut host) = started();
    let class = plain_class(&vm, &mut heap, "C");
    let a = instance(&vm, &mut heap, class);
    host.custom_fallback = Some(vm.ctx.true_value);
    let step = vm.call_or_unsupported(&mut heap, a, a, "__x__", Fallback::Custom(3));
    assert_eq!(host.object(&mut vm, &mut heap, step), vm.ctx.true_value);
    host.method(&mut heap, class, "__x__", not_implemented);
    let step = vm.call_or_reflection(&mut heap, a, a, "__x__", "__y__", Fallback::Custom(3));
    assert_eq!(host.object(&mut vm, &mut heap, step), vm.ctx.true_value);
}

#[test]
fn comparisons_of_integers() {
    let (mut vm, mut heap, mut host) = started();
    let a = vm.ctx.new_int(&mut heap, 1);
    let b = vm.ctx.new_int(&mut heap, 2);
    let step = vm.bool_cmp(&heap, a, b, PyComparisonOp::Lt);
    assert!(host.boolean(&mut vm, &mut heap, step));
    let step = vm.obj_cmp(&heap, a, b, PyComparisonOp::Ge);
    assert_eq!(host.object(&mut vm, &mut heap, step), vm.ctx.false_value);
    let step = vm.bool_eq(&heap, a, b);
    assert!(!host.boolean(&mut vm, &mut heap, step));
}

#[test]
fn comparison_that_both_decline() {
    let (mut vm, mut heap, mut host) = started();
    let class = new_class(
        &vm,
        &mut heap,
        "C",
        vm.ctx.types.object_type,
        PyTypeSlots { compare: Some(SlotFunc { id: COMPARE_NEVER }), ..slots() },
    );
    let a = instance(&vm, &mut heap, class);
    let b = instance(&vm, &mut heap, class);
    let step = vm.bool_cmp(&heap, a, b, PyComparisonOp::Eq);
    assert!(!host.boolean(&mut vm, &mut heap, step));
    let step = vm.bool_cmp(&heap, a, a, PyComparisonOp::Eq);
    assert!(host.boolean(&mut vm, &mut heap, step));
    let step = vm.bool_cmp(&heap, a, b, PyComparisonOp::Ne);
    assert!(host.boolean(&mut vm, &mut heap, step));
    let asked = host.log.iter().filter(|l| l.starts_with("compare")).count();
    assert_eq!(asked, 6);
    let step = vm.bool_cmp(&heap, a, b, PyComparisonOp::Le);
    let (error, message) = host.error(&mut vm, &mut heap, step);
    assert_eq!(error, vm.ctx.exceptions.type_error);
    assert_eq!(message, "Unsupported operand types for '<=': 'C' and 'C'");
}

#[test]
fn strict_subclass_is_compared_first() {
    let (mut vm, mut heap, mut host) = started();
    let base = plain_class(&vm, &mut heap, "Base");
    let sub = new_class(&vm, &mut heap, "Sub", base, slots());
    let a = instance(&vm, &mut heap, base);
    let b = instance(&vm, &mut heap, sub);
    host.log.clear();
    let step = vm.bool_cmp(&heap, a, b, PyComparisonOp::Lt);
    host.error(&mut vm, &mut heap, step);
    assert_eq!(
        host.log,
        vec![format!("compare {} {} Gt", b.id, a.id), format!("compare {} {} Lt", a.id, b.id)]
    );
    assert_eq!(PyComparisonOp::Lt.swapped().swapped(), PyComparisonOp::Lt);
}

#[test]
fn identical_objects_need_no_comparison() {
    let (mut vm, mut heap, mut host) = started();
    let a = vm.ctx.new_int(&mut heap, 1);
    let b = vm.ctx.new_int(&mut heap, 1);
    assert!(matches!(vm.identical_or_equal(&heap, a, a), Step::Done(Ok(Value::Bool(true)))));
    let step = vm.identical_or_equal(&heap, a, b);
    assert!(host.boolean(&mut vm, &mut heap, step));
}

#[test]
fn elements_decide_sequences() {
    let (mut vm, mut heap, mut host) = started();
    let one = vm.ctx.new_int(&mut heap, 1);
    let two = vm.ctx.new_int(&mut heap, 2);
    let step = vm.bool_seq_lt(&heap, one, two);
    assert!(host.boolean(&mut vm, &mut heap, step));
    let step = vm.bool_seq_gt(&heap, one, two);
    assert!(!host.boolean(&mut vm, &mut heap, step));
    let step = vm.bool_seq_lt(&heap, one, one);
    assert!(matches!(host.run(&mut vm, &mut heap, step), Ok(Value::Missing)));
}

#[test]
fn missing_slots_are_panics() {
    let (vm, mut heap, _) = started();
    let odd = heap.new_object(vm.ctx.types.type_type, None, Payload::Opaque);
    let obj = heap.new_object(odd, None, Payload::Opaque);
    let reason = |step: Step| match step {
        Step::Panic(reason) => reason,
        _ => panic!("no panic"),
    };
    assert_eq!(reason(vm._hash(&heap, obj)), PanicReason::MissingSlot(SlotKind::Hash));
    assert_eq!(
        reason(vm.bool_eq(&heap, obj, obj)),
        PanicReason::MissingSlot(SlotKind::Compare)
    );
    let name = vm.ctx.new_str(&mut heap, "x".to_owned());
    assert_eq!(
        reason(vm.get_attribute(&heap, obj, name)),
        PanicReason::MissingSlot(SlotKind::GetAttro)
    );
}

#[test]
fn every_builtin_object_has_a_hash() {
    let (mut vm, mut heap, mut host) = started();
    for obj in [vm.ctx.none, vm.ctx.true_value, vm.builtins, vm.ctx.types.int_type] {
        let step = vm._hash(&heap, obj);
        match host.run(&mut vm, &mut heap, step) {
            Ok(Value::Hash(h)) => assert_eq!(h, obj.id as i64),
            _ => panic!("no hash"),
        }
    }
}

#[test]
fn membership_searches_an_iterator() {
    let (mut vm, mut heap, mut host) = started();
    let items: Vec<PyObjectRef> = (0..4).map(|i| vm.ctx.new_int(&mut heap, i)).collect();
    let tuple = vm.ctx.new_tuple(&mut heap, items);
    let two = vm.ctx.new_int(&mut heap, 2);
    let nine = vm.ctx.new_int(&mut heap, 9);
    host.log.clear();
    let step = vm._membership(&mut heap, tuple, two);
    assert_eq!(host.object(&mut vm, &mut heap, step), vm.ctx.true_value);
    assert_eq!(host.log.iter().filter(|l| *l == "next").count(), 3);
    host.log.clear();
    let step = vm._membership(&mut heap, tuple, nine);
    assert_eq!(host.object(&mut vm, &mut heap, step), vm.ctx.false_value);
    assert_eq!(host.log.iter().filter(|l| *l == "next").count(), 5);
}

#[test]
fn membership_asks_contains() {
    let (mut vm, mut heap, mut host) = started();
    let class = plain_class(&vm, &mut heap, "Container");
    host.method(&mut heap, class, "__contains__", returns_last);
    let obj = instance(&vm, &mut heap, class);
    let needle = vm.ctx.new_int(&mut heap, 3);
    let step = vm._membership(&mut heap, obj, needle);
    assert_eq!(host.object(&mut vm, &mut heap, step), needle);
}

#[test]
fn attributes_are_looked_up_in_order() {
    let (mut vm, mut heap, mut host) = started();
    let class = plain_class(&vm, &mut heap, "C");
    let obj = instance(&vm, &mut heap, class);
    let dict = heap.objects[obj.id].dict.unwrap();
    let name = vm.ctx.new_str(&mut heap, "x".to_owned());
    let step = vm.generic_getattribute(&mut heap, obj, name);
    let (error, message) = host.error(&mut vm, &mut heap, step);
    assert_eq!(error, vm.ctx.exceptions.attribute_error);
    assert_eq!(message, format!("object {} has no attribute 'x'", obj.id));
    let step = vm.generic_getattribute_opt(&mut heap, obj, name, None);
    assert!(matches!(host.run(&mut vm, &mut heap, step), Ok(Value::Missing)));
    // `__getattr__` comes last
    let getter = host.function(&mut heap, returns_last);
    set_class_attr(&mut heap, class, "__getattr__", getter);
    let step = vm.get_attribute(&heap, obj, name);
    assert_eq!(host.object(&mut vm, &mut heap, step), name);
    // an attribute of the class comes before it
    let value = vm.ctx.new_int(&mut heap, 1);
    set_class_attr(&mut heap, class, "x", value);
    let step = vm.get_attribute(&heap, obj, name);
    assert_eq!(host.object(&mut vm, &mut heap, step), value);
    // the instance comes before that
    let own = vm.ctx.new_int(&mut heap, 2);
    let step = vm.set_attr(&mut heap, obj, name, own);
    host.object(&mut vm, &mut heap, step);
    assert_eq!(host.dict_get(dict, "x"), Some(own));
    let step = vm.get_attribute(&heap, obj, name);
    assert_eq!(host.object(&mut vm, &mut heap, step), own);
    // a data descriptor comes first
    let data = new_class(
        &vm,
        &mut heap,
        "data",
        vm.ctx.types.object_type,
        PyTypeSlots { descr_get: Some(SlotFunc { id: BIND_NATIVE }), ..slots() },
    );
    set_class_attr(&mut heap, data, "__set__", value);
    let descr = instance(&vm, &mut heap, data);
    set_class_attr(&mut heap, class, "x", descr);
    let step = vm.get_attribute(&heap, obj, name);
    let bound = host.object(&mut vm, &mut heap, step);
    assert_eq!(heap.class_of(bound), host.method_type);
}

#[test]
fn methods_are_bound_or_missing() {
    let (mut vm, mut heap, mut host) = started();
    let class = plain_class(&vm, &mut heap, "C");
    let obj = instance(&vm, &mut heap, class);
    let name = "go".to_owned();
    let step = vm.get_method(&heap, obj, &name);
    assert!(matches!(host.run(&mut vm, &mut heap, step), Ok(Value::Missing)));
    let step = vm.get_method_or_type_error(&mut heap, obj, &name, || "cannot go".to_owned());
    let (error, message) = host.error(&mut vm, &mut heap, step);
    assert_eq!(error, vm.ctx.exceptions.type_error);
    assert_eq!(message, "cannot go");
    host.method(&mut heap, class, "go", forty_two);
    let step = vm.get_method(&heap, obj, &name);
    let method = host.object(&mut vm, &mut heap, step);
    assert_eq!(heap.class_of(method), host.method_type);
    let step = vm.call_method(&mut heap, obj, &name, PyFuncArgs::positional(vec![]));
    let res = host.object(&mut vm, &mut heap, step);
    assert_eq!(int_of(&heap, res), Some(42));
    host.method(&mut heap, class, "__delattr__", forty_two);
    let attr = vm.ctx.new_str(&mut heap, "x".to_owned());
    let step = vm.del_attr(&mut heap, obj, attr);
    assert!(matches!(host.run(&mut vm, &mut heap, step), Ok(Value::Unit)));
    let none = vm.ctx.none;
    assert!(matches!(
        vm.call_get_descriptor(&heap, none, obj),
        Step::Done(Ok(Value::Missing))
    ));
    let step = vm.__module_set_attr(vm.sys_module, attr, obj);
    assert!(matches!(host.run(&mut vm, &mut heap, step), Ok(Value::Unit)));
    assert_eq!(host.attr_of(&heap, vm.sys_module, "x"), Some(obj));
}

#[test]
fn strings_of_objects() {
    let (mut vm, mut heap, mut host) = started();
    let text = vm.ctx.new_str(&mut heap, "abc".to_owned());
    assert!(matches!(vm.to_str(&mut heap, text), Step::Done(Ok(Value::Object(s))) if s == text));
    match vm.to_pystr(&mut heap, text) {
        Step::Done(Ok(Value::Text(s))) => assert_eq!(s, "abc"),
        _ => panic!("no text"),
    }
    let class = plain_class(&vm, &mut heap, "C");
    host.method(&mut heap, class, "__str__", some_text);
    host.method(&mut heap, class, "__repr__", some_text);
    let obj = instance(&vm, &mut heap, class);
    let step = vm.to_pystr(&mut heap, obj);
    match host.run(&mut vm, &mut heap, step) {
        Ok(Value::Text(s)) => assert_eq!(s, "h\u{e9}llo"),
        _ => panic!("no text"),
    }
    let step = vm.to_repr(&mut heap, obj);
    let repr = host.object(&mut vm, &mut heap, step);
    assert_eq!(text_of(&heap, repr), "h\u{e9}llo");
    let step = vm.to_ascii(&mut heap, obj);
    let ascii = host.object(&mut vm, &mut heap, step);
    assert_eq!(text_of(&heap, ascii), "h?llo");
    host.method(&mut heap, class, "__str__", forty_two);
    let step = vm.to_str(&mut heap, obj);
    let (_, message) = host.error(&mut vm, &mut heap, step);
    assert_eq!(message, "wrong type");
}

#[test]
fn indices_of_objects() {
    let (mut vm, mut heap, mut host) = started();
    let n = vm.ctx.new_int(&mut heap, 7);
    let step = vm.to_index(n);
    assert_eq!(host.object(&mut vm, &mut heap, step), n);
    let class = plain_class(&vm, &mut heap, "C");
    let obj = instance(&vm, &mut heap, class);
    let step = vm.to_index(obj);
    assert!(matches!(host.run(&mut vm, &mut heap, step), Ok(Value::Missing)));
    host.method(&mut heap, class, "__index__", forty_two);
    let step = vm.to_index(obj);
    let index = host.object(&mut vm, &mut heap, step);
    assert_eq!(int_of(&heap, index), Some(42));
    host.method(&mut heap, class, "__index__", some_text);
    let step = vm.to_index(obj);
    let (error, message) = host.error(&mut vm, &mut heap, step);
    assert_eq!(error, vm.ctx.exceptions.type_error);
    assert_eq!(message, "__index__ returned non-int (type C)");
}

#[test]
fn elements_of_containers() {
    let (mut vm, mut heap, mut host) = started();
    let items: Vec<PyObjectRef> = (0..3).map(|i| vm.ctx.new_int(&mut heap, i)).collect();
    let tuple = vm.ctx.new_tuple(&mut heap, items.clone());
    let list = vm.ctx.new_list(&mut heap, items.clone());
    let class = plain_class(&vm, &mut heap, "C");
    let other = instance(&vm, &mut heap, class);
    host.iterators.insert(other.id, items.clone());
    for value in [tuple, list, other] {
        let step = vm.extract_elements(&heap, value, Conversion::Int);
        match host.run(&mut vm, &mut heap, step) {
            Ok(Value::Elements(found)) => assert_eq!(found, items),
            _ => panic!("no elements"),
        }
    }
    let step = vm.extract_elements(&heap, tuple, Conversion::Str);
    let (_, message) = host.error(&mut vm, &mut heap, step);
    assert_eq!(message, "wrong type");
    let hollow = heap.new_object(vm.ctx.types.tuple_type, None, Payload::Opaque);
    assert!(matches!(
        vm.extract_elements(&heap, hollow, Conversion::Int),
        Step::Panic(PanicReason::NoPayload(o)) if o == hollow
    ));
}

#[test]
fn instances_and_subclasses() {
    let (mut vm, mut heap, mut host) = started();
    let n = vm.ctx.new_int(&mut heap, 7);
    let int_type = vm.ctx.types.int_type;
    assert!(matches!(
        vm.isinstance(&mut heap, n, int_type),
        Step::Done(Ok(Value::Bool(true)))
    ));
    let type_type = vm.ctx.types.type_type;
    host.method(&mut heap, type_type, "__instancecheck__", returns_true);
    host.method(&mut heap, type_type, "__subclasscheck__", returns_last);
    let object = vm.ctx.types.object_type;
    let step = vm.isinstance(&mut heap, n, object);
    assert!(host.boolean(&mut vm, &mut heap, step));
    let step = vm.issubclass(&mut heap, int_type, object);
    assert!(host.boolean(&mut vm, &mut heap, step));
}

#[test]
fn native_values_become_objects() {
    let (vm, mut heap, _) = started();
    assert_eq!(vm.new_pyobj(&mut heap, NativeValue::Nothing), vm.ctx.none);
    assert_eq!(vm.new_pyobj(&mut heap, NativeValue::Bool(true)), vm.ctx.true_value);
    let n = vm.new_pyobj(&mut heap, NativeValue::Int(-3));
    assert_eq!(int_of(&heap, n), Some(-3));
    let s = vm.new_pyobj(&mut heap, NativeValue::Str("s".to_owned()));
    assert_eq!(text_of(&heap, s), "s");
    assert_eq!(vm.new_pyobj(&mut heap, NativeValue::Object(s)), s);
    assert!(vm.is_none(vm.ctx.none) && !vm.is_none(s));
    assert_eq!(vm.option_if_none(vm.ctx.none), None);
    assert_eq!(vm.unwrap_or_none(vm.option_if_none(s)), s);
    assert_eq!(vm.unwrap_or_none(None), vm.ctx.none);
}

fn with_sys_modules(vm: &VirtualMachine, heap: &mut Heap, host: &mut Host) -> PyObjectRef {
    let modules = vm.ctx.new_dict(heap);
    let sys_dict = heap.objects[vm.sys_module.id].dict.unwrap();
    host.dict_set(sys_dict, "modules", modules);
    modules
}

#[test]
fn cached_modules_are_not_imported() {
    let (mut vm, mut heap, mut host) = started();
    let modules = with_sys_modules(&vm, &mut heap, &mut host);
    let math = vm.ctx.new_int(&mut heap, 1);
    host.dict_set(modules, "math", math);
    let step = vm.import(&mut heap, &"math".to_owned(), &vec![], 0);
    assert_eq!(host.object(&mut vm, &mut heap, step), math);
    host.dict_set(modules, "halted", vm.ctx.none);
    let step = vm.import(&mut heap, &"halted".to_owned(), &vec![], 0);
    match host.run(&mut vm, &mut heap, step) {
        Err(e) => {
            assert_eq!(heap.class_of(e), vm.ctx.exceptions.import_error);
            assert_eq!(message_of(&heap, e), "import of halted halted; None in sys.modules");
            let name = host.attr_of(&heap, e, "name").unwrap();
            assert_eq!(text_of(&heap, name), "halted");
        }
        Ok(_) => panic!("it was imported"),
    }
}

#[test]
fn other_modules_are_imported_in_full() {
    let (mut vm, mut heap, mut host) = started();
    with_sys_modules(&vm, &mut heap, &mut host);
    let step = vm.import(&mut heap, &"math".to_owned(), &vec![], 0);
    let (error, message) = host.error(&mut vm, &mut heap, step);
    assert_eq!(error, vm.ctx.exceptions.import_error);
    assert_eq!(message, "__import__ not found");
    let import = host.function(&mut heap, a_module);
    let builtins_dict = heap.objects[vm.builtins.id].dict.unwrap();
    host.dict_set(builtins_dict, "__import__", import);
    let frame = frame_of(&vm, &mut heap);
    vm.frames.push(frame);
    host.log.clear();
    let names = vec!["a".to_owned(), "b".to_owned()];
    let step = vm.import(&mut heap, &"pkg.mod".to_owned(), &names, 1);
    let args = host.object(&mut vm, &mut heap, step);
    assert!(!host.log.iter().any(|l| l.starts_with("item")));
    let args = match &heap.objects[args.id].payload {
        Payload::Tuple(args) => args.clone(),
        _ => panic!("no tuple"),
    };
    assert_eq!(text_of(&heap, args[0]), "pkg.mod");
    assert_eq!(args[1], frame.scope.globals);
    assert_eq!(args[2], frame.scope.locals);
    match &heap.objects[args[3].id].payload {
        Payload::Tuple(list) => {
            let list: Vec<String> = list.iter().map(|n| text_of(&heap, *n)).collect();
            assert_eq!(list, names);
        }
        _ => panic!("no tuple"),
    }
    assert_eq!(int_of(&heap, args[4]), Some(1));
    let failing = host.function(&mut heap, raises_value_error);
    host.dict_set(builtins_dict, "__import__", failing);
    let step = vm.import(&mut heap, &"math".to_owned(), &vec![], 0);
    let (_, message) = host.error(&mut vm, &mut heap, step);
    assert_eq!(message, "bad value");
    assert_eq!(host.log.last().unwrap(), "trim");
}

#[test]
fn classes_of_modules() {
    let (mut vm, mut heap, mut host) = started();
    let modules = with_sys_modules(&vm, &mut heap, &mut host);
    let name = "shapes".to_owned();
    let dict = vm.ctx.new_dict(&mut heap);
    let step = vm.new_module(&mut heap, "shapes", dict);
    let module = host.object(&mut vm, &mut heap, step);
    assert_eq!(heap.class_of(module), vm.ctx.types.module_type);
    assert_eq!(host.log.last().unwrap(), "module shapes");
    host.dict_set(modules, "shapes", module);
    let class = plain_class(&vm, &mut heap, "Circle");
    host.dict_set(dict, "Circle", class);
    host.dict_set(dict, "radius", vm.ctx.none);
    let step = vm.try_class(&mut heap, &name, &"Circle".to_owned());
    assert_eq!(host.object(&mut vm, &mut heap, step), class);
    let step = vm.class(&mut heap, &name, &"Circle".to_owned());
    assert_eq!(host.object(&mut vm, &mut heap, step), class);
    let step = vm.try_class(&mut heap, &name, &"Square".to_owned());
    let (error, _) = host.error(&mut vm, &mut heap, step);
    assert_eq!(error, vm.ctx.exceptions.attribute_error);
}

/// Carries a step on until it panics, and gives the reason.
fn panic_of(host: &mut Host, vm: &mut VirtualMachine, heap: &mut Heap, step: Step) -> PanicReason {
    let mut step = step;
    loop {
        match step {
            Step::Done(_) => panic!("it is over"),
            Step::Ask(request, suspended) => {
                let outcome = host.reply(vm, heap, request);
                step = vm.resume(heap, suspended, outcome);
            }
            Step::Panic(reason) => return reason,
        }
    }
}

#[test]
fn classes_that_must_be_there() {
    let (mut vm, mut heap, mut host) = started();
    let modules = with_sys_modules(&vm, &mut heap, &mut host);
    let class_name = "Circle".to_owned();
    let step = vm.class(&mut heap, &"missing".to_owned(), &class_name);
    let reason = panic_of(&mut host, &mut vm, &mut heap, step);
    assert!(matches!(reason, PanicReason::UnableToImport(_)));
    let dict = vm.ctx.new_dict(&mut heap);
    let module = heap.new_object(vm.ctx.types.module_type, Some(dict), Payload::Opaque);
    host.dict_set(modules, "shapes", module);
    let step = vm.class(&mut heap, &"shapes".to_owned(), &class_name);
    let reason = panic_of(&mut host, &mut vm, &mut heap, step);
    assert!(matches!(reason, PanicReason::NoSuchClass(m, _) if m == module));
    host.dict_set(dict, "Circle", vm.ctx.none);
    let step = vm.class(&mut heap, &"shapes".to_owned(), &class_name);
    let reason = panic_of(&mut host, &mut vm, &mut heap, step);
    assert_eq!(reason, PanicReason::NotAClass(vm.ctx.none));
}

#[test]
fn codecs_get_their_arguments() {
    let (mut vm, mut heap, mut host) = started();
    let modules = with_sys_modules(&vm, &mut heap, &mut host);
    let dict = vm.ctx.new_dict(&mut heap);
    let module = heap.new_object(vm.ctx.types.module_type, Some(dict), Payload::Opaque);
    host.dict_set(modules, "_codecs", module);
    let func = host.function(&mut heap, |_, vm, heap, args| {
        let items = args.to_vec();
        Ok(Value::Object(vm.ctx.new_tuple(heap, items)))
    });
    host.dict_set(dict, "encode", func);
    host.dict_set(dict, "decode", func);
    let obj = vm.ctx.new_str(&mut heap, "x".to_owned());
    let errors = vm.ctx.new_str(&mut heap, "strict".to_owned());
    let step = vm.encode(&mut heap, obj, None, Some(errors));
    let args = host.object(&mut vm, &mut heap, step);
    assert!(matches!(&heap.objects[args.id].payload,
        Payload::Tuple(items) if *items == vec![obj, vm.ctx.none, errors]));
    let step = vm.decode(&mut heap, obj, Some(errors), None);
    let args = host.object(&mut vm, &mut heap, step);
    assert!(matches!(&heap.objects[args.id].payload,
        Payload::Tuple(items) if *items == vec![obj, errors]));
}

#[test]
fn frames_are_pushed_and_popped() {
    let (mut vm, mut heap, mut host) = started();
    let frame = frame_of(&vm, &mut heap);
    assert_eq!(vm.current_frame(), None);
    let step = vm.run_frame_full(&mut heap, frame);
    assert_eq!(vm.current_frame(), Some(frame));
    assert_eq!(vm.current_scope(), frame.scope);
    assert_eq!(vm.get_locals(), frame.scope.locals);
    assert_eq!(host.object(&mut vm, &mut heap, step), frame.object);
    assert_eq!(host.log.last().unwrap(), "frames 1");
    assert!(vm.frames.is_empty());
    let code = vm.compiled(&mut heap, "1", Ok(9)).ok().unwrap();
    let step = vm.run_code_obj(&mut heap, code, frame.scope);
    let made = host.object(&mut vm, &mut heap, step);
    assert!(matches!(heap.objects[made.id].payload, Payload::Frame(c) if c == code));
    host.frame_reply = |frame| Ok(Value::Yielded(frame.object));
    let step = vm.run_frame(&mut heap, frame);
    assert!(matches!(host.run(&mut vm, &mut heap, step), Ok(Value::Yielded(_))));
    let step = vm.run_frame_full(&mut heap, frame);
    let reason = panic_of(&mut host, &mut vm, &mut heap, step);
    assert_eq!(reason, PanicReason::UnexpectedResult);
    host.frame_reply = |frame| Err(frame.object);
    let step = vm.with_frame(&mut heap, frame, FrameBody::Custom(1));
    assert!(matches!(host.run(&mut vm, &mut heap, step), Err(e) if e == frame.object));
    assert!(vm.frames.is_empty());
}

#[test]
fn recursion_is_limited() {
    let (mut vm, mut heap, mut host) = started();
    vm.recursion_limit = 2;
    let frame = frame_of(&vm, &mut heap);
    vm.frames = vec![frame, frame];
    let step = vm.run_frame(&mut heap, frame);
    assert!(matches!(step, Step::Ask(Request::RunFrame { .. }, _)));
    assert_eq!(vm.frames.len(), 3);
    let step = vm.run_frame(&mut heap, frame);
    let (error, message) = host.error(&mut vm, &mut heap, step);
    assert_eq!(error, vm.ctx.exceptions.recursion_error);
    assert_eq!(message, "maximum recursion depth exceeded ");
    assert_eq!(vm.frames.len(), 3);
    let error = vm.check_recursive_call(&mut heap, "in comparison").err().unwrap();
    assert_eq!(message_of(&heap, error), "maximum recursion depth exceeded in comparison");
}

#[test]
fn exit_functions_run_in_reverse() {
    let (mut vm, mut heap, mut host) = started();
    let fails = host.function(&mut heap, raises_value_error);
    let exits = host.function(&mut heap, raises_exit);
    let works = host.function(&mut heap, forty_two);
    let registered = |func: PyObjectRef| AtexitFunc { func, args: PyFuncArgs::positional(vec![]) };
    let mut funcs = vec![registered(exits), registered(works), registered(fails)];
    host.log.clear();
    let step = vm.run_atexit_funcs(&mut heap, &mut funcs);
    let (error, message) = host.error(&mut vm, &mut heap, step);
    assert_eq!(error, vm.ctx.exceptions.system_exit);
    assert_eq!(message, "exit");
    assert!(funcs.is_empty());
    assert_eq!(
        host.log,
        vec![
            format!("call {}", fails.id),
            "report bad value".to_owned(),
            format!("call {}", works.id),
            format!("call {}", exits.id),
        ]
    );
    let mut funcs = vec![registered(works)];
    let step = vm.run_atexit_funcs(&mut heap, &mut funcs);
    assert!(matches!(host.run(&mut vm, &mut heap, step), Ok(Value::Unit)));
}

#[test]
fn exceptions_are_a_stack() {
    let (mut vm, mut heap, _) = started();
    let a = vm.new_exception_empty(&mut heap, vm.ctx.exceptions.key_error);
    let b = vm.new_key_error(&mut heap, a);
    assert_eq!(vm.current_exception(), None);
    vm.push_exception(a);
    vm.push_exception(b);
    assert_eq!(vm.current_exception(), Some(b));
    assert_eq!(vm.pop_exception(), Some(b));
    assert_eq!(vm.pop_exception(), Some(a));
    assert_eq!(vm.pop_exception(), None);
    assert!(matches!(&heap.objects[b.id].payload, Payload::Exception(args) if *args == vec![a]));
}

#[test]
fn exceptions_have_their_types() {
    let (vm, mut heap, _) = started();
    let x = vm.ctx.exceptions;
    let msg = || "m".to_owned();
    let made = vec![
        (vm.new_lookup_error(&mut heap, msg()), x.lookup_error, "LookupError"),
        (vm.new_attribute_error(&mut heap, msg()), x.attribute_error, "AttributeError"),
        (vm.new_type_error(&mut heap, msg()), x.type_error, "TypeError"),
        (vm.new_name_error(&mut heap, msg()), x.name_error, "NameError"),
        (vm.new_os_error(&mut heap, msg()), x.os_error, "OSError"),
        (vm.new_unicode_decode_error(&mut heap, msg()), x.unicode_decode_error, "UnicodeDecodeError"),
        (vm.new_unicode_encode_error(&mut heap, msg()), x.unicode_encode_error, "UnicodeEncodeError"),
        (vm.new_value_error(&mut heap, msg()), x.value_error, "ValueError"),
        (vm.new_index_error(&mut heap, msg()), x.index_error, "IndexError"),
        (vm.new_not_implemented_error(&mut heap, msg()), x.not_implemented_error, "NotImplementedError"),
        (vm.new_recursion_error(&mut heap, msg()), x.recursion_error, "RecursionError"),
        (vm.new_zero_division_error(&mut heap, msg()), x.zero_division_error, "ZeroDivisionError"),
        (vm.new_overflow_error(&mut heap, msg()), x.overflow_error, "OverflowError"),
        (vm.new_runtime_error(&mut heap, msg()), x.runtime_error, "RuntimeError"),
    ];
    for (exc, class, name) in made {
        assert_eq!(heap.class_of(exc), class);
        assert_eq!(heap.class_name(exc), name);
        assert_eq!(message_of(&heap, exc), "m");
        assert!(heap.is_subclass(class, vm.ctx.types.object_type));
        assert!(heap.objects[exc.id].dict.is_some());
    }
    let a = vm.ctx.new_int(&mut heap, 1);
    let exc = vm.new_unsupported_operand_error(&mut heap, a, vm.ctx.none, "+");
    assert_eq!(message_of(&heap, exc), "Unsupported operand types for '+': 'int' and 'NoneType'");
}

fn syntax_fault(statement: Option<&str>, indentation: bool, tab: bool) -> CompileError {
    CompileError {
        is_indentation_error: indentation,
        is_tab_error: tab,
        message: "bad syntax".to_owned(),
        row: 3,
        column: 14,
        statement: statement.map(|s| s.to_owned()),
        source_path: "a.py".to_owned(),
    }
}

#[test]
fn syntax_errors_say_where() {
    let (mut vm, mut heap, mut host) = started();
    let x = vm.ctx.exceptions;
    let cases = [
        (syntax_fault(Some("1 +"), false, false), x.syntax_error),
        (syntax_fault(None, true, false), x.indentation_error),
        (syntax_fault(None, false, true), x.tab_error),
    ];
    for (error, class) in cases {
        let step = vm.new_syntax_error(&mut heap, &error);
        let exc = host.object(&mut vm, &mut heap, step);
        assert_eq!(heap.class_of(exc), class);
        assert_eq!(message_of(&heap, exc), "bad syntax");
        let attr = |name: &str| host.attr_of(&heap, exc, name);
        assert_eq!(int_of(&heap, attr("lineno").unwrap()), Some(3));
        assert_eq!(int_of(&heap, attr("offset").unwrap()), Some(14));
        assert_eq!(text_of(&heap, attr("filename").unwrap()), "a.py");
        assert_eq!(attr("text").map(|t| text_of(&heap, t)), error.statement);
    }
}

#[test]
fn attribute_that_cannot_be_set_panics() {
    let (mut vm, mut heap, mut host) = started();
    host.method(&mut heap, vm.ctx.types.object_type, "__setattr__", raises_value_error);
    let step = vm.new_import_error(&mut heap, "m".to_owned(), &"n".to_owned());
    let reason = panic_of(&mut host, &mut vm, &mut heap, step);
    assert!(matches!(reason, PanicReason::AttributeNotSet(_)));
}

#[test]
fn compile_errors_get_their_statement() {
    let (vm, mut heap, _) = started();
    let source = "x = (\u{2003}\t\r\n ";
    let request = vm.compile(source, Mode::Exec, "a.py".to_owned());
    assert_eq!(request.source, source);
    assert_eq!(request.mode, Mode::Exec);
    assert_eq!(request.source_path, "a.py");
    assert_eq!(request.opts, vm.compile_opts());
    let error = vm.compiled(&mut heap, source, Err(syntax_fault(None, false, true))).err().unwrap();
    assert_eq!(error.statement, Some("x = (".to_owned()));
    assert_eq!(error.row, 3);
    assert!(error.is_tab_error);
    let code = vm.compiled(&mut heap, source, Ok(5)).ok().unwrap();
    assert_eq!(heap.class_of(code), vm.ctx.types.code_type);
    assert!(matches!(heap.objects[code.id].payload, Payload::Native(5)));
}

#[test]
fn white_space_is_trimmed_as_documented() {
    let (vm, mut heap, _) = started();
    let mut trimmed = 0;
    for n in 0..0x11_0000u32 {
        if let Some(c) = char::from_u32(n) {
            if n > 0x3100 && n % 257 != 0 {
                continue;
            }
            let source = format!("a{}", c);
            let error = vm.compiled(&mut heap, &source, Err(syntax_fault(None, false, false)));
            if error.err().unwrap().statement.unwrap() == "a" {
                trimmed += 1;
                assert!(matches!(n, 0x9..=0xd | 0x20 | 0x85 | 0xa0 | 0x1680 | 0x2000..=0x200a
                    | 0x2028 | 0x2029 | 0x202f | 0x205f | 0x3000));
            }
        }
    }
    assert_eq!(trimmed, 25);
}

#[test]
fn guards_are_held_until_released() {
    let (mut vm, mut heap, _) = started();
    let a = vm.ctx.new_int(&mut heap, 1);
    let b = vm.ctx.new_int(&mut heap, 1);
    let guard = ReprGuard::enter(&mut vm, a).unwrap();
    assert!(ReprGuard::enter(&mut vm, a).is_none());
    let other = ReprGuard::enter(&mut vm, b).unwrap();
    guard.release(&mut vm);
    assert!(ReprGuard::enter(&mut vm, b).is_none());
    other.release(&mut vm);
    assert!(vm.repr_guards.is_empty());
    assert!(ReprGuard::enter(&mut vm, a).is_some());
}

#[test]
fn threads_find_their_machine() {
    let mut stack = VmStack::new();
    assert_eq!(stack.with_vm(|_| true), None);
    stack.enter_vm(10);
    assert_eq!(stack.with_vm(|_| false), Some(10));
    stack.enter_vm(20);
    stack.enter_vm(30);
    assert_eq!(stack.with_vm(|vm| vm > 10), Some(20));
    assert_eq!(stack.with_vm(|_| false), None);
    assert_eq!(stack.leave_vm(), Some(30));
    assert_eq!(stack.vms, vec![10, 20]);
    assert_eq!(stack.leave_vm(), Some(20));
    assert_eq!(stack.leave_vm(), Some(10));
    assert_eq!(stack.leave_vm(), None);
    let (vm, mut heap, _) = started();
    let obj = vm.ctx.new_int(&mut heap, 1);
    assert!(vm.owns(&heap, obj));
    let odd = heap.new_object(vm.ctx.types.type_type, None, Payload::Opaque);
    let stray = heap.new_object(odd, None, Payload::Opaque);
    assert!(!vm.owns(&heap, stray));
}

#[test]
fn failures_say_what_to_do() {
    let (vm, _, _) = started();
    let above = "oh; exception backtrace above".to_owned();
    let rerun = "oh; run with RUST_BACKTRACE=1 to see Python backtrace".to_owned();
    assert_eq!(vm._py_panic_failed("oh", &None), (false, rerun.clone()));
    assert_eq!(vm._py_panic_failed("oh", &Some("0".to_owned())), (false, rerun));
    assert_eq!(vm._py_panic_failed("oh", &Some("1".to_owned())), (true, above.clone()));
    let build = BuildInfo { has_signals: false, has_system: false, ..BuildInfo::bare() };
    let (vm, _, _, _) = VirtualMachine::new(PySettings::default(), build, None);
    assert_eq!(vm._py_panic_failed("oh", &None), (true, above));
    assert_eq!(vm.unwrap_pyresult(Ok(3)), 3);
    assert_eq!(vm.expect_pyresult(Ok("x"), "there is one"), "x");
}

#[test]
fn scopes_and_signals_are_up_to_the_host() {
    let (mut vm, mut heap, mut host) = started();
    let before = heap.objects.len();
    let step = vm.new_scope_with_builtins(&mut heap);
    match host.run(&mut vm, &mut heap, step) {
        Ok(Value::Scope(scope)) => assert_eq!(scope.globals, PyObjectRef { id: before }),
        _ => panic!("no scope"),
    }
    let step = vm.check_signals();
    assert!(matches!(host.run(&mut vm, &mut heap, step), Ok(Value::Unit)));
}

#[test]
fn reply_that_does_not_fit_panics() {
    let (mut vm, mut heap, mut host) = started();
    let func = host.function(&mut heap, forty_two);
    let step = vm.invoke(&mut heap, func, PyFuncArgs::positional(vec![]));
    match step {
        Step::Ask(Request::CallSlot { .. }, suspended) => {
            let step = vm.resume(&mut heap, suspended, Ok(Value::Hash(1)));
            assert!(matches!(step, Step::Panic(PanicReason::UnexpectedReply)));
        }
        _ => panic!("no call"),
    }
    let nothing = Suspended { konts: vec![] };
    let step = vm.resume(&mut heap, nothing, Ok(Value::Unit));
    assert!(matches!(step, Step::Done(Ok(Value::Unit))));
}

#[test]
fn replies_reach_the_innermost_operation_first() {
    let (mut vm, mut heap, mut host) = started();
    let class = plain_class(&vm, &mut heap, "C");
    host.method(&mut heap, class, "__sub__", returns_last);
    let a = instance(&vm, &mut heap, class);
    let before = heap.objects.len();
    let step = vm._sub(&mut heap, a, a);
    let (request, suspended) = match step {
        Step::Ask(request, suspended) => (request, suspended),
        _ => panic!("nothing is asked"),
    };
    assert!(matches!(request, Request::DescrGet { .. }));
    let bound = host.reply(&mut vm, &mut heap, request);
    let step = vm.resume(&mut heap, suspended, bound);
    match step {
        Step::Ask(Request::CallSlot { slot, .. }, suspended) => {
            assert_eq!(slot.id, CALL_BOUND);
            assert_eq!(suspended.konts.len(), 2);
        }
        _ => panic!("no call"),
    }
    assert!(heap.objects.len() >= before);
    assert_eq!(heap.class_of(a), class);
}

/// A machine for a target, initialized, and what its host was asked.
fn started_for(has_signals: bool, has_system: bool) -> (VirtualMachine, Heap, Host) {
    let build = BuildInfo { has_signals, has_system, ..BuildInfo::bare() };
    let Interpreter { mut vm, mut heap, boot, .. } = Interpreter::default(build);
    let mut host = Host::new(&vm, &mut heap);
    assert!(matches!(host.run(&mut vm, &mut heap, boot), Ok(Value::Unit)));
    assert!(vm.initialized);
    (vm, heap, host)
}

#[test]
fn what_a_target_lacks_is_left_out() {
    let (vm, _, host) = started_for(false, true);
    assert!(!host.log.iter().any(|l| l == "builtin _signal"));
    assert!(host.log.iter().any(|l| l == "open 2 w"));
    assert!(matches!(vm.check_signals(), Step::Done(Ok(Value::Unit))));
    let (vm, heap, host) = started_for(false, false);
    assert_eq!(
        host.log,
        vec!["module builtins", "module sys", "make Builtins", "make Sys", "importlib external"]
    );
    assert!(host.attr_of(&heap, vm.sys_module, "stdin").is_none());
    assert!(matches!(vm.check_signals(), Step::Done(Ok(Value::Unit))));
    let (vm, _, _) = started();
    assert!(matches!(vm.check_signals(), Step::Ask(Request::CheckSignals, _)));
}

#[test]
fn inplace_operators_come_to_the_same() {
    let (mut vm, mut heap, mut host) = started();
    let a = vm.ctx.new_int(&mut heap, 5);
    let b = vm.ctx.new_int(&mut heap, 6);
    let text = vm.ctx.new_str(&mut heap, "x".to_owned());
    for (right, sum) in [(b, Some(11)), (text, None)] {
        let step = vm._add(&mut heap, a, right);
        let plain = host.run(&mut vm, &mut heap, step);
        let step = vm._iadd(&mut heap, a, right);
        let inplace = host.run(&mut vm, &mut heap, step);
        match (plain, inplace) {
            (Ok(Value::Object(x)), Ok(Value::Object(y))) => {
                assert_eq!(int_of(&heap, x), sum);
                assert_eq!(int_of(&heap, y), sum);
            }
            (Err(x), Err(y)) => {
                assert_eq!(
                    message_of(&heap, x),
                    "Unsupported operand types for '+': 'int' and 'str'"
                );
                assert_eq!(
                    message_of(&heap, y),
                    "Unsupported operand types for '+=': 'int' and 'str'"
                );
            }
            _ => panic!("they differ"),
        }
    }
}

#[test]
fn machines_are_isolated() {
    let (mut first, mut heap, mut host) = started();
    let (second, other_heap, _) = started();
    let before = other_heap.objects.len();
    let exc = first.new_runtime_error(&mut heap, "m".to_owned());
    first.push_exception(exc);
    first.recursion_limit = 7;
    let frame = frame_of(&first, &mut heap);
    let step = first.run_frame(&mut heap, frame);
    assert_eq!(first.frames.len(), 1);
    first.state.thread_count.store(3);
    assert!(host.run(&mut first, &mut heap, step).is_ok());
    assert!(second.frames.is_empty() && second.exceptions.is_empty());
    assert_eq!(second.recursion_limit, 512);
    assert_eq!(second.state.thread_count.load(), 0);
    assert!(!Arc::ptr_eq(&first.state, &second.state));
    assert_eq!(other_heap.objects.len(), before);
}

#[test]
fn membership_goes_by_equality_alone() {
    let (mut vm, mut heap, mut host) = started();
    let class = new_class(
        &vm,
        &mut heap,
        "Unequal",
        vm.ctx.types.int_type,
        PyTypeSlots { compare: Some(SlotFunc { id: COMPARE_INT }), ..slots() },
    );
    let obj = instance(&vm, &mut heap, class);
    let tuple = vm.ctx.new_tuple(&mut heap, vec![obj]);
    let step = vm._membership(&mut heap, tuple, obj);
    assert_eq!(host.object(&mut vm, &mut heap, step), vm.ctx.true_value);
    if let Payload::Type(t) = &mut heap.objects[class.id].payload {
        t.slots.compare = Some(SlotFunc { id: COMPARE_FALSE });
    }
    let step = vm._membership(&mut heap, tuple, obj);
    assert_eq!(host.object(&mut vm, &mut heap, step), vm.ctx.false_value);
}

#[test]
fn inplace_method_that_declines_falls_back() {
    let (mut vm, mut heap, mut host) = started();
    host.method(&mut heap, vm.ctx.types.int_type, "__iadd__", not_implemented);
    let a = vm.ctx.new_int(&mut heap, 5);
    let b = vm.ctx.new_int(&mut heap, 6);
    let text = vm.ctx.new_str(&mut heap, "x".to_owned());
    let step = vm._iadd(&mut heap, a, b);
    let sum = host.object(&mut vm, &mut heap, step);
    assert_eq!(int_of(&heap, sum), Some(11));
    assert_eq!(host.log.last().unwrap(), &format!("declined {} {}", a.id, b.id));
    let step = vm._iadd(&mut heap, a, text);
    let (error, message) = host.error(&mut vm, &mut heap, step);
    assert_eq!(error, vm.ctx.exceptions.type_error);
    assert_eq!(message, "Unsupported operand types for '+=': 'int' and 'str'");
}

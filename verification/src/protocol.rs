//! What the machine and its host say to each other.
//!
//! The machine decides; the host runs the code behind type slots and keeps what
//! the machine does not. An operation of the machine ends with a `Step`: it is
//! done, or it asks the host for something, together with the continuations
//! that take the host's reply.
use crate::object::{
    attributes_view, FrameRef, PyBaseExceptionRef, PyDictRef, PyObjectRef, PyStrRef, Scope,
    SlotFunc, SlotKind,
};
use crate::settings::InitParameter;
use vstd::prelude::*;

verus! {

/// The arguments of a call.
pub struct PyFuncArgs {
    pub args: Vec<PyObjectRef>,
    pub kwargs: Vec<(String, PyObjectRef)>,
}

/// The arguments of a call, as a value.
pub ghost struct FuncArgsView {
    pub args: Seq<PyObjectRef>,
    pub kwargs: Seq<(Seq<char>, PyObjectRef)>,
}

impl View for PyFuncArgs {
    type V = FuncArgsView;

    open spec fn view(&self) -> FuncArgsView {
        FuncArgsView { args: self.args@, kwargs: attributes_view(self.kwargs@) }
    }
}

/// Arguments without keywords.
pub open spec fn positional(args: Seq<PyObjectRef>) -> FuncArgsView {
    FuncArgsView { args, kwargs: Seq::empty() }
}

impl PyFuncArgs {
    /// Arguments without keywords.
    pub fn positional(args: Vec<PyObjectRef>) -> (func_args: PyFuncArgs)
        ensures
            func_args@ == positional(args@),
    {
        let func_args = PyFuncArgs { args, kwargs: Vec::new() };
        assert(func_args@.kwargs =~= Seq::empty());
        func_args
    }
}

/// Trace events for sys.settrace and sys.setprofile.
#[derive(Clone, Copy, PartialEq, Eq, Structural, Debug)]
pub enum TraceEvent {
    Call,
    Return,
}

impl TraceEvent {
    pub open spec fn text(self) -> Seq<char> {
        match self {
            TraceEvent::Call => "call"@,
            TraceEvent::Return => "return"@,
        }
    }

    /// The name under which a trace function gets the event.
    pub fn to_text(&self) -> (text: String)
        ensures
            text@ == self.text(),
    {
        match self {
            TraceEvent::Call => "call".to_owned(),
            TraceEvent::Return => "return".to_owned(),
        }
    }
}

/// The rich comparison operators.
#[derive(Clone, Copy, PartialEq, Eq, Structural, Debug)]
pub enum PyComparisonOp {
    Lt,
    Gt,
    Ne,
    Eq,
    Le,
    Ge,
}

impl PyComparisonOp {
    pub open spec fn spec_swapped(self) -> PyComparisonOp {
        match self {
            PyComparisonOp::Lt => PyComparisonOp::Gt,
            PyComparisonOp::Gt => PyComparisonOp::Lt,
            PyComparisonOp::Ne => PyComparisonOp::Ne,
            PyComparisonOp::Eq => PyComparisonOp::Eq,
            PyComparisonOp::Le => PyComparisonOp::Ge,
            PyComparisonOp::Ge => PyComparisonOp::Le,
        }
    }

    /// The operator that says the same with its operands exchanged.
    pub fn swapped(self) -> (op: PyComparisonOp)
        ensures
            op == self.spec_swapped(),
    {
        match self {
            PyComparisonOp::Lt => PyComparisonOp::Gt,
            PyComparisonOp::Gt => PyComparisonOp::Lt,
            PyComparisonOp::Ne => PyComparisonOp::Ne,
            PyComparisonOp::Eq => PyComparisonOp::Eq,
            PyComparisonOp::Le => PyComparisonOp::Ge,
            PyComparisonOp::Ge => PyComparisonOp::Le,
        }
    }

    pub open spec fn token(self) -> Seq<char> {
        match self {
            PyComparisonOp::Lt => "<"@,
            PyComparisonOp::Gt => ">"@,
            PyComparisonOp::Ne => "!="@,
            PyComparisonOp::Eq => "=="@,
            PyComparisonOp::Le => "<="@,
            PyComparisonOp::Ge => ">="@,
        }
    }

    /// The operator as it is written.
    pub fn operator_token(self) -> (token: String)
        ensures
            token@ == self.token(),
    {
        match self {
            PyComparisonOp::Lt => "<".to_owned(),
            PyComparisonOp::Gt => ">".to_owned(),
            PyComparisonOp::Ne => "!=".to_owned(),
            PyComparisonOp::Eq => "==".to_owned(),
            PyComparisonOp::Le => "<=".to_owned(),
            PyComparisonOp::Ge => ">=".to_owned(),
        }
    }
}

/// What a Python object is to be converted to.
#[derive(Clone, Copy, PartialEq, Eq, Structural, Debug)]
pub enum Conversion {
    Str,
    Int,
    /// A conversion that the host knows by a number.
    Custom(u64),
}

/// What runs inside a frame.
#[derive(Clone, Copy, PartialEq, Eq, Structural, Debug)]
pub enum FrameBody {
    /// The code of the frame.
    Code,
    /// A function that the host knows by a number.
    Custom(u64),
}

/// The two modules that exist before anything can be imported.
#[derive(Clone, Copy, PartialEq, Eq, Structural, Debug)]
pub enum CoreModule {
    Builtins,
    Sys,
}

/// The standard streams of `sys`.
#[derive(Clone, Copy, PartialEq, Eq, Structural, Debug)]
pub enum StdStream {
    Stdin,
    Stdout,
    Stderr,
}

/// What an operation yields, and what the host replies. `S` stands for text and
/// `L` for a list of objects.
pub enum Value<S, L> {
    Unit,
    Object(PyObjectRef),
    /// There is no such object; of a comparison, that it is not implemented.
    Missing,
    Bool(bool),
    Hash(i64),
    Text(S),
    Elements(L),
    /// The code of a frame returned.
    Returned(PyObjectRef),
    /// The code of a frame yielded.
    Yielded(PyObjectRef),
    Scope(Scope),
}

pub type PyValue = Value<String, Vec<PyObjectRef>>;

pub type ValueView = Value<Seq<char>, Seq<PyObjectRef>>;

/// A value, or the exception that was raised.
pub type Outcome = Result<PyValue, PyBaseExceptionRef>;

pub type OutcomeView = Result<ValueView, PyBaseExceptionRef>;

impl View for Value<String, Vec<PyObjectRef>> {
    type V = ValueView;

    open spec fn view(&self) -> ValueView {
        match *self {
            Value::Unit => Value::Unit,
            Value::Object(o) => Value::Object(o),
            Value::Missing => Value::Missing,
            Value::Bool(b) => Value::Bool(b),
            Value::Hash(h) => Value::Hash(h),
            Value::Text(s) => Value::Text(s@),
            Value::Elements(v) => Value::Elements(v@),
            Value::Returned(o) => Value::Returned(o),
            Value::Yielded(o) => Value::Yielded(o),
            Value::Scope(s) => Value::Scope(s),
        }
    }
}

pub open spec fn outcome_view(o: Outcome) -> OutcomeView {
    match o {
        Ok(v) => Ok(v@),
        Err(e) => Err(e),
    }
}

/// What the machine asks the host to do. `S` stands for text and `P` for the
/// arguments of a call. Behind each request stands the reply that it expects;
/// where it can raise, the reply can also be an exception.
pub enum Request<S, P> {
    /// Run a call slot: an object.
    CallSlot { slot: SlotFunc, callable: PyObjectRef, args: P },
    /// Run a `__get__` slot: an object.
    DescrGet {
        slot: SlotFunc,
        descr: PyObjectRef,
        obj: Option<PyObjectRef>,
        cls: Option<PyObjectRef>,
    },
    /// Run an attribute access slot: an object.
    GetAttr { slot: SlotFunc, obj: PyObjectRef, name: PyStrRef },
    /// Run a rich comparison slot: an object, a bool, or missing where the
    /// slot does not implement the comparison.
    Compare { slot: SlotFunc, obj: PyObjectRef, other: PyObjectRef, op: PyComparisonOp },
    /// Run a hash slot: a hash.
    Hash { slot: SlotFunc, obj: PyObjectRef },
    /// The truth value of an object: a bool.
    Truth { obj: PyObjectRef },
    /// Convert an object: an object.
    Convert { obj: PyObjectRef, to: Conversion },
    /// Look a key up in a dictionary: an object, or missing.
    DictGet { dict: PyDictRef, key: S },
    /// Subscript an object with a string: an object.
    GetItem { obj: PyObjectRef, key: S },
    /// Make an iterator: an object.
    GetIter { obj: PyObjectRef },
    /// Advance an iterator: an object, or missing at its end.
    NextObject { iter: PyObjectRef },
    /// Exhaust an iterator and convert what it yields: elements.
    GetAll { iter: PyObjectRef, to: Conversion },
    /// Escape what is not ASCII: a text.
    Ascii { text: S },
    /// How an object is named in messages: a text.
    Display { obj: PyObjectRef },
    /// Run something inside a frame. Of the frame's own code: returned or
    /// yielded.
    RunFrame { frame: FrameRef, body: FrameBody },
    /// Run a fallback that the host knows by a number: an object.
    Fallback { id: u64, a: PyObjectRef, b: PyObjectRef },
    /// Report an exception that a function run at exit raised: unit.
    ReportAtexitError { exc: PyBaseExceptionRef },
    /// Take the frames of the import machinery out of a traceback: an object,
    /// the exception.
    RemoveImportlibFrames { exc: PyBaseExceptionRef },
    /// Fill one of the core modules: unit.
    MakeModule { kind: CoreModule, module: PyObjectRef, builtins: PyObjectRef },
    /// Import a module that is built in: an object.
    ImportBuiltin { name: S },
    /// Set the import machinery up: unit.
    InitImportlib { init: InitParameter },
    /// Fill the dictionary of a new module: unit.
    InitModuleDict { dict: PyDictRef, name: PyObjectRef, doc: PyObjectRef },
    /// Set an attribute of a module directly: unit.
    SetModuleAttr { module: PyObjectRef, name: PyStrRef, value: PyObjectRef },
    /// Make a scope without locals of its own whose globals have the builtins: a
    /// scope.
    NewScope { globals: PyDictRef },
    /// Run the handlers of signals that have come: unit.
    CheckSignals,
}

pub type HostRequest = Request<String, PyFuncArgs>;

pub type RequestView = Request<Seq<char>, FuncArgsView>;

impl View for Request<String, PyFuncArgs> {
    type V = RequestView;

    open spec fn view(&self) -> RequestView {
        match *self {
            Request::CallSlot { slot, callable, args } => Request::CallSlot {
                slot,
                callable,
                args: args@,
            },
            Request::DescrGet { slot, descr, obj, cls } => Request::DescrGet {
                slot,
                descr,
                obj,
                cls,
            },
            Request::GetAttr { slot, obj, name } => Request::GetAttr { slot, obj, name },
            Request::Compare { slot, obj, other, op } => Request::Compare { slot, obj, other, op },
            Request::Hash { slot, obj } => Request::Hash { slot, obj },
            Request::Truth { obj } => Request::Truth { obj },
            Request::Convert { obj, to } => Request::Convert { obj, to },
            Request::DictGet { dict, key } => Request::DictGet { dict, key: key@ },
            Request::GetItem { obj, key } => Request::GetItem { obj, key: key@ },
            Request::GetIter { obj } => Request::GetIter { obj },
            Request::NextObject { iter } => Request::NextObject { iter },
            Request::GetAll { iter, to } => Request::GetAll { iter, to },
            Request::Ascii { text } => Request::Ascii { text: text@ },
            Request::Display { obj } => Request::Display { obj },
            Request::RunFrame { frame, body } => Request::RunFrame { frame, body },
            Request::Fallback { id, a, b } => Request::Fallback { id, a, b },
            Request::ReportAtexitError { exc } => Request::ReportAtexitError { exc },
            Request::RemoveImportlibFrames { exc } => Request::RemoveImportlibFrames { exc },
            Request::MakeModule { kind, module, builtins } => Request::MakeModule {
                kind,
                module,
                builtins,
            },
            Request::ImportBuiltin { name } => Request::ImportBuiltin { name: name@ },
            Request::InitImportlib { init } => Request::InitImportlib { init },
            Request::InitModuleDict { dict, name, doc } => Request::InitModuleDict {
                dict,
                name,
                doc,
            },
            Request::SetModuleAttr { module, name, value } => Request::SetModuleAttr {
                module,
                name,
                value,
            },
            Request::NewScope { globals } => Request::NewScope { globals },
            Request::CheckSignals => Request::CheckSignals,
        }
    }
}

/// Why the host must panic.
#[derive(Clone, Copy, PartialEq, Eq, Structural, Debug)]
pub enum PanicReason {
    /// The host's reply does not fit the request.
    UnexpectedReply,
    /// No class of an object fills a slot that every object has.
    MissingSlot(SlotKind),
    /// A machine that is initialized was to be initialized again.
    DoubleInitialize,
    /// The initialization raised.
    InitializationFailed(PyBaseExceptionRef),
    /// An attribute of a new exception could not be set.
    AttributeNotSet(PyBaseExceptionRef),
    /// A frame that had to return did something else.
    UnexpectedResult,
    /// An object of a built-in type lacks the value that the type has.
    NoPayload(PyObjectRef),
    /// What was asked for as a class is none.
    NotAClass(PyObjectRef),
    /// A module that had to be there could not be imported.
    UnableToImport(PyBaseExceptionRef),
    /// A module lacks a class that had to be there.
    NoSuchClass(PyObjectRef, PyBaseExceptionRef),
}

/// One way to evaluate an operator: call `method` of `receiver` with `arg`.
pub struct Attempt<S> {
    pub receiver: PyObjectRef,
    pub arg: PyObjectRef,
    pub method: S,
}

impl View for Attempt<String> {
    type V = Attempt<Seq<char>>;

    open spec fn view(&self) -> Attempt<Seq<char>> {
        Attempt { receiver: self.receiver, arg: self.arg, method: self.method@ }
    }
}

pub open spec fn attempts_view(s: Seq<Attempt<String>>) -> Seq<Attempt<Seq<char>>> {
    s.map_values(|a: Attempt<String>| a@)
}

/// What an operator comes to when no attempt is implemented.
pub enum Fallback<S> {
    /// A TypeError that names the operator and the types of the operands.
    OperandError(S),
    /// What a function yields that the host knows by a number.
    Custom(u64),
}

impl View for Fallback<String> {
    type V = Fallback<Seq<char>>;

    open spec fn view(&self) -> Fallback<Seq<char>> {
        match *self {
            Fallback::OperandError(op) => Fallback::OperandError(op@),
            Fallback::Custom(id) => Fallback::Custom(id),
        }
    }
}

/// A fallback with the operands that it is for.
pub struct Unsupported<S> {
    pub a: PyObjectRef,
    pub b: PyObjectRef,
    pub fallback: Fallback<S>,
}

impl View for Unsupported<String> {
    type V = Unsupported<Seq<char>>;

    open spec fn view(&self) -> Unsupported<Seq<char>> {
        Unsupported { a: self.a, b: self.b, fallback: self.fallback@ }
    }
}

/// A function to run at exit, with its arguments.
pub struct AtexitFunc<P> {
    pub func: PyObjectRef,
    pub args: P,
}

impl View for AtexitFunc<PyFuncArgs> {
    type V = AtexitFunc<FuncArgsView>;

    open spec fn view(&self) -> AtexitFunc<FuncArgsView> {
        AtexitFunc { func: self.func, args: self.args@ }
    }
}

pub open spec fn atexit_view(s: Seq<AtexitFunc<PyFuncArgs>>) -> Seq<AtexitFunc<FuncArgsView>> {
    s.map_values(|f: AtexitFunc<PyFuncArgs>| f@)
}

} // verus!

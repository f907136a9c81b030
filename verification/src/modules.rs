//! Imports, classes of modules, codecs, and the exceptions that carry
//! attributes.
use crate::attributes::{getattr_next, setattr_next};
use crate::calls::{invoke_next, method_bound};
use crate::compile::CompileError;
use crate::context::{int_object, str_object, tuple_object, PyContext};
use crate::errors::message_made;
use crate::machine::{
    asks, next, panics, raises, waits, world, yields, CallKont, Kont, ModuleKont, Next, Step,
    StepView, VirtualMachine, World,
};
use crate::object::{
    is_class, next_ref, Heap, ObjectView, Payload, PayloadView, PyBaseExceptionRef, PyDictRef,
    PyObjectRef, PyStrRef, PyTypeRef,
};
use crate::protocol::{
    outcome_view, positional, Outcome, OutcomeView, PanicReason, PyFuncArgs, Request, Value,
};
use vstd::prelude::*;
use vstd::string::*;

verus! {

/// The references to `n` objects that are made one after the other.
pub open spec fn refs_from(h: Seq<ObjectView>, n: nat) -> Seq<PyObjectRef> {
    Seq::new(n, |i: int| PyObjectRef { id: (h.len() + i) as usize })
}

/// The state with more objects.
pub open spec fn with_objects(w: World, objects: Seq<ObjectView>) -> World {
    World { vm: w.vm, heap: w.heap + objects }
}

/// The state with one more string.
pub open spec fn with_str(w: World, text: Seq<char>) -> World {
    World { vm: w.vm, heap: w.heap.push(str_object(w.vm.ctx, text)) }
}

/// Strings for texts.
pub open spec fn str_objects(ctx: PyContext, texts: Seq<Seq<char>>) -> Seq<ObjectView> {
    texts.map_values(|t: Seq<char>| str_object(ctx, t))
}

/// Access to an attribute whose name becomes a string first.
pub open spec fn getattr_text_next(w: World, obj: PyObjectRef, name: Seq<char>) -> Next {
    getattr_next(with_str(w, name), obj, next_ref(w.heap))
}

/// Sets attributes of a new exception, one after the other.
pub open spec fn setattrs_next(
    w: World,
    exc: PyBaseExceptionRef,
    names: Seq<PyStrRef>,
    values: Seq<PyObjectRef>,
) -> Next
    decreases names.len(), 0int,
{
    if names.len() == 0 || values.len() == 0 {
        yields(w, Value::Object(exc))
    } else {
        let n = setattr_next(w, exc, names[0], values[0]);
        match n.step {
            StepView::Done(o) => attr_set(
                n.world,
                exc,
                names.drop_first(),
                values.drop_first(),
                o,
            ),
            _ => waits(
                n,
                Kont::Module(
                    ModuleKont::SetAttrs {
                        exc,
                        names: names.drop_first(),
                        values: values.drop_first(),
                    },
                ),
            ),
        }
    }
}

/// One attribute was set; that must not have raised.
pub open spec fn attr_set(
    w: World,
    exc: PyBaseExceptionRef,
    names: Seq<PyStrRef>,
    values: Seq<PyObjectRef>,
    o: OutcomeView,
) -> Next
    decreases names.len(), 1int,
{
    match o {
        Ok(_) => setattrs_next(w, exc, names, values),
        Err(e) => panics(w, PanicReason::AttributeNotSet(e)),
    }
}

/// A new exception with a message and with attributes: `objects` are their
/// values, `names` their names.
pub open spec fn attributed_next(
    w: World,
    exc_type: PyTypeRef,
    msg: Seq<char>,
    objects: Seq<ObjectView>,
    names: Seq<Seq<char>>,
) -> Next {
    let made = message_made(w.vm.ctx, w.heap, exc_type, msg);
    let w1 = World { vm: w.vm, heap: made.0 };
    let w2 = with_objects(w1, objects);
    let w3 = with_objects(w2, str_objects(w.vm.ctx, names));
    setattrs_next(w3, made.1, refs_from(w2.heap, names.len()), refs_from(w1.heap, objects.len()))
}

/// A new ImportError with the attribute `name`.
pub open spec fn import_error_next(w: World, msg: Seq<char>, name: Seq<char>) -> Next {
    attributed_next(
        w,
        w.vm.ctx.exceptions.import_error,
        msg,
        seq![str_object(w.vm.ctx, name)],
        seq!["name"@],
    )
}

/// The type of the exception for a compile error.
pub open spec fn syntax_error_type(ctx: PyContext, error: CompileError) -> PyTypeRef {
    if error.is_indentation_error {
        ctx.exceptions.indentation_error
    } else if error.is_tab_error {
        ctx.exceptions.tab_error
    } else {
        ctx.exceptions.syntax_error
    }
}

/// The values of the attributes of a SyntaxError.
pub open spec fn syntax_error_values(ctx: PyContext, error: CompileError) -> Seq<ObjectView> {
    let place = seq![int_object(ctx, error.row as i128), int_object(ctx, error.column as i128)];
    let path = str_object(ctx, error.source_path@);
    match error.statement {
        Some(statement) => place + seq![str_object(ctx, statement@), path],
        None => place + seq![path],
    }
}

/// The names of the attributes of a SyntaxError.
pub open spec fn syntax_error_names(error: CompileError) -> Seq<Seq<char>> {
    if error.statement is Some {
        seq!["lineno"@, "offset"@, "text"@, "filename"@]
    } else {
        seq!["lineno"@, "offset"@, "filename"@]
    }
}

/// A new SyntaxError, IndentationError or TabError that says where the error is.
pub open spec fn syntax_error_next(w: World, error: CompileError) -> Next {
    attributed_next(
        w,
        syntax_error_type(w.vm.ctx, error),
        error.message@,
        syntax_error_values(w.vm.ctx, error),
        syntax_error_names(error),
    )
}

/// Raises a new ImportError.
#[verifier::opaque]
pub open spec fn raise_import_error(w: World, msg: Seq<char>, name: Seq<char>) -> Next {
    let n = import_error_next(w, msg, name);
    match n.step {
        StepView::Done(o) => raised(n.world, o),
        _ => waits(n, Kont::Module(ModuleKont::Raise)),
    }
}

/// The exception is there: it is raised.
pub open spec fn raised(w: World, o: OutcomeView) -> Next {
    match o {
        Ok(Value::Object(exc)) => raises(w, exc),
        Ok(_) => panics(w, PanicReason::UnexpectedReply),
        Err(e) => raises(w, e),
    }
}

/// Whether an import is more than `import name`.
pub open spec fn is_weird(module: Seq<char>, from_list: Seq<Seq<char>>, level: usize) -> bool {
    module.contains('.') || level != 0 || from_list.len() != 0
}

/// An import: a plain one looks into `sys.modules` first.
#[verifier::opaque]
pub open spec fn import_next(
    w: World,
    module: Seq<char>,
    from_list: Seq<Seq<char>>,
    level: usize,
) -> Next {
    if is_weird(module, from_list, level) {
        import_slowly(w, module, from_list, level)
    } else {
        let n = getattr_text_next(w, w.vm.sys_module, "modules"@);
        match n.step {
            StepView::Done(o) => import_modules(n.world, module, o),
            _ => waits(n, Kont::Module(ModuleKont::ImportModules { module })),
        }
    }
}

/// `sys.modules` is there.
pub open spec fn import_modules(w: World, module: Seq<char>, o: OutcomeView) -> Next {
    match o {
        Ok(Value::Object(modules)) => asks(
            w,
            Request::GetItem { obj: modules, key: module },
            seq![Kont::Module(ModuleKont::ImportCached { module })],
        ),
        Ok(_) => panics(w, PanicReason::UnexpectedReply),
        Err(e) => raises(w, e),
    }
}

/// `sys.modules` was asked: a None in it halts the import, and what is not in it
/// is imported in full.
pub open spec fn import_cached(w: World, module: Seq<char>, o: OutcomeView) -> Next {
    match o {
        Ok(Value::Object(cached)) => if cached == w.vm.ctx.none {
            raise_import_error(
                w,
                "import of "@ + module + " halted; None in sys.modules"@,
                module,
            )
        } else {
            yields(w, Value::Object(cached))
        },
        Ok(_) => panics(w, PanicReason::UnexpectedReply),
        Err(_) => import_slowly(w, module, Seq::empty(), 0),
    }
}

/// The import in full: the names to import become a tuple, and `__import__` is
/// looked up.
#[verifier::opaque]
pub open spec fn import_slowly(
    w: World,
    module: Seq<char>,
    from_list: Seq<Seq<char>>,
    level: usize,
) -> Next {
    let ctx = w.vm.ctx;
    let w1 = with_objects(w, str_objects(ctx, from_list));
    let w2 = World {
        vm: w.vm,
        heap: w1.heap.push(tuple_object(ctx, refs_from(w.heap, from_list.len()))),
    };
    let n = getattr_text_next(w2, w.vm.builtins, "__import__"@);
    match n.step {
        StepView::Done(o) => import_found(n.world, module, next_ref(w1.heap), level, o),
        _ => waits(
            n,
            Kont::Module(ModuleKont::ImportFunc { module, from_list: next_ref(w1.heap), level }),
        ),
    }
}

/// `__import__` was looked up: it is called with the namespaces of the current
/// frame.
#[verifier::opaque]
pub open spec fn import_found(
    w: World,
    module: Seq<char>,
    from_list: PyObjectRef,
    level: usize,
    o: OutcomeView,
) -> Next {
    match o {
        Ok(Value::Object(import_func)) => {
            let none = w.vm.ctx.none;
            let (locals, globals) = if w.vm.frames.len() > 0 {
                (w.vm.frames.last().scope.locals, w.vm.frames.last().scope.globals)
            } else {
                (none, none)
            };
            let w1 = with_str(w, module);
            let w2 = World {
                vm: w.vm,
                heap: w1.heap.push(int_object(w.vm.ctx, level as i128)),
            };
            let args = seq![
                next_ref(w.heap),
                globals,
                locals,
                from_list,
                next_ref(w1.heap),
            ];
            let n = invoke_next(w2, import_func, positional(args));
            match n.step {
                StepView::Done(o) => import_done(n.world, o),
                _ => waits(n, Kont::Module(ModuleKont::ImportDone)),
            }
        },
        Ok(_) => panics(w, PanicReason::UnexpectedReply),
        Err(_) => raise_import_error(w, "__import__ not found"@, module),
    }
}

/// `__import__` has run: the frames of the import machinery are taken out of the
/// traceback of what it raised.
pub open spec fn import_done(w: World, o: OutcomeView) -> Next {
    match o {
        Ok(v) => yields(w, v),
        Err(exc) => asks(
            w,
            Request::RemoveImportlibFrames { exc },
            seq![Kont::Module(ModuleKont::Raise)],
        ),
    }
}

/// A class of a module.
pub open spec fn try_class_next(w: World, module: Seq<char>, class: Seq<char>) -> Next {
    let n = import_next(w, module, Seq::empty(), 0);
    match n.step {
        StepView::Done(o) => class_module(n.world, class, o),
        _ => waits(n, Kont::Module(ModuleKont::ClassModule { class })),
    }
}

/// The module is there.
pub open spec fn class_module(w: World, class: Seq<char>, o: OutcomeView) -> Next {
    match o {
        Ok(Value::Object(module)) => {
            let n = getattr_text_next(w, module, class);
            match n.step {
                StepView::Done(o) => class_found(n.world, o),
                _ => waits(n, Kont::Module(ModuleKont::ClassFound)),
            }
        },
        Ok(_) => panics(w, PanicReason::UnexpectedReply),
        Err(e) => raises(w, e),
    }
}

/// The attribute is there; it must be a class.
pub open spec fn class_found(w: World, o: OutcomeView) -> Next {
    match o {
        Ok(Value::Object(class)) => if is_class(w.heap, class) {
            yields(w, Value::Object(class))
        } else {
            panics(w, PanicReason::NotAClass(class))
        },
        Ok(_) => panics(w, PanicReason::UnexpectedReply),
        Err(e) => raises(w, e),
    }
}

/// A class that must be there.
pub open spec fn class_next(w: World, module: Seq<char>, class: Seq<char>) -> Next {
    let n = import_next(w, module, Seq::empty(), 0);
    match n.step {
        StepView::Done(o) => needed_module(n.world, class, o),
        _ => waits(n, Kont::Module(ModuleKont::NeededModule { class })),
    }
}

/// The module must be there.
pub open spec fn needed_module(w: World, class: Seq<char>, o: OutcomeView) -> Next {
    match o {
        Ok(Value::Object(module)) => {
            let n = getattr_text_next(w, module, class);
            match n.step {
                StepView::Done(o) => needed_class(n.world, module, o),
                _ => waits(n, Kont::Module(ModuleKont::NeededClass { module })),
            }
        },
        Ok(_) => panics(w, PanicReason::UnexpectedReply),
        Err(e) => panics(w, PanicReason::UnableToImport(e)),
    }
}

/// The attribute must be there, and it must be a class.
pub open spec fn needed_class(w: World, module: PyObjectRef, o: OutcomeView) -> Next {
    match o {
        Err(e) => panics(w, PanicReason::NoSuchClass(module, e)),
        Ok(_) => class_found(w, o),
    }
}

/// The arguments of a codec function.
pub open spec fn codec_args(
    ctx: PyContext,
    obj: PyObjectRef,
    encoding: Option<PyStrRef>,
    errors: Option<PyStrRef>,
) -> Seq<PyObjectRef> {
    let args = seq![obj, if encoding is Some { encoding->0 } else { ctx.none }];
    match errors {
        Some(errors) => args.push(errors),
        None => args,
    }
}

/// Calls a function of the codecs module.
pub open spec fn codec_next(w: World, func: Seq<char>, args: Seq<PyObjectRef>) -> Next {
    let n = import_next(w, "_codecs"@, Seq::empty(), 0);
    match n.step {
        StepView::Done(o) => codec_module(n.world, func, args, o),
        _ => waits(n, Kont::Module(ModuleKont::CodecModule { func, args })),
    }
}

/// The codecs module is there.
pub open spec fn codec_module(
    w: World,
    func: Seq<char>,
    args: Seq<PyObjectRef>,
    o: OutcomeView,
) -> Next {
    match o {
        Ok(Value::Object(module)) => {
            let n = getattr_text_next(w, module, func);
            match n.step {
                StepView::Done(o) => method_bound(n.world, positional(args), o),
                _ => waits(n, Kont::Call(CallKont::InvokeWrapped { args: positional(args) })),
            }
        },
        Ok(_) => panics(w, PanicReason::UnexpectedReply),
        Err(e) => raises(w, e),
    }
}

/// A new module: the host fills its dictionary first.
pub open spec fn new_module_next(w: World, name: Seq<char>, dict: PyDictRef) -> Next {
    asks(
        with_str(w, name),
        Request::InitModuleDict { dict, name: next_ref(w.heap), doc: w.vm.ctx.none },
        seq![Kont::Module(ModuleKont::ModuleMade { dict })],
    )
}

/// A module object.
pub open spec fn module_object(ctx: PyContext, dict: PyDictRef) -> ObjectView {
    ObjectView {
        class: ctx.types.module_type,
        dict: Some(dict),
        payload: PayloadView::Opaque,
    }
}

/// The dictionary is filled: the module is made.
pub open spec fn module_made(w: World, dict: PyDictRef, o: OutcomeView) -> Next {
    match o {
        Ok(_) => yields(
            World { vm: w.vm, heap: w.heap.push(module_object(w.vm.ctx, dict)) },
            Value::Object(next_ref(w.heap)),
        ),
        Err(_) => panics(w, PanicReason::UnexpectedReply),
    }
}

/// Texts, as values.
pub open spec fn texts_view(s: Seq<String>) -> Seq<Seq<char>> {
    s.map_values(|t: String| t@)
}

impl VirtualMachine {
    /// Makes strings, one after the other.
    fn new_strs(&self, heap: &mut Heap, texts: &Vec<String>) -> (refs: Vec<PyStrRef>)
        ensures
            final(heap)@ == old(heap)@ + str_objects(self.ctx, texts_view(texts@)),
            refs@ == refs_from(old(heap)@, texts@.len()),
    {
        let ghost start = heap@;
        let ghost objects = str_objects(self.ctx, texts_view(texts@));
        let mut refs: Vec<PyStrRef> = Vec::new();
        let mut i: usize = 0;
        assert(heap@ =~= start + objects.take(0));
        while i < texts.len()
            invariant
                i <= texts.len(),
                objects == str_objects(self.ctx, texts_view(texts@)),
                heap@ == start + objects.take(i as int),
                refs@ == refs_from(start, i as nat),
            decreases texts.len() - i,
        {
            let text = texts[i].clone();
            assert(objects[i as int] == str_object(self.ctx, text@));
            let obj = self.ctx.new_str(heap, text);
            refs.push(obj);
            i = i + 1;
            assert(heap@ =~= start + objects.take(i as int));
            assert(refs@ =~= refs_from(start, i as nat));
        }
        assert(objects.take(i as int) =~= objects);
        refs
    }

    fn getattr_text(&self, heap: &mut Heap, obj: PyObjectRef, name: &str) -> (step: Step)
        ensures
            next(*self, *final(heap), step) == getattr_text_next(
                world(*self, *old(heap)),
                obj,
                name@,
            ),
    {
        let attr_name = self.ctx.new_str(heap, name.to_owned());
        self.get_attribute(heap, obj, attr_name)
    }

    fn setattrs(
        &mut self,
        heap: &mut Heap,
        exc: PyBaseExceptionRef,
        names: Vec<PyStrRef>,
        values: Vec<PyObjectRef>,
    ) -> (step: Step)
        ensures
            next(*final(self), *final(heap), step) == setattrs_next(
                world(*old(self), *old(heap)),
                exc,
                names@,
                values@,
            ),
        decreases names.len(), 0int,
    {
        if names.len() == 0 || values.len() == 0 {
            return Step::object(exc);
        }
        let mut names = names;
        let mut values = values;
        let ghost all_names = names@;
        let ghost all_values = values@;
        let name = names.remove(0);
        let value = values.remove(0);
        assert(names@ =~= all_names.drop_first());
        assert(values@ =~= all_values.drop_first());
        let step = self.set_attr(heap, exc, name, value);
        match step {
            Step::Done(outcome) => self.attr_set(heap, exc, names, values, outcome),
            step => step.beneath(Kont::Module(ModuleKont::SetAttrs { exc, names, values })),
        }
    }

    pub(crate) fn attr_set(
        &mut self,
        heap: &mut Heap,
        exc: PyBaseExceptionRef,
        names: Vec<PyStrRef>,
        values: Vec<PyObjectRef>,
        outcome: Outcome,
    ) -> (step: Step)
        ensures
            next(*final(self), *final(heap), step) == attr_set(
                world(*old(self), *old(heap)),
                exc,
                names@,
                values@,
                outcome_view(outcome),
            ),
        decreases names.len(), 1int,
    {
        match outcome {
            Ok(_) => self.setattrs(heap, exc, names, values),
            Err(e) => Step::Panic(PanicReason::AttributeNotSet(e)),
        }
    }

    /// Create a new ImportError with a message and the name of the module.
    pub fn new_import_error(&mut self, heap: &mut Heap, msg: String, name: &String) -> (step: Step)
        ensures
            next(*final(self), *final(heap), step) == import_error_next(
                world(*old(self), *old(heap)),
                msg@,
                name@,
            ),
    {
        let exc = self.new_exception_msg(heap, self.ctx.exceptions.import_error, msg);
        let ghost h1 = heap@;
        let value = self.ctx.new_str(heap, name.clone());
        let ghost h2 = heap@;
        let attr = self.ctx.new_str(heap, "name".to_owned());
        let mut names: Vec<PyStrRef> = Vec::new();
        names.push(attr);
        let mut values: Vec<PyObjectRef> = Vec::new();
        values.push(value);
        proof {
            let objects = seq![str_object(self.ctx, name@)];
            assert(h2 =~= h1 + objects);
            assert(heap@ =~= h2 + str_objects(self.ctx, seq!["name"@]));
            assert(names@ =~= refs_from(h2, 1));
            assert(values@ =~= refs_from(h1, 1));
        }
        self.setattrs(heap, exc, names, values)
    }

    /// The values of the attributes of a SyntaxError, and their names.
    fn syntax_error_attributes(&self, heap: &mut Heap, error: &CompileError) -> (attributes: (
        Vec<PyObjectRef>,
        Vec<String>,
    ))
        ensures
            final(heap)@ == old(heap)@ + syntax_error_values(self.ctx, *error),
            attributes.0@ == refs_from(
                old(heap)@,
                syntax_error_values(self.ctx, *error).len(),
            ),
            texts_view(attributes.1@) == syntax_error_names(*error),
    {
        let ghost h = heap@;
        let mut values: Vec<PyObjectRef> = Vec::new();
        let mut texts: Vec<String> = Vec::new();
        values.push(self.ctx.new_int(heap, error.row as i128));
        texts.push("lineno".to_owned());
        values.push(self.ctx.new_int(heap, error.column as i128));
        texts.push("offset".to_owned());
        if let Some(statement) = &error.statement {
            values.push(self.ctx.new_str(heap, statement.clone()));
            texts.push("text".to_owned());
        }
        values.push(self.ctx.new_str(heap, error.source_path.clone()));
        texts.push("filename".to_owned());
        assert(heap@ =~= h + syntax_error_values(self.ctx, *error));
        assert(values@ =~= refs_from(h, syntax_error_values(self.ctx, *error).len()));
        assert(texts_view(texts@) =~= syntax_error_names(*error));
        (values, texts)
    }

    /// Create the exception for a compile error, with the place of the error.
    pub fn new_syntax_error(&mut self, heap: &mut Heap, error: &CompileError) -> (step: Step)
        ensures
            next(*final(self), *final(heap), step) == syntax_error_next(
                world(*old(self), *old(heap)),
                *error,
            ),
    {
        let exc_type = if error.is_indentation_error {
            self.ctx.exceptions.indentation_error
        } else if error.is_tab_error {
            self.ctx.exceptions.tab_error
        } else {
            self.ctx.exceptions.syntax_error
        };
        let exc = self.new_exception_msg(heap, exc_type, error.message.clone());
        let (values, texts) = self.syntax_error_attributes(heap, error);
        let names = self.new_strs(heap, &texts);
        self.setattrs(heap, exc, names, values)
    }

    fn raise_import_error(&mut self, heap: &mut Heap, msg: String, name: &String) -> (step: Step)
        ensures
            next(*final(self), *final(heap), step) == raise_import_error(
                world(*old(self), *old(heap)),
                msg@,
                name@,
            ),
    {
        reveal(raise_import_error);
        let step = self.new_import_error(heap, msg, name);
        match step {
            Step::Done(outcome) => VirtualMachine::raised(outcome),
            step => step.beneath(Kont::Module(ModuleKont::Raise)),
        }
    }

    pub(crate) fn raised(outcome: Outcome) -> (step: Step)
        ensures
            forall|w: World|
                (Next { world: w, step: step@ }) == #[trigger] raised(w, outcome_view(outcome)),
    {
        match outcome {
            Ok(Value::Object(exc)) => Step::Done(Err(exc)),
            Ok(_) => Step::Panic(PanicReason::UnexpectedReply),
            Err(e) => Step::Done(Err(e)),
        }
    }

    fn has_dot(module: &String) -> (b: bool)
        ensures
            b == module@.contains('.'),
    {
        let text = module.as_str();
        let len: usize = text.unicode_len();
        let mut i: usize = 0;
        while i < len
            invariant
                i <= len,
                len == module@.len(),
                text@ == module@,
                forall|j: int| 0 <= j < i ==> module@[j] != '.',
            decreases len - i,
        {
            if text.get_char(i) == '.' {
                assert(module@[i as int] == '.');
                return true;
            }
            i = i + 1;
        }
        false
    }

    /// Imports a module.
    pub fn import(
        &mut self,
        heap: &mut Heap,
        module: &String,
        from_list: &Vec<String>,
        level: usize,
    ) -> (step: Step)
        ensures
            next(*final(self), *final(heap), step) == import_next(
                world(*old(self), *old(heap)),
                module@,
                texts_view(from_list@),
                level,
            ),
    {
        reveal(import_next);
        // if the import inputs seem weird, e.g a package import or something, rather than just
        // a straight `import ident`
        let weird = VirtualMachine::has_dot(module) || level != 0 || from_list.len() != 0;
        if weird {
            return self.import_slowly(heap, module, from_list, level);
        }
        let step = self.getattr_text(heap, self.sys_module, "modules");
        match step {
            Step::Done(outcome) => VirtualMachine::import_modules(module.clone(), outcome),
            step => step.beneath(
                Kont::Module(ModuleKont::ImportModules { module: module.clone() }),
            ),
        }
    }

    pub(crate) fn import_modules(module: String, outcome: Outcome) -> (step: Step)
        ensures
            forall|w: World|
                (Next { world: w, step: step@ }) == #[trigger] import_modules(
                    w,
                    module@,
                    outcome_view(outcome),
                ),
    {
        match outcome {
            Ok(Value::Object(modules)) => Step::ask_for(
                Request::GetItem { obj: modules, key: module.clone() },
                Kont::Module(ModuleKont::ImportCached { module }),
            ),
            Ok(_) => Step::Panic(PanicReason::UnexpectedReply),
            Err(e) => Step::Done(Err(e)),
        }
    }

    pub(crate) fn import_cached(
        &mut self,
        heap: &mut Heap,
        module: &String,
        outcome: Outcome,
    ) -> (step: Step)
        ensures
            next(*final(self), *final(heap), step) == import_cached(
                world(*old(self), *old(heap)),
                module@,
                outcome_view(outcome),
            ),
    {
        match outcome {
            Ok(Value::Object(cached)) => {
                if cached == self.ctx.none {
                    let msg = "import of ".to_owned().concat(module.as_str()).concat(
                        " halted; None in sys.modules",
                    );
                    self.raise_import_error(heap, msg, module)
                } else {
                    Step::object(cached)
                }
            },
            Ok(_) => Step::Panic(PanicReason::UnexpectedReply),
            Err(_) => {
                let from_list: Vec<String> = Vec::new();
                assert(texts_view(from_list@) =~= Seq::empty());
                self.import_slowly(heap, module, &from_list, 0)
            },
        }
    }

    fn import_slowly(
        &mut self,
        heap: &mut Heap,
        module: &String,
        from_list: &Vec<String>,
        level: usize,
    ) -> (step: Step)
        ensures
            next(*final(self), *final(heap), step) == import_slowly(
                world(*old(self), *old(heap)),
                module@,
                texts_view(from_list@),
                level,
            ),
    {
        reveal(import_slowly);
        let names = self.new_strs(heap, from_list);
        let from_list = self.ctx.new_tuple(heap, names);
        let step = self.getattr_text(heap, self.builtins, "__import__");
        match step {
            Step::Done(outcome) => self.import_found(heap, module, from_list, level, outcome),
            step => step.beneath(
                Kont::Module(ModuleKont::ImportFunc { module: module.clone(), from_list, level }),
            ),
        }
    }

    pub(crate) fn import_found(
        &mut self,
        heap: &mut Heap,
        module: &String,
        from_list: PyObjectRef,
        level: usize,
        outcome: Outcome,
    ) -> (step: Step)
        ensures
            next(*final(self), *final(heap), step) == import_found(
                world(*old(self), *old(heap)),
                module@,
                from_list,
                level,
                outcome_view(outcome),
            ),
    {
        reveal(import_found);
        match outcome {
            Ok(Value::Object(import_func)) => {
                let (locals, globals) = match self.current_frame() {
                    Some(frame) => (frame.scope.locals, frame.scope.globals),
                    None => (self.ctx.none, self.ctx.none),
                };
                let name = self.ctx.new_str(heap, module.clone());
                let depth = self.ctx.new_int(heap, level as i128);
                let mut args: Vec<PyObjectRef> = Vec::new();
                args.push(name);
                args.push(globals);
                args.push(locals);
                args.push(from_list);
                args.push(depth);
                assert(args@ =~= seq![name, globals, locals, from_list, depth]);
                let step = self.invoke(heap, import_func, PyFuncArgs::positional(args));
                match step {
                    Step::Done(outcome) => VirtualMachine::import_done(outcome),
                    step => step.beneath(Kont::Module(ModuleKont::ImportDone)),
                }
            },
            Ok(_) => Step::Panic(PanicReason::UnexpectedReply),
            Err(_) => self.raise_import_error(heap, "__import__ not found".to_owned(), module),
        }
    }

    pub(crate) fn import_done(outcome: Outcome) -> (step: Step)
        ensures
            forall|w: World|
                (Next { world: w, step: step@ }) == #[trigger] import_done(
                    w,
                    outcome_view(outcome),
                ),
    {
        match outcome {
            Ok(v) => Step::Done(Ok(v)),
            Err(exc) => Step::ask_for(
                Request::RemoveImportlibFrames { exc },
                Kont::Module(ModuleKont::Raise),
            ),
        }
    }

    /// A class of a module. Raises what the import or the attribute access
    /// raises; what is no class is a panic.
    pub fn try_class(&mut self, heap: &mut Heap, module: &String, class: &String) -> (step: Step)
        ensures
            next(*final(self), *final(heap), step) == try_class_next(
                world(*old(self), *old(heap)),
                module@,
                class@,
            ),
    {
        let from_list: Vec<String> = Vec::new();
        assert(texts_view(from_list@) =~= Seq::empty());
        let step = self.import(heap, module, &from_list, 0);
        match step {
            Step::Done(outcome) => self.class_module(heap, class, outcome),
            step => step.beneath(Kont::Module(ModuleKont::ClassModule { class: class.clone() })),
        }
    }

    pub(crate) fn class_module(&self, heap: &mut Heap, class: &String, outcome: Outcome) -> (step:
        Step)
        ensures
            next(*self, *final(heap), step) == class_module(
                world(*self, *old(heap)),
                class@,
                outcome_view(outcome),
            ),
    {
        match outcome {
            Ok(Value::Object(module)) => {
                let step = self.getattr_text(heap, module, class.as_str());
                match step {
                    Step::Done(outcome) => VirtualMachine::class_found(heap, outcome),
                    step => step.beneath(Kont::Module(ModuleKont::ClassFound)),
                }
            },
            Ok(_) => Step::Panic(PanicReason::UnexpectedReply),
            Err(e) => Step::Done(Err(e)),
        }
    }

    pub(crate) fn class_found(heap: &Heap, outcome: Outcome) -> (step: Step)
        ensures
            forall|w: World|
                #![trigger class_found(w, outcome_view(outcome))]
                w.heap == heap@ ==> (Next { world: w, step: step@ }) == class_found(
                    w,
                    outcome_view(outcome),
                ),
    {
        match outcome {
            Ok(Value::Object(class)) => {
                if heap.is_class(class) {
                    Step::object(class)
                } else {
                    Step::Panic(PanicReason::NotAClass(class))
                }
            },
            Ok(_) => Step::Panic(PanicReason::UnexpectedReply),
            Err(e) => Step::Done(Err(e)),
        }
    }

    /// A class that must be there: anything else is a panic.
    pub fn class(&mut self, heap: &mut Heap, module: &String, class: &String) -> (step: Step)
        ensures
            next(*final(self), *final(heap), step) == class_next(
                world(*old(self), *old(heap)),
                module@,
                class@,
            ),
    {
        let from_list: Vec<String> = Vec::new();
        assert(texts_view(from_list@) =~= Seq::empty());
        let step = self.import(heap, module, &from_list, 0);
        match step {
            Step::Done(outcome) => self.needed_module(heap, class, outcome),
            step => step.beneath(Kont::Module(ModuleKont::NeededModule { class: class.clone() })),
        }
    }

    pub(crate) fn needed_module(&self, heap: &mut Heap, class: &String, outcome: Outcome) -> (step:
        Step)
        ensures
            next(*self, *final(heap), step) == needed_module(
                world(*self, *old(heap)),
                class@,
                outcome_view(outcome),
            ),
    {
        match outcome {
            Ok(Value::Object(module)) => {
                let step = self.getattr_text(heap, module, class.as_str());
                match step {
                    Step::Done(outcome) => VirtualMachine::needed_class(heap, module, outcome),
                    step => step.beneath(Kont::Module(ModuleKont::NeededClass { module })),
                }
            },
            Ok(_) => Step::Panic(PanicReason::UnexpectedReply),
            Err(e) => Step::Panic(PanicReason::UnableToImport(e)),
        }
    }

    pub(crate) fn needed_class(heap: &Heap, module: PyObjectRef, outcome: Outcome) -> (step: Step)
        ensures
            forall|w: World|
                #![trigger needed_class(w, module, outcome_view(outcome))]
                w.heap == heap@ ==> (Next { world: w, step: step@ }) == needed_class(
                    w,
                    module,
                    outcome_view(outcome),
                ),
    {
        match outcome {
            Err(e) => Step::Panic(PanicReason::NoSuchClass(module, e)),
            outcome => VirtualMachine::class_found(heap, outcome),
        }
    }

    fn call_codec_func(
        &mut self,
        heap: &mut Heap,
        func: &str,
        obj: PyObjectRef,
        encoding: Option<PyStrRef>,
        errors: Option<PyStrRef>,
    ) -> (step: Step)
        ensures
            next(*final(self), *final(heap), step) == codec_next(
                world(*old(self), *old(heap)),
                func@,
                codec_args(old(self).ctx, obj, encoding, errors),
            ),
    {
        let mut args: Vec<PyObjectRef> = Vec::new();
        args.push(obj);
        args.push(self.unwrap_or_none(encoding));
        if let Some(errors) = errors {
            args.push(errors);
        }
        assert(args@ =~= codec_args(self.ctx, obj, encoding, errors));
        let from_list: Vec<String> = Vec::new();
        assert(texts_view(from_list@) =~= Seq::empty());
        let step = self.import(heap, &"_codecs".to_owned(), &from_list, 0);
        match step {
            Step::Done(outcome) => self.codec_module(heap, func, args, outcome),
            step => step.beneath(
                Kont::Module(ModuleKont::CodecModule { func: func.to_owned(), args }),
            ),
        }
    }

    pub(crate) fn codec_module(
        &mut self,
        heap: &mut Heap,
        func: &str,
        args: Vec<PyObjectRef>,
        outcome: Outcome,
    ) -> (step: Step)
        ensures
            next(*final(self), *final(heap), step) == codec_module(
                world(*old(self), *old(heap)),
                func@,
                args@,
                outcome_view(outcome),
            ),
    {
        match outcome {
            Ok(Value::Object(module)) => {
                let step = self.getattr_text(heap, module, func);
                let args = PyFuncArgs::positional(args);
                match step {
                    Step::Done(outcome) => self.method_bound(heap, args, outcome),
                    step => step.beneath(Kont::Call(CallKont::InvokeWrapped { args })),
                }
            },
            Ok(_) => Step::Panic(PanicReason::UnexpectedReply),
            Err(e) => Step::Done(Err(e)),
        }
    }

    /// Decodes an object with a codec.
    pub fn decode(
        &mut self,
        heap: &mut Heap,
        obj: PyObjectRef,
        encoding: Option<PyStrRef>,
        errors: Option<PyStrRef>,
    ) -> (step: Step)
        ensures
            next(*final(self), *final(heap), step) == codec_next(
                world(*old(self), *old(heap)),
                "decode"@,
                codec_args(old(self).ctx, obj, encoding, errors),
            ),
    {
        self.call_codec_func(heap, "decode", obj, encoding, errors)
    }

    /// Encodes an object with a codec.
    pub fn encode(
        &mut self,
        heap: &mut Heap,
        obj: PyObjectRef,
        encoding: Option<PyStrRef>,
        errors: Option<PyStrRef>,
    ) -> (step: Step)
        ensures
            next(*final(self), *final(heap), step) == codec_next(
                world(*old(self), *old(heap)),
                "encode"@,
                codec_args(old(self).ctx, obj, encoding, errors),
            ),
    {
        self.call_codec_func(heap, "encode", obj, encoding, errors)
    }

    /// Makes a module around a dictionary.
    pub fn new_module(&self, heap: &mut Heap, name: &str, dict: PyDictRef) -> (step: Step)
        ensures
            next(*self, *final(heap), step) == new_module_next(
                world(*self, *old(heap)),
                name@,
                dict,
            ),
    {
        let name = self.ctx.new_str(heap, name.to_owned());
        Step::ask_for(
            Request::InitModuleDict { dict, name, doc: self.ctx.none },
            Kont::Module(ModuleKont::ModuleMade { dict }),
        )
    }

    pub(crate) fn module_made(&self, heap: &mut Heap, dict: PyDictRef, outcome: Outcome) -> (step:
        Step)
        ensures
            next(*self, *final(heap), step) == module_made(
                world(*self, *old(heap)),
                dict,
                outcome_view(outcome),
            ),
    {
        match outcome {
            Ok(_) => Step::object(
                heap.new_object(self.ctx.types.module_type, Some(dict), Payload::Opaque),
            ),
            Err(_) => Step::Panic(PanicReason::UnexpectedReply),
        }
    }
}

} // verus!

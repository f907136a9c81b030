//! What an import asks for and calls, and what is done with a module.
use crate::calls::{invoke_next, method_next};
use crate::context::{int_object, str_object, PyContext};
use crate::laws::asked::{call_begins, has_room, is_text};
use crate::laws::calls::{is_traced, untraced_call};
use crate::laws::steps::extends;
use crate::laws::taken::{
    takes_class_found, takes_class_module, takes_codec_module, takes_import_done, takes_import_func,
    takes_import_modules, takes_invoke_wrapped, takes_module_made, takes_needed_class,
    takes_needed_module, takes_raise, takes_set_attrs,
};
use crate::machine::{raises, yields, CallKont, Kont, KontView, ModuleKont, Next, StepView, World};
use crate::modules::{
    class_module, class_next, codec_args, codec_module, codec_next, getattr_text_next,
    import_error_next, import_found, import_next, import_slowly, needed_module, new_module_next,
    raise_import_error, refs_from, setattrs_next, str_objects, try_class_next, with_objects,
    with_str,
};
use crate::object::{
    class_of, dict_of, next_ref, payload_of, slot_of, ObjectView, PayloadView, PyBaseExceptionRef,
    PyDictRef, PyObjectRef, PyStrRef, SlotKind,
};
use crate::protocol::{positional, FuncArgsView, Request, Value};
use crate::runs::{asks_for, drive, followed, run_goes_on, run_of_one_request, span, Reply};
use vstd::prelude::*;

verus! {

broadcast use crate::runs::run_stops, crate::runs::span_stops;

/// Whether an operation asks for the attribute of `obj` with this name, in a state that
/// has more objects than `w` at most.
pub open spec fn asks_attribute(n: Next, w: World, obj: PyObjectRef, name: Seq<char>) -> bool {
    &&& n.world.vm == w.vm
    &&& extends(n.world.heap, w.heap)
    &&& match n.step {
        StepView::Ask(Request::GetAttr { slot, obj: of, name: s }, _) => {
            &&& of == obj
            &&& slot_of(n.world.heap, obj, SlotKind::GetAttro) == Some(slot)
            &&& is_text(n.world.heap, s, name)
        },
        StepView::Panic(_) => slot_of(n.world.heap, obj, SlotKind::GetAttro) is None,
        _ => false,
    }
}

proof fn attribute_is_asked(w: World, obj: PyObjectRef, name: Seq<char>)
    requires
        has_room(w),
    ensures
        asks_attribute(getattr_text_next(w, obj, name), w, obj, name),
        getattr_text_next(w, obj, name).step matches StepView::Ask(_, ks) ==> ks.len() == 0,
{
}

/// Whether an object is a tuple of strings with these texts.
pub open spec fn is_tuple_of(h: Seq<ObjectView>, obj: PyObjectRef, texts: Seq<Seq<char>>) -> bool {
    payload_of(h, obj) matches PayloadView::Tuple(items) && items.len() == texts.len() && forall|
        i: int,
    |
        0 <= i < items.len() ==> is_text(h, #[trigger] items[i], texts[i])
}

/// Whether these are the arguments of `__import__`: the name of the module, the globals
/// and the locals of the frame that runs or else None, the names to import from it, and
/// the level.
pub open spec fn are_import_args(
    w: World,
    heap: Seq<ObjectView>,
    args: FuncArgsView,
    module: Seq<char>,
    from_list: PyObjectRef,
    level: usize,
) -> bool {
    &&& args.kwargs.len() == 0
    &&& args.args.len() == 5
    &&& is_text(heap, args.args[0], module)
    &&& w.vm.frames.len() > 0 ==> args.args[1] == w.vm.frames.last().scope.globals
    &&& w.vm.frames.len() > 0 ==> args.args[2] == w.vm.frames.last().scope.locals
    &&& w.vm.frames.len() == 0 ==> args.args[1] == w.vm.ctx.none && args.args[2]
        == w.vm.ctx.none
    &&& args.args[3] == from_list
    &&& payload_of(heap, args.args[4]) == PayloadView::Int(level as i128)
}

/// The heap with the two objects that an import makes for `__import__`: the name and the
/// level.
pub open spec fn with_import_args(w: World, module: Seq<char>, level: usize) -> World {
    World {
        vm: w.vm,
        heap: w.heap.push(str_object(w.vm.ctx, module)).push(
            int_object(w.vm.ctx, level as i128),
        ),
    }
}

proof fn import_call(
    w: World,
    module: Seq<char>,
    from_list: PyObjectRef,
    level: usize,
    func: PyObjectRef,
) -> (args: FuncArgsView)
    requires
        has_room(w),
    ensures
        import_found(w, module, from_list, level, Ok(Value::Object(func))) == followed(
            invoke_next(with_import_args(w, module, level), func, args),
            Kont::Module(ModuleKont::ImportDone),
        ),
        are_import_args(
            w,
            with_import_args(w, module, level).heap,
            args,
            module,
            from_list,
            level,
        ),
{
    reveal(import_found);
    takes_import_done();
    let none = w.vm.ctx.none;
    let (locals, globals) = if w.vm.frames.len() > 0 {
        (w.vm.frames.last().scope.locals, w.vm.frames.last().scope.globals)
    } else {
        (none, none)
    };
    let w1 = with_str(w, module);
    let w2 = with_import_args(w, module, level);
    assert(w2.heap[w.heap.len() as int] == w1.heap[w.heap.len() as int]);
    positional(seq![next_ref(w.heap), globals, locals, from_list, next_ref(w1.heap)])
}

/// `__import__` has been found: the function that was found is called with the name,
/// the globals, the locals, the names to import and the level, in this order.
pub proof fn import_function_is_called(
    w: World,
    module: Seq<char>,
    from_list: PyObjectRef,
    level: usize,
    func: PyObjectRef,
)
    requires
        has_room(w),
        !is_traced(w),
        slot_of(with_import_args(w, module, level).heap, func, SlotKind::Call) is Some,
    ensures
        ({
            let n = import_found(w, module, from_list, level, Ok(Value::Object(func)));
            &&& n.world == with_import_args(w, module, level)
            &&& match n.step {
                StepView::Ask(Request::CallSlot { slot, callable, args }, _) => {
                    &&& callable == func
                    &&& slot_of(n.world.heap, func, SlotKind::Call) == Some(slot)
                    &&& are_import_args(w, n.world.heap, args, module, from_list, level)
                },
                _ => false,
            }
        }),
{
    let args = import_call(w, module, from_list, level, func);
    call_begins(with_import_args(w, module, level), func, args);
}

/// An import of more than a module looks `__import__` up in the builtins; the names to
/// import are a tuple of strings by then. What is found is called as above.
pub proof fn import_looks_the_function_up(
    w: World,
    module: Seq<char>,
    from_list: Seq<Seq<char>>,
    level: usize,
    replies: Seq<Reply>,
)
    requires
        module.contains('.') || level != 0 || from_list.len() > 0,
        w.heap.len() + from_list.len() + 9 <= usize::MAX,
        replies.len() > 0,
    ensures
        asks_attribute(import_next(w, module, from_list, level), w, w.vm.builtins, "__import__"@),
        import_next(w, module, from_list, level).step is Ask ==> exists|names: PyObjectRef|
            #![trigger is_tuple_of(
                import_next(w, module, from_list, level).world.heap,
                names,
                from_list,
            )]
            is_tuple_of(import_next(w, module, from_list, level).world.heap, names, from_list)
                && drive(import_next(w, module, from_list, level), replies) == drive(
                import_found(
                    replies[0].world,
                    module,
                    names,
                    level,
                    replies[0].outcome,
                ),
                replies.drop_first(),
            ),
{
    reveal(import_next);
    reveal(import_slowly);
    let n = import_next(w, module, from_list, level);
    let ctx = w.vm.ctx;
    let w1 = with_objects(w, str_objects(ctx, from_list));
    let names = next_ref(w1.heap);
    let items = refs_from(w.heap, from_list.len());
    let w2 = World {
        vm: w.vm,
        heap: w1.heap.push(crate::context::tuple_object(ctx, items)),
    };
    attribute_is_asked(w2, w.vm.builtins, "__import__"@);
    assert(n.world.heap == w2.heap.push(str_object(ctx, "__import__"@)));
    assert(n.world.heap[w1.heap.len() as int] == w2.heap[w1.heap.len() as int]);
    assert forall|i: int| 0 <= i < items.len() implies is_text(
        n.world.heap,
        #[trigger] items[i],
        from_list[i],
    ) by {
        assert(n.world.heap[w.heap.len() + i] == w1.heap[w.heap.len() + i]);
    }
    assert(is_tuple_of(n.world.heap, names, from_list));
    if n.step is Ask {
        let k: KontView = Kont::Module(ModuleKont::ImportFunc { module, from_list: names, level });
        assert(n.step->Ask_1 =~= seq![k]);
        takes_import_func(module, names, level);
        run_of_one_request(n, k, replies);
    }
}

/// What `__import__` returns is what the import comes to. What it raises is raised
/// without the frames of the import machinery.
pub proof fn import_comes_to_what_the_function_does(
    w: World,
    module: Seq<char>,
    from_list: PyObjectRef,
    level: usize,
    func: PyObjectRef,
    reply: Reply,
)
    requires
        has_room(w),
        !is_traced(w),
        !is_traced(reply.world),
        slot_of(with_import_args(w, module, level).heap, func, SlotKind::Call) is Some,
        reply.outcome is Err || reply.outcome->Ok_0 is Object,
    ensures
        ({
            let n = import_found(w, module, from_list, level, Ok(Value::Object(func)));
            let end = drive(n, seq![reply]);
            match reply.outcome {
                Ok(found) => end == yields(reply.world, found),
                Err(exc) => end.world == reply.world && asks_for(
                    end,
                    Request::RemoveImportlibFrames { exc },
                ),
            }
        }),
{
    let args = import_call(w, module, from_list, level, func);
    let w2 = with_import_args(w, module, level);
    let call = invoke_next(w2, func, args);
    let k: KontView = Kont::Module(ModuleKont::ImportDone);
    takes_import_done();
    untraced_call(w2, func, args, slot_of(w2.heap, func, SlotKind::Call)->0, reply);
    run_goes_on(call, k, seq![reply]);
    assert(span(call, seq![reply]) >= 1) by {
        reveal(span);
    }
    assert(seq![reply].skip(1) =~= Seq::empty());
}

/// An import of nothing but a module asks for `sys.modules` first, and then for the
/// entry that the module has there.
pub proof fn plain_import_asks_sys_modules(w: World, module: Seq<char>, reply: Reply)
    requires
        !module.contains('.'),
        has_room(w),
    ensures
        ({
            let n = import_next(w, module, Seq::empty(), 0);
            let m = drive(n, seq![reply]);
            &&& asks_attribute(n, w, w.vm.sys_module, "modules"@)
            &&& n.step is Ask ==> match reply.outcome {
                Ok(Value::Object(modules)) => m.world == reply.world && asks_for(
                    m,
                    Request::GetItem { obj: modules, key: module },
                ),
                Err(e) => m == raises(reply.world, e),
                _ => m.step is Panic,
            }
        }),
{
    reveal(import_next);
    let n = import_next(w, module, Seq::empty(), 0);
    attribute_is_asked(w, w.vm.sys_module, "modules"@);
    if n.step is Ask {
        let k: KontView = Kont::Module(ModuleKont::ImportModules { module });
        assert(n.step->Ask_1 =~= seq![k]);
        takes_import_modules(module);
        run_of_one_request(n, k, seq![reply]);
        assert(seq![reply].drop_first() =~= Seq::empty());
    }
}

/// Once the module of the codecs is there, the function with the name that the operation
/// was started with is asked of it, and what is found is called with the arguments.
pub proof fn codec_function_is_called(
    w: World,
    func: Seq<char>,
    args: Seq<PyObjectRef>,
    module: PyObjectRef,
    replies: Seq<Reply>,
)
    requires
        has_room(w),
    ensures
        ({
            let n = codec_module(w, func, args, Ok(Value::Object(module)));
            &&& asks_attribute(n, w, module, func)
            &&& n.step is Ask && replies.len() > 0 ==> match replies[0].outcome {
                Ok(Value::Object(found)) => drive(n, replies) == drive(
                    invoke_next(replies[0].world, found, positional(args)),
                    replies.drop_first(),
                ),
                Err(e) => drive(n, replies) == raises(replies[0].world, e),
                _ => drive(n, replies).step is Panic,
            }
        }),
{
    let n = codec_module(w, func, args, Ok(Value::Object(module)));
    attribute_is_asked(w, module, func);
    if n.step is Ask && replies.len() > 0 {
        let k: KontView = Kont::Call(CallKont::InvokeWrapped { args: positional(args) });
        assert(n.step->Ask_1 =~= seq![k]);
        takes_invoke_wrapped(positional(args));
        run_of_one_request(n, k, replies);
    }
}

/// To encode or decode is to import `_codecs` and to call the function of that name in
/// it: where the import comes to a module, the run goes on with that function of that
/// module, and otherwise it raises what the import raised.
pub proof fn codecs_are_imported(
    w: World,
    func: Seq<char>,
    args: Seq<PyObjectRef>,
    replies: Seq<Reply>,
)
    ensures
        ({
            let import = import_next(w, "_codecs"@, Seq::empty(), 0);
            let m = drive(import, replies);
            let rest = replies.skip(span(import, replies) as int);
            let end = drive(codec_next(w, func, args), replies);
            match m.step {
                StepView::Done(Ok(Value::Object(module))) => {
                    &&& end == drive(codec_module(m.world, func, args, m.step->Done_0), rest)
                    &&& rest.len() == 0 && has_room(m.world) ==> asks_attribute(
                        end,
                        m.world,
                        module,
                        func,
                    )
                },
                StepView::Done(Err(_)) => end == m,
                _ => true,
            }
        }),
{
    let import = import_next(w, "_codecs"@, Seq::empty(), 0);
    let k: KontView = Kont::Module(ModuleKont::CodecModule { func, args });
    takes_codec_module(func, args);
    assert(codec_next(w, func, args) == followed(import, k));
    run_goes_on(import, k, replies);
    let m = drive(import, replies);
    if let StepView::Done(Ok(Value::Object(module))) = m.step {
        if has_room(m.world) {
            codec_function_is_called(m.world, func, args, module, Seq::empty());
        }
    }
}

/// A codec gets the object, the encoding or None, and the handling of errors if one is
/// given.
pub proof fn codecs_get_their_arguments(
    ctx: PyContext,
    obj: PyObjectRef,
    encoding: Option<PyStrRef>,
    errors: Option<PyStrRef>,
)
    ensures
        ({
            let args = codec_args(ctx, obj, encoding, errors);
            &&& args.len() == if errors is Some { 3nat } else { 2nat }
            &&& args[0] == obj
            &&& encoding is Some ==> args[1] == encoding->0
            &&& encoding is None ==> args[1] == ctx.none
            &&& errors is Some ==> args[2] == errors->0
        }),
{
}

/// A class of a module is the attribute of the module with that name, and must be a
/// class: what is found is the result, and what the access raises is raised.
pub proof fn class_is_an_attribute_of_the_module(
    w: World,
    class: Seq<char>,
    module: PyObjectRef,
    reply: Reply,
)
    requires
        has_room(w),
    ensures
        ({
            let n = class_module(w, class, Ok(Value::Object(module)));
            let end = drive(n, seq![reply]);
            &&& asks_attribute(n, w, module, class)
            &&& n.step is Ask ==> match reply.outcome {
                Ok(Value::Object(found)) => if payload_of(reply.world.heap, found) is Type {
                    end == yields(reply.world, Value::Object(found))
                } else {
                    end.step is Panic
                },
                Err(e) => end == raises(reply.world, e),
                _ => end.step is Panic,
            }
        }),
{
    attribute_is_asked(w, module, class);
    assert(seq![reply].drop_first() =~= Seq::empty());
    let n = class_module(w, class, Ok(Value::Object(module)));
    if n.step is Ask {
        let k: KontView = Kont::Module(ModuleKont::ClassFound);
        assert(n.step->Ask_1 =~= seq![k]);
        takes_class_found();
        run_of_one_request(n, k, seq![reply]);
    }
}

/// A class that must be there is found in the same way; a module without it is a panic.
pub proof fn needed_class_is_an_attribute_of_the_module(
    w: World,
    class: Seq<char>,
    module: PyObjectRef,
    reply: Reply,
)
    requires
        has_room(w),
    ensures
        ({
            let n = needed_module(w, class, Ok(Value::Object(module)));
            let end = drive(n, seq![reply]);
            &&& asks_attribute(n, w, module, class)
            &&& n.step is Ask ==> match reply.outcome {
                Ok(Value::Object(found)) => if payload_of(reply.world.heap, found) is Type {
                    end == yields(reply.world, Value::Object(found))
                } else {
                    end.step is Panic
                },
                _ => end.step is Panic,
            }
        }),
{
    attribute_is_asked(w, module, class);
    assert(seq![reply].drop_first() =~= Seq::empty());
    let n = needed_module(w, class, Ok(Value::Object(module)));
    if n.step is Ask {
        let k: KontView = Kont::Module(ModuleKont::NeededClass { module });
        assert(n.step->Ask_1 =~= seq![k]);
        takes_needed_class(module);
        run_of_one_request(n, k, seq![reply]);
    }
}

/// The module of a class is imported as a plain import does it. A module that must be
/// there and cannot be imported is a panic.
pub proof fn modules_of_classes_are_imported(
    w: World,
    module: Seq<char>,
    class: Seq<char>,
    replies: Seq<Reply>,
)
    ensures
        ({
            let import = import_next(w, module, Seq::empty(), 0);
            let m = drive(import, replies);
            let rest = replies.skip(span(import, replies) as int);
            let tried = drive(try_class_next(w, module, class), replies);
            let needed = drive(class_next(w, module, class), replies);
            match m.step {
                StepView::Done(Ok(Value::Object(found))) => {
                    &&& tried == drive(class_module(m.world, class, m.step->Done_0), rest)
                    &&& needed == drive(needed_module(m.world, class, m.step->Done_0), rest)
                },
                StepView::Done(Err(_)) => tried == m && needed.step is Panic,
                _ => true,
            }
        }),
{
    let import = import_next(w, module, Seq::empty(), 0);
    let k: KontView = Kont::Module(ModuleKont::ClassModule { class });
    let k1: KontView = Kont::Module(ModuleKont::NeededModule { class });
    takes_class_module(class);
    takes_needed_module(class);
    assert(try_class_next(w, module, class) == followed(import, k));
    assert(class_next(w, module, class) == followed(import, k1));
    run_goes_on(import, k, replies);
    run_goes_on(import, k1, replies);
}

/// A new module has its dictionary filled first, with its name and no documentation. The
/// module itself is then a new object with that dictionary.
pub proof fn modules_are_made_around_a_dictionary(
    w: World,
    name: Seq<char>,
    dict: PyDictRef,
    reply: Reply,
)
    requires
        has_room(w),
        has_room(reply.world),
    ensures
        ({
            let n = new_module_next(w, name, dict);
            let end = drive(n, seq![reply]);
            &&& n.world.vm == w.vm
            &&& match n.step {
                StepView::Ask(Request::InitModuleDict { dict: filled, name: s, doc }, _) => filled
                    == dict && is_text(n.world.heap, s, name) && doc == w.vm.ctx.none,
                _ => false,
            }
            &&& reply.outcome is Ok ==> match end.step {
                StepView::Done(Ok(Value::Object(module))) => {
                    &&& class_of(end.world.heap, module) == reply.world.vm.ctx.types.module_type
                    &&& dict_of(end.world.heap, module) == Some(dict)
                    &&& end.world.vm == reply.world.vm
                    &&& extends(end.world.heap, reply.world.heap)
                },
                _ => false,
            }
        }),
{
    let n = new_module_next(w, name, dict);
    let k: KontView = Kont::Module(ModuleKont::ModuleMade { dict });
    takes_module_made(dict);
    run_of_one_request(n, k, seq![reply]);
    assert(seq![reply].drop_first() =~= Seq::empty());
}

/// One attribute after the other is set on a new exception, by its `__setattr__`, each
/// with its name and its value; when none is left, the exception is the result. An
/// attribute that cannot be set is a panic.
pub proof fn attributes_are_set_in_order(
    w: World,
    exc: PyBaseExceptionRef,
    names: Seq<PyStrRef>,
    values: Seq<PyObjectRef>,
    replies: Seq<Reply>,
)
    ensures
        names.len() == 0 ==> setattrs_next(w, exc, names, values) == yields(
            w,
            Value::Object(exc),
        ),
        names.len() > 0 && values.len() > 0 ==> ({
            let call = method_next(
                w,
                exc,
                "__setattr__"@,
                positional(seq![names[0], values[0]]),
            );
            let m = drive(call, replies);
            let rest = replies.skip(span(call, replies) as int);
            let end = drive(setattrs_next(w, exc, names, values), replies);
            match m.step {
                StepView::Done(Ok(_)) => end == drive(
                    setattrs_next(m.world, exc, names.drop_first(), values.drop_first()),
                    rest,
                ),
                StepView::Done(Err(_)) => end.step is Panic,
                _ => true,
            }
        }),
{
    if names.len() > 0 && values.len() > 0 {
        let call = method_next(w, exc, "__setattr__"@, positional(seq![names[0], values[0]]));
        let k: KontView = Kont::Module(
            ModuleKont::SetAttrs {
                exc,
                names: names.drop_first(),
                values: values.drop_first(),
            },
        );
        takes_set_attrs(exc, names.drop_first(), values.drop_first());
        assert(setattrs_next(w, exc, names, values) == followed(call, k));
        run_goes_on(call, k, replies);
    }
}

/// An import that fails raises the ImportError that is made for it.
pub proof fn import_error_is_raised(
    w: World,
    msg: Seq<char>,
    name: Seq<char>,
    replies: Seq<Reply>,
)
    ensures
        ({
            let m = drive(import_error_next(w, msg, name), replies);
            let end = drive(raise_import_error(w, msg, name), replies);
            match m.step {
                StepView::Done(Ok(Value::Object(exc))) => end == raises(m.world, exc),
                StepView::Done(Err(_)) => end == m,
                _ => true,
            }
        }),
{
    reveal(raise_import_error);
    let n = import_error_next(w, msg, name);
    let k: KontView = Kont::Module(ModuleKont::Raise);
    takes_raise();
    assert(raise_import_error(w, msg, name) == followed(n, k));
    run_goes_on(n, k, replies);
}

} // verus!

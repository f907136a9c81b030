//! What the steps of imports keep.
use crate::attributes::setattr_next;
use crate::context::{int_object, str_object, tuple_object};
use crate::laws::steps::{extends, invoke_keeps, keeps, method_keeps};
use crate::machine::{ModuleKont, World};
use crate::modules::{
    attributed_next, class_found, class_module, codec_module, import_found, import_next,
    import_slowly, module_made, needed_class, needed_module, raise_import_error, refs_from,
    setattrs_next, str_objects, with_objects, with_str,
};
use crate::object::{next_ref, ObjectView, PyBaseExceptionRef, PyObjectRef, PyStrRef, PyTypeRef};
use crate::protocol::{positional, OutcomeView, Value};
use crate::resume::apply_module;
use vstd::prelude::*;

verus! {

proof fn setattrs_keep(
    w: World,
    exc: PyBaseExceptionRef,
    names: Seq<PyStrRef>,
    values: Seq<PyObjectRef>,
)
    ensures
        keeps(w, setattrs_next(w, exc, names, values)),
    decreases names.len(),
{
    if names.len() > 0 && values.len() > 0 {
        let n = setattr_next(w, exc, names[0], values[0]);
        method_keeps(w, exc, "__setattr__"@, positional(seq![names[0], values[0]]));
        if n.step is Done {
            setattrs_keep(n.world, exc, names.drop_first(), values.drop_first());
        }
    }
}

proof fn attributed_keeps(
    w: World,
    exc_type: PyTypeRef,
    msg: Seq<char>,
    objects: Seq<ObjectView>,
    names: Seq<Seq<char>>,
)
    ensures
        keeps(w, attributed_next(w, exc_type, msg, objects, names)),
{
    let made = crate::errors::message_made(w.vm.ctx, w.heap, exc_type, msg);
    let w1 = World { vm: w.vm, heap: made.0 };
    let w2 = with_objects(w1, objects);
    let w3 = with_objects(w2, str_objects(w.vm.ctx, names));
    setattrs_keep(
        w3,
        made.1,
        refs_from(w2.heap, names.len()),
        refs_from(w1.heap, objects.len()),
    );
    assert(extends(w3.heap, w.heap));
}

proof fn raise_import_error_keeps(w: World, msg: Seq<char>, name: Seq<char>)
    ensures
        keeps(w, raise_import_error(w, msg, name)),
{
    reveal(raise_import_error);
    attributed_keeps(
        w,
        w.vm.ctx.exceptions.import_error,
        msg,
        seq![str_object(w.vm.ctx, name)],
        seq!["name"@],
    );
}

proof fn import_found_keeps(
    w: World,
    module: Seq<char>,
    from_list: PyObjectRef,
    level: usize,
    o: OutcomeView,
)
    ensures
        keeps(w, import_found(w, module, from_list, level, o)),
{
    reveal(import_found);
    match o {
        Ok(Value::Object(import_func)) => {
            let none = w.vm.ctx.none;
            let (locals, globals) = if w.vm.frames.len() > 0 {
                (w.vm.frames.last().scope.locals, w.vm.frames.last().scope.globals)
            } else {
                (none, none)
            };
            let w1 = with_str(w, module);
            let w2 = World {
                vm: w.vm,
                heap: w1.heap.push(int_object(w.vm.ctx, level as i128)),
            };
            let args = seq![next_ref(w.heap), globals, locals, from_list, next_ref(w1.heap)];
            invoke_keeps(w2, import_func, positional(args));
            assert(extends(w2.heap, w.heap));
        },
        Ok(_) => {},
        Err(_) => {
            raise_import_error_keeps(w, "__import__ not found"@, module);
        },
    }
}

proof fn import_slowly_keeps(
    w: World,
    module: Seq<char>,
    from_list: Seq<Seq<char>>,
    level: usize,
)
    ensures
        keeps(w, import_slowly(w, module, from_list, level)),
{
    reveal(import_slowly);
    let ctx = w.vm.ctx;
    let w1 = with_objects(w, str_objects(ctx, from_list));
    let w2 = World {
        vm: w.vm,
        heap: w1.heap.push(tuple_object(ctx, refs_from(w.heap, from_list.len()))),
    };
    assert(extends(with_str(w2, "__import__"@).heap, w.heap));
}

/// An import keeps what `keeps` says.
pub proof fn import_keeps(w: World, module: Seq<char>, from_list: Seq<Seq<char>>, level: usize)
    ensures
        keeps(w, import_next(w, module, from_list, level)),
{
    reveal(import_next);
    import_slowly_keeps(w, module, from_list, level);
}

proof fn class_keeps(w: World, class: Seq<char>, module: PyObjectRef, o: OutcomeView)
    ensures
        keeps(w, class_module(w, class, o)),
        keeps(w, needed_module(w, class, o)),
        keeps(w, class_found(w, o)),
        keeps(w, needed_class(w, module, o)),
{
}

proof fn codec_keeps(
    w: World,
    func: Seq<char>,
    args: Seq<PyObjectRef>,
    dict: PyObjectRef,
    o: OutcomeView,
)
    ensures
        keeps(w, codec_module(w, func, args, o)),
        keeps(w, module_made(w, dict, o)),
{
}

#[verifier::rlimit(50)]
pub(crate) proof fn module_keeps(
    w: World,
    k: ModuleKont<Seq<char>, Seq<PyObjectRef>>,
    o: OutcomeView,
)
    ensures
        keeps(w, apply_module(w, k, o)),
{
    reveal(apply_module);
    match k {
        ModuleKont::ImportCached { module } => {
            raise_import_error_keeps(
                w,
                "import of "@ + module + " halted; None in sys.modules"@,
                module,
            );
            import_slowly_keeps(w, module, Seq::empty(), 0);
        },
        ModuleKont::ImportFunc { module, from_list, level } => {
            import_found_keeps(w, module, from_list, level, o);
        },
        ModuleKont::SetAttrs { exc, names, values } => {
            setattrs_keep(w, exc, names, values);
        },
        ModuleKont::ClassModule { class } => {
            class_keeps(w, class, w.vm.builtins, o);
        },
        ModuleKont::ClassFound => {
            class_keeps(w, Seq::empty(), w.vm.builtins, o);
        },
        ModuleKont::NeededModule { class } => {
            class_keeps(w, class, w.vm.builtins, o);
        },
        ModuleKont::NeededClass { module } => {
            class_keeps(w, Seq::empty(), module, o);
        },
        ModuleKont::CodecModule { func, args } => {
            codec_keeps(w, func, args, w.vm.builtins, o);
        },
        ModuleKont::ModuleMade { dict } => {
            codec_keeps(w, Seq::empty(), Seq::empty(), dict, o);
        },
        _ => {},
    }
}

} // verus!

//! Laws about imports.
use crate::machine::{raises, yields, Kont, ModuleKont, World};
use crate::modules::{
    getattr_text_next, import_done, import_modules, import_next, import_slowly, is_weird,
    raise_import_error, raised, with_str,
};
use crate::object::{slot_of, PyBaseExceptionRef, PyObjectRef, SlotKind};
use crate::protocol::{Request, Value};
use crate::resume::{applies_module, apply_module};
use crate::runs::{asks_for, drive, run_of_one_request, Reply};
use vstd::prelude::*;

verus! {

broadcast use crate::runs::run_stops, crate::runs::span_stops;

/// A plain import reads `sys.modules` first. What is found there is the module, and
/// nothing is imported; None there halts the import with an ImportError; what is not
/// there is imported in full.
pub proof fn plain_import_reads_the_cache(
    w: World,
    module: Seq<char>,
    modules: PyObjectRef,
    world: World,
    found: Reply,
    rest: Seq<Reply>,
)
    requires
        !is_weird(module, Seq::empty(), 0),
        slot_of(with_str(w, "modules"@).heap, w.vm.sys_module, SlotKind::GetAttro) is Some,
    ensures
        ({
            let replies = seq![Reply { world, outcome: Ok(Value::Object(modules)) }, found]
                + rest;
            let n = import_next(w, module, Seq::empty(), 0);
            let end = drive(n, replies);
            match found.outcome {
                Ok(Value::Object(cached)) => if cached == found.world.vm.ctx.none {
                    end == drive(
                        raise_import_error(
                            found.world,
                            "import of "@ + module + " halted; None in sys.modules"@,
                            module,
                        ),
                        rest,
                    )
                } else {
                    end == yields(found.world, Value::Object(cached))
                },
                Err(_) => end == drive(
                    import_slowly(found.world, module, Seq::empty(), 0),
                    rest,
                ),
                _ => end.step is Panic,
            }
        }),
{
    reveal(import_next);
    reveal(apply_module);
    let first = Reply { world, outcome: Ok(Value::Object(modules)) };
    let replies = seq![first, found] + rest;
    let lookup = getattr_text_next(w, w.vm.sys_module, "modules"@);
    let k = ModuleKont::ImportModules { module };
    let k1 = ModuleKont::ImportCached { module };
    applies_module(k);
    applies_module(k1);
    let n = import_next(w, module, Seq::empty(), 0);
    assert(n.step->Ask_1 =~= seq![Kont::Module(k)]);
    run_of_one_request(n, Kont::Module(k), replies);
    assert(replies.drop_first() =~= seq![found] + rest);
    let n1 = import_modules(world, module, Ok(Value::Object(modules)));
    run_of_one_request(n1, Kont::Module(k1), seq![found] + rest);
    assert((seq![found] + rest).drop_first() =~= rest);
}

/// Any other import does not read `sys.modules`.
pub proof fn other_imports_skip_the_cache(
    w: World,
    module: Seq<char>,
    from_list: Seq<Seq<char>>,
    level: usize,
)
    requires
        module.contains('.') || level != 0 || from_list.len() > 0,
    ensures
        import_next(w, module, from_list, level) == import_slowly(w, module, from_list, level),
{
    reveal(import_next);
}

/// What `__import__` raises is raised without the frames of the import machinery.
pub proof fn import_errors_are_trimmed(
    w: World,
    exc: PyBaseExceptionRef,
    world: World,
    trimmed: PyBaseExceptionRef,
)
    ensures
        asks_for(import_done(w, Err(exc)), Request::RemoveImportlibFrames { exc }),
        drive(
            import_done(w, Err(exc)),
            seq![Reply { world, outcome: Ok(Value::Object(trimmed)) }],
        ) == raises(world, trimmed),
{
    reveal(apply_module);
    let replies = seq![Reply { world, outcome: Ok(Value::Object(trimmed)) }];
    let k = ModuleKont::Raise;
    applies_module(k);
    run_of_one_request(import_done(w, Err(exc)), Kont::Module(k), replies);
    assert(replies.drop_first() =~= Seq::empty());
}

} // verus!

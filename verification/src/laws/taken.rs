//! What each continuation does with the outcome that it waited for.
use crate::calls::{invoke_returned, method_bound, trace_called, trace_end};
use crate::compare::{
    compare_forwarded, compare_object, compare_reflected, compare_reversed, compare_truth,
    membership_bound, membership_compared, membership_element, membership_iter, seq_equal,
    seq_strict,
};
use crate::convert::{
    ascii_escape, ascii_made, element_converted, elements_iter, index_called, index_converted,
    index_tried, str_checked, str_text_taken, truth_taken,
};
use crate::machine::{CallKont, CompareKont, ConvertKont, Kont, ModuleKont, World};
use crate::modules::{
    attr_set, class_found, class_module, codec_module, import_done, import_found, import_modules,
    module_made, needed_class, needed_module, raised,
};
use crate::object::{PyBaseExceptionRef, PyDictRef, PyObjectRef, PyStrRef};
use crate::protocol::{Conversion, FuncArgsView, OutcomeView, PyComparisonOp};
use crate::resume::{
    applies_call, applies_compare, applies_convert, applies_module, apply_call, apply_compare,
    apply_convert, apply_module, apply_next,
};
use vstd::prelude::*;

verus! {

/// What this continuation does with an outcome.
pub proof fn takes_invoke_return()
    ensures
        forall|w: World, o: OutcomeView| #[trigger]
            apply_next(w, Kont::Call(CallKont::InvokeReturn), o) == invoke_returned(w, o),
{
    applies_call(CallKont::InvokeReturn);
    reveal(apply_call);
}

/// What this continuation does with an outcome.
pub proof fn takes_trace_profile(profile_func: PyObjectRef, args: Seq<PyObjectRef>)
    ensures
        forall|w: World, o: OutcomeView| #[trigger]
            apply_next(
                w,
                Kont::Call(CallKont::TraceProfile { profile_func, args }),
                o,
            ) == trace_called(w, profile_func, args, o),
{
    applies_call(CallKont::TraceProfile { profile_func, args });
    reveal(apply_call);
}

/// What this continuation does with an outcome.
pub proof fn takes_trace_end()
    ensures
        forall|w: World, o: OutcomeView| #[trigger]
            apply_next(w, Kont::Call(CallKont::TraceEnd), o) == trace_end(w, o),
{
    applies_call(CallKont::TraceEnd);
    reveal(apply_call);
}

/// What this continuation does with an outcome.
pub proof fn takes_invoke_wrapped(args: FuncArgsView)
    ensures
        forall|w: World, o: OutcomeView| #[trigger]
            apply_next(
                w,
                Kont::Call(CallKont::InvokeWrapped { args }),
                o,
            ) == method_bound(w, args, o),
{
    applies_call(CallKont::InvokeWrapped { args });
    reveal(apply_call);
}

/// What this continuation does with an outcome.
pub proof fn takes_truth()
    ensures
        forall|w: World, o: OutcomeView| #[trigger]
            apply_next(w, Kont::Convert(ConvertKont::Truth), o) == truth_taken(w, o),
{
    applies_convert(ConvertKont::Truth);
    reveal(apply_convert);
}

/// What this continuation does with an outcome.
pub proof fn takes_to_str()
    ensures
        forall|w: World, o: OutcomeView| #[trigger]
            apply_next(w, Kont::Convert(ConvertKont::ToStr), o) == str_checked(w, o),
{
    applies_convert(ConvertKont::ToStr);
    reveal(apply_convert);
}

/// What this continuation does with an outcome.
pub proof fn takes_str_text()
    ensures
        forall|w: World, o: OutcomeView| #[trigger]
            apply_next(w, Kont::Convert(ConvertKont::StrText), o) == str_text_taken(w, o),
{
    applies_convert(ConvertKont::StrText);
    reveal(apply_convert);
}

/// What this continuation does with an outcome.
pub proof fn takes_ascii_text()
    ensures
        forall|w: World, o: OutcomeView| #[trigger]
            apply_next(w, Kont::Convert(ConvertKont::AsciiText), o) == ascii_escape(w, o),
{
    applies_convert(ConvertKont::AsciiText);
    reveal(apply_convert);
}

/// What this continuation does with an outcome.
pub proof fn takes_ascii_str()
    ensures
        forall|w: World, o: OutcomeView| #[trigger]
            apply_next(w, Kont::Convert(ConvertKont::AsciiStr), o) == ascii_made(w, o),
{
    applies_convert(ConvertKont::AsciiStr);
    reveal(apply_convert);
}

/// What this continuation does with an outcome.
pub proof fn takes_index_tried(obj: PyObjectRef)
    ensures
        forall|w: World, o: OutcomeView| #[trigger]
            apply_next(
                w,
                Kont::Convert(ConvertKont::IndexTried { obj }),
                o,
            ) == index_tried(w, obj, o),
{
    applies_convert(ConvertKont::IndexTried { obj });
    reveal(apply_convert);
}

/// What this continuation does with an outcome.
pub proof fn takes_index_called(obj: PyObjectRef)
    ensures
        forall|w: World, o: OutcomeView| #[trigger]
            apply_next(
                w,
                Kont::Convert(ConvertKont::IndexCalled { obj }),
                o,
            ) == index_called(w, obj, o),
{
    applies_convert(ConvertKont::IndexCalled { obj });
    reveal(apply_convert);
}

/// What this continuation does with an outcome.
pub proof fn takes_index_converted(obj: PyObjectRef)
    ensures
        forall|w: World, o: OutcomeView| #[trigger]
            apply_next(
                w,
                Kont::Convert(ConvertKont::IndexConverted { obj }),
                o,
            ) == index_converted(w, obj, o),
{
    applies_convert(ConvertKont::IndexConverted { obj });
    reveal(apply_convert);
}

/// What this continuation does with an outcome.
pub proof fn takes_elements(done: Seq<PyObjectRef>, rest: Seq<PyObjectRef>, to: Conversion)
    ensures
        forall|w: World, o: OutcomeView| #[trigger]
            apply_next(
                w,
                Kont::Convert(ConvertKont::Elements { done, rest, to }),
                o,
            ) == element_converted(w, done, rest, to, o),
{
    applies_convert(ConvertKont::Elements { done, rest, to });
    reveal(apply_convert);
}

/// What this continuation does with an outcome.
pub proof fn takes_elements_iter(to: Conversion)
    ensures
        forall|w: World, o: OutcomeView| #[trigger]
            apply_next(
                w,
                Kont::Convert(ConvertKont::ElementsIter { to }),
                o,
            ) == elements_iter(w, to, o),
{
    applies_convert(ConvertKont::ElementsIter { to });
    reveal(apply_convert);
}

/// What this continuation does with an outcome.
pub proof fn takes_compare_reverse(x: PyObjectRef, y: PyObjectRef, op: PyComparisonOp)
    ensures
        forall|w: World, o: OutcomeView| #[trigger]
            apply_next(
                w,
                Kont::Compare(CompareKont::CompareReverse { v: x, w: y, op }),
                o,
            ) == compare_reversed(w, x, y, op, o),
{
    applies_compare(CompareKont::CompareReverse { v: x, w: y, op });
    reveal(apply_compare);
}

/// What this continuation does with an outcome.
pub proof fn takes_compare_forward(
    x: PyObjectRef,
    y: PyObjectRef,
    op: PyComparisonOp,
    reversed: bool,
)
    ensures
        forall|w: World, o: OutcomeView| #[trigger]
            apply_next(
                w,
                Kont::Compare(CompareKont::CompareForward { v: x, w: y, op, reversed }),
                o,
            ) == compare_forwarded(w, x, y, op, reversed, o),
{
    applies_compare(CompareKont::CompareForward { v: x, w: y, op, reversed });
    reveal(apply_compare);
}

/// What this continuation does with an outcome.
pub proof fn takes_compare_reflected(x: PyObjectRef, y: PyObjectRef, op: PyComparisonOp)
    ensures
        forall|w: World, o: OutcomeView| #[trigger]
            apply_next(
                w,
                Kont::Compare(CompareKont::CompareReflected { v: x, w: y, op }),
                o,
            ) == compare_reflected(w, x, y, op, o),
{
    applies_compare(CompareKont::CompareReflected { v: x, w: y, op });
    reveal(apply_compare);
}

/// What this continuation does with an outcome.
pub proof fn takes_compare_truth()
    ensures
        forall|w: World, o: OutcomeView| #[trigger]
            apply_next(w, Kont::Compare(CompareKont::CompareTruth), o) == compare_truth(w, o),
{
    applies_compare(CompareKont::CompareTruth);
    reveal(apply_compare);
}

/// What this continuation does with an outcome.
pub proof fn takes_compare_object()
    ensures
        forall|w: World, o: OutcomeView| #[trigger]
            apply_next(w, Kont::Compare(CompareKont::CompareObject), o) == compare_object(w, o),
{
    applies_compare(CompareKont::CompareObject);
    reveal(apply_compare);
}

/// What this continuation does with an outcome.
pub proof fn takes_seq_strict(a: PyObjectRef, b: PyObjectRef)
    ensures
        forall|w: World, o: OutcomeView| #[trigger]
            apply_next(
                w,
                Kont::Compare(CompareKont::SeqStrict { a, b }),
                o,
            ) == seq_strict(w, a, b, o),
{
    applies_compare(CompareKont::SeqStrict { a, b });
    reveal(apply_compare);
}

/// What this continuation does with an outcome.
pub proof fn takes_seq_equal()
    ensures
        forall|w: World, o: OutcomeView| #[trigger]
            apply_next(w, Kont::Compare(CompareKont::SeqEqual), o) == seq_equal(w, o),
{
    applies_compare(CompareKont::SeqEqual);
    reveal(apply_compare);
}

/// What this continuation does with an outcome.
pub proof fn takes_membership_invoke(needle: PyObjectRef)
    ensures
        forall|w: World, o: OutcomeView| #[trigger]
            apply_next(
                w,
                Kont::Compare(CompareKont::MembershipInvoke { needle }),
                o,
            ) == membership_bound(w, needle, o),
{
    applies_compare(CompareKont::MembershipInvoke { needle });
    reveal(apply_compare);
}

/// What this continuation does with an outcome.
pub proof fn takes_membership_iter(needle: PyObjectRef)
    ensures
        forall|w: World, o: OutcomeView| #[trigger]
            apply_next(
                w,
                Kont::Compare(CompareKont::MembershipIter { needle }),
                o,
            ) == membership_iter(w, needle, o),
{
    applies_compare(CompareKont::MembershipIter { needle });
    reveal(apply_compare);
}

/// What this continuation does with an outcome.
pub proof fn takes_membership_next(iter: PyObjectRef, needle: PyObjectRef)
    ensures
        forall|w: World, o: OutcomeView| #[trigger]
            apply_next(
                w,
                Kont::Compare(CompareKont::MembershipNext { iter, needle }),
                o,
            ) == membership_element(w, iter, needle, o),
{
    applies_compare(CompareKont::MembershipNext { iter, needle });
    reveal(apply_compare);
}

/// What this continuation does with an outcome.
pub proof fn takes_membership_equal(iter: PyObjectRef, needle: PyObjectRef)
    ensures
        forall|w: World, o: OutcomeView| #[trigger]
            apply_next(
                w,
                Kont::Compare(CompareKont::MembershipEqual { iter, needle }),
                o,
            ) == membership_compared(w, iter, needle, o),
{
    applies_compare(CompareKont::MembershipEqual { iter, needle });
    reveal(apply_compare);
}

/// What this continuation does with an outcome.
pub proof fn takes_import_modules(module: Seq<char>)
    ensures
        forall|w: World, o: OutcomeView| #[trigger]
            apply_next(
                w,
                Kont::Module(ModuleKont::ImportModules { module }),
                o,
            ) == import_modules(w, module, o),
{
    applies_module(ModuleKont::ImportModules { module });
    reveal(apply_module);
}

/// What this continuation does with an outcome.
pub proof fn takes_import_func(module: Seq<char>, from_list: PyObjectRef, level: usize)
    ensures
        forall|w: World, o: OutcomeView| #[trigger]
            apply_next(
                w,
                Kont::Module(ModuleKont::ImportFunc { module, from_list, level }),
                o,
            ) == import_found(w, module, from_list, level, o),
{
    applies_module(ModuleKont::ImportFunc { module, from_list, level });
    reveal(apply_module);
}

/// What this continuation does with an outcome.
pub proof fn takes_import_done()
    ensures
        forall|w: World, o: OutcomeView| #[trigger]
            apply_next(w, Kont::Module(ModuleKont::ImportDone), o) == import_done(w, o),
{
    applies_module(ModuleKont::ImportDone);
    reveal(apply_module);
}

/// What this continuation does with an outcome.
pub proof fn takes_raise()
    ensures
        forall|w: World, o: OutcomeView| #[trigger]
            apply_next(w, Kont::Module(ModuleKont::Raise), o) == raised(w, o),
{
    applies_module(ModuleKont::Raise);
    reveal(apply_module);
}

/// What this continuation does with an outcome.
pub proof fn takes_set_attrs(
    exc: PyBaseExceptionRef,
    names: Seq<PyStrRef>,
    values: Seq<PyObjectRef>,
)
    ensures
        forall|w: World, o: OutcomeView| #[trigger]
            apply_next(
                w,
                Kont::Module(ModuleKont::SetAttrs { exc, names, values }),
                o,
            ) == attr_set(w, exc, names, values, o),
{
    applies_module(ModuleKont::SetAttrs { exc, names, values });
    reveal(apply_module);
}

/// What this continuation does with an outcome.
pub proof fn takes_class_module(class: Seq<char>)
    ensures
        forall|w: World, o: OutcomeView| #[trigger]
            apply_next(
                w,
                Kont::Module(ModuleKont::ClassModule { class }),
                o,
            ) == class_module(w, class, o),
{
    applies_module(ModuleKont::ClassModule { class });
    reveal(apply_module);
}

/// What this continuation does with an outcome.
pub proof fn takes_class_found()
    ensures
        forall|w: World, o: OutcomeView| #[trigger]
            apply_next(w, Kont::Module(ModuleKont::ClassFound), o) == class_found(w, o),
{
    applies_module(ModuleKont::ClassFound);
    reveal(apply_module);
}

/// What this continuation does with an outcome.
pub proof fn takes_needed_module(class: Seq<char>)
    ensures
        forall|w: World, o: OutcomeView| #[trigger]
            apply_next(
                w,
                Kont::Module(ModuleKont::NeededModule { class }),
                o,
            ) == needed_module(w, class, o),
{
    applies_module(ModuleKont::NeededModule { class });
    reveal(apply_module);
}

/// What this continuation does with an outcome.
pub proof fn takes_needed_class(module: PyObjectRef)
    ensures
        forall|w: World, o: OutcomeView| #[trigger]
            apply_next(
                w,
                Kont::Module(ModuleKont::NeededClass { module }),
                o,
            ) == needed_class(w, module, o),
{
    applies_module(ModuleKont::NeededClass { module });
    reveal(apply_module);
}

/// What this continuation does with an outcome.
pub proof fn takes_codec_module(func: Seq<char>, args: Seq<PyObjectRef>)
    ensures
        forall|w: World, o: OutcomeView| #[trigger]
            apply_next(
                w,
                Kont::Module(ModuleKont::CodecModule { func, args }),
                o,
            ) == codec_module(w, func, args, o),
{
    applies_module(ModuleKont::CodecModule { func, args });
    reveal(apply_module);
}

/// What this continuation does with an outcome.
pub proof fn takes_module_made(dict: PyDictRef)
    ensures
        forall|w: World, o: OutcomeView| #[trigger]
            apply_next(
                w,
                Kont::Module(ModuleKont::ModuleMade { dict }),
                o,
            ) == module_made(w, dict, o),
{
    applies_module(ModuleKont::ModuleMade { dict });
    reveal(apply_module);
}

} // verus!

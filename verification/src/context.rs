//! The built-in classes and singletons that every interpreter starts with.
use crate::object::{
    attributes_view, next_ref, Heap, ObjectView, Payload, PayloadView, PyDictRef, PyIntRef,
    PyObjectRef, PyStrRef, PyType, PyTypeRef, PyTypeSlots, SlotFunc, TypeView,
};
use vstd::prelude::*;

verus! {

/// The number of built-in classes.
pub const BUILTIN_CLASSES: usize = 37;

/// The slot of `object` that looks attributes up.
pub const OBJECT_GETATTRO: u64 = 0;

/// The slot of `object` that compares.
pub const OBJECT_COMPARE: u64 = 1;

/// The slot of `object` that hashes.
pub const OBJECT_HASH: u64 = 2;

/// The slot of `type` that makes an instance.
pub const TYPE_CALL: u64 = 3;

pub open spec fn spec_builtin_name(i: int) -> Seq<char> {
    if i == 0 { "object"@ }
    else if i == 1 { "type"@ }
    else if i == 2 { "NoneType"@ }
    else if i == 3 { "NotImplementedType"@ }
    else if i == 4 { "int"@ }
    else if i == 5 { "bool"@ }
    else if i == 6 { "str"@ }
    else if i == 7 { "tuple"@ }
    else if i == 8 { "list"@ }
    else if i == 9 { "dict"@ }
    else if i == 10 { "module"@ }
    else if i == 11 { "frame"@ }
    else if i == 12 { "BaseException"@ }
    else if i == 13 { "SystemExit"@ }
    else if i == 14 { "Exception"@ }
    else if i == 15 { "LookupError"@ }
    else if i == 16 { "IndexError"@ }
    else if i == 17 { "KeyError"@ }
    else if i == 18 { "AttributeError"@ }
    else if i == 19 { "TypeError"@ }
    else if i == 20 { "NameError"@ }
    else if i == 21 { "OSError"@ }
    else if i == 22 { "ValueError"@ }
    else if i == 23 { "UnicodeError"@ }
    else if i == 24 { "UnicodeDecodeError"@ }
    else if i == 25 { "UnicodeEncodeError"@ }
    else if i == 26 { "RuntimeError"@ }
    else if i == 27 { "NotImplementedError"@ }
    else if i == 28 { "RecursionError"@ }
    else if i == 29 { "ArithmeticError"@ }
    else if i == 30 { "ZeroDivisionError"@ }
    else if i == 31 { "OverflowError"@ }
    else if i == 32 { "SyntaxError"@ }
    else if i == 33 { "IndentationError"@ }
    else if i == 34 { "TabError"@ }
    else if i == 35 { "ImportError"@ }
    else { "code"@ }
}

fn builtin_name(i: usize) -> (name: &'static str)
    ensures
        name@ == spec_builtin_name(i as int),
{
    match i {
        0 => "object",
        1 => "type",
        2 => "NoneType",
        3 => "NotImplementedType",
        4 => "int",
        5 => "bool",
        6 => "str",
        7 => "tuple",
        8 => "list",
        9 => "dict",
        10 => "module",
        11 => "frame",
        12 => "BaseException",
        13 => "SystemExit",
        14 => "Exception",
        15 => "LookupError",
        16 => "IndexError",
        17 => "KeyError",
        18 => "AttributeError",
        19 => "TypeError",
        20 => "NameError",
        21 => "OSError",
        22 => "ValueError",
        23 => "UnicodeError",
        24 => "UnicodeDecodeError",
        25 => "UnicodeEncodeError",
        26 => "RuntimeError",
        27 => "NotImplementedError",
        28 => "RecursionError",
        29 => "ArithmeticError",
        30 => "ZeroDivisionError",
        31 => "OverflowError",
        32 => "SyntaxError",
        33 => "IndentationError",
        34 => "TabError",
        35 => "ImportError",
        _ => "code",
    }
}

/// The base of a built-in class other than `object`.
pub open spec fn spec_builtin_base(i: int) -> int {
    if i == 5 { 4 }
    else if i == 13 || i == 14 { 12 }
    else if i == 16 || i == 17 { 15 }
    else if i == 23 { 22 }
    else if i == 24 || i == 25 { 23 }
    else if i == 27 || i == 28 { 26 }
    else if i == 30 || i == 31 { 29 }
    else if i == 33 { 32 }
    else if i == 34 { 33 }
    else if 15 <= i < 36 { 14 }
    else { 0 }
}

fn builtin_base(i: usize) -> (base: usize)
    ensures
        base == spec_builtin_base(i as int),
{
    match i {
        5 => 4,
        13 | 14 => 12,
        16 | 17 => 15,
        23 => 22,
        24 | 25 => 23,
        27 | 28 => 26,
        30 | 31 => 29,
        33 => 32,
        34 => 33,
        _ => if 15 <= i && i < 36 { 14 } else { 0 },
    }
}

/// The method resolution order of a built-in class.
pub open spec fn builtin_mro(i: int) -> Seq<PyTypeRef>
    decreases i,
{
    if i <= 0 {
        seq![PyObjectRef { id: 0 }]
    } else {
        seq![PyObjectRef { id: i as usize }] + builtin_mro(spec_builtin_base(i))
    }
}

/// `object` looks attributes up, compares and hashes; `type` can be called.
pub open spec fn spec_builtin_slots(i: int) -> PyTypeSlots {
    if i == 0 {
        PyTypeSlots {
            call: None,
            descr_get: None,
            getattro: Some(SlotFunc { id: OBJECT_GETATTRO }),
            compare: Some(SlotFunc { id: OBJECT_COMPARE }),
            hash: Some(SlotFunc { id: OBJECT_HASH }),
        }
    } else if i == 1 {
        PyTypeSlots {
            call: Some(SlotFunc { id: TYPE_CALL }),
            descr_get: None,
            getattro: None,
            compare: None,
            hash: None,
        }
    } else {
        PyTypeSlots::spec_empty()
    }
}

fn builtin_slots(i: usize) -> (slots: PyTypeSlots)
    ensures
        slots == spec_builtin_slots(i as int),
{
    if i == 0 {
        PyTypeSlots {
            call: None,
            descr_get: None,
            getattro: Some(SlotFunc { id: OBJECT_GETATTRO }),
            compare: Some(SlotFunc { id: OBJECT_COMPARE }),
            hash: Some(SlotFunc { id: OBJECT_HASH }),
        }
    } else if i == 1 {
        PyTypeSlots {
            call: Some(SlotFunc { id: TYPE_CALL }),
            descr_get: None,
            getattro: None,
            compare: None,
            hash: None,
        }
    } else {
        PyTypeSlots::empty()
    }
}

/// The `i`-th built-in class.
pub open spec fn builtin_class(i: int) -> ObjectView {
    ObjectView {
        class: PyObjectRef { id: 1 },
        dict: None,
        payload: PayloadView::Type(
            TypeView {
                name: spec_builtin_name(i),
                mro: builtin_mro(i),
                attributes: Seq::empty(),
                slots: spec_builtin_slots(i),
            },
        ),
    }
}

/// The `i`-th object that exists before the machine: the built-in classes, and
/// after them None, NotImplemented, True and False.
pub open spec fn initial_object(i: int) -> ObjectView {
    if i < BUILTIN_CLASSES {
        builtin_class(i)
    } else if i == 37 {
        ObjectView { class: PyObjectRef { id: 2 }, dict: None, payload: PayloadView::Opaque }
    } else if i == 38 {
        ObjectView { class: PyObjectRef { id: 3 }, dict: None, payload: PayloadView::Opaque }
    } else {
        ObjectView {
            class: PyObjectRef { id: 5 },
            dict: None,
            payload: PayloadView::Bool(i == 39),
        }
    }
}

/// The heap before the machine is made.
pub open spec fn initial_heap() -> Seq<ObjectView> {
    Seq::new(41, |i: int| initial_object(i))
}

/// The built-in classes that the machine itself names.
#[derive(Clone, Copy, Debug)]
pub struct TypeZoo {
    pub object_type: PyTypeRef,
    pub type_type: PyTypeRef,
    pub none_type: PyTypeRef,
    pub not_implemented_type: PyTypeRef,
    pub int_type: PyTypeRef,
    pub bool_type: PyTypeRef,
    pub str_type: PyTypeRef,
    pub tuple_type: PyTypeRef,
    pub list_type: PyTypeRef,
    pub dict_type: PyTypeRef,
    pub module_type: PyTypeRef,
    pub frame_type: PyTypeRef,
    pub code_type: PyTypeRef,
}

/// The built-in exceptions that the machine raises or looks for.
#[derive(Clone, Copy, Debug)]
pub struct ExceptionZoo {
    pub system_exit: PyTypeRef,
    pub lookup_error: PyTypeRef,
    pub index_error: PyTypeRef,
    pub key_error: PyTypeRef,
    pub attribute_error: PyTypeRef,
    pub type_error: PyTypeRef,
    pub name_error: PyTypeRef,
    pub os_error: PyTypeRef,
    pub value_error: PyTypeRef,
    pub unicode_decode_error: PyTypeRef,
    pub unicode_encode_error: PyTypeRef,
    pub runtime_error: PyTypeRef,
    pub not_implemented_error: PyTypeRef,
    pub recursion_error: PyTypeRef,
    pub zero_division_error: PyTypeRef,
    pub overflow_error: PyTypeRef,
    pub syntax_error: PyTypeRef,
    pub indentation_error: PyTypeRef,
    pub tab_error: PyTypeRef,
    pub import_error: PyTypeRef,
}

/// The objects that the machine knows by name.
#[derive(Clone, Copy, Debug)]
pub struct PyContext {
    pub none: PyObjectRef,
    pub not_implemented: PyObjectRef,
    pub true_value: PyObjectRef,
    pub false_value: PyObjectRef,
    pub types: TypeZoo,
    pub exceptions: ExceptionZoo,
}

pub open spec fn initial_context() -> PyContext {
    PyContext {
        none: PyObjectRef { id: 37 },
        not_implemented: PyObjectRef { id: 38 },
        true_value: PyObjectRef { id: 39 },
        false_value: PyObjectRef { id: 40 },
        types: TypeZoo {
            object_type: PyObjectRef { id: 0 },
            type_type: PyObjectRef { id: 1 },
            none_type: PyObjectRef { id: 2 },
            not_implemented_type: PyObjectRef { id: 3 },
            int_type: PyObjectRef { id: 4 },
            bool_type: PyObjectRef { id: 5 },
            str_type: PyObjectRef { id: 6 },
            tuple_type: PyObjectRef { id: 7 },
            list_type: PyObjectRef { id: 8 },
            dict_type: PyObjectRef { id: 9 },
            module_type: PyObjectRef { id: 10 },
            frame_type: PyObjectRef { id: 11 },
            code_type: PyObjectRef { id: 36 },
        },
        exceptions: ExceptionZoo {
            system_exit: PyObjectRef { id: 13 },
            lookup_error: PyObjectRef { id: 15 },
            index_error: PyObjectRef { id: 16 },
            key_error: PyObjectRef { id: 17 },
            attribute_error: PyObjectRef { id: 18 },
            type_error: PyObjectRef { id: 19 },
            name_error: PyObjectRef { id: 20 },
            os_error: PyObjectRef { id: 21 },
            value_error: PyObjectRef { id: 22 },
            unicode_decode_error: PyObjectRef { id: 24 },
            unicode_encode_error: PyObjectRef { id: 25 },
            runtime_error: PyObjectRef { id: 26 },
            not_implemented_error: PyObjectRef { id: 27 },
            recursion_error: PyObjectRef { id: 28 },
            zero_division_error: PyObjectRef { id: 30 },
            overflow_error: PyObjectRef { id: 31 },
            syntax_error: PyObjectRef { id: 32 },
            indentation_error: PyObjectRef { id: 33 },
            tab_error: PyObjectRef { id: 34 },
            import_error: PyObjectRef { id: 35 },
        },
    }
}

impl PyContext {
    /// The built-in classes and singletons, and the heap that holds them. The classes
    /// have no attributes yet: those are the host's to fill in.
    pub fn new() -> (made: (PyContext, Heap))
        ensures
            made.0 == initial_context(),
            made.1@ == initial_heap(),
    {
        let mut heap = Heap::new();
        let mut i: usize = 0;
        while i < BUILTIN_CLASSES
            invariant
                i <= BUILTIN_CLASSES,
                heap@ == Seq::new(i as nat, |j: int| initial_object(j)),
            decreases BUILTIN_CLASSES - i,
        {
            let mro = PyContext::builtin_mro(i);
            let class = PyType {
                name: builtin_name(i).to_owned(),
                mro,
                attributes: Vec::new(),
                slots: builtin_slots(i),
            };
            assert(attributes_view(class.attributes@) =~= Seq::empty());
            heap.new_object(PyObjectRef { id: 1 }, None, Payload::Type(class));
            i = i + 1;
            assert(heap@ =~= Seq::new(i as nat, |j: int| initial_object(j)));
        }
        heap.new_object(PyObjectRef { id: 2 }, None, Payload::Opaque);
        heap.new_object(PyObjectRef { id: 3 }, None, Payload::Opaque);
        heap.new_object(PyObjectRef { id: 5 }, None, Payload::Bool(true));
        heap.new_object(PyObjectRef { id: 5 }, None, Payload::Bool(false));
        assert(heap@ =~= initial_heap());
        (PyContext::builtin_refs(), heap)
    }

    fn builtin_mro(i: usize) -> (mro: Vec<PyTypeRef>)
        ensures
            mro@ == builtin_mro(i as int),
    {
        let mut mro: Vec<PyTypeRef> = Vec::new();
        let mut at: usize = i;
        assert(mro@ + builtin_mro(at as int) =~= builtin_mro(i as int));
        while at > 0
            invariant
                mro@ + builtin_mro(at as int) == builtin_mro(i as int),
            decreases at,
        {
            let base: usize = builtin_base(at);
            assert(mro@.push(PyObjectRef { id: at }) + builtin_mro(base as int) =~= mro@
                + builtin_mro(at as int));
            mro.push(PyObjectRef { id: at });
            at = base;
        }
        assert(mro@.push(PyObjectRef { id: 0 }) =~= mro@ + builtin_mro(0));
        mro.push(PyObjectRef { id: 0 });
        mro
    }

    fn builtin_refs() -> (ctx: PyContext)
        ensures
            ctx == initial_context(),
    {
        PyContext {
            none: PyObjectRef { id: 37 },
            not_implemented: PyObjectRef { id: 38 },
            true_value: PyObjectRef { id: 39 },
            false_value: PyObjectRef { id: 40 },
            types: TypeZoo {
                object_type: PyObjectRef { id: 0 },
                type_type: PyObjectRef { id: 1 },
                none_type: PyObjectRef { id: 2 },
                not_implemented_type: PyObjectRef { id: 3 },
                int_type: PyObjectRef { id: 4 },
                bool_type: PyObjectRef { id: 5 },
                str_type: PyObjectRef { id: 6 },
                tuple_type: PyObjectRef { id: 7 },
                list_type: PyObjectRef { id: 8 },
                dict_type: PyObjectRef { id: 9 },
                module_type: PyObjectRef { id: 10 },
                frame_type: PyObjectRef { id: 11 },
                code_type: PyObjectRef { id: 36 },
            },
            exceptions: ExceptionZoo {
                system_exit: PyObjectRef { id: 13 },
                lookup_error: PyObjectRef { id: 15 },
                index_error: PyObjectRef { id: 16 },
                key_error: PyObjectRef { id: 17 },
                attribute_error: PyObjectRef { id: 18 },
                type_error: PyObjectRef { id: 19 },
                name_error: PyObjectRef { id: 20 },
                os_error: PyObjectRef { id: 21 },
                value_error: PyObjectRef { id: 22 },
                unicode_decode_error: PyObjectRef { id: 24 },
                unicode_encode_error: PyObjectRef { id: 25 },
                runtime_error: PyObjectRef { id: 26 },
                not_implemented_error: PyObjectRef { id: 27 },
                recursion_error: PyObjectRef { id: 28 },
                zero_division_error: PyObjectRef { id: 30 },
                overflow_error: PyObjectRef { id: 31 },
                syntax_error: PyObjectRef { id: 32 },
                indentation_error: PyObjectRef { id: 33 },
                tab_error: PyObjectRef { id: 34 },
                import_error: PyObjectRef { id: 35 },
            },
        }
    }
}

/// A string object.
pub open spec fn str_object(ctx: PyContext, text: Seq<char>) -> ObjectView {
    ObjectView { class: ctx.types.str_type, dict: None, payload: PayloadView::Str(text) }
}

/// An integer object.
pub open spec fn int_object(ctx: PyContext, value: i128) -> ObjectView {
    ObjectView { class: ctx.types.int_type, dict: None, payload: PayloadView::Int(value) }
}

/// A tuple object.
pub open spec fn tuple_object(ctx: PyContext, items: Seq<PyObjectRef>) -> ObjectView {
    ObjectView { class: ctx.types.tuple_type, dict: None, payload: PayloadView::Tuple(items) }
}

/// A list object.
pub open spec fn list_object(ctx: PyContext, items: Seq<PyObjectRef>) -> ObjectView {
    ObjectView { class: ctx.types.list_type, dict: None, payload: PayloadView::List(items) }
}

/// A dictionary object; what it holds is the host's.
pub open spec fn dict_object(ctx: PyContext) -> ObjectView {
    ObjectView { class: ctx.types.dict_type, dict: None, payload: PayloadView::Opaque }
}

/// The object that a bool is.
pub open spec fn bool_ref(ctx: PyContext, b: bool) -> PyObjectRef {
    if b {
        ctx.true_value
    } else {
        ctx.false_value
    }
}

impl PyContext {
    /// Makes a string.
    pub fn new_str(&self, heap: &mut Heap, text: String) -> (obj: PyStrRef)
        ensures
            obj == next_ref(old(heap)@),
            final(heap)@ == old(heap)@.push(str_object(*self, text@)),
    {
        heap.new_object(self.types.str_type, None, Payload::Str(text))
    }

    /// Makes an integer.
    pub fn new_int(&self, heap: &mut Heap, value: i128) -> (obj: PyIntRef)
        ensures
            obj == next_ref(old(heap)@),
            final(heap)@ == old(heap)@.push(int_object(*self, value)),
    {
        heap.new_object(self.types.int_type, None, Payload::Int(value))
    }

    /// Makes a tuple.
    pub fn new_tuple(&self, heap: &mut Heap, items: Vec<PyObjectRef>) -> (obj: PyObjectRef)
        ensures
            obj == next_ref(old(heap)@),
            final(heap)@ == old(heap)@.push(tuple_object(*self, items@)),
    {
        heap.new_object(self.types.tuple_type, None, Payload::Tuple(items))
    }

    /// Makes a list.
    pub fn new_list(&self, heap: &mut Heap, items: Vec<PyObjectRef>) -> (obj: PyObjectRef)
        ensures
            obj == next_ref(old(heap)@),
            final(heap)@ == old(heap)@.push(list_object(*self, items@)),
    {
        heap.new_object(self.types.list_type, None, Payload::List(items))
    }

    /// Makes a dictionary.
    pub fn new_dict(&self, heap: &mut Heap) -> (obj: PyDictRef)
        ensures
            obj == next_ref(old(heap)@),
            final(heap)@ == old(heap)@.push(dict_object(*self)),
    {
        heap.new_object(self.types.dict_type, None, Payload::Opaque)
    }

    /// The object that a bool is.
    pub fn new_bool(&self, b: bool) -> (obj: PyObjectRef)
        ensures
            obj == bool_ref(*self, b),
    {
        if b {
            self.true_value
        } else {
            self.false_value
        }
    }
}

} // verus!

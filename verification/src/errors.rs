//! How the machine makes exceptions.
use crate::context::{dict_object, str_object, PyContext};
use crate::machine::{raises, Next, Step, VirtualMachine, World};
use crate::object::{
    class_name, next_ref, Heap, ObjectView, Payload, PayloadView, PyBaseExceptionRef, PyObjectRef,
    PyTypeRef,
};
use vstd::prelude::*;
use vstd::string::*;

verus! {

/// The heap after an exception with arguments was made, and the exception: an
/// instance of `exc_type` with a dictionary of its own.
pub open spec fn exception_made(
    ctx: PyContext,
    h: Seq<ObjectView>,
    exc_type: PyTypeRef,
    args: Seq<PyObjectRef>,
) -> (Seq<ObjectView>, PyBaseExceptionRef) {
    let with_dict = h.push(dict_object(ctx));
    (
        with_dict.push(
            ObjectView {
                class: exc_type,
                dict: Some(next_ref(h)),
                payload: PayloadView::Exception(args),
            },
        ),
        next_ref(with_dict),
    )
}

/// The heap after an exception with a message as its only argument was made,
/// and the exception.
pub open spec fn message_made(
    ctx: PyContext,
    h: Seq<ObjectView>,
    exc_type: PyTypeRef,
    msg: Seq<char>,
) -> (Seq<ObjectView>, PyBaseExceptionRef) {
    exception_made(ctx, h.push(str_object(ctx, msg)), exc_type, seq![next_ref(h)])
}

/// Raises an exception with a message.
#[verifier::opaque]
pub open spec fn raises_message(w: World, exc_type: PyTypeRef, msg: Seq<char>) -> Next {
    let made = message_made(w.vm.ctx, w.heap, exc_type, msg);
    raises(World { vm: w.vm, heap: made.0 }, made.1)
}

/// The message for operands that an operator does not support.
pub open spec fn operand_message(
    h: Seq<ObjectView>,
    a: PyObjectRef,
    b: PyObjectRef,
    op: Seq<char>,
) -> Seq<char> {
    "Unsupported operand types for '"@ + op + "': '"@ + class_name(h, a) + "' and '"@ + class_name(
        h,
        b,
    ) + "'"@
}

impl VirtualMachine {
    /// Instantiate an exception with arguments.
    /// This function should only be used with builtin exception types; a
    /// user-defined exception type may not be fully initialized.
    pub fn new_exception(
        &self,
        heap: &mut Heap,
        exc_type: PyTypeRef,
        args: Vec<PyObjectRef>,
    ) -> (exc: PyBaseExceptionRef)
        ensures
            (final(heap)@, exc) == exception_made(self.ctx, old(heap)@, exc_type, args@),
    {
        let dict = self.ctx.new_dict(heap);
        heap.new_object(exc_type, Some(dict), Payload::Exception(args))
    }

    /// Instantiate an exception with no arguments.
    pub fn new_exception_empty(&self, heap: &mut Heap, exc_type: PyTypeRef) -> (exc:
        PyBaseExceptionRef)
        ensures
            (final(heap)@, exc) == exception_made(self.ctx, old(heap)@, exc_type, Seq::empty()),
    {
        self.new_exception(heap, exc_type, Vec::new())
    }

    /// Instantiate an exception with `msg` as the only argument.
    pub fn new_exception_msg(&self, heap: &mut Heap, exc_type: PyTypeRef, msg: String) -> (exc:
        PyBaseExceptionRef)
        ensures
            (final(heap)@, exc) == message_made(self.ctx, old(heap)@, exc_type, msg@),
    {
        let text = self.ctx.new_str(heap, msg);
        let mut args: Vec<PyObjectRef> = Vec::new();
        args.push(text);
        assert(args@ =~= seq![text]);
        self.new_exception(heap, exc_type, args)
    }

    /// Raises an exception with `msg` as the only argument.
    pub(crate) fn raise_msg(
        &self,
        heap: &mut Heap,
        exc_type: PyTypeRef,
        msg: String,
    ) -> (step: Step)
        ensures
            (Next { world: World { vm: self@, heap: final(heap)@ }, step: step@ })
                == raises_message(World { vm: self@, heap: old(heap)@ }, exc_type, msg@),
    {
        reveal(raises_message);
        let exc = self.new_exception_msg(heap, exc_type, msg);
        Step::Done(Err(exc))
    }

    /// Create a new LookupError with a message.
    pub fn new_lookup_error(&self, heap: &mut Heap, msg: String) -> (exc: PyBaseExceptionRef)
        ensures
            (final(heap)@, exc) == message_made(
                self.ctx,
                old(heap)@,
                self.ctx.exceptions.lookup_error,
                msg@,
            ),
    {
        self.new_exception_msg(heap, self.ctx.exceptions.lookup_error, msg)
    }

    /// Create a new AttributeError with a message.
    pub fn new_attribute_error(&self, heap: &mut Heap, msg: String) -> (exc: PyBaseExceptionRef)
        ensures
            (final(heap)@, exc) == message_made(
                self.ctx,
                old(heap)@,
                self.ctx.exceptions.attribute_error,
                msg@,
            ),
    {
        self.new_exception_msg(heap, self.ctx.exceptions.attribute_error, msg)
    }

    /// Create a new TypeError with a message.
    pub fn new_type_error(&self, heap: &mut Heap, msg: String) -> (exc: PyBaseExceptionRef)
        ensures
            (final(heap)@, exc) == message_made(
                self.ctx,
                old(heap)@,
                self.ctx.exceptions.type_error,
                msg@,
            ),
    {
        self.new_exception_msg(heap, self.ctx.exceptions.type_error, msg)
    }

    /// Create a new NameError with a message.
    pub fn new_name_error(&self, heap: &mut Heap, msg: String) -> (exc: PyBaseExceptionRef)
        ensures
            (final(heap)@, exc) == message_made(
                self.ctx,
                old(heap)@,
                self.ctx.exceptions.name_error,
                msg@,
            ),
    {
        self.new_exception_msg(heap, self.ctx.exceptions.name_error, msg)
    }

    /// Create a new OSError with a message.
    pub fn new_os_error(&self, heap: &mut Heap, msg: String) -> (exc: PyBaseExceptionRef)
        ensures
            (final(heap)@, exc) == message_made(
                self.ctx,
                old(heap)@,
                self.ctx.exceptions.os_error,
                msg@,
            ),
    {
        self.new_exception_msg(heap, self.ctx.exceptions.os_error, msg)
    }

    /// Create a new UnicodeDecodeError with a message.
    pub fn new_unicode_decode_error(
        &self,
        heap: &mut Heap,
        msg: String,
    ) -> (exc: PyBaseExceptionRef)
        ensures
            (final(heap)@, exc) == message_made(
                self.ctx,
                old(heap)@,
                self.ctx.exceptions.unicode_decode_error,
                msg@,
            ),
    {
        self.new_exception_msg(heap, self.ctx.exceptions.unicode_decode_error, msg)
    }

    /// Create a new UnicodeEncodeError with a message.
    pub fn new_unicode_encode_error(
        &self,
        heap: &mut Heap,
        msg: String,
    ) -> (exc: PyBaseExceptionRef)
        ensures
            (final(heap)@, exc) == message_made(
                self.ctx,
                old(heap)@,
                self.ctx.exceptions.unicode_encode_error,
                msg@,
            ),
    {
        self.new_exception_msg(heap, self.ctx.exceptions.unicode_encode_error, msg)
    }

    /// Create a new ValueError with a message.
    /// Useful for raising errors from python functions that the host implements.
    pub fn new_value_error(&self, heap: &mut Heap, msg: String) -> (exc: PyBaseExceptionRef)
        ensures
            (final(heap)@, exc) == message_made(
                self.ctx,
                old(heap)@,
                self.ctx.exceptions.value_error,
                msg@,
            ),
    {
        self.new_exception_msg(heap, self.ctx.exceptions.value_error, msg)
    }

    /// Create a new IndexError with a message.
    pub fn new_index_error(&self, heap: &mut Heap, msg: String) -> (exc: PyBaseExceptionRef)
        ensures
            (final(heap)@, exc) == message_made(
                self.ctx,
                old(heap)@,
                self.ctx.exceptions.index_error,
                msg@,
            ),
    {
        self.new_exception_msg(heap, self.ctx.exceptions.index_error, msg)
    }

    /// Create a new NotImplementedError with a message.
    pub fn new_not_implemented_error(
        &self,
        heap: &mut Heap,
        msg: String,
    ) -> (exc: PyBaseExceptionRef)
        ensures
            (final(heap)@, exc) == message_made(
                self.ctx,
                old(heap)@,
                self.ctx.exceptions.not_implemented_error,
                msg@,
            ),
    {
        self.new_exception_msg(heap, self.ctx.exceptions.not_implemented_error, msg)
    }

    /// Create a new RecursionError with a message.
    pub fn new_recursion_error(&self, heap: &mut Heap, msg: String) -> (exc: PyBaseExceptionRef)
        ensures
            (final(heap)@, exc) == message_made(
                self.ctx,
                old(heap)@,
                self.ctx.exceptions.recursion_error,
                msg@,
            ),
    {
        self.new_exception_msg(heap, self.ctx.exceptions.recursion_error, msg)
    }

    /// Create a new ZeroDivisionError with a message.
    pub fn new_zero_division_error(&self, heap: &mut Heap, msg: String) -> (exc: PyBaseExceptionRef)
        ensures
            (final(heap)@, exc) == message_made(
                self.ctx,
                old(heap)@,
                self.ctx.exceptions.zero_division_error,
                msg@,
            ),
    {
        self.new_exception_msg(heap, self.ctx.exceptions.zero_division_error, msg)
    }

    /// Create a new OverflowError with a message.
    pub fn new_overflow_error(&self, heap: &mut Heap, msg: String) -> (exc: PyBaseExceptionRef)
        ensures
            (final(heap)@, exc) == message_made(
                self.ctx,
                old(heap)@,
                self.ctx.exceptions.overflow_error,
                msg@,
            ),
    {
        self.new_exception_msg(heap, self.ctx.exceptions.overflow_error, msg)
    }

    /// Create a new RuntimeError with a message.
    pub fn new_runtime_error(&self, heap: &mut Heap, msg: String) -> (exc: PyBaseExceptionRef)
        ensures
            (final(heap)@, exc) == message_made(
                self.ctx,
                old(heap)@,
                self.ctx.exceptions.runtime_error,
                msg@,
            ),
    {
        self.new_exception_msg(heap, self.ctx.exceptions.runtime_error, msg)
    }

    /// Create a new KeyError with the key as its argument.
    pub fn new_key_error(&self, heap: &mut Heap, obj: PyObjectRef) -> (exc: PyBaseExceptionRef)
        ensures
            (final(heap)@, exc) == exception_made(
                self.ctx,
                old(heap)@,
                self.ctx.exceptions.key_error,
                seq![obj],
            ),
    {
        let mut args: Vec<PyObjectRef> = Vec::new();
        args.push(obj);
        assert(args@ =~= seq![obj]);
        self.new_exception(heap, self.ctx.exceptions.key_error, args)
    }

    pub(crate) fn operand_message(heap: &Heap, a: PyObjectRef, b: PyObjectRef, op: &str) -> (msg:
        String)
        ensures
            msg@ == operand_message(heap@, a, b, op@),
    {
        let head = "Unsupported operand types for '".to_owned().concat(op).concat("': '");
        head.concat(heap.class_name(a).as_str()).concat("' and '").concat(
            heap.class_name(b).as_str(),
        ).concat("'")
    }

    /// Create the TypeError for operands that an operator does not support.
    pub fn new_unsupported_operand_error(
        &self,
        heap: &mut Heap,
        a: PyObjectRef,
        b: PyObjectRef,
        op: &str,
    ) -> (exc: PyBaseExceptionRef)
        ensures
            (final(heap)@, exc) == message_made(
                self.ctx,
                old(heap)@,
                self.ctx.exceptions.type_error,
                operand_message(old(heap)@, a, b, op@),
            ),
    {
        let msg = VirtualMachine::operand_message(heap, a, b, op);
        self.new_type_error(heap, msg)
    }
}

} // verus!

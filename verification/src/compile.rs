//! Compiling source text.
use crate::machine::VirtualMachine;
use crate::object::{next_ref, Heap, ObjectView, Payload, PayloadView, PyCodeRef};
use crate::context::PyContext;
use vstd::prelude::*;
use vstd::string::*;

verus! {

/// What a source text is compiled as.
#[derive(Clone, Copy, PartialEq, Eq, Structural, Debug)]
pub enum Mode {
    Exec,
    Eval,
    Single,
}

/// Options of the compiler.
#[derive(Clone, Copy, PartialEq, Eq, Structural, Debug)]
pub struct CompileOpts {
    pub optimize: u8,
}

/// An error that the compiler found.
pub struct CompileError {
    pub is_indentation_error: bool,
    pub is_tab_error: bool,
    pub message: String,
    pub row: usize,
    pub column: usize,
    /// The source text that it is in.
    pub statement: Option<String>,
    pub source_path: String,
}

/// What the host is to compile.
pub struct CompileRequest {
    pub source: String,
    pub mode: Mode,
    pub source_path: String,
    pub opts: CompileOpts,
}

/// The characters with the Unicode property White_Space.
pub open spec fn is_white_space(c: char) -> bool {
    let n = c as int;
    ||| 0x9 <= n <= 0xd
    ||| n == 0x20
    ||| n == 0x85
    ||| n == 0xa0
    ||| n == 0x1680
    ||| 0x2000 <= n <= 0x200a
    ||| n == 0x2028
    ||| n == 0x2029
    ||| n == 0x202f
    ||| n == 0x205f
    ||| n == 0x3000
}

/// A text without the white space at its end.
pub open spec fn trimmed(s: Seq<char>) -> Seq<char>
    decreases s.len(),
{
    if s.len() > 0 && is_white_space(s.last()) {
        trimmed(s.drop_last())
    } else {
        s
    }
}

fn white_space(c: char) -> (b: bool)
    ensures
        b == is_white_space(c),
{
    let n: u32 = c as u32;
    (0x9 <= n && n <= 0xd) || n == 0x20 || n == 0x85 || n == 0xa0 || n == 0x1680 || (0x2000 <= n
        && n <= 0x200a) || n == 0x2028 || n == 0x2029 || n == 0x202f || n == 0x205f || n
        == 0x3000
}

/// The text without the white space at its end.
fn trim_end(s: &str) -> (t: String)
    ensures
        t@ == trimmed(s@),
{
    let mut end: usize = s.unicode_len();
    assert(s@.take(end as int) =~= s@);
    while end > 0 && white_space(s.get_char(end - 1))
        invariant
            end <= s@.len(),
            trimmed(s@) == trimmed(s@.take(end as int)),
        decreases end,
    {
        assert(s@.take(end as int).drop_last() =~= s@.take(end - 1));
        end = end - 1;
    }
    let kept = s.substring_char(0, end);
    assert(kept@ =~= s@.take(end as int));
    kept.to_owned()
}

/// A code object; `code` is the host's number for the code.
pub open spec fn code_object(ctx: PyContext, code: u64) -> ObjectView {
    ObjectView { class: ctx.types.code_type, dict: None, payload: PayloadView::Native(code) }
}

impl VirtualMachine {
    /// Returns a basic CompileOpts instance with options accurate to the vm. Used
    /// as the CompileOpts for `vm.compile()`.
    pub fn compile_opts(&self) -> (opts: CompileOpts)
        ensures
            opts.optimize == self.state.settings.optimize,
    {
        CompileOpts { optimize: self.state.settings.optimize }
    }

    /// What the host is to compile, with the options of the machine.
    pub fn compile(
        &self,
        source: &str,
        mode: Mode,
        source_path: String,
    ) -> (request: CompileRequest)
        ensures
            request.source@ == source@,
            request.mode == mode,
            request.source_path == source_path,
            request.opts.optimize == self.state.settings.optimize,
    {
        self.compile_with_opts(source, mode, source_path, self.compile_opts())
    }

    /// What the host is to compile.
    pub fn compile_with_opts(
        &self,
        source: &str,
        mode: Mode,
        source_path: String,
        opts: CompileOpts,
    ) -> (request: CompileRequest)
        ensures
            request.source@ == source@,
            request.mode == mode,
            request.source_path == source_path,
            request.opts == opts,
    {
        CompileRequest { source: source.to_owned(), mode, source_path, opts }
    }

    /// What compiling comes to: code becomes a code object, and an error gets the
    /// source text without the white space at its end as its statement.
    pub fn compiled(
        &self,
        heap: &mut Heap,
        source: &str,
        result: Result<u64, CompileError>,
    ) -> (res:
        Result<PyCodeRef, CompileError>)
        ensures
            match result {
                Ok(code) => {
                    &&& res == Ok::<PyCodeRef, CompileError>(next_ref(old(heap)@))
                    &&& final(heap)@ == old(heap)@.push(code_object(self.ctx, code))
                },
                Err(error) => {
                    &&& final(heap)@ == old(heap)@
                    &&& res is Err
                    &&& res->Err_0.statement is Some
                    &&& res->Err_0.statement->0@ == trimmed(source@)
                    &&& res->Err_0 == CompileError { statement: res->Err_0.statement, ..error }
                },
            },
    {
        match result {
            Ok(code) => Ok(
                heap.new_object(self.ctx.types.code_type, None, Payload::Native(code)),
            ),
            Err(error) => {
                let mut error = error;
                error.statement = Some(trim_end(source));
                Err(error)
            },
        }
    }
}

} // verus!

//! The generated code: the trampoline of a task entry, and the entry sequence
//! and dispatch trampoline of an interrupt handler.
//!
//! Each fragment is the text of one function item. Its fixed parts are the
//! constants below; the names that vary are set in between them.

use vstd::prelude::*;
use vstd::string::StringExecFns;
use crate::declaration::{Declaration, DeclarationView};

verus! {

/// The symbol under which the task trampoline is exported. The runtime starts
/// the main task by calling this symbol.
pub const TASK_TRAMPOLINE_SYMBOL: &'static str = "__main_trampoline";

/// The task trampoline up to its symbol: the function is exported under its
/// own name.
pub const TASK_HEAD: &'static str = r#"#[no_mangle]
extern "Rust" fn "#;

/// The task trampoline from its symbol to the name of the entry function. The
/// argument is a slot that holds a pointer to the boxed peripherals. The
/// pointer is loaded once, sequentially consistent, and the box is taken over
/// from it: from here on the trampoline alone owns the value.
pub const TASK_TAKE_ARGUMENT: &'static str = r#"(arg: core::sync::atomic::AtomicPtr<u8>) {
    let arg = arg.load(core::sync::atomic::Ordering::SeqCst) as *mut cortex_m::Peripherals;
    let arg = unsafe { alloc::boxed::Box::from_raw(arg) };
    "#;

/// The task trampoline after the name of the entry function: the function is
/// called with the value moved out of the box.
pub const TASK_CALL: &'static str = r#"(*arg)
}
"#;

/// The text of the task trampoline that calls the entry function `entry`.
pub open spec fn task_trampoline_text(entry: Seq<char>) -> Seq<char> {
    TASK_HEAD@ + TASK_TRAMPOLINE_SYMBOL@ + TASK_TAKE_ARGUMENT@ + entry + TASK_CALL@
}

/// Writes the task trampoline that calls the entry function `entry`.
pub fn task_trampoline(entry: &str) -> (text: String)
    ensures
        text@ == task_trampoline_text(entry@),
{
    let mut text = TASK_HEAD.to_owned();
    text.append(TASK_TRAMPOLINE_SYMBOL);
    text.append(TASK_TAKE_ARGUMENT);
    text.append(entry);
    text.append(TASK_CALL);
    text
}

/// The common start of the symbols of a handler's two generated functions.
pub const HANDLER_SYMBOL_PREFIX: &'static str = "__hopter_";

/// The end of the symbol of an entry sequence.
pub const ENTRY_SYMBOL_SUFFIX: &'static str = "_entry";

/// The end of the symbol of a dispatch trampoline.
pub const DISPATCH_SYMBOL_SUFFIX: &'static str = "_trampoline";

/// The entry sequence up to the interrupt name: a function without prologue,
/// exported under the interrupt name, which is the symbol of the vector.
pub const ENTRY_HEAD: &'static str = r#"#[naked]
#[export_name = ""#;

/// The entry sequence between the interrupt name and the function's symbol.
pub const ENTRY_SIGNATURE: &'static str = r#""]
unsafe extern "C" fn "#;

/// The entry sequence between its symbol and its first instruction.
pub const ENTRY_OPEN: &'static str = r#"() {
    core::arch::asm!(
"#;

/// First step of the entry sequence: the three fields of the task local
/// storage and the exception return value go onto the stack.
pub const ENTRY_SAVE_CONTEXT: &'static str =
    r#"        // Preserve the task local storage (TLS) fields and exception return value.
        "ldr   r0, ={tls_mem_addr}",
        "ldmia r0, {{r1-r3}}",
        "push  {{r1-r3, lr}}",
"#;

/// Second step: the stack boundary field is set to the boundary of the
/// contiguous stack and the other two fields are cleared, so that the handler
/// sees nothing of the task that it interrupts.
pub const ENTRY_RESET_CONTEXT: &'static str =
    r#"        // Set the kernel stacklet boundary and clear out other fields in the TLS.
        "ldr   r1, ={cont_stk_boundary}",
        "mov   r2, #0",
        "strd  r1, r2, [r0]",
        "str   r2, [r0, #8]",
"#;

/// Third step: the dispatch trampoline runs.
pub const ENTRY_RUN_HANDLER: &'static str = r#"        // Run the IRQ handler.
        "bl    {handler_trampoline}",
"#;

/// Fourth step: the saved fields go back into the task local storage.
pub const ENTRY_RESTORE_CONTEXT: &'static str =
    r#"        // Restore the TLS fields and exception return value.
        "pop   {{r1-r3}}",
        "ldr   r0, ={tls_mem_addr}",
        "stmia r0, {{r1-r3}}",
"#;

/// Last step: the exception return value is popped into the program counter.
/// The sequence ends here and never returns as a call does.
pub const ENTRY_EXCEPTION_RETURN: &'static str = r#"        // Exception return.
        "pop   {{pc}}",
"#;

/// The operands of the entry sequence up to the symbol of the dispatch
/// trampoline.
pub const ENTRY_OPERANDS: &'static str =
    r#"        tls_mem_addr = const hopter::config::__TLS_MEM_ADDR,
        cont_stk_boundary = const hopter::config::__CONTIGUOUS_STACK_BOUNDARY,
        handler_trampoline = sym "#;

/// The entry sequence after the symbol of the dispatch trampoline.
pub const ENTRY_CLOSE: &'static str = r#",
        options(noreturn)
    )
}
"#;

/// The dispatch trampoline up to its symbol.
pub const DISPATCH_HEAD: &'static str = r#"unsafe extern "C" fn "#;

/// The dispatch trampoline from its symbol to the name of the handler: the
/// flag that tells whether an interrupt handler is unwinding is read and
/// cleared, and the handler is called where a panic is caught.
pub const DISPATCH_CATCH: &'static str = r#"() {
    let prev_is_handler_unwinding = hopter::unwind::unwind::save_and_clear_isr_unwinding();
    let _ = hopter::unwind::unw_catch::catch_unwind("#;

/// The dispatch trampoline after the name of the handler: what was caught is
/// dropped, and the flag gets its earlier value back.
pub const DISPATCH_RESTORE: &'static str = r#");
    hopter::unwind::unwind::set_isr_unwinding(prev_is_handler_unwinding);
}
"#;

/// The symbol of the entry sequence of the interrupt whose name in lower case
/// is `lower`.
pub open spec fn entry_symbol_text(lower: Seq<char>) -> Seq<char> {
    HANDLER_SYMBOL_PREFIX@ + lower + ENTRY_SYMBOL_SUFFIX@
}

/// The symbol of the dispatch trampoline of the interrupt whose name in lower
/// case is `lower`.
pub open spec fn dispatch_symbol_text(lower: Seq<char>) -> Seq<char> {
    HANDLER_SYMBOL_PREFIX@ + lower + DISPATCH_SYMBOL_SUFFIX@
}

/// The instructions of the entry sequence, step by step.
pub open spec fn entry_instructions() -> Seq<char> {
    ENTRY_SAVE_CONTEXT@ + ENTRY_RESET_CONTEXT@ + ENTRY_RUN_HANDLER@ + ENTRY_RESTORE_CONTEXT@
        + ENTRY_EXCEPTION_RETURN@
}

/// The text of the entry sequence of the interrupt `irq`, whose name in lower
/// case is `lower`.
pub open spec fn entry_sequence_text(irq: Seq<char>, lower: Seq<char>) -> Seq<char> {
    ENTRY_HEAD@ + irq + ENTRY_SIGNATURE@ + entry_symbol_text(lower) + ENTRY_OPEN@
        + entry_instructions() + ENTRY_OPERANDS@ + dispatch_symbol_text(lower) + ENTRY_CLOSE@
}

/// The text of the dispatch trampoline that calls the handler function
/// `handler` for the interrupt whose name in lower case is `lower`.
pub open spec fn dispatch_trampoline_text(lower: Seq<char>, handler: Seq<char>) -> Seq<char> {
    DISPATCH_HEAD@ + dispatch_symbol_text(lower) + DISPATCH_CATCH@ + handler + DISPATCH_RESTORE@
}

/// The result of a transformation: the generated fragments and the
/// declaration that they were generated for.
#[derive(Clone, Debug, PartialEq, Eq)]
pub struct GeneratedCode {
    /// The entry sequence. Only a handler has one.
    pub entry_sequence: Option<String>,
    /// The trampoline that calls the declared function.
    pub trampoline: String,
    /// The source text of the declaration, unchanged.
    pub declaration: String,
}

/// The mathematical value of a [`GeneratedCode`].
pub struct GeneratedCodeView {
    pub entry_sequence: Option<Seq<char>>,
    pub trampoline: Seq<char>,
    pub declaration: Seq<char>,
}

impl View for GeneratedCode {
    type V = GeneratedCodeView;

    open spec fn view(&self) -> GeneratedCodeView {
        GeneratedCodeView {
            entry_sequence: match self.entry_sequence {
                Some(text) => Some(text@),
                None => None,
            },
            trampoline: self.trampoline@,
            declaration: self.declaration@,
        }
    }
}

/// The fragments in the order in which they are set into the program: the
/// entry sequence, where there is one, the trampoline, and the declaration.
pub open spec fn code_text(code: GeneratedCodeView) -> Seq<char> {
    match code.entry_sequence {
        Some(entry) => entry + code.trampoline + code.declaration,
        None => code.trampoline + code.declaration,
    }
}

/// The code generated for a task entry.
pub open spec fn task_code(decl: DeclarationView) -> GeneratedCodeView {
    GeneratedCodeView {
        entry_sequence: None,
        trampoline: task_trampoline_text(decl.name),
        declaration: decl.source,
    }
}

/// The code generated for the handler of the interrupt `irq`, whose name in
/// lower case is `lower`.
pub open spec fn handler_code(irq: Seq<char>, lower: Seq<char>, decl: DeclarationView)
    -> GeneratedCodeView {
    GeneratedCodeView {
        entry_sequence: Some(entry_sequence_text(irq, lower)),
        trampoline: dispatch_trampoline_text(lower, decl.name),
        declaration: decl.source,
    }
}

/// The lower-case form that `str::to_lowercase` gives to a text: its
/// lower-case equivalent as Unicode defines it, which may differ from the text
/// in length.
pub uninterp spec fn lowercase_of(text: Seq<char>) -> Seq<char>;

/// Calls `str::to_lowercase`. This contract is believed, not proved. It claims
/// that the result depends on the text alone, and gives the result its name;
/// it claims nothing of what the lower-case form of a given text is.
#[verifier::external_body]
fn lowercase(text: &str) -> (lower: String)
    ensures
        lower@ == lowercase_of(text@),
{
    text.to_lowercase()
}

/// Writes the symbol of the entry sequence.
pub fn entry_symbol(lower: &str) -> (symbol: String)
    ensures
        symbol@ == entry_symbol_text(lower@),
{
    let mut symbol = HANDLER_SYMBOL_PREFIX.to_owned();
    symbol.append(lower);
    symbol.append(ENTRY_SYMBOL_SUFFIX);
    symbol
}

/// Writes the symbol of the dispatch trampoline.
pub fn dispatch_symbol(lower: &str) -> (symbol: String)
    ensures
        symbol@ == dispatch_symbol_text(lower@),
{
    let mut symbol = HANDLER_SYMBOL_PREFIX.to_owned();
    symbol.append(lower);
    symbol.append(DISPATCH_SYMBOL_SUFFIX);
    symbol
}

/// Writes the entry sequence of the interrupt `irq`: the function that the
/// vector points at. It saves the context of the interrupted task, resets it,
/// runs the dispatch trampoline, restores the context and returns from the
/// exception.
pub fn entry_sequence(irq: &str, lower: &str) -> (text: String)
    ensures
        text@ == entry_sequence_text(irq@, lower@),
{
    let entry = entry_symbol(lower);
    let dispatch = dispatch_symbol(lower);
    let mut instructions = ENTRY_SAVE_CONTEXT.to_owned();
    instructions.append(ENTRY_RESET_CONTEXT);
    instructions.append(ENTRY_RUN_HANDLER);
    instructions.append(ENTRY_RESTORE_CONTEXT);
    instructions.append(ENTRY_EXCEPTION_RETURN);
    let mut text = ENTRY_HEAD.to_owned();
    text.append(irq);
    text.append(ENTRY_SIGNATURE);
    text.append(entry.as_str());
    text.append(ENTRY_OPEN);
    text.append(instructions.as_str());
    text.append(ENTRY_OPERANDS);
    text.append(dispatch.as_str());
    text.append(ENTRY_CLOSE);
    text
}

/// Writes the dispatch trampoline: the function that the entry sequence runs.
/// It calls the handler where a panic is caught and dropped, so that none
/// reaches the entry sequence.
pub fn dispatch_trampoline(lower: &str, handler: &str) -> (text: String)
    ensures
        text@ == dispatch_trampoline_text(lower@, handler@),
{
    let dispatch = dispatch_symbol(lower);
    let mut text = DISPATCH_HEAD.to_owned();
    text.append(dispatch.as_str());
    text.append(DISPATCH_CATCH);
    text.append(handler);
    text.append(DISPATCH_RESTORE);
    text
}

/// Generates the code for a task entry: the trampoline through which the
/// runtime starts the declared function.
pub fn emit_task_trampoline(decl: &Declaration) -> (code: GeneratedCode)
    ensures
        code@ == task_code(decl@),
{
    GeneratedCode {
        entry_sequence: None,
        trampoline: task_trampoline(decl.name.as_str()),
        declaration: decl.source.clone(),
    }
}

/// Generates the code for the handler of the interrupt `irq`, given the name
/// in lower case from which the symbols are made.
pub fn emit_handler_trampoline_as(irq: &str, lower: &str, decl: &Declaration) -> (code:
    GeneratedCode)
    ensures
        code@ == handler_code(irq@, lower@, decl@),
{
    GeneratedCode {
        entry_sequence: Some(entry_sequence(irq, lower)),
        trampoline: dispatch_trampoline(lower, decl.name.as_str()),
        declaration: decl.source.clone(),
    }
}

/// Generates the code for the handler of the interrupt `irq`. The entry
/// sequence is exported under `irq` as it is written; the symbols of the two
/// generated functions are made from `irq` in lower case.
pub fn emit_handler_trampoline(irq: &str, decl: &Declaration) -> (code: GeneratedCode)
    ensures
        code@ == handler_code(irq@, lowercase_of(irq@), decl@),
{
    let lower = lowercase(irq);
    emit_handler_trampoline_as(irq, lower.as_str(), decl)
}

impl GeneratedCode {
    /// The whole text that takes the place of the declaration: the generated
    /// fragments, then the declaration itself.
    pub fn text(&self) -> (text: String)
        ensures
            text@ == code_text(self@),
    {
        match &self.entry_sequence {
            Some(entry) => {
                let mut text = entry.clone();
                text.append(self.trampoline.as_str());
                text.append(self.declaration.as_str());
                text
            },
            None => {
                let mut text = self.trampoline.clone();
                text.append(self.declaration.as_str());
                text
            },
        }
    }
}

} // verus!

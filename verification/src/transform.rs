//! The two transformations: of a task entry and of an interrupt handler.
//!
//! A transformation checks the signature, resolves the interrupt name where
//! there is one, and generates the code. It gives either the whole code or the
//! first error: nothing is generated for a declaration that is refused.

use vstd::prelude::*;
use crate::declaration::{
    arguments_view,
    AnnotationArgument,
    AnnotationArgumentView,
    Declaration,
    DeclarationKind,
    DeclarationView,
};
use crate::emitter::{
    code_text,
    emit_handler_trampoline,
    emit_task_trampoline,
    handler_code,
    lowercase_of,
    task_code,
    GeneratedCode,
    GeneratedCodeView,
};
use crate::error::{SignatureError, SignatureReason, TransformError};
use crate::registry::TargetVectorRegistry;
use crate::resolver::{resolve, resolve_interrupt_name};
use crate::signature::{
    accepts_return_type,
    check,
    first_violation_from,
    validate_handler,
    validate_task_entry,
};

verus! {

/// What the transformation of a task entry gives: the error of the signature
/// check, or the code of the task trampoline.
pub open spec fn task_entry_outcome(decl: DeclarationView) -> Result<
    GeneratedCodeView,
    SignatureError,
> {
    match check(DeclarationKind::TaskEntry, decl) {
        Err(error) => Err(error),
        Ok(_) => Ok(task_code(decl)),
    }
}

/// What the transformation of a handler gives, for the names that the target
/// knows: the error of the signature check; for a signature that passes, the
/// error of the name resolution; for a name that resolves, the code of the
/// entry sequence and the dispatch trampoline.
pub open spec fn handler_outcome(
    known: Set<Seq<char>>,
    decl: DeclarationView,
    args: Seq<AnnotationArgumentView>,
) -> Result<GeneratedCodeView, TransformError> {
    match check(DeclarationKind::Handler, decl) {
        Err(error) => Err(TransformError::Signature(error)),
        Ok(_) => match resolve(known, args) {
            Err(error) => Err(TransformError::Name(error)),
            Ok(irq) => Ok(handler_code(irq, lowercase_of(irq), decl)),
        },
    }
}

/// The value of a transformation's outcome: the value of the code, or the
/// error.
pub open spec fn code_view<E>(result: Result<GeneratedCode, E>) -> Result<GeneratedCodeView, E> {
    match result {
        Ok(code) => Ok(code@),
        Err(error) => Err(error),
    }
}

/// The whole text of an outcome: the fragments set one after the other, or the
/// error.
pub open spec fn expansion<E>(outcome: Result<GeneratedCodeView, E>) -> Result<Seq<char>, E> {
    match outcome {
        Ok(code) => Ok(code_text(code)),
        Err(error) => Err(error),
    }
}

/// The value of an expansion: its text, or the error.
pub open spec fn text_view<E>(result: Result<String, E>) -> Result<Seq<char>, E> {
    match result {
        Ok(text) => Ok(text@),
        Err(error) => Err(error),
    }
}

/// Transforms the declaration of a task entry: checks its signature and
/// generates the task trampoline. It fails only where the signature check
/// does, and with its error.
pub fn transform_task_entry(decl: &Declaration) -> (result: Result<GeneratedCode, SignatureError>)
    ensures
        code_view(result) == task_entry_outcome(decl@),
{
    match validate_task_entry(decl) {
        Err(error) => Err(error),
        Ok(_) => Ok(emit_task_trampoline(decl)),
    }
}

/// Transforms the declaration of an interrupt handler: checks its signature,
/// then resolves the interrupt name in the attribute's arguments against the
/// registry, then generates the entry sequence and the dispatch trampoline.
/// The signature is checked first, so a declaration with a bad signature and a
/// bad name is refused for its signature.
pub fn transform_handler(
    registry: &TargetVectorRegistry,
    decl: &Declaration,
    args: &[AnnotationArgument],
) -> (result: Result<GeneratedCode, TransformError>)
    ensures
        code_view(result) == handler_outcome(registry@, decl@, arguments_view(args@)),
{
    match validate_handler(decl) {
        Err(error) => Err(TransformError::Signature(error)),
        Ok(_) => match resolve_interrupt_name(registry, args) {
            Err(error) => Err(TransformError::Name(error)),
            Ok(irq) => Ok(emit_handler_trampoline(irq.as_str(), decl)),
        },
    }
}

/// Expands the `#[main]` attribute on a declaration: the text that takes the
/// declaration's place is the task trampoline followed by the declaration.
pub fn main(decl: &Declaration) -> (result: Result<String, SignatureError>)
    ensures
        text_view(result) == expansion(task_entry_outcome(decl@)),
{
    match transform_task_entry(decl) {
        Err(error) => Err(error),
        Ok(code) => Ok(code.text()),
    }
}

/// Expands the `#[handler(IRQ)]` attribute on a declaration: the text that
/// takes the declaration's place is the entry sequence, the dispatch
/// trampoline and the declaration, in this order.
pub fn handler(
    registry: &TargetVectorRegistry,
    decl: &Declaration,
    args: &[AnnotationArgument],
) -> (result: Result<String, TransformError>)
    ensures
        text_view(result) == expansion(handler_outcome(registry@, decl@, arguments_view(args@))),
{
    match transform_handler(registry, decl, args) {
        Err(error) => Err(error),
        Ok(code) => Ok(code.text()),
    }
}

/// A declaration that does not have exactly one parameter, be it none or
/// several, is refused as a task entry for its arity.
pub proof fn law_task_entry_takes_one_parameter(decl: DeclarationView)
    requires
        decl.parameters.len() != 1,
    ensures
        task_entry_outcome(decl) == Err::<GeneratedCodeView, SignatureError>(
            SignatureError {
                kind: DeclarationKind::TaskEntry,
                reason: SignatureReason::WrongArity,
            },
        ),
{
    reveal_with_fuel(first_violation_from, 6);
}

/// An `async` declaration is never accepted, neither as a task entry nor as a
/// handler, whatever the rest of its signature, the attribute's arguments and
/// the known names are.
pub proof fn law_async_is_never_accepted(
    known: Set<Seq<char>>,
    decl: DeclarationView,
    args: Seq<AnnotationArgumentView>,
)
    requires
        decl.is_async,
    ensures
        task_entry_outcome(decl) is Err,
        handler_outcome(known, decl, args) is Err,
{
    reveal_with_fuel(first_violation_from, 6);
}

/// An `async` declaration whose parameters and return type are those of a
/// task entry is refused as one for being `async`.
pub proof fn law_async_task_entry_is_reported(decl: DeclarationView)
    requires
        decl.is_async,
        decl.parameters.len() == 1,
        accepts_return_type(DeclarationKind::TaskEntry, decl.return_type),
    ensures
        task_entry_outcome(decl) == Err::<GeneratedCodeView, SignatureError>(
            SignatureError {
                kind: DeclarationKind::TaskEntry,
                reason: SignatureReason::MustNotBeAsync,
            },
        ),
{
    reveal_with_fuel(first_violation_from, 6);
}

/// An `async` declaration whose parameters, return type and calling convention
/// are those of a handler is refused as one for being `async`, whatever the
/// attribute's arguments and the known names are.
pub proof fn law_async_handler_is_reported(
    known: Set<Seq<char>>,
    decl: DeclarationView,
    args: Seq<AnnotationArgumentView>,
)
    requires
        decl.is_async,
        decl.parameters.len() == 0,
        accepts_return_type(DeclarationKind::Handler, decl.return_type),
        decl.calling_convention is Default,
    ensures
        handler_outcome(known, decl, args) == Err::<GeneratedCodeView, TransformError>(
            TransformError::Signature(
                SignatureError {
                    kind: DeclarationKind::Handler,
                    reason: SignatureReason::MustNotBeAsync,
                },
            ),
        ),
{
    reveal_with_fuel(first_violation_from, 6);
}

/// A handler declaration that writes out a calling convention, and whose
/// parameters and return type are those of a handler, is refused for the
/// calling convention, whether or not the attribute names a known interrupt.
pub proof fn law_declared_convention_is_reported(
    known: Set<Seq<char>>,
    decl: DeclarationView,
    args: Seq<AnnotationArgumentView>,
)
    requires
        decl.calling_convention is Declared,
        decl.parameters.len() == 0,
        accepts_return_type(DeclarationKind::Handler, decl.return_type),
    ensures
        handler_outcome(known, decl, args) == Err::<GeneratedCodeView, TransformError>(
            TransformError::Signature(
                SignatureError {
                    kind: DeclarationKind::Handler,
                    reason: SignatureReason::MustUseDefaultCallingConvention,
                },
            ),
        ),
{
    reveal_with_fuel(first_violation_from, 6);
}

/// The signature comes before the name: a handler declaration that fails the
/// signature check is refused with that error, whatever the attribute's
/// arguments and the known names are.
pub proof fn law_signature_error_comes_first(
    known: Set<Seq<char>>,
    decl: DeclarationView,
    args: Seq<AnnotationArgumentView>,
)
    requires
        check(DeclarationKind::Handler, decl) is Err,
    ensures
        handler_outcome(known, decl, args) == Err::<GeneratedCodeView, TransformError>(
            TransformError::Signature(check(DeclarationKind::Handler, decl)->Err_0),
        ),
{
}

/// A transformation is all or nothing: a task entry is turned into code
/// exactly when its signature passes, and a handler exactly when its signature
/// passes and its attribute names a known interrupt.
pub proof fn law_code_iff_accepted(
    known: Set<Seq<char>>,
    decl: DeclarationView,
    args: Seq<AnnotationArgumentView>,
)
    ensures
        task_entry_outcome(decl) is Ok <==> check(DeclarationKind::TaskEntry, decl) is Ok,
        handler_outcome(known, decl, args) is Ok <==> check(DeclarationKind::Handler, decl) is Ok
            && resolve(known, args) is Ok,
{
}

} // verus!

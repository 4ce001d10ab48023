//! The ways in which a transformation is refused, and the text shown for each.

use vstd::prelude::*;
use crate::declaration::DeclarationKind;

verus! {

/// The rule of the signature contract that a declaration breaks.
#[derive(Clone, Copy, Debug, PartialEq, Eq)]
pub enum SignatureReason {
    /// The number of parameters is not the one asked for.
    WrongArity,
    /// The return type is not among the accepted ones.
    WrongReturnType,
    /// The function is `async`.
    MustNotBeAsync,
    /// The function is `unsafe`.
    MustBeSafe,
    /// The function is variadic.
    MustNotBeVariadic,
    /// A calling convention is written out.
    MustUseDefaultCallingConvention,
}

/// A signature that does not meet the contract of its kind.
#[derive(Clone, Copy, Debug, PartialEq, Eq)]
pub struct SignatureError {
    /// The kind of declaration that was checked.
    pub kind: DeclarationKind,
    /// The first rule, in the order of checking, that the signature breaks.
    pub reason: SignatureReason,
}

/// An attribute argument list that names no interrupt of the target.
#[derive(Clone, Copy, Debug, PartialEq, Eq)]
pub enum NameError {
    /// The list does not hold exactly one argument.
    ArityError,
    /// The argument is not a bare identifier.
    NotAnIdentifier,
    /// The identifier is not in the vector table of the selected target.
    UnknownInterrupt,
}

/// Why the transformation of a handler declaration is refused.
#[derive(Clone, Copy, Debug, PartialEq, Eq)]
pub enum TransformError {
    /// The signature breaks the handler contract.
    Signature(SignatureError),
    /// The attribute names no interrupt of the target.
    Name(NameError),
}

/// The text shown for a signature error.
pub open spec fn signature_message(error: SignatureError) -> Seq<char> {
    match (error.kind, error.reason) {
        (DeclarationKind::TaskEntry, SignatureReason::WrongArity) =>
            "Main function must receive one argument of type `cortex_m::Peripherals`."@,
        (DeclarationKind::TaskEntry, SignatureReason::WrongReturnType) =>
            "Main function's return type must be () or !."@,
        (DeclarationKind::TaskEntry, SignatureReason::MustNotBeAsync) =>
            "Main function cannot be `async`."@,
        (DeclarationKind::TaskEntry, SignatureReason::MustBeSafe) =>
            "Main function must be safe."@,
        (DeclarationKind::TaskEntry, SignatureReason::MustNotBeVariadic) =>
            "Main function cannot be variadic."@,
        (DeclarationKind::TaskEntry, SignatureReason::MustUseDefaultCallingConvention) =>
            "Main function must have Rust ABI."@,
        (DeclarationKind::Handler, SignatureReason::WrongArity) =>
            "Handler function should not have any parameter."@,
        (DeclarationKind::Handler, SignatureReason::WrongReturnType) =>
            "Handler's return type must be ()."@,
        (DeclarationKind::Handler, SignatureReason::MustNotBeAsync) =>
            "Handler function cannot be `async`."@,
        (DeclarationKind::Handler, SignatureReason::MustBeSafe) =>
            "Handler function must be safe."@,
        (DeclarationKind::Handler, SignatureReason::MustNotBeVariadic) =>
            "Handler function cannot be variadic."@,
        (DeclarationKind::Handler, SignatureReason::MustUseDefaultCallingConvention) =>
            "Handler function must have Rust ABI."@,
    }
}

/// The text shown for an unknown interrupt. It points at the target selection,
/// since no name is known before a target is selected.
pub const UNKNOWN_INTERRUPT_MESSAGE: &'static str =
    "Handler's argument must be one of the supported IRQs. Forgot to set the MCU model feature?";

/// The text shown for a name error.
pub open spec fn name_message(error: NameError) -> Seq<char> {
    match error {
        NameError::ArityError => "Handler attribute must have exactly one argument."@,
        NameError::NotAnIdentifier => "Handler's argument must be the identifier of an IRQ."@,
        NameError::UnknownInterrupt => UNKNOWN_INTERRUPT_MESSAGE@,
    }
}

/// The text shown for a transformation error: that of the error it wraps.
pub open spec fn transform_message(error: TransformError) -> Seq<char> {
    match error {
        TransformError::Signature(e) => signature_message(e),
        TransformError::Name(e) => name_message(e),
    }
}

/// Two signature errors that differ, in the kind or in the rule, are shown
/// with different texts.
pub proof fn law_signature_messages_differ(a: SignatureError, b: SignatureError)
    requires
        a != b,
    ensures
        signature_message(a) != signature_message(b),
{
    reveal_strlit("Main function must receive one argument of type `cortex_m::Peripherals`.");
    reveal_strlit("Main function's return type must be () or !.");
    reveal_strlit("Main function cannot be `async`.");
    reveal_strlit("Main function must be safe.");
    reveal_strlit("Main function cannot be variadic.");
    reveal_strlit("Main function must have Rust ABI.");
    reveal_strlit("Handler function should not have any parameter.");
    reveal_strlit("Handler's return type must be ().");
    reveal_strlit("Handler function cannot be `async`.");
    reveal_strlit("Handler function must be safe.");
    reveal_strlit("Handler function cannot be variadic.");
    reveal_strlit("Handler function must have Rust ABI.");
    let x = signature_message(a);
    let y = signature_message(b);
    // Texts of one length differ in their first letter or in their verb.
    if x.len() == y.len() {
        assert(x[0] != y[0] || x[14] != y[14] || x[17] != y[17]);
    }
}

/// Two name errors that differ are shown with different texts.
pub proof fn law_name_messages_differ(a: NameError, b: NameError)
    requires
        a != b,
    ensures
        name_message(a) != name_message(b),
{
    reveal_strlit("Handler attribute must have exactly one argument.");
    reveal_strlit("Handler's argument must be the identifier of an IRQ.");
    reveal_strlit(
        "Handler's argument must be one of the supported IRQs. Forgot to set the MCU model feature?",
    );
    assert(name_message(a).len() != name_message(b).len());
}

impl SignatureError {
    /// The user-facing text, which names the kind of declaration and the rule
    /// that it breaks.
    pub fn message(&self) -> (text: String)
        ensures
            text@ == signature_message(*self),
    {
        let text: &str = match (self.kind, self.reason) {
            (DeclarationKind::TaskEntry, SignatureReason::WrongArity) =>
                "Main function must receive one argument of type `cortex_m::Peripherals`.",
            (DeclarationKind::TaskEntry, SignatureReason::WrongReturnType) =>
                "Main function's return type must be () or !.",
            (DeclarationKind::TaskEntry, SignatureReason::MustNotBeAsync) =>
                "Main function cannot be `async`.",
            (DeclarationKind::TaskEntry, SignatureReason::MustBeSafe) =>
                "Main function must be safe.",
            (DeclarationKind::TaskEntry, SignatureReason::MustNotBeVariadic) =>
                "Main function cannot be variadic.",
            (DeclarationKind::TaskEntry, SignatureReason::MustUseDefaultCallingConvention) =>
                "Main function must have Rust ABI.",
            (DeclarationKind::Handler, SignatureReason::WrongArity) =>
                "Handler function should not have any parameter.",
            (DeclarationKind::Handler, SignatureReason::WrongReturnType) =>
                "Handler's return type must be ().",
            (DeclarationKind::Handler, SignatureReason::MustNotBeAsync) =>
                "Handler function cannot be `async`.",
            (DeclarationKind::Handler, SignatureReason::MustBeSafe) =>
                "Handler function must be safe.",
            (DeclarationKind::Handler, SignatureReason::MustNotBeVariadic) =>
                "Handler function cannot be variadic.",
            (DeclarationKind::Handler, SignatureReason::MustUseDefaultCallingConvention) =>
                "Handler function must have Rust ABI.",
        };
        text.to_owned()
    }
}

impl NameError {
    /// The user-facing text.
    pub fn message(&self) -> (text: String)
        ensures
            text@ == name_message(*self),
    {
        let text: &str = match self {
            NameError::ArityError => "Handler attribute must have exactly one argument.",
            NameError::NotAnIdentifier => "Handler's argument must be the identifier of an IRQ.",
            NameError::UnknownInterrupt => UNKNOWN_INTERRUPT_MESSAGE,
        };
        text.to_owned()
    }
}

impl TransformError {
    /// The user-facing text.
    pub fn message(&self) -> (text: String)
        ensures
            text@ == transform_message(*self),
    {
        match self {
            TransformError::Signature(e) => e.message(),
            TransformError::Name(e) => e.message(),
        }
    }
}

} // verus!

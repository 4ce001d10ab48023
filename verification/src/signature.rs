//! The signature contract of each kind of declaration.
//!
//! A contract is an ordered list of rules. A declaration is checked rule by
//! rule, and the first rule that it breaks is the one reported: violations are
//! never collected.

use vstd::prelude::*;
use crate::declaration::{
    CallingConvention,
    Declaration,
    DeclarationKind,
    DeclarationView,
    ReturnType,
};
use crate::error::{SignatureError, SignatureReason};

verus! {

/// The rules of a kind's contract, each named by the reason that reports its
/// violation, in the order in which they are checked.
pub open spec fn rules(kind: DeclarationKind) -> Seq<SignatureReason> {
    match kind {
        DeclarationKind::TaskEntry => seq![
            SignatureReason::WrongArity,
            SignatureReason::WrongReturnType,
            SignatureReason::MustNotBeAsync,
            SignatureReason::MustBeSafe,
            SignatureReason::MustNotBeVariadic,
        ],
        DeclarationKind::Handler => seq![
            SignatureReason::WrongArity,
            SignatureReason::WrongReturnType,
            SignatureReason::MustUseDefaultCallingConvention,
            SignatureReason::MustNotBeAsync,
            SignatureReason::MustNotBeVariadic,
        ],
    }
}

/// The number of parameters that a declaration of the kind has: a task entry
/// takes the peripherals, a handler takes nothing.
pub open spec fn expected_arity(kind: DeclarationKind) -> nat {
    match kind {
        DeclarationKind::TaskEntry => 1,
        DeclarationKind::Handler => 0,
    }
}

/// Whether a declaration of the kind may have the return type. Both kinds may
/// leave it out or write the unit type. A task entry may also diverge; a
/// handler may not.
pub open spec fn accepts_return_type(kind: DeclarationKind, return_type: ReturnType) -> bool {
    match return_type {
        ReturnType::Absent | ReturnType::Unit => true,
        ReturnType::Never => kind is TaskEntry,
        ReturnType::Other => false,
    }
}

/// Whether the declaration breaks the rule that `reason` names, read for a
/// declaration of the kind.
pub open spec fn violates(kind: DeclarationKind, decl: DeclarationView, reason: SignatureReason)
    -> bool {
    match reason {
        SignatureReason::WrongArity => decl.parameters.len() != expected_arity(kind),
        SignatureReason::WrongReturnType => !accepts_return_type(kind, decl.return_type),
        SignatureReason::MustNotBeAsync => decl.is_async,
        SignatureReason::MustBeSafe => decl.is_unsafe,
        SignatureReason::MustNotBeVariadic => decl.is_variadic,
        SignatureReason::MustUseDefaultCallingConvention => decl.calling_convention is Declared,
    }
}

/// The first rule that the declaration breaks among those of the kind's
/// contract from position `from` on.
pub open spec fn first_violation_from(kind: DeclarationKind, decl: DeclarationView, from: int)
    -> Option<SignatureReason>
    recommends
        0 <= from,
    decreases rules(kind).len() - from,
{
    if from < 0 || from >= rules(kind).len() {
        None
    } else if violates(kind, decl, rules(kind)[from]) {
        Some(rules(kind)[from])
    } else {
        first_violation_from(kind, decl, from + 1)
    }
}

/// The first rule of the kind's contract that the declaration breaks.
pub open spec fn violation(kind: DeclarationKind, decl: DeclarationView) -> Option<
    SignatureReason,
> {
    first_violation_from(kind, decl, 0)
}

/// What the check of a declaration against the kind's contract gives.
pub open spec fn check(kind: DeclarationKind, decl: DeclarationView) -> Result<
    (),
    SignatureError,
> {
    match violation(kind, decl) {
        None => Ok(()),
        Some(reason) => Err(SignatureError { kind, reason }),
    }
}

/// Checks a declaration against the contract of a task entry: one parameter,
/// no return value or a diverging function, not `async`, not `unsafe`, not
/// variadic. The type of the parameter is left to the compiler, which meets it
/// in the generated call.
pub fn validate_task_entry(decl: &Declaration) -> (result: Result<(), SignatureError>)
    ensures
        result == check(DeclarationKind::TaskEntry, decl@),
{
    proof {
        reveal_with_fuel(first_violation_from, 6);
    }
    let kind = DeclarationKind::TaskEntry;
    if decl.parameters.len() != 1 {
        return Err(SignatureError { kind, reason: SignatureReason::WrongArity });
    }
    match decl.return_type {
        ReturnType::Absent | ReturnType::Unit | ReturnType::Never => {},
        ReturnType::Other => {
            return Err(SignatureError { kind, reason: SignatureReason::WrongReturnType });
        },
    }
    if decl.is_async {
        return Err(SignatureError { kind, reason: SignatureReason::MustNotBeAsync });
    }
    if decl.is_unsafe {
        return Err(SignatureError { kind, reason: SignatureReason::MustBeSafe });
    }
    if decl.is_variadic {
        return Err(SignatureError { kind, reason: SignatureReason::MustNotBeVariadic });
    }
    Ok(())
}

/// Checks a declaration against the contract of an interrupt handler: no
/// parameter, no return value, no calling convention written out, not `async`,
/// not variadic. Unlike a task entry, a handler may not diverge.
pub fn validate_handler(decl: &Declaration) -> (result: Result<(), SignatureError>)
    ensures
        result == check(DeclarationKind::Handler, decl@),
{
    proof {
        reveal_with_fuel(first_violation_from, 6);
    }
    let kind = DeclarationKind::Handler;
    if decl.parameters.len() != 0 {
        return Err(SignatureError { kind, reason: SignatureReason::WrongArity });
    }
    match decl.return_type {
        ReturnType::Absent | ReturnType::Unit => {},
        ReturnType::Never | ReturnType::Other => {
            return Err(SignatureError { kind, reason: SignatureReason::WrongReturnType });
        },
    }
    match &decl.calling_convention {
        CallingConvention::Default => {},
        CallingConvention::Declared(_) => {
            return Err(
                SignatureError { kind, reason: SignatureReason::MustUseDefaultCallingConvention },
            );
        },
    }
    if decl.is_async {
        return Err(SignatureError { kind, reason: SignatureReason::MustNotBeAsync });
    }
    if decl.is_variadic {
        return Err(SignatureError { kind, reason: SignatureReason::MustNotBeVariadic });
    }
    Ok(())
}

/// Whether the declaration keeps the rules of the kind's contract at the
/// positions from `from` up to `to`, the last left out.
pub open spec fn keeps_rules(kind: DeclarationKind, decl: DeclarationView, from: int, to: int)
    -> bool {
    forall|i: int| from <= i < to ==> !violates(kind, decl, #[trigger] rules(kind)[i])
}

/// Whether the rule at position `at` is the first, from position `from` on,
/// that the declaration breaks.
pub open spec fn first_broken_at(kind: DeclarationKind, decl: DeclarationView, from: int, at: int)
    -> bool {
    &&& from <= at < rules(kind).len()
    &&& violates(kind, decl, rules(kind)[at])
    &&& keeps_rules(kind, decl, from, at)
}

/// From any position on, the search finds nothing only where every rule is
/// kept, and what it finds is the first broken rule.
proof fn lemma_first_violation_from(kind: DeclarationKind, decl: DeclarationView, from: int)
    requires
        0 <= from <= rules(kind).len(),
    ensures
        match first_violation_from(kind, decl, from) {
            None => keeps_rules(kind, decl, from, rules(kind).len() as int),
            Some(reason) => exists|at: int|
                #[trigger] first_broken_at(kind, decl, from, at) && rules(kind)[at] == reason,
        },
    decreases rules(kind).len() - from,
{
    if from < rules(kind).len() {
        if violates(kind, decl, rules(kind)[from]) {
            assert(first_broken_at(kind, decl, from, from));
        } else {
            lemma_first_violation_from(kind, decl, from + 1);
            if first_violation_from(kind, decl, from + 1) is Some {
                let at = choose|at: int|
                    #[trigger] first_broken_at(kind, decl, from + 1, at) && rules(kind)[at]
                        == first_violation_from(kind, decl, from + 1)->0;
                assert(first_broken_at(kind, decl, from, at));
            }
        }
    }
}

/// A declaration passes the check exactly when it keeps every rule of the
/// kind's contract.
pub proof fn law_accepted_iff_every_rule_kept(kind: DeclarationKind, decl: DeclarationView)
    ensures
        check(kind, decl) is Ok <==> keeps_rules(kind, decl, 0, rules(kind).len() as int),
{
    lemma_first_violation_from(kind, decl, 0);
}

/// The rule that a refusal reports is the first broken one: the declaration
/// breaks it and keeps every rule that is checked before it.
pub proof fn law_first_broken_rule_is_reported(kind: DeclarationKind, decl: DeclarationView)
    requires
        check(kind, decl) is Err,
    ensures
        check(kind, decl)->Err_0.kind == kind,
        exists|at: int|
            #[trigger] first_broken_at(kind, decl, 0, at) && rules(kind)[at] == check(
                kind,
                decl,
            )->Err_0.reason,
{
    lemma_first_violation_from(kind, decl, 0);
}

} // verus!

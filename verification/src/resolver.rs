//! From the arguments of the handler attribute to the name of the interrupt.

use vstd::prelude::*;
use crate::declaration::{arguments_view, AnnotationArgument, AnnotationArgumentView};
use crate::error::NameError;
use crate::registry::{known_names, TargetVectorRegistry};

verus! {

/// The interrupt that an argument list names, given the names that the target
/// knows: the list holds one argument, the argument is a bare identifier, and
/// the identifier is a known name. The name is the identifier as written.
pub open spec fn resolve(known: Set<Seq<char>>, args: Seq<AnnotationArgumentView>) -> Result<
    Seq<char>,
    NameError,
> {
    if args.len() != 1 {
        Err(NameError::ArityError)
    } else {
        match args[0] {
            AnnotationArgumentView::Other => Err(NameError::NotAnIdentifier),
            AnnotationArgumentView::Identifier(name) => if known.contains(name) {
                Ok(name)
            } else {
                Err(NameError::UnknownInterrupt)
            },
        }
    }
}

/// The value of a resolution's outcome: the text of the name, or the error.
pub open spec fn name_view(result: Result<String, NameError>) -> Result<Seq<char>, NameError> {
    match result {
        Ok(name) => Ok(name@),
        Err(error) => Err(error),
    }
}

/// Reads the interrupt name out of the arguments of the handler attribute and
/// looks it up in the registry of the target.
pub fn resolve_interrupt_name(
    registry: &TargetVectorRegistry,
    args: &[AnnotationArgument],
) -> (result: Result<String, NameError>)
    ensures
        name_view(result) == resolve(registry@, arguments_view(args@)),
{
    if args.len() != 1 {
        return Err(NameError::ArityError);
    }
    match &args[0] {
        AnnotationArgument::Other => Err(NameError::NotAnIdentifier),
        AnnotationArgument::Identifier(name) => {
            if registry.contains(name.as_str()) {
                Ok(name.clone())
            } else {
                Err(NameError::UnknownInterrupt)
            }
        },
    }
}

/// Where no target is selected, no argument list names an interrupt, whatever
/// it holds: a single identifier, well-formed as it may be, is unknown.
pub proof fn law_nothing_resolves_without_target(args: Seq<AnnotationArgumentView>)
    ensures
        resolve(known_names(None), args) is Err,
        args.len() == 1 && args[0] is Identifier ==> resolve(known_names(None), args) == Err::<
            Seq<char>,
            NameError,
        >(NameError::UnknownInterrupt),
{
}

/// A list that does not hold exactly one argument is refused for its length,
/// whatever the arguments are and whatever names are known.
pub proof fn law_argument_count_is_checked_first(
    known: Set<Seq<char>>,
    args: Seq<AnnotationArgumentView>,
)
    requires
        args.len() != 1,
    ensures
        resolve(known, args) == Err::<Seq<char>, NameError>(NameError::ArityError),
{
}

/// An identifier that the target does not know is refused as unknown, and one
/// that it knows is handed back unchanged.
pub proof fn law_identifier_resolves_iff_known(known: Set<Seq<char>>, name: Seq<char>)
    ensures
        resolve(known, seq![AnnotationArgumentView::Identifier(name)]) == (if known.contains(
            name,
        ) {
            Ok::<Seq<char>, NameError>(name)
        } else {
            Err::<Seq<char>, NameError>(NameError::UnknownInterrupt)
        }),
{
}

} // verus!

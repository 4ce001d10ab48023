//! Structural description of a function declaration and of the arguments of
//! the attribute attached to it.

use vstd::prelude::*;

verus! {

/// The two kinds of declaration that the crate transforms.
#[derive(Clone, Copy, Debug, PartialEq, Eq)]
pub enum DeclarationKind {
    /// The entry function of the main task.
    TaskEntry,
    /// The handler function of an interrupt.
    Handler,
}

/// What a declaration says about its return value.
#[derive(Clone, Copy, Debug, PartialEq, Eq)]
pub enum ReturnType {
    /// No return type is written.
    Absent,
    /// The unit type `()` is written.
    Unit,
    /// The never type `!` is written.
    Never,
    /// Any other type is written.
    Other,
}

impl ReturnType {
    /// The descriptor of a tuple type with `arity` elements: the empty tuple is
    /// the unit type, every longer tuple is some other type.
    pub fn tuple(arity: usize) -> (result: ReturnType)
        ensures
            result == (if arity == 0 {
                ReturnType::Unit
            } else {
                ReturnType::Other
            }),
    {
        if arity == 0 {
            ReturnType::Unit
        } else {
            ReturnType::Other
        }
    }
}

/// The calling convention that a declaration asks for.
#[derive(Clone, Debug, PartialEq, Eq)]
pub enum CallingConvention {
    /// No convention is written: the function has the native one.
    Default,
    /// A convention is written after `extern`; the field holds its tag, which
    /// is empty where `extern` stands alone.
    Declared(String),
}

/// The mathematical value of a [`CallingConvention`].
pub enum CallingConventionView {
    Default,
    Declared(Seq<char>),
}

impl View for CallingConvention {
    type V = CallingConventionView;

    open spec fn view(&self) -> CallingConventionView {
        match self {
            CallingConvention::Default => CallingConventionView::Default,
            CallingConvention::Declared(tag) => CallingConventionView::Declared(tag@),
        }
    }
}

/// A function declaration, as far as its signature goes.
#[derive(Clone, Debug, PartialEq, Eq)]
pub struct Declaration {
    /// The function's identifier.
    pub name: String,
    /// The type descriptor of each parameter, in the order of the signature.
    pub parameters: Vec<String>,
    /// The return type.
    pub return_type: ReturnType,
    /// Whether the function is `async`.
    pub is_async: bool,
    /// Whether the function is `unsafe`.
    pub is_unsafe: bool,
    /// Whether the parameter list ends in `...`.
    pub is_variadic: bool,
    /// The calling convention.
    pub calling_convention: CallingConvention,
    /// The source text of the whole declaration, body included.
    pub source: String,
}

/// The mathematical value of a [`Declaration`].
pub struct DeclarationView {
    pub name: Seq<char>,
    pub parameters: Seq<Seq<char>>,
    pub return_type: ReturnType,
    pub is_async: bool,
    pub is_unsafe: bool,
    pub is_variadic: bool,
    pub calling_convention: CallingConventionView,
    pub source: Seq<char>,
}

impl View for Declaration {
    type V = DeclarationView;

    open spec fn view(&self) -> DeclarationView {
        DeclarationView {
            name: self.name@,
            parameters: self.parameters@.map_values(|p: String| p@),
            return_type: self.return_type,
            is_async: self.is_async,
            is_unsafe: self.is_unsafe,
            is_variadic: self.is_variadic,
            calling_convention: self.calling_convention@,
            source: self.source@,
        }
    }
}

/// One argument of the handler attribute.
#[derive(Clone, Debug, PartialEq, Eq)]
pub enum AnnotationArgument {
    /// A bare identifier: the candidate interrupt name.
    Identifier(String),
    /// Any other syntactic form: a literal, a path of several segments, a
    /// nested list, a name with a value.
    Other,
}

/// The mathematical value of an [`AnnotationArgument`].
pub enum AnnotationArgumentView {
    Identifier(Seq<char>),
    Other,
}

impl View for AnnotationArgument {
    type V = AnnotationArgumentView;

    open spec fn view(&self) -> AnnotationArgumentView {
        match self {
            AnnotationArgument::Identifier(name) => AnnotationArgumentView::Identifier(name@),
            AnnotationArgument::Other => AnnotationArgumentView::Other,
        }
    }
}

/// The values of a list of attribute arguments, in order.
pub open spec fn arguments_view(args: Seq<AnnotationArgument>) -> Seq<AnnotationArgumentView> {
    args.map_values(|a: AnnotationArgument| a@)
}

} // verus!

use hopter_macro_core::declaration::{
    AnnotationArgument, CallingConvention, Declaration, DeclarationKind, ReturnType,
};
use hopter_macro_core::error::{NameError, SignatureError, SignatureReason, TransformError};
use hopter_macro_core::registry::TargetVectorRegistry;
use hopter_macro_core::targets::TargetVariant;
use hopter_macro_core::transform::{transform_handler, transform_task_entry};
use quote::ToTokens;

/// Describes the function written in `source`, as a parser front end does.
fn describe(source: &str) -> Declaration {
    let function: syn::ItemFn = syn::parse_str(source).unwrap();
    let signature = &function.sig;
    Declaration {
        name: signature.ident.to_string(),
        parameters: signature
            .inputs
            .iter()
            .map(|parameter| parameter.to_token_stream().to_string())
            .collect(),
        return_type: match &signature.output {
            syn::ReturnType::Default => ReturnType::Absent,
            syn::ReturnType::Type(_, written) => match &**written {
                syn::Type::Tuple(tuple) => ReturnType::tuple(tuple.elems.len()),
                syn::Type::Never(_) => ReturnType::Never,
                _ => ReturnType::Other,
            },
        },
        is_async: signature.asyncness.is_some(),
        is_unsafe: signature.unsafety.is_some(),
        is_variadic: signature.variadic.is_some(),
        calling_convention: match &signature.abi {
            None => CallingConvention::Default,
            Some(abi) => CallingConvention::Declared(match &abi.name {
                Some(name) => name.value(),
                None => String::new(),
            }),
        },
        source: function.to_token_stream().to_string(),
    }
}

/// Describes the arguments written in `source` between the attribute's
/// parentheses.
fn arguments(source: &str) -> Vec<AnnotationArgument> {
    let attribute = format!("#[handler({})] fn f() {{}}", source);
    let function: syn::ItemFn = syn::parse_str(&attribute).unwrap();
    let list = match function.attrs[0].parse_meta().unwrap() {
        syn::Meta::List(list) => list,
        _ => panic!("the attribute has no argument list"),
    };
    list.nested
        .iter()
        .map(|argument| match argument {
            syn::NestedMeta::Meta(syn::Meta::Path(path)) => match path.get_ident() {
                Some(name) => AnnotationArgument::Identifier(name.to_string()),
                None => AnnotationArgument::Other,
            },
            _ => AnnotationArgument::Other,
        })
        .collect()
}

fn task_refusal(reason: SignatureReason) -> SignatureError {
    SignatureError { kind: DeclarationKind::TaskEntry, reason }
}

fn handler_refusal(reason: SignatureReason) -> TransformError {
    TransformError::Signature(SignatureError { kind: DeclarationKind::Handler, reason })
}

fn f405() -> TargetVectorRegistry {
    TargetVectorRegistry::new(Some(TargetVariant::Stm32f405))
}

#[test]
fn parsed_task_entries_are_accepted() {
    let sources = [
        "fn main(cp: cortex_m::Peripherals) {}",
        "fn main(cp: cortex_m::Peripherals) -> () {}",
        "fn main(cp: cortex_m::Peripherals) -> ! { loop {} }",
        "pub fn start(_: Peripherals) { init(); }",
    ];
    for source in sources {
        let decl = describe(source);
        let code = transform_task_entry(&decl).unwrap();
        assert!(code.trampoline.contains(&format!("\n    {}(*arg)\n", decl.name)));
        assert_eq!(code.declaration, decl.source);
    }
}

#[test]
fn parsed_task_entries_are_refused() {
    let cases = [
        ("fn main() {}", SignatureReason::WrongArity),
        ("fn main(a: A, b: B) {}", SignatureReason::WrongArity),
        ("fn main(cp: P) -> u32 { 0 }", SignatureReason::WrongReturnType),
        ("fn main(cp: P) -> (u32,) { (0,) }", SignatureReason::WrongReturnType),
        ("async fn main(cp: P) {}", SignatureReason::MustNotBeAsync),
        ("unsafe fn main(cp: P) {}", SignatureReason::MustBeSafe),
        ("async unsafe fn main(cp: P) {}", SignatureReason::MustNotBeAsync),
        ("async fn main() {}", SignatureReason::WrongArity),
        ("extern \"C\" fn main(cp: P, ...) {}", SignatureReason::MustNotBeVariadic),
    ];
    for (source, reason) in cases {
        assert_eq!(transform_task_entry(&describe(source)), Err(task_refusal(reason)));
    }
}

#[test]
fn parsed_handlers_are_accepted() {
    let sources = ["fn tick() {}", "fn tick() -> () {}", "unsafe fn tick() {}"];
    for source in sources {
        let decl = describe(source);
        let code = transform_handler(&f405(), &decl, &arguments("TIM2")).unwrap();
        assert!(code.entry_sequence.unwrap().contains("#[export_name = \"TIM2\"]"));
        assert!(code.trampoline.contains("catch_unwind(tick);"));
        assert_eq!(code.declaration, decl.source);
    }
}

#[test]
fn parsed_handlers_are_refused() {
    let cases = [
        ("fn tick(x: u32) {}", SignatureReason::WrongArity),
        ("fn tick() -> ! { loop {} }", SignatureReason::WrongReturnType),
        ("fn tick() -> u32 { 0 }", SignatureReason::WrongReturnType),
        ("extern \"C\" fn tick() {}", SignatureReason::MustUseDefaultCallingConvention),
        ("extern \"Rust\" fn tick() {}", SignatureReason::MustUseDefaultCallingConvention),
        ("extern fn tick() {}", SignatureReason::MustUseDefaultCallingConvention),
        ("async fn tick() {}", SignatureReason::MustNotBeAsync),
        ("async extern \"C\" fn tick() {}", SignatureReason::MustUseDefaultCallingConvention),
    ];
    for (source, reason) in cases {
        for written in ["TIM2", "NOT_A_REAL_IRQ", "", "TIM2, TIM3"] {
            assert_eq!(
                transform_handler(&f405(), &describe(source), &arguments(written)),
                Err(handler_refusal(reason))
            );
        }
    }
}

#[test]
fn parsed_arguments_are_resolved() {
    let decl = describe("fn tick() {}");
    let cases = [
        ("", NameError::ArityError),
        ("TIM2, TIM3", NameError::ArityError),
        ("\"TIM2\"", NameError::NotAnIdentifier),
        ("irq = \"TIM2\"", NameError::NotAnIdentifier),
        ("irq(TIM2)", NameError::NotAnIdentifier),
        ("pac::TIM2", NameError::NotAnIdentifier),
        ("tim2", NameError::UnknownInterrupt),
        ("NOT_A_REAL_IRQ", NameError::UnknownInterrupt),
    ];
    for (written, error) in cases {
        assert_eq!(
            transform_handler(&f405(), &decl, &arguments(written)),
            Err(TransformError::Name(error))
        );
    }
    assert!(transform_handler(&f405(), &decl, &arguments("TIM2")).is_ok());
    assert!(transform_handler(&f405(), &decl, &arguments("TIM2,")).is_ok());
}

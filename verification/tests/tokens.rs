use hopter_macro_core::declaration::{
    AnnotationArgument, CallingConvention, Declaration, ReturnType,
};
use hopter_macro_core::registry::TargetVectorRegistry;
use hopter_macro_core::targets::TargetVariant;
use hopter_macro_core::transform::{handler, main, transform_handler, transform_task_entry};
use proc_macro2::TokenStream;
use std::str::FromStr;

fn boot() -> Declaration {
    Declaration {
        name: "boot".to_string(),
        parameters: vec!["cortex_m::Peripherals".to_string()],
        return_type: ReturnType::Absent,
        is_async: false,
        is_unsafe: false,
        is_variadic: false,
        calling_convention: CallingConvention::Default,
        source: "fn boot(cp: cortex_m::Peripherals) { loop {} }".to_string(),
    }
}

fn tick_handler() -> Declaration {
    Declaration {
        name: "tick_handler".to_string(),
        parameters: vec![],
        return_type: ReturnType::Unit,
        is_async: false,
        is_unsafe: false,
        is_variadic: false,
        calling_convention: CallingConvention::Default,
        source: "fn tick_handler() -> () { }".to_string(),
    }
}

fn tokens(text: &str) -> String {
    TokenStream::from_str(text).unwrap().to_string()
}

#[test]
fn task_trampoline_is_one_function_item() {
    let code = transform_task_entry(&boot()).unwrap();
    let item: syn::ItemFn = syn::parse_str(&code.trampoline).unwrap();
    assert_eq!(item.sig.ident.to_string(), "__main_trampoline");
    assert_eq!(item.sig.inputs.len(), 1);
    assert_eq!(item.sig.abi.unwrap().name.unwrap().value(), "Rust");
    assert_eq!(item.attrs.len(), 1);
    assert!(item.attrs[0].path.is_ident("no_mangle"));
    assert_eq!(item.block.stmts.len(), 3);
}

#[test]
fn task_trampoline_has_the_expected_tokens() {
    let code = transform_task_entry(&boot()).unwrap();
    let expected = format!(
        "#[no_mangle]\n\
         extern \"Rust\" fn __main_trampoline(arg: core::sync::atomic::AtomicPtr<u8>) {{\n\
         let arg = arg.load(core::sync::atomic::Ordering::SeqCst) as *mut cortex_m::Peripherals;\n\
         let arg = unsafe {{ alloc::boxed::Box::from_raw(arg) }};\n\
         {}(*arg)\n\
         }}",
        "boot"
    );
    assert_eq!(tokens(&code.trampoline), tokens(&expected));
}

#[test]
fn entry_sequence_is_one_naked_function_item() {
    let registry = TargetVectorRegistry::new(Some(TargetVariant::Stm32f405));
    let args = [AnnotationArgument::Identifier("TIM2".to_string())];
    let code = transform_handler(&registry, &tick_handler(), &args).unwrap();
    let item: syn::ItemFn = syn::parse_str(&code.entry_sequence.unwrap()).unwrap();
    assert_eq!(item.sig.ident.to_string(), "__hopter_tim2_entry");
    assert!(item.sig.unsafety.is_some());
    assert_eq!(item.sig.abi.unwrap().name.unwrap().value(), "C");
    assert_eq!(item.sig.inputs.len(), 0);
    assert_eq!(item.attrs.len(), 2);
    assert!(item.attrs[0].path.is_ident("naked"));
    assert!(item.attrs[1].path.is_ident("export_name"));
    match item.attrs[1].parse_meta().unwrap() {
        syn::Meta::NameValue(pair) => match pair.lit {
            syn::Lit::Str(name) => assert_eq!(name.value(), "TIM2"),
            _ => panic!("the export name is not a string"),
        },
        _ => panic!("the export name is not a name with a value"),
    }
    assert_eq!(item.block.stmts.len(), 1);
}

#[test]
fn entry_sequence_has_the_expected_tokens() {
    let registry = TargetVectorRegistry::new(Some(TargetVariant::Stm32f405));
    let args = [AnnotationArgument::Identifier("TIM2".to_string())];
    let code = transform_handler(&registry, &tick_handler(), &args).unwrap();
    let expected = format!(
        "#[naked]\n\
         #[export_name = \"{}\"]\n\
         unsafe extern \"C\" fn __hopter_{}_entry() {{\n\
         core::arch::asm!(\n\
         \"ldr   r0, ={{tls_mem_addr}}\",\n\
         \"ldmia r0, {{{{r1-r3}}}}\",\n\
         \"push  {{{{r1-r3, lr}}}}\",\n\
         \"ldr   r1, ={{cont_stk_boundary}}\",\n\
         \"mov   r2, #0\",\n\
         \"strd  r1, r2, [r0]\",\n\
         \"str   r2, [r0, #8]\",\n\
         \"bl    {{handler_trampoline}}\",\n\
         \"pop   {{{{r1-r3}}}}\",\n\
         \"ldr   r0, ={{tls_mem_addr}}\",\n\
         \"stmia r0, {{{{r1-r3}}}}\",\n\
         \"pop   {{{{pc}}}}\",\n\
         tls_mem_addr = const hopter::config::__TLS_MEM_ADDR,\n\
         cont_stk_boundary = const hopter::config::__CONTIGUOUS_STACK_BOUNDARY,\n\
         handler_trampoline = sym __hopter_{}_trampoline,\n\
         options(noreturn)\n\
         )\n\
         }}\n",
        "TIM2", "tim2", "tim2",
    );
    assert_eq!(tokens(&code.entry_sequence.unwrap()), tokens(&expected));
}

#[test]
fn dispatch_trampoline_is_one_function_item() {
    let registry = TargetVectorRegistry::new(Some(TargetVariant::Stm32f405));
    let args = [AnnotationArgument::Identifier("TIM2".to_string())];
    let code = transform_handler(&registry, &tick_handler(), &args).unwrap();
    let item: syn::ItemFn = syn::parse_str(&code.trampoline).unwrap();
    assert_eq!(item.sig.ident.to_string(), "__hopter_tim2_trampoline");
    assert!(item.sig.unsafety.is_some());
    assert_eq!(item.sig.abi.unwrap().name.unwrap().value(), "C");
    assert_eq!(item.attrs.len(), 0);
    assert_eq!(item.block.stmts.len(), 3);
}

#[test]
fn dispatch_trampoline_has_the_expected_tokens() {
    let registry = TargetVectorRegistry::new(Some(TargetVariant::Stm32f405));
    let args = [AnnotationArgument::Identifier("TIM2".to_string())];
    let code = transform_handler(&registry, &tick_handler(), &args).unwrap();
    let expected = format!(
        "unsafe extern \"C\" fn __hopter_{}_trampoline() {{\n\
         let prev_is_handler_unwinding = hopter::unwind::unwind::save_and_clear_isr_unwinding();\n\
         let _ = hopter::unwind::unw_catch::catch_unwind({});\n\
         hopter::unwind::unwind::set_isr_unwinding(prev_is_handler_unwinding);\n\
         }}\n",
        "tim2", "tick_handler",
    );
    assert_eq!(tokens(&code.trampoline), tokens(&expected));
}

#[test]
fn main_expansion_is_two_items() {
    let text = main(&boot()).unwrap();
    let file: syn::File = syn::parse_str(&text).unwrap();
    assert_eq!(file.items.len(), 2);
    let names: Vec<String> = file
        .items
        .iter()
        .map(|item| match item {
            syn::Item::Fn(function) => function.sig.ident.to_string(),
            _ => String::new(),
        })
        .collect();
    assert_eq!(names, vec!["__main_trampoline", "boot"]);
}

#[test]
fn handler_expansion_is_three_items() {
    let registry = TargetVectorRegistry::new(Some(TargetVariant::Stm32f405));
    let args = [AnnotationArgument::Identifier("TIM2".to_string())];
    let text = handler(&registry, &tick_handler(), &args).unwrap();
    let file: syn::File = syn::parse_str(&text).unwrap();
    assert_eq!(file.items.len(), 3);
    let names: Vec<String> = file
        .items
        .iter()
        .map(|item| match item {
            syn::Item::Fn(function) => function.sig.ident.to_string(),
            _ => String::new(),
        })
        .collect();
    assert_eq!(names, vec!["__hopter_tim2_entry", "__hopter_tim2_trampoline", "tick_handler"]);
}

use async_wrapper::{generate_async_wrapper, FnItem};
use proc_macro2::TokenStream;
use std::str::FromStr;

/// The tokens of `source`, spelled the way `proc-macro2` spells them.
fn tokens_of(source: &str) -> String {
    TokenStream::from_str(source).unwrap().to_string()
}

fn function(name: &str, inputs: &str, output: &str, body: &str) -> FnItem {
    FnItem {
        name: name.to_string(),
        inputs: inputs.to_string(),
        output: output.to_string(),
        body: body.to_string(),
    }
}

#[test]
fn test_async_wrapper() {
    let input_fn = function(
        "test_function",
        "x: i32, y: String",
        "-> Result<String, String>",
        r#"{
                Ok(format!("{} {}", x, y))
            }"#,
    );

    let output = generate_async_wrapper(&input_fn);

    let expected_output = tokens_of(
        r#"
            #[tauri::command]
            pub async fn test_function(x: i32, y: String) -> Result<String, String> {
                tauri::async_runtime::spawn_blocking(move || {
                    { Ok(format!("{} {}", x, y)) }
                })
                .await
                .map_err(|e| e.to_string())?
            }
        "#,
    );

    assert_eq!(tokens_of(&output), expected_output);
}

#[test]
fn example_function_becomes_an_async_command() {
    let input = function(
        "example_function",
        "x: i32",
        "-> Result<String, String>",
        r#"{ Ok(format!("Result: {}", x)) }"#,
    );

    let output = generate_async_wrapper(&input);

    let expected = tokens_of(
        r#"
            #[tauri::command]
            pub async fn example_function(x: i32) -> Result<String, String> {
                tauri::async_runtime::spawn_blocking(move || {
                    { Ok(format!("Result: {}", x)) }
                })
                .await
                .map_err(|e| e.to_string())?
            }
        "#,
    );
    assert_eq!(tokens_of(&output), expected);
}

#[test]
fn generated_text_is_laid_out_exactly() {
    let input = function("f", "x: i32", "-> R", "{ g(x) }");
    assert_eq!(
        generate_async_wrapper(&input),
        "#[tauri::command]\n\
         pub async fn f(x: i32) -> R {\n    \
             tauri::async_runtime::spawn_blocking(move || {\n        \
                 { g(x) }\n    \
             })\n    \
             .await\n    \
             .map_err(|e| e.to_string())?\n\
         }\n"
    );
}

#[test]
fn empty_facets_leave_only_the_fixed_text() {
    let input = function("", "", "", "");
    assert_eq!(
        generate_async_wrapper(&input),
        "#[tauri::command]\npub async fn ()  {\n    tauri::async_runtime::spawn_blocking(move || {\n        \n    })\n    .await\n    .map_err(|e| e.to_string())?\n}\n"
    );
}

#[test]
fn function_without_return_type_keeps_none() {
    let input = function("fire", "", "", "{ launch(); }");
    let output = generate_async_wrapper(&input);
    let expected = tokens_of(
        "#[tauri::command] pub async fn fire() { \
         tauri::async_runtime::spawn_blocking(move || { { launch(); } }) \
         .await.map_err(|e| e.to_string())? }",
    );
    assert_eq!(tokens_of(&output), expected);
}

#[test]
fn signature_stands_where_the_header_puts_it() {
    let input = function("load", "path: String, depth: u8", "-> Result<Vec<u8>, String>", "{ read(path, depth) }");
    let text: Vec<char> = generate_async_wrapper(&input).chars().collect();
    let piece = |at: usize, len: usize| text[at..at + len].iter().collect::<String>();

    assert_eq!(piece(18, 13), "pub async fn ");
    assert_eq!(piece(31, 4), "load");
    assert_eq!(piece(35, 1), "(");
    assert_eq!(piece(36, 23), "path: String, depth: u8");
    assert_eq!(piece(59, 2), ") ");
    assert_eq!(piece(61, 26), "-> Result<Vec<u8>, String>");
    assert_eq!(
        piece(31, 4 + 1 + 23 + 2 + 26),
        "load(path: String, depth: u8) -> Result<Vec<u8>, String>"
    );
}

#[test]
fn body_stands_unchanged_inside_the_work_item() {
    let body = "{\n    // keeps its comments and its layout\n    let n = x  +  1;\n    Ok(n)\n}";
    let input = function("bump", "x: u32", "-> Result<u32, String>", body);
    let text = generate_async_wrapper(&input);

    let call = text.find("tauri::async_runtime::spawn_blocking(").unwrap();
    let closure = text.find("move || {").unwrap();
    let at = text.find(body).unwrap();
    assert!(call < closure && closure < at);
    assert_eq!(at, 31 + 4 + 1 + 6 + 2 + 22 + 7 + 37 + 18);
    let after_body = &text[at + body.len()..];
    assert!(after_body.starts_with("\n    })"));
    assert_eq!(text.matches(body).count(), 1);
}

#[test]
fn generating_twice_gives_the_same_text() {
    let first = function("twice", "a: u8, b: u8", "-> Result<u8, String>", "{ Ok(a ^ b) }");
    let second = function("twice", "a: u8, b: u8", "-> Result<u8, String>", "{ Ok(a ^ b) }");
    let once = generate_async_wrapper(&first);
    assert_eq!(generate_async_wrapper(&first), once);
    assert_eq!(generate_async_wrapper(&second), once);
    assert_eq!(generate_async_wrapper(&first.clone()).into_bytes(), once.into_bytes());
}

#[test]
fn pieces_come_in_order() {
    let input = function("job", "n: u64", "-> Result<u64, String>", "{ Ok(n) }");
    let text = generate_async_wrapper(&input);
    let pieces = [
        "#[tauri::command]",
        "pub async fn job(n: u64) -> Result<u64, String>",
        "tauri::async_runtime::spawn_blocking(move || {\n        { Ok(n) }\n    })",
        ".await",
        ".map_err(|e| e.to_string())",
        "?",
    ];
    let mut from = 0;
    for piece in pieces {
        let at = from + text[from..].find(piece).unwrap();
        assert!(at >= from);
        from = at + piece.len();
    }
    assert!(text.starts_with(pieces[0]));
    assert_eq!(&text[from..], "\n}\n");
}

#[test]
fn generated_command_is_a_function_syn_accepts() {
    let input = function(
        "example_function",
        "x: i32",
        "-> Result<String, String>",
        r#"{ Ok(format!("Result: {}", x)) }"#,
    );
    let command = syn::parse_str::<syn::ItemFn>(&generate_async_wrapper(&input)).unwrap();

    assert!(command.sig.asyncness.is_some());
    assert!(matches!(command.vis, syn::Visibility::Public(_)));
    assert_eq!(command.attrs.len(), 1);
    assert!(command.attrs[0].path().segments.iter().map(|s| s.ident.to_string()).eq(["tauri", "command"]));
    assert_eq!(command.sig.ident.to_string(), "example_function");
    assert_eq!(command.sig.inputs.len(), 1);
    assert_eq!(command.block.stmts.len(), 1);
}

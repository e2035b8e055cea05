use tauri_runtime_cef::script::{
    duplicate_scripts, init_scripts, quote_hash, CefInitScript, InitializationScript,
};

fn script(text: &str, for_main_frame_only: bool) -> InitializationScript {
    InitializationScript { script: text.to_string(), for_main_frame_only }
}

#[test]
fn hash_is_the_digest_in_base64() {
    let init = CefInitScript::new(script("alert(1)", true));
    assert_eq!(init.hash, "'sha256-bhHHL3z2vDgxUt0W3dWQOrprscmda2Y5pLsLg4GF+pI='");
    assert_eq!(init.script, script("alert(1)", true));
}

#[test]
fn hash_of_an_empty_script() {
    let init = CefInitScript::new(script("", false));
    assert_eq!(init.hash, "'sha256-47DEQpj8HBSa+/TImW+5JCeuQeRkm5NMpJWZG3hSuFU='");
}

#[test]
fn hash_does_not_depend_on_line_endings() {
    let feeds = CefInitScript::new(script("a\nb\nc\n", false));
    let returns = CefInitScript::new(script("a\rb\r\nc\n", false));
    assert_eq!(feeds.hash, returns.hash);
    assert_eq!(returns.script.script, "a\rb\r\nc\n");
    let doubled = CefInitScript::new(script("a\n\nb\nc\n", false));
    assert!(feeds.hash != doubled.hash);
}

#[test]
fn hash_is_quoted() {
    assert_eq!(quote_hash("abc="), "'sha256-abc='");
}

#[test]
fn scripts_keep_their_order() {
    let inits = init_scripts(&vec![script("one", true), script("two", false)]);
    assert_eq!(inits.len(), 2);
    assert_eq!(inits[0], CefInitScript::new(script("one", true)));
    assert_eq!(inits[1], CefInitScript::new(script("two", false)));
    assert_eq!(duplicate_scripts(&inits), inits);
}

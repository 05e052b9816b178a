use zed_extension_api::serde_json;
use zed_extension_api::serde_json::Value;
use zed_mozuku::extension::{
    command_for_path, command_from_lookup, init_options_from, resolve_binary_path,
    wrap_init_options, MoZukuExtension, NOT_FOUND_MESSAGE, OPTIONS_KEY, SERVER_BINARY,
};
use zed_mozuku::json::{empty_object, singleton_object};

const EXPECTED_MESSAGE: &str = "Could not find `mozuku-lsp` binary in your PATH. Please build it and ensure its location is added to your system's PATH.";

fn object(entries: Vec<(&str, Value)>) -> Value {
    let mut m = serde_json::Map::new();
    for (k, v) in entries {
        m.insert(k.to_string(), v);
    }
    Value::Object(m)
}

#[test]
fn constants_hold_the_wire_values() {
    assert_eq!(SERVER_BINARY, "mozuku-lsp");
    assert_eq!(OPTIONS_KEY, "mozuku");
    assert_eq!(NOT_FOUND_MESSAGE, EXPECTED_MESSAGE);
}

#[test]
fn command_uses_the_found_path() {
    let r = command_from_lookup(Some("/usr/local/bin/mozuku-lsp".to_string()));
    let c = r.expect("a found binary gives a command");
    assert_eq!(c.command, "/usr/local/bin/mozuku-lsp");
    assert!(c.args.is_empty());
    assert!(c.env.is_empty());
}

#[test]
fn command_fails_when_binary_is_missing() {
    match command_from_lookup(None) {
        Ok(_) => panic!("a missing binary must fail"),
        Err(e) => assert_eq!(e, EXPECTED_MESSAGE),
    }
}

#[test]
fn binary_path_is_the_lookup_result() {
    assert_eq!(
        resolve_binary_path(Some("/opt/bin/mozuku-lsp".to_string())),
        Ok("/opt/bin/mozuku-lsp".to_string())
    );
    assert_eq!(resolve_binary_path(None), Err(EXPECTED_MESSAGE.to_string()));
}

#[test]
fn command_never_has_arguments_or_environment() {
    for p in ["mozuku-lsp", "/usr/bin/mozuku-lsp", "C:\\tools\\mozuku-lsp.exe", ""] {
        let c = command_for_path(p.to_string());
        assert_eq!(c.command, p);
        assert!(c.args.is_empty());
        assert!(c.env.is_empty());
    }
}

#[test]
fn absent_options_become_an_empty_object() {
    let r = init_options_from(Ok(None));
    let expected = object(vec![("mozuku", object(vec![]))]);
    assert_eq!(r, Ok(Some(expected)));
}

#[test]
fn configured_options_are_nested_unchanged() {
    let configured = object(vec![("trace", Value::String("verbose".to_string()))]);
    let r = init_options_from(Ok(Some(configured)));
    let expected = object(vec![(
        "mozuku",
        object(vec![("trace", Value::String("verbose".to_string()))]),
    )]);
    assert_eq!(r, Ok(Some(expected)));
}

#[test]
fn non_object_options_are_nested_unchanged() {
    let r = init_options_from(Ok(Some(Value::Bool(true))));
    assert_eq!(r, Ok(Some(object(vec![("mozuku", Value::Bool(true))]))));
}

#[test]
fn settings_error_is_passed_through() {
    let e = "invalid type: string \"x\", expected a map".to_string();
    assert_eq!(init_options_from(Err(e.clone())), Err(e));
}

#[test]
fn construction_never_fails_and_calls_do_not_interact() {
    let _first = MoZukuExtension::new();
    let _second = MoZukuExtension::new();
    let a = command_from_lookup(Some("/a/mozuku-lsp".to_string())).unwrap();
    let missing = command_from_lookup(None);
    let b = command_from_lookup(Some("/b/mozuku-lsp".to_string())).unwrap();
    assert_eq!(a.command, "/a/mozuku-lsp");
    assert_eq!(b.command, "/b/mozuku-lsp");
    assert!(missing.is_err());
    let configured = object(vec![("trace", Value::String("off".to_string()))]);
    let x = init_options_from(Ok(Some(configured.clone())));
    let y = init_options_from(Ok(None));
    assert_eq!(x, Ok(Some(object(vec![("mozuku", configured)]))));
    assert_eq!(y, Ok(Some(object(vec![("mozuku", object(vec![]))]))));
}

#[test]
fn repeated_calls_give_identical_results() {
    let p = "/usr/local/bin/mozuku-lsp".to_string();
    let c1 = command_from_lookup(Some(p.clone())).unwrap();
    let c2 = command_from_lookup(Some(p)).unwrap();
    assert_eq!(c1.command, c2.command);
    assert_eq!(c1.args, c2.args);
    assert_eq!(c1.env, c2.env);
    assert_eq!(command_from_lookup(None).err(), command_from_lookup(None).err());
    let configured = object(vec![("trace", Value::String("verbose".to_string()))]);
    assert_eq!(
        init_options_from(Ok(Some(configured.clone()))),
        init_options_from(Ok(Some(configured)))
    );
    assert_eq!(init_options_from(Ok(None)), init_options_from(Ok(None)));
    let e = "bad settings".to_string();
    assert_eq!(init_options_from(Err(e.clone())), init_options_from(Err(e)));
}

#[test]
fn wrapping_builds_a_single_key_object() {
    let w = wrap_init_options(None);
    let m = w.as_object().expect("an object");
    assert_eq!(m.len(), 1);
    assert_eq!(m.get("mozuku"), Some(&object(vec![])));
    let v = Value::String("x".to_string());
    assert_eq!(wrap_init_options(Some(v.clone())), object(vec![("mozuku", v)]));
}

#[test]
fn json_builders_make_objects() {
    assert_eq!(empty_object(), Value::Object(serde_json::Map::new()));
    let s = singleton_object("k", Value::Null);
    assert_eq!(s, object(vec![("k", Value::Null)]));
    assert_ne!(s, Value::Null);
}

use pyo3_pylogger::{find_kv_args, is_reserved};

const RESERVED: [&str; 21] = [
    "name",
    "msg",
    "args",
    "levelname",
    "levelno",
    "pathname",
    "filename",
    "module",
    "exc_info",
    "exc_text",
    "stack_info",
    "lineno",
    "funcName",
    "created",
    "msecs",
    "relativeCreated",
    "thread",
    "threadName",
    "processName",
    "process",
    "taskName",
];

fn builtin_attributes() -> Vec<(String, String)> {
    RESERVED
        .iter()
        .map(|n| (n.to_string(), format!("value of {}", n)))
        .collect()
}

fn pairs(v: &[(&str, &str)]) -> Vec<(String, String)> {
    v.iter().map(|(k, x)| (k.to_string(), x.to_string())).collect()
}

#[test]
fn every_builtin_name_is_reserved() {
    for n in RESERVED {
        assert!(is_reserved(n), "{}", n);
    }
}

#[test]
fn other_names_are_not_reserved() {
    for n in ["", "a", "session_id", "Name", "names", "line", "linenoX", "task"] {
        assert!(!is_reserved(n), "{}", n);
    }
}

#[test]
fn only_builtin_attributes_give_none() {
    assert!(find_kv_args(builtin_attributes()).is_none());
}

#[test]
fn no_attributes_give_none() {
    assert!(find_kv_args(Vec::<(String, String)>::new()).is_none());
}

#[test]
fn user_fields_after_builtins_are_extracted() {
    let mut attrs = builtin_attributes();
    attrs.extend(pairs(&[("a", "b"), ("session_id", "123")]));
    let found = find_kv_args(attrs).expect("user fields");
    assert_eq!(found.0, pairs(&[("a", "b"), ("session_id", "123")]));
}

#[test]
fn user_field_named_lineno_drops_earlier_fields() {
    let mut attrs = builtin_attributes();
    attrs.extend(pairs(&[("a", "1"), ("lineno", "7"), ("b", "2")]));
    let found = find_kv_args(attrs).expect("user fields");
    assert_eq!(found.0, pairs(&[("b", "2")]));
}

#[test]
fn user_field_named_lineno_last_gives_none() {
    let mut attrs = builtin_attributes();
    attrs.extend(pairs(&[("a", "1"), ("lineno", "7")]));
    assert!(find_kv_args(attrs).is_none());
}

#[test]
fn attributes_without_builtins_are_all_user_fields() {
    let attrs = pairs(&[("x", "1"), ("y", "2")]);
    let found = find_kv_args(attrs.clone()).expect("user fields");
    assert_eq!(found.0, attrs);
}

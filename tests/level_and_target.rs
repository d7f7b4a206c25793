use pyo3_pylogger::{get_level, translate_target, Level};

#[test]
fn level_boundaries() {
    let cases: Vec<(u8, Level)> = vec![
        (0, Level::Trace),
        (9, Level::Trace),
        (10, Level::Debug),
        (19, Level::Debug),
        (20, Level::Info),
        (29, Level::Info),
        (30, Level::Warn),
        (39, Level::Warn),
        (40, Level::Error),
        (50, Level::Error),
        (255, Level::Error),
    ];
    for (code, expected) in cases {
        assert_eq!(get_level(code), expected, "code {}", code);
    }
}

#[test]
fn target_of_anonymous_logger_is_root() {
    assert_eq!(translate_target("app", ""), "app");
    assert_eq!(translate_target("app", "root"), "app");
}

#[test]
fn target_of_dotted_name() {
    assert_eq!(translate_target("app", "foo.bar.baz"), "app::foo::bar::baz");
}

#[test]
fn target_of_plain_name() {
    assert_eq!(translate_target("app", "name"), "app::name");
    assert_eq!(translate_target("app", "rooted"), "app::rooted");
}

#[test]
fn target_keeps_edge_dots() {
    assert_eq!(translate_target("app", ".a."), "app::::a::");
    assert_eq!(translate_target("", "x.y"), "::x::y");
}

#[test]
fn target_of_non_ascii_name() {
    assert_eq!(translate_target("app", "é.ü"), "app::é::ü");
}

use debugger_gui::records::{
    find_field, stop_location, stop_request, stop_target, AsyncClass, AsyncKind, RecordEffect,
    Value,
};

fn text(s: &str) -> Value {
    Value::Const(s.to_string())
}

fn named(name: &str, value: Value) -> (String, Value) {
    (name.to_string(), value)
}

fn stop_at(path: &str, line: &str) -> Vec<(String, Value)> {
    vec![
        named("reason", text("breakpoint-hit")),
        named(
            "frame",
            Value::Tuple(vec![
                named("addr", text("0x1")),
                named("fullname", text(path)),
                named("line", text(line)),
            ]),
        ),
    ]
}

#[test]
fn first_field_of_a_name_is_found() {
    let fields = vec![named("a", text("1")), named("b", text("2")), named("a", text("3"))];
    assert!(matches!(find_field(&fields, "a"), Some(Value::Const(s)) if s == "1"));
    assert!(matches!(find_field(&fields, "b"), Some(Value::Const(s)) if s == "2"));
    assert!(find_field(&fields, "c").is_none());
    assert!(find_field(&Vec::new(), "a").is_none());
}

#[test]
fn stop_location_reads_file_and_line() {
    assert_eq!(
        stop_location(&stop_at("/a.c", "11")),
        Some(("/a.c".to_string(), "11".to_string()))
    );
}

#[test]
fn stop_location_needs_all_fields() {
    assert_eq!(stop_location(&Vec::new()), None);
    assert_eq!(stop_location(&vec![named("frame", text("x"))]), None);
    let no_line = vec![named("frame", Value::Tuple(vec![named("fullname", text("/a.c"))]))];
    assert_eq!(stop_location(&no_line), None);
    let no_path = vec![named("frame", Value::Tuple(vec![named("line", text("1"))]))];
    assert_eq!(stop_location(&no_path), None);
    let listed = vec![named(
        "frame",
        Value::Tuple(vec![
            named("fullname", text("/a.c")),
            named("line", Value::List(vec![text("1")])),
        ]),
    )];
    assert_eq!(stop_location(&listed), None);
}

#[test]
fn stop_line_becomes_zero_based() {
    match stop_request(&stop_at("/a.c", "11")) {
        RecordEffect::Show { path, line } => {
            assert_eq!(path, "/a.c");
            assert_eq!(line, 10);
        },
        other => panic!("unexpected effect {:?}", other),
    }
    assert!(matches!(
        stop_request(&stop_at("/a.c", "1")),
        RecordEffect::Show { line: 0, .. }
    ));
}

#[test]
fn unusable_line_number_is_malformed() {
    assert!(matches!(stop_request(&stop_at("/a.c", "eleven")), RecordEffect::Malformed));
    assert!(matches!(stop_request(&stop_at("/a.c", "")), RecordEffect::Malformed));
    assert!(matches!(stop_request(&stop_at("/a.c", "-3")), RecordEffect::Malformed));
    assert!(matches!(stop_request(&stop_at("/a.c", "0")), RecordEffect::Malformed));
    assert!(matches!(stop_request(&Vec::new()), RecordEffect::Malformed));
}

#[test]
fn stop_target_takes_the_number_as_read() {
    assert!(matches!(
        stop_target("/a.c".to_string(), Some(11)),
        RecordEffect::Show { line: 10, .. }
    ));
    assert!(matches!(stop_target("/a.c".to_string(), Some(0)), RecordEffect::Malformed));
    assert!(matches!(stop_target("/a.c".to_string(), None), RecordEffect::Malformed));
    assert!(matches!(
        stop_target("/a.c".to_string(), Some(usize::MAX)),
        RecordEffect::Show { line, .. } if line == usize::MAX - 1
    ));
}

#[test]
fn kinds_and_classes_have_names() {
    assert_eq!(AsyncKind::Exec.name(), "Exec");
    assert_eq!(AsyncKind::Status.name(), "Status");
    assert_eq!(AsyncKind::Notify.name(), "Notify");
    assert_eq!(AsyncClass::Stopped.name(), "Stopped");
    assert_eq!(AsyncClass::Other("ThreadCreated".to_string()).name(), "ThreadCreated");
}

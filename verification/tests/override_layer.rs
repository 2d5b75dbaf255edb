use level_override::formatter::{apply_override, EventFormatter};
use level_override::model::{Event, EventKind, Field, FieldSet, FmtError, Level, Metadata};

fn level_label(level: &Level) -> &'static str {
    match level {
        Level::Trace => "TRACE",
        Level::Debug => "DEBUG",
        Level::Info => "INFO",
        Level::Warn => "WARN",
        Level::Error => "ERROR",
    }
}

fn make_metadata(
    name: &str,
    target: &str,
    level: Level,
    file: Option<&str>,
    line: Option<u32>,
    field_names: &[&str],
    callsite: u64,
    kind: EventKind,
) -> Metadata {
    Metadata {
        name: name.to_string(),
        target: target.to_string(),
        level,
        file: file.map(|f| f.to_string()),
        line,
        module: None,
        fields: FieldSet {
            names: field_names.iter().map(|n| n.to_string()).collect(),
            callsite,
        },
        kind,
    }
}

/// A deterministic downstream formatter: renders the level, target and
/// every field value whose handle matches the event's own field-name
/// list, in slot order. Entries with an absent value, or whose handle
/// carries a foreign call-site identity, are dropped, as the substrate
/// drops them.
fn render(event: &Event) -> Result<String, FmtError> {
    let mut out = String::new();
    out.push_str(level_label(&event.metadata.level));
    out.push(' ');
    out.push_str(&event.metadata.target);
    if let (Some(file), Some(line)) = (&event.metadata.file, &event.metadata.line) {
        out.push(' ');
        out.push_str(file);
        out.push(':');
        out.push_str(&line.to_string());
    }
    let mut first = true;
    for (field, value) in &event.values {
        if field.callsite != event.metadata.fields.callsite {
            continue;
        }
        if field.index >= event.metadata.fields.names.len() {
            continue;
        }
        if let Some(text) = value {
            out.push(if first { ' ' } else { ',' });
            first = false;
            out.push_str(&event.metadata.fields.names[field.index]);
            out.push('=');
            out.push_str(text);
        }
    }
    Ok(out)
}

fn failing_formatter(_event: &Event) -> Result<String, FmtError> {
    Err(FmtError)
}

fn error_event_at(file: &str, line: u32) -> Event {
    let metadata = make_metadata(
        "an error",
        "app::core",
        Level::Error,
        Some(file),
        Some(line),
        &["count"],
        7,
        EventKind::Event,
    );
    Event {
        metadata,
        values: vec![(Field { index: 0, callsite: 7 }, Some("3".to_string()))],
        parent: None,
    }
}

fn location_check(metadata: &Metadata) -> Option<Level> {
    if metadata.file.as_deref() == Some("core.x")
        && metadata.line == Some(42)
        && metadata.level == Level::Error
    {
        Some(Level::Warn)
    } else {
        None
    }
}

#[test]
fn error_at_location_becomes_warn() {
    let layer = EventFormatter::<10, _, _>::new(render, location_check);
    let event = error_event_at("core.x", 42);
    let out = layer.format_event(&event).unwrap();
    assert_eq!(out, "WARN app::core core.x:42 count=3");
}

#[test]
fn error_elsewhere_stays_error() {
    let layer = EventFormatter::<10, _, _>::new(render, location_check);
    let event = error_event_at("other.x", 13);
    let out = layer.format_event(&event).unwrap();
    assert_eq!(out, "ERROR app::core other.x:13 count=3");
}

#[test]
fn no_override_is_byte_identical_to_direct_call() {
    let layer = EventFormatter::<10, _, _>::new(render, |_m: &Metadata| None);
    let event = error_event_at("core.x", 42);
    let through_layer = layer.format_event(&event).unwrap();
    let direct = render(&event).unwrap();
    assert_eq!(through_layer, direct);
}

#[test]
fn override_changes_level_and_nothing_else() {
    let layer = EventFormatter::<10, _, _>::new(render, |_m: &Metadata| Some(Level::Debug));
    let event = error_event_at("core.x", 42);
    let out = layer.format_event(&event).unwrap();
    let direct = render(&event).unwrap();
    assert_eq!(out, "DEBUG app::core core.x:42 count=3");
    assert_eq!(direct.replacen("ERROR", "DEBUG", 1), out);
}

#[test]
fn formatting_twice_is_identical() {
    let layer = EventFormatter::<10, _, _>::new(render, location_check);
    let event = error_event_at("core.x", 42);
    let first = layer.format_event(&event).unwrap();
    let second = layer.format_event(&event).unwrap();
    assert_eq!(first, second);
}

#[test]
fn capacity_two_truncates_third_field() {
    let metadata = make_metadata(
        "evt",
        "t",
        Level::Info,
        None,
        None,
        &["a", "b", "c"],
        9,
        EventKind::Event,
    );
    let event = Event {
        metadata,
        values: vec![
            (Field { index: 0, callsite: 9 }, Some("1".to_string())),
            (Field { index: 1, callsite: 9 }, Some("2".to_string())),
            (Field { index: 2, callsite: 9 }, Some("3".to_string())),
        ],
        parent: None,
    };
    let layer = EventFormatter::<2, _, _>::new(render, |_m: &Metadata| Some(Level::Warn));
    let out = layer.format_event(&event).unwrap();
    assert_eq!(out, "WARN t a=1,b=2");

    let rebuilt = apply_override::<2>(&event, Level::Warn);
    assert_eq!(rebuilt.values.len(), 2);
    assert_eq!(rebuilt.values[0].1.as_deref(), Some("1"));
    assert_eq!(rebuilt.values[1].1.as_deref(), Some("2"));
}

#[test]
fn within_capacity_keeps_every_field_in_order() {
    let metadata = make_metadata(
        "evt",
        "t",
        Level::Info,
        None,
        None,
        &["a", "b", "c"],
        9,
        EventKind::Event,
    );
    let event = Event {
        metadata,
        values: vec![
            (Field { index: 0, callsite: 9 }, Some("1".to_string())),
            (Field { index: 1, callsite: 9 }, Some("2".to_string())),
            (Field { index: 2, callsite: 9 }, Some("3".to_string())),
        ],
        parent: None,
    };
    let layer = EventFormatter::<10, _, _>::new(render, |_m: &Metadata| Some(Level::Error));
    let out = layer.format_event(&event).unwrap();
    assert_eq!(out, "ERROR t a=1,b=2,c=3");
}

#[test]
fn unset_field_is_not_captured() {
    let metadata = make_metadata(
        "evt",
        "t",
        Level::Info,
        None,
        None,
        &["a", "b"],
        9,
        EventKind::Event,
    );
    let event = Event {
        metadata,
        values: vec![
            (Field { index: 0, callsite: 9 }, None),
            (Field { index: 1, callsite: 9 }, Some("2".to_string())),
        ],
        parent: None,
    };
    let rebuilt = apply_override::<4>(&event, Level::Warn);
    assert_eq!(rebuilt.values.len(), 4);
    assert_eq!(rebuilt.values[0].0.index, 1);
    assert_eq!(rebuilt.values[0].1.as_deref(), Some("2"));
    assert!(rebuilt.values[1].1.is_none());
    let out = render(&rebuilt).unwrap();
    assert_eq!(out, "WARN t b=2");
}

#[test]
fn parent_link_is_preserved() {
    let metadata = make_metadata(
        "child",
        "t",
        Level::Error,
        None,
        None,
        &[],
        5,
        EventKind::Span,
    );
    let event = Event { metadata, values: vec![], parent: Some(77) };
    let rebuilt = apply_override::<4>(&event, Level::Info);
    assert_eq!(rebuilt.parent, Some(77));
    assert_eq!(rebuilt.metadata.kind, EventKind::Span);

    let orphan = Event {
        metadata: make_metadata("solo", "t", Level::Error, None, None, &[], 5, EventKind::Event),
        values: vec![],
        parent: None,
    };
    assert_eq!(apply_override::<4>(&orphan, Level::Info).parent, None);
}

#[test]
fn rebuilt_descriptor_keeps_callsite_and_names() {
    let event = error_event_at("core.x", 42);
    let rebuilt = apply_override::<3>(&event, Level::Warn);
    assert_eq!(rebuilt.metadata.fields.callsite, event.metadata.fields.callsite);
    assert_eq!(rebuilt.metadata.fields.names, event.metadata.fields.names);
    assert_eq!(rebuilt.metadata.name, event.metadata.name);
    assert_eq!(rebuilt.metadata.target, event.metadata.target);
    assert_eq!(rebuilt.metadata.file, event.metadata.file);
    assert_eq!(rebuilt.metadata.line, event.metadata.line);
    assert_eq!(rebuilt.metadata.level, Level::Warn);
}

#[test]
fn downstream_failure_propagates_verbatim() {
    let pass = EventFormatter::<4, _, _>::new(failing_formatter, |_m: &Metadata| None);
    let event = error_event_at("core.x", 42);
    assert_eq!(pass.format_event(&event), Err(FmtError));

    let overriding =
        EventFormatter::<4, _, _>::new(failing_formatter, |_m: &Metadata| Some(Level::Warn));
    assert_eq!(overriding.format_event(&event), Err(FmtError));
}

use nu_plugin_umoka::commands::{
    poison_error, resolve_value_input, Clear, CommandError, Delete, Get, GetOrPut, Has, Incr, Put,
    PutIfAbsent, Stats, Take, UMoka,
};
use nu_plugin_umoka::{Store, StoreStats, StoredValue, DEFAULT_MAX_CAPACITY};
use nu_protocol::{Span, Value};

fn span() -> Span {
    Span::test_data()
}

fn nothing() -> StoredValue {
    StoredValue::Nothing { span: span() }
}

fn text(s: &str) -> StoredValue {
    StoredValue::from_value(Value::string(s, span()))
}

fn missing_value() -> CommandError {
    CommandError {
        message: "Missing value",
        help: Some("Pass a value as pipeline input or as the second positional argument."),
        label: "value required here",
    }
}

fn ambiguous_value() -> CommandError {
    CommandError {
        message: "Ambiguous value input",
        help: Some("Use either pipeline input or a positional value, not both."),
        label: "conflicting inputs",
    }
}

#[test]
fn value_input_takes_pipeline_input() {
    assert_eq!(resolve_value_input(text("a"), None), Ok(text("a")));
}

#[test]
fn value_input_takes_positional_value() {
    assert_eq!(resolve_value_input(nothing(), Some(text("b"))), Ok(text("b")));
}

#[test]
fn value_input_missing() {
    assert_eq!(resolve_value_input(nothing(), None), Err(missing_value()));
}

#[test]
fn value_input_ambiguous() {
    assert_eq!(resolve_value_input(text("a"), Some(text("b"))), Err(ambiguous_value()));
}

#[test]
fn put_stores_and_returns_value() {
    let mut store = Store::new(DEFAULT_MAX_CAPACITY);
    assert_eq!(Put.run(&mut store, "k".into(), nothing(), Some(text("v"))), Ok(text("v")));
    assert_eq!(store.get("k"), Some(text("v")));
    assert_eq!(Put.run(&mut store, "j".into(), text("w"), None), Ok(text("w")));
    assert_eq!(store.get("j"), Some(text("w")));
}

#[test]
fn put_with_two_values_stores_nothing() {
    let mut store = Store::new(DEFAULT_MAX_CAPACITY);
    assert_eq!(Put.run(&mut store, "k".into(), text("a"), Some(text("b"))), Err(ambiguous_value()));
    assert!(!store.has("k"));
    assert_eq!(store.stats().entry_count, 0);
}

#[test]
fn put_without_value_stores_nothing() {
    let mut store = Store::new(DEFAULT_MAX_CAPACITY);
    assert_eq!(Put.run(&mut store, "k".into(), nothing(), None), Err(missing_value()));
    assert!(!store.has("k"));
}

#[test]
fn put_if_absent_command_reports_insertion() {
    let mut store = Store::new(DEFAULT_MAX_CAPACITY);
    assert_eq!(PutIfAbsent.run(&mut store, "k".into(), text("a"), None), Ok((true, text("a"))));
    assert_eq!(PutIfAbsent.run(&mut store, "k".into(), nothing(), Some(text("b"))), Ok((false, text("a"))));
}

#[test]
fn put_if_absent_without_value_stores_nothing() {
    let mut store = Store::new(DEFAULT_MAX_CAPACITY);
    assert_eq!(PutIfAbsent.run(&mut store, "k".into(), nothing(), None), Err(missing_value()));
    assert!(!store.has("k"));
}

#[test]
fn get_command_answers_nothing_for_missing_key() {
    let mut store = Store::new(DEFAULT_MAX_CAPACITY);
    let head = Span::new(3, 9);
    assert_eq!(Get.run(&mut store, "k", head), StoredValue::Nothing { span: head });
    store.put("k".into(), text("v"));
    assert_eq!(Get.run(&mut store, "k", head), text("v"));
}

#[test]
fn get_or_put_command_keeps_first_value() {
    let mut store = Store::new(DEFAULT_MAX_CAPACITY);
    assert_eq!(GetOrPut.run(&mut store, "k".into(), text("a"), None), Ok(text("a")));
    assert_eq!(GetOrPut.run(&mut store, "k".into(), nothing(), Some(text("b"))), Ok(text("a")));
    assert_eq!(GetOrPut.run(&mut store, "j".into(), text("a"), Some(text("b"))), Err(ambiguous_value()));
    assert!(!store.has("j"));
}

#[test]
fn take_command_removes_and_answers_nothing_after() {
    let mut store = Store::new(DEFAULT_MAX_CAPACITY);
    let head = Span::new(1, 2);
    store.put("k".into(), text("v"));
    assert_eq!(Take.run(&mut store, "k", head), text("v"));
    assert_eq!(Take.run(&mut store, "k", head), StoredValue::Nothing { span: head });
}

#[test]
fn delete_has_clear_commands() {
    let mut store = Store::new(DEFAULT_MAX_CAPACITY);
    store.put("k".into(), text("v"));
    assert!(Has.run(&mut store, "k"));
    assert!(Delete.run(&mut store, "k"));
    assert!(!Has.run(&mut store, "k"));
    assert!(!Delete.run(&mut store, "k"));
    store.put("j".into(), text("w"));
    assert!(Clear.run(&mut store));
    assert!(!Has.run(&mut store, "j"));
}

#[test]
fn incr_command_defaults_to_one() {
    let mut store = Store::new(DEFAULT_MAX_CAPACITY);
    assert_eq!(Incr.run(&mut store, "n".into(), None, span()), Ok(1));
    assert_eq!(Incr.run(&mut store, "n".into(), None, span()), Ok(2));
    assert_eq!(Incr.run(&mut store, "n".into(), Some(10), span()), Ok(12));
}

#[test]
fn incr_command_reports_non_integer() {
    let mut store = Store::new(DEFAULT_MAX_CAPACITY);
    store.put("k".into(), text("nope"));
    assert_eq!(
        Incr.run(&mut store, "k".into(), Some(1), span()),
        Err(CommandError {
            message: "Value is not an integer",
            help: Some("Use `umoka incr` only on integer values or on missing keys."),
            label: "integer value required here",
        })
    );
}

#[test]
fn stats_command_reports_figures() {
    let mut store = Store::new(DEFAULT_MAX_CAPACITY);
    store.put("k".into(), text("v"));
    assert_eq!(Stats.run(&mut store), StoreStats { entry_count: 1, max_capacity: 1024 });
}

#[test]
fn umoka_alone_asks_for_subcommand() {
    assert_eq!(
        UMoka.run(),
        CommandError {
            message: "Subcommand required",
            help: Some("Use a subcommand such as `put`, `put-if-absent`, `get`, or `take`."),
            label: "subcommand missing here",
        }
    );
    assert_eq!(UMoka.extra_description(), "Run `help umoka put` or `help umoka get` for subcommands.");
}

#[test]
fn poisoned_lock_error() {
    assert_eq!(
        poison_error(),
        CommandError { message: "UMoka store lock poisoned", help: None, label: "store unavailable" }
    );
}

#[test]
fn command_names() {
    assert_eq!(UMoka.name(), "umoka");
    assert_eq!(Put.name(), "umoka put");
    assert_eq!(PutIfAbsent.name(), "umoka put-if-absent");
    assert_eq!(Get.name(), "umoka get");
    assert_eq!(GetOrPut.name(), "umoka get-or-put");
    assert_eq!(Take.name(), "umoka take");
    assert_eq!(Delete.name(), "umoka delete");
    assert_eq!(Has.name(), "umoka has");
    assert_eq!(Clear.name(), "umoka clear");
    assert_eq!(Incr.name(), "umoka incr");
    assert_eq!(Stats.name(), "umoka stats");
}

#[test]
fn command_descriptions() {
    assert_eq!(UMoka.description(), "A bounded in-memory key to value store.");
    assert_eq!(Put.description(), "Store a value under a key.");
    assert_eq!(PutIfAbsent.description(), "Store a value only if the key is missing.");
    assert_eq!(Get.description(), "Get a value by key.");
    assert_eq!(
        GetOrPut.description(),
        "Return the existing value for a key, or store and return a fallback."
    );
    assert_eq!(Take.description(), "Get and delete a value by key.");
    assert_eq!(Delete.description(), "Delete a value by key.");
    assert_eq!(Has.description(), "Check whether a key exists.");
    assert_eq!(Clear.description(), "Delete all entries.");
    assert_eq!(Incr.description(), "Atomically increment an integer value by key.");
    assert_eq!(Stats.description(), "Show store statistics.");
}

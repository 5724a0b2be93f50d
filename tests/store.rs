use serde_yaml::value::{Tag, TaggedValue};
use serde_yaml::{Mapping, Value};
use state_store::document::default_app_state;
use state_store::store::{encode_for_save, finish_save, load_from, ErrorKind, ReadOutcome, WriteOutcome};

fn key(s: &str) -> Value {
    Value::String(s.to_string())
}

fn expected_default() -> Value {
    let mut map = Mapping::new();
    map.insert(key("events"), Value::Sequence(vec![]));
    map.insert(key("configFileContents"), Value::Mapping(Mapping::new()));
    let mut ui = Mapping::new();
    ui.insert(key("settingsOpen"), Value::Bool(true));
    map.insert(key("uiState"), Value::Mapping(ui));
    Value::Mapping(map)
}

fn sample_document() -> Value {
    let mut ui = Mapping::new();
    ui.insert(key("settingsOpen"), Value::Bool(false));
    ui.insert(key("zoom"), Value::Number(3i64.into()));
    let mut map = Mapping::new();
    map.insert(key("events"), Value::Sequence(vec![key("start"), Value::Null, Value::Number((-7i64).into())]));
    map.insert(key("uiState"), Value::Mapping(ui));
    Value::Mapping(map)
}

fn nested_tags() -> Value {
    let inner = TaggedValue { tag: Tag::new("inner"), value: Value::Null };
    let outer = TaggedValue { tag: Tag::new("outer"), value: Value::Tagged(Box::new(inner)) };
    Value::Tagged(Box::new(outer))
}

/// Runs a save against a file held in memory, writing only what the store
/// hands back for writing.
fn save_into(file: &mut Option<String>, doc: &Value) -> Result<String, ErrorKind> {
    match encode_for_save(doc) {
        Ok(text) => {
            *file = Some(text);
            finish_save(WriteOutcome::Written).map_err(|e| e.kind)
        }
        Err(e) => Err(e.kind),
    }
}

fn load_of(file: &Option<String>) -> Result<Value, ErrorKind> {
    let read = match file {
        Some(text) => ReadOutcome::Contents(text.clone()),
        None => ReadOutcome::NotFound,
    };
    load_from(read).map_err(|e| e.kind)
}

#[test]
fn default_document_has_the_documented_shape() {
    assert_eq!(Value::Mapping(default_app_state()), expected_default());
}

#[test]
fn default_document_keeps_key_order() {
    let keys: Vec<Value> = default_app_state().keys().cloned().collect();
    assert_eq!(keys, vec![key("events"), key("configFileContents"), key("uiState")]);
}

#[test]
fn absent_file_loads_default() {
    assert_eq!(load_from(ReadOutcome::NotFound).unwrap(), expected_default());
}

#[test]
fn round_trip_of_a_document() {
    let mut file = None;
    let doc = sample_document();
    assert_eq!(save_into(&mut file, &doc), Ok("file written".to_string()));
    assert_eq!(load_of(&file), Ok(doc));
}

#[test]
fn round_trip_of_the_default_document() {
    let mut file = None;
    let doc = expected_default();
    save_into(&mut file, &doc).unwrap();
    assert_eq!(load_of(&file), Ok(doc));
}

#[test]
fn second_save_replaces_the_first() {
    let mut file = None;
    save_into(&mut file, &sample_document()).unwrap();
    let mut second = Mapping::new();
    second.insert(key("events"), Value::Sequence(vec![key("only")]));
    let second = Value::Mapping(second);
    save_into(&mut file, &second).unwrap();
    assert_eq!(load_of(&file), Ok(second));
}

#[test]
fn malformed_file_is_a_deserialization_error() {
    let err = load_from(ReadOutcome::Contents("events: [unclosed".to_string())).unwrap_err();
    assert_eq!(err.kind, ErrorKind::Deserialization);
    assert!(!err.to_message().is_empty());
}

#[test]
fn unencodable_document_is_a_serialization_error_and_keeps_the_file() {
    let mut file = None;
    save_into(&mut file, &sample_document()).unwrap();
    let before = file.clone();
    assert_eq!(save_into(&mut file, &nested_tags()), Err(ErrorKind::Serialization));
    assert_eq!(file, before);
    assert_eq!(load_of(&file), Ok(sample_document()));
}

#[test]
fn load_twice_gives_equal_documents() {
    let mut file = None;
    assert_eq!(load_of(&file), load_of(&file));
    save_into(&mut file, &sample_document()).unwrap();
    assert_eq!(load_of(&file), load_of(&file));
}

#[test]
fn failed_read_is_an_io_error() {
    let err = load_from(ReadOutcome::Failed("permission denied".to_string())).unwrap_err();
    assert_eq!(err.kind, ErrorKind::Io);
    assert_eq!(err.to_message(), "permission denied");
}

#[test]
fn failed_write_is_an_io_error() {
    let err = finish_save(WriteOutcome::Failed("disk full".to_string())).unwrap_err();
    assert_eq!(err.kind, ErrorKind::Io);
    assert_eq!(err.message, "disk full");
}

#[test]
fn successful_write_is_confirmed() {
    assert_eq!(finish_save(WriteOutcome::Written).unwrap(), "file written");
}

#[test]
fn encoding_gives_yaml_text() {
    let mut map = Mapping::new();
    map.insert(key("a"), Value::Number(1i64.into()));
    assert_eq!(encode_for_save(&Value::Mapping(map)).unwrap(), "a: 1\n");
}

#[test]
fn decoding_reads_yaml_text() {
    let mut map = Mapping::new();
    map.insert(key("a"), Value::Sequence(vec![Value::Bool(true)]));
    assert_eq!(load_from(ReadOutcome::Contents("a:\n- true\n".to_string())).unwrap(), Value::Mapping(map));
}

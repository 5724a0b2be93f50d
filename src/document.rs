//! The document that stands for the application state when none was saved.
use vstd::prelude::*;
use serde_yaml::{Mapping, Value};
use crate::yaml::{
    mapping_entries, mapping_insert, mapping_of, new_mapping, sequence_of, string_of,
};

verus! {

/// Holds when `v` is the default document:
/// `{events: [], configFileContents: {}, uiState: {settingsOpen: true}}`,
/// with its keys in that order.
pub open spec fn is_default_document(v: Value) -> bool {
    &&& mapping_of(v) is Some
    &&& {
        let e = mapping_entries(mapping_of(v)->Some_0);
        &&& e.len() == 3
        &&& string_of(e[0].0) == Some("events"@)
        &&& sequence_of(e[0].1) == Some(Seq::<Value>::empty())
        &&& string_of(e[1].0) == Some("configFileContents"@)
        &&& mapping_of(e[1].1) is Some
        &&& mapping_entries(mapping_of(e[1].1)->Some_0).len() == 0
        &&& string_of(e[2].0) == Some("uiState"@)
        &&& mapping_of(e[2].1) is Some
        &&& {
            let u = mapping_entries(mapping_of(e[2].1)->Some_0);
            &&& u.len() == 1
            &&& string_of(u[0].0) == Some("settingsOpen"@)
            &&& u[0].1 == Value::Bool(true)
        }
    }
}

/// Builds the mapping of the default document.
pub fn default_app_state() -> (r: Mapping)
    ensures
        is_default_document(Value::Mapping(r)),
{
    let mut map = new_mapping();
    let events = String::from_str("events");
    let config = String::from_str("configFileContents");
    let ui = String::from_str("uiState");
    let settings = String::from_str("settingsOpen");
    proof {
        reveal_strlit("events");
        reveal_strlit("configFileContents");
        reveal_strlit("uiState");
        reveal_strlit("settingsOpen");
    }
    let events_key = Value::String(events);
    mapping_insert(&mut map, events_key, Value::Sequence(Vec::new()));
    assert(string_of(mapping_entries(map)[0].0) == Some("events"@));
    let config_key = Value::String(config);
    assert("events"@ != "configFileContents"@) by {
        assert("events"@.len() != "configFileContents"@.len());
    }
    mapping_insert(&mut map, config_key, Value::Mapping(new_mapping()));
    let mut ui_state = new_mapping();
    mapping_insert(&mut ui_state, Value::String(settings), Value::Bool(true));
    let ui_key = Value::String(ui);
    assert("events"@ != "uiState"@ && "configFileContents"@ != "uiState"@) by {
        assert("events"@.len() != "uiState"@.len());
        assert("configFileContents"@.len() != "uiState"@.len());
    }
    mapping_insert(&mut map, ui_key, Value::Mapping(ui_state));
    map
}

} // verus!

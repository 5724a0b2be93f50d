//! The decisions of the state store: what a save writes and what a load
//! yields, given the outcome of the file system call that the caller made.
use vstd::prelude::*;
use serde_yaml::Value;
use crate::document::{default_app_state, is_default_document};
use crate::yaml::{decode_yaml, encode_yaml, error_text, yaml_decoding, yaml_encoding};

verus! {

/// What went wrong in a save or a load.
#[derive(Clone, Copy, Debug, PartialEq, Eq, Structural)]
pub enum ErrorKind {
    /// The document could not be encoded as YAML.
    Serialization,
    /// The state file holds text that is not a YAML document.
    Deserialization,
    /// The file system call failed.
    Io,
}

/// A failed save or load: its kind and a readable message.
#[derive(Clone, Debug)]
pub struct StoreError {
    pub kind: ErrorKind,
    pub message: String,
}

impl StoreError {
    /// The readable message of this error.
    pub fn to_message(&self) -> (r: String)
        ensures
            r@ == self.message@,
    {
        self.message.clone()
    }
}

/// What reading the whole state file gave.
#[derive(Clone, Debug)]
pub enum ReadOutcome {
    /// The file exists and holds this text.
    Contents(String),
    /// There is no file at the path.
    NotFound,
    /// The read failed for another reason, described by the message.
    Failed(String),
}

impl ReadOutcome {
    /// The state of the file that this outcome observed: `Some(None)` for
    /// no file, `Some(Some(t))` for a file holding `t`, `None` where the read
    /// failed and observed nothing.
    pub open spec fn observed(&self) -> Option<Option<Seq<char>>> {
        match self {
            ReadOutcome::Contents(s) => Some(Some(s@)),
            ReadOutcome::NotFound => Some(None),
            ReadOutcome::Failed(_) => None,
        }
    }
}

/// What writing the state file gave.
#[derive(Clone, Debug)]
pub enum WriteOutcome {
    /// The file now holds the text handed to the write.
    Written,
    /// The write failed, described by the message.
    Failed(String),
}

/// A store result with the error reduced to its kind.
pub open spec fn outcome_kind<T>(r: Result<T, StoreError>) -> Result<T, ErrorKind> {
    match r {
        Ok(v) => Ok(v),
        Err(e) => Err(e.kind),
    }
}

/// Holds when `r` is what loading the state file `file` yields: the default
/// document where there is no file, the decoded document where the file
/// holds YAML, a `Deserialization` error where it does not.
pub open spec fn loads_as(file: Option<Seq<char>>, r: Result<Value, ErrorKind>) -> bool {
    match file {
        None => r is Ok && is_default_document(r->Ok_0),
        Some(text) => match yaml_decoding(text) {
            Some(v) => r == Ok::<Value, ErrorKind>(v),
            None => r == Err::<Value, ErrorKind>(ErrorKind::Deserialization),
        },
    }
}

/// The state file after saving `doc` over `file`: the encoding of `doc`,
/// or `file` untouched where `doc` cannot be encoded.
pub open spec fn file_after_save(file: Option<Seq<char>>, doc: Value) -> Option<Seq<char>> {
    match yaml_encoding(doc) {
        Some(text) => Some(text),
        None => file,
    }
}

/// Decides what a load yields from what reading the state file gave.
pub fn load_from(read: ReadOutcome) -> (r: Result<Value, StoreError>)
    ensures
        read.observed() is Some ==> loads_as(read.observed()->Some_0, outcome_kind(r)),
        read is Failed ==> r is Err && r->Err_0.kind == ErrorKind::Io && r->Err_0.message@
            == read->Failed_0@,
{
    match read {
        ReadOutcome::Contents(text) => match decode_yaml(text.as_str()) {
            Ok(doc) => Ok(doc),
            Err(e) => Err(StoreError { kind: ErrorKind::Deserialization, message: error_text(&e) }),
        },
        ReadOutcome::NotFound => Ok(Value::Mapping(default_app_state())),
        ReadOutcome::Failed(message) => Err(StoreError { kind: ErrorKind::Io, message }),
    }
}

/// Encodes the document for a save: `Ok` holds the text to write to the
/// state file, an error means that nothing is to be written.
pub fn encode_for_save(state: &Value) -> (r: Result<String, StoreError>)
    ensures
        r is Ok <==> yaml_encoding(*state) is Some,
        r is Ok ==> forall|file: Option<Seq<char>>|
            file_after_save(file, *state) == Some(r->Ok_0@),
        r is Err ==> r->Err_0.kind == ErrorKind::Serialization && forall|file: Option<Seq<char>>|
            file_after_save(file, *state) == file,
{
    match encode_yaml(state) {
        Ok(text) => Ok(text),
        Err(e) => Err(StoreError { kind: ErrorKind::Serialization, message: error_text(&e) }),
    }
}

/// Decides what a save returns from what writing the state file gave.
pub fn finish_save(written: WriteOutcome) -> (r: Result<String, StoreError>)
    ensures
        written is Written ==> r is Ok && r->Ok_0@ == "file written"@,
        written is Failed ==> r is Err && r->Err_0.kind == ErrorKind::Io && r->Err_0.message@
            == written->Failed_0@,
{
    proof {
        reveal_strlit("file written");
    }
    match written {
        WriteOutcome::Written => Ok(String::from_str("file written")),
        WriteOutcome::Failed(message) => Err(StoreError { kind: ErrorKind::Io, message }),
    }
}

} // verus!

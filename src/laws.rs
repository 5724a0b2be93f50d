//! Laws of saving and loading, over the state file as a value.
use vstd::prelude::*;
use serde_yaml::Value;
use crate::document::is_default_document;
use crate::store::{file_after_save, loads_as, ErrorKind};
use crate::yaml::{yaml_decoding, yaml_encoding};

verus! {

/// Loading after a save of an encodable document reads back exactly the
/// text that the save wrote, whatever the file held before: the load yields
/// what `serde_yaml` decodes from the document's encoding.
pub proof fn lemma_load_after_save(file: Option<Seq<char>>, doc: Value, r: Result<Value, ErrorKind>)
    requires
        yaml_encoding(doc) is Some,
    ensures
        loads_as(file_after_save(file, doc), r) <==> loads_as(
            Some(yaml_encoding(doc)->Some_0),
            r,
        ),
        yaml_decoding(yaml_encoding(doc)->Some_0) is Some ==> (loads_as(
            file_after_save(file, doc),
            r,
        ) <==> r == Ok::<Value, ErrorKind>(yaml_decoding(yaml_encoding(doc)->Some_0)->Some_0)),
{
}

/// Where there is no state file, a load succeeds with the default document.
pub proof fn lemma_absent_file_loads_default(r: Result<Value, ErrorKind>)
    requires
        loads_as(None, r),
    ensures
        r is Ok,
        is_default_document(r->Ok_0),
{
}

/// A second save replaces the file wholesale: after saving `first` and then
/// an encodable `second`, the file, and so any load of it, is the same as
/// after saving `second` alone over no file; nothing of `first` remains.
pub proof fn lemma_save_overwrites(
    file: Option<Seq<char>>,
    first: Value,
    second: Value,
    r: Result<Value, ErrorKind>,
)
    requires
        yaml_encoding(second) is Some,
    ensures
        file_after_save(file_after_save(file, first), second) == file_after_save(None, second),
        loads_as(file_after_save(file_after_save(file, first), second), r) <==> loads_as(
            file_after_save(None, second),
            r,
        ),
{
}

/// A state file whose text is not YAML makes a load fail with a
/// `Deserialization` error; it never yields the default document.
pub proof fn lemma_malformed_file_fails(text: Seq<char>, r: Result<Value, ErrorKind>)
    requires
        yaml_decoding(text) is None,
    ensures
        loads_as(Some(text), r) <==> r == Err::<Value, ErrorKind>(ErrorKind::Deserialization),
{
}

/// Saving a document that cannot be encoded leaves the state file as it was.
pub proof fn lemma_unencodable_save_keeps_file(file: Option<Seq<char>>, doc: Value)
    requires
        yaml_encoding(doc) is None,
    ensures
        file_after_save(file, doc) == file,
{
}

/// Two loads of the same state file agree: where the file exists they yield
/// the same result; where it does not, both yield the default document.
pub proof fn lemma_load_twice_agrees(
    file: Option<Seq<char>>,
    r1: Result<Value, ErrorKind>,
    r2: Result<Value, ErrorKind>,
)
    requires
        loads_as(file, r1),
        loads_as(file, r2),
    ensures
        file is Some ==> r1 == r2,
        file is None ==> r1 is Ok && r2 is Ok && is_default_document(r1->Ok_0)
            && is_default_document(r2->Ok_0),
{
}

} // verus!

//! The failure report shared by every component.

use vstd::prelude::*;

verus! {

#[verifier::external_type_specification]
#[verifier::external_body]
pub struct ExIoErrorKind(std::io::ErrorKind);

/// Category tag of a malformed or unparseable command row.
pub open spec fn kind_input_format() -> Seq<char> {
    "input_format"@
}

/// Category tag of a capability that is not available (spawning disabled).
pub open spec fn kind_user_permissions() -> Seq<char> {
    "user_permissions"@
}

/// Category tag of a file-system failure.
pub open spec fn kind_io() -> Seq<char> {
    "io"@
}

/// Category tag of a connect, bind, write or port-validation failure.
pub open spec fn kind_network() -> Seq<char> {
    "network"@
}

/// Category tag of a spawn, lookup or termination failure.
pub open spec fn kind_process() -> Seq<char> {
    "process"@
}

/// Category tag of an audit record that the sink could not accept.
pub open spec fn kind_logging() -> Seq<char> {
    "logging"@
}

/// The unit of failure reporting: a coarse category, a human-readable
/// message and, for file-system failures, the operating system's own
/// classification when one is known.
#[derive(Clone, Debug)]
pub struct GenerationError {
    pub kind: String,
    pub io_subkind: Option<std::io::ErrorKind>,
    pub message: String,
}

/// The text that `GenerationError::describe` renders.
pub open spec fn describe_text(kind: Seq<char>, message: Seq<char>) -> Seq<char> {
    "GenerationError {"@ + kind + ": message: "@ + message + " }"@
}

impl GenerationError {
    pub fn new(kind: String, message: String) -> (r: GenerationError)
        ensures
            r.kind@ == kind@,
            r.io_subkind is None,
            r.message@ == message@,
    {
        GenerationError { kind: kind, io_subkind: None, message: message }
    }

    /// A file-system failure that keeps the operating system's classification.
    pub fn from_io(subkind: std::io::ErrorKind, message: String) -> (r: GenerationError)
        ensures
            r.kind@ == kind_io(),
            r.io_subkind == Some(subkind),
            r.message@ == message@,
    {
        GenerationError { kind: String::from_str("io"), io_subkind: Some(subkind), message: message }
    }

    /// A failure described by plain text, under the category `string`.
    pub fn from_text(message: &str) -> (r: GenerationError)
        ensures
            r.kind@ == "string"@,
            r.io_subkind is None,
            r.message@ == message@,
    {
        GenerationError { kind: String::from_str("string"), io_subkind: None, message: String::from_str(message) }
    }

    /// The error as one line of text: `GenerationError {<kind>: message: <message> }`.
    pub fn describe(&self) -> (r: String)
        ensures
            r@ == describe_text(self.kind@, self.message@),
    {
        let r = String::from_str("GenerationError {");
        let r = r.concat(self.kind.as_str());
        let r = r.concat(": message: ");
        let r = r.concat(self.message.as_str());
        r.concat(" }")
    }
}

} // verus!

verus! {

/// Relies on chrono::Utc::now and DateTime::to_rfc3339: the current UTC time
/// as RFC 3339 text. Nothing is promised of the value, which depends on the clock.
#[verifier::external_body]
fn utc_now_rfc3339() -> String {
    chrono::Utc::now().to_rfc3339()
}

/// The current time as RFC 3339 text, as it stands in audit records.
pub fn get_time() -> String {
    utc_now_rfc3339()
}

} // verus!

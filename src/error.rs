use vstd::prelude::*;
use vstd::string::StringExecFns;

verus! {

/// The failures of the pipeline; each carries an operator-readable message.
#[derive(Debug, PartialEq, Eq)]
pub enum CoreError {
    /// The inbound notification did not have the expected shape.
    Deserialization(String),
    /// Reading the source object failed.
    Fetch(String),
    /// Feeding or finishing the compression encoder failed.
    Encode(String),
    /// The destination bucket name is missing or malformed.
    Config(String),
    /// Storing the compressed object failed.
    Put(String),
}

impl CoreError {
    pub open spec fn message(&self) -> Seq<char> {
        match self {
            CoreError::Deserialization(m) => m@,
            CoreError::Fetch(m) => m@,
            CoreError::Encode(m) => m@,
            CoreError::Config(m) => m@,
            CoreError::Put(m) => m@,
        }
    }

    /// The label that names the kind of failure in the error's text.
    pub open spec fn label(&self) -> Seq<char> {
        match self {
            CoreError::Deserialization(_) => "event error: "@,
            CoreError::Fetch(_) => "S3 get error: "@,
            CoreError::Encode(_) => "IO error: "@,
            CoreError::Config(_) => "environment variable error: "@,
            CoreError::Put(_) => "S3 put error: "@,
        }
    }

    /// Errors of the upload path are contained: they do not abort the event.
    pub open spec fn spec_is_contained(&self) -> bool {
        self is Config || self is Put
    }

    /// The human-readable description carried by the error.
    pub fn description(&self) -> (r: &str)
        ensures
            r@ == self.message(),
    {
        match self {
            CoreError::Deserialization(m) => m.as_str(),
            CoreError::Fetch(m) => m.as_str(),
            CoreError::Encode(m) => m.as_str(),
            CoreError::Config(m) => m.as_str(),
            CoreError::Put(m) => m.as_str(),
        }
    }

    /// The error as shown to operators: its label, then its description.
    pub fn to_string(&self) -> (r: String)
        ensures
            r@ == self.label() + self.message(),
    {
        let label = match self {
            CoreError::Deserialization(_) => String::from_str("event error: "),
            CoreError::Fetch(_) => String::from_str("S3 get error: "),
            CoreError::Encode(_) => String::from_str("IO error: "),
            CoreError::Config(_) => String::from_str("environment variable error: "),
            CoreError::Put(_) => String::from_str("S3 put error: "),
        };
        label.concat(self.description())
    }

    /// Whether the error belongs to the upload path, whose failures the
    /// dispatcher logs and passes over.
    pub fn is_contained(&self) -> (r: bool)
        ensures
            r == self.spec_is_contained(),
    {
        match self {
            CoreError::Config(_) | CoreError::Put(_) => true,
            _ => false,
        }
    }
}

} // verus!

//! The failures that an operation can report.

use vstd::prelude::*;
use vstd::string::StringExecFns;

verus! {

/// Why an operation failed.
#[derive(Debug, PartialEq, Eq)]
pub enum StoreError {
    /// The file system or the directory lookup failed; the text describes how.
    Io(String),
    /// The payload is no standard base64; the text describes why.
    Decode(String),
    /// No file stands behind a managed icon path.
    NotFound,
}

/// What a [`StoreError`] holds, as plain values.
pub enum Failure {
    Io(Seq<char>),
    Decode(Seq<char>),
    NotFound,
}

impl Failure {
    /// The text that the caller is shown.
    pub open spec fn message(self) -> Seq<char> {
        match self {
            Failure::Io(text) => text,
            Failure::Decode(text) => text,
            Failure::NotFound => "profile icon file not found"@,
        }
    }
}

impl View for StoreError {
    type V = Failure;

    open spec fn view(&self) -> Failure {
        match self {
            StoreError::Io(text) => Failure::Io(text@),
            StoreError::Decode(text) => Failure::Decode(text@),
            StoreError::NotFound => Failure::NotFound,
        }
    }
}

impl DeepView for StoreError {
    type V = Failure;

    open spec fn deep_view(&self) -> Failure {
        self@
    }
}

impl StoreError {
    /// The text that the caller is shown.
    pub fn message(&self) -> (text: String)
        ensures
            text@ == self@.message(),
    {
        match self {
            StoreError::Io(text) => text.clone(),
            StoreError::Decode(text) => text.clone(),
            StoreError::NotFound => String::from_str("profile icon file not found"),
        }
    }

    /// A copy of this error.
    pub fn duplicate(&self) -> (copy: StoreError)
        ensures
            copy@ == self@,
    {
        match self {
            StoreError::Io(text) => StoreError::Io(text.clone()),
            StoreError::Decode(text) => StoreError::Decode(text.clone()),
            StoreError::NotFound => StoreError::NotFound,
        }
    }
}

} // verus!

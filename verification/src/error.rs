use vstd::prelude::*;
use vstd::string::StringExecFns;

verus! {

/// The ways in which an operation fails.
#[derive(Debug, PartialEq, Eq)]
pub enum DeviiError {
    /// No response body was obtained; holds the transport's account of it.
    Transport(String),
    /// The response text could not be decoded; holds the text as it was
    /// received and the decoder's account of the failure.
    Parse { raw: String, cause: String },
    /// A record did not serialize to an object where one was required.
    Shape,
    /// The decoded envelope lacks the alias that was asked for; holds the
    /// alias.
    MissingKey(String),
    /// The fetch was answered with an empty collection.
    NotFound,
}

/// The mathematical content of a failure.
pub enum ErrorModel {
    Transport(Seq<char>),
    Parse { raw: Seq<char>, cause: Seq<char> },
    Shape,
    MissingKey(Seq<char>),
    NotFound,
}

impl View for DeviiError {
    type V = ErrorModel;

    open spec fn view(&self) -> ErrorModel {
        match self {
            DeviiError::Transport(cause) => ErrorModel::Transport(cause@),
            DeviiError::Parse { raw, cause } => ErrorModel::Parse { raw: raw@, cause: cause@ },
            DeviiError::Shape => ErrorModel::Shape,
            DeviiError::MissingKey(alias) => ErrorModel::MissingKey(alias@),
            DeviiError::NotFound => ErrorModel::NotFound,
        }
    }
}

/// The sentence that reports a failure.
pub open spec fn message_text(error: ErrorModel) -> Seq<char> {
    match error {
        ErrorModel::Transport(cause) => "Failed to reach the backend: "@ + cause,
        ErrorModel::Parse { raw, cause } => "Failed to Parse struct from Result: "@ + raw
            + ", Error: "@ + cause,
        ErrorModel::Shape => "Struct not evaluated as an Object!"@,
        ErrorModel::MissingKey(alias) => "No result under the key "@ + alias,
        ErrorModel::NotFound => "No Type Found with that id"@,
    }
}

impl DeviiError {
    /// Reports the failure in one sentence, with the context it carries.
    pub fn message(&self) -> (r: String)
        ensures
            r@ == message_text(self@),
    {
        match self {
            DeviiError::Transport(cause) => {
                let mut out = String::from_str("Failed to reach the backend: ");
                out.append(cause.as_str());
                out
            },
            DeviiError::Parse { raw, cause } => {
                let mut out = String::from_str("Failed to Parse struct from Result: ");
                out.append(raw.as_str());
                out.append(", Error: ");
                out.append(cause.as_str());
                out
            },
            DeviiError::Shape => String::from_str("Struct not evaluated as an Object!"),
            DeviiError::MissingKey(alias) => {
                let mut out = String::from_str("No result under the key ");
                out.append(alias.as_str());
                out
            },
            DeviiError::NotFound => String::from_str("No Type Found with that id"),
        }
    }
}

} // verus!

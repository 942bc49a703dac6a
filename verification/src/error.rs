//! The errors of the web interface.

use vstd::prelude::*;

verus! {

/// What went wrong. An error that came from elsewhere is kept as the text
/// that it displays.
#[derive(Clone, Debug, PartialEq, Eq)]
pub enum PeachWebError {
    /// JSON could not be read.
    Serde { source: String },
    /// The configuration file could not be read.
    YamlError { source: String },
    /// The dynamic DNS domain could not be registered.
    FailedToRegisterDynDomain { msg: String },
    /// A configuration or password operation failed.
    PeachLibError { source: String, msg: String },
}

impl PeachWebError {
    /// The text that the error displays.
    pub open spec fn display(self) -> Seq<char> {
        match self {
            PeachWebError::Serde { source } => "Error loading serde json"@,
            PeachWebError::YamlError { source } => "Error loading peach-config yaml"@,
            PeachWebError::FailedToRegisterDynDomain { msg } => msg@,
            PeachWebError::PeachLibError { source, msg } => source@ + ": "@ + msg@,
        }
    }

    /// The error of a failed configuration or password operation that
    /// displays `source`; it carries no message of its own.
    pub fn from_peach_lib(source: String) -> (error: PeachWebError)
        ensures
            error matches PeachWebError::PeachLibError { source: kept, msg } && kept == source
                && msg@ == Seq::<char>::empty(),
    {
        PeachWebError::PeachLibError { source, msg: String::new() }
    }

    /// The error of JSON that could not be read.
    pub fn from_serde(source: String) -> (error: PeachWebError)
        ensures
            error == (PeachWebError::Serde { source }),
    {
        PeachWebError::Serde { source }
    }

    /// The error of a configuration file that could not be read.
    pub fn from_yaml(source: String) -> (error: PeachWebError)
        ensures
            error == (PeachWebError::YamlError { source }),
    {
        PeachWebError::YamlError { source }
    }

    /// Displays the error.
    pub fn to_string(&self) -> (text: String)
        ensures
            text@ == self.display(),
    {
        match self {
            PeachWebError::Serde { source: _ } => "Error loading serde json".to_string(),
            PeachWebError::YamlError { source: _ } => "Error loading peach-config yaml".to_string(),
            PeachWebError::FailedToRegisterDynDomain { msg } => msg.clone(),
            PeachWebError::PeachLibError { source, msg } => {
                let mut text = source.clone();
                text.append(": ");
                text.append(msg.as_str());
                text
            },
        }
    }
}

} // verus!

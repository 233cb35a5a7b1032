use vstd::prelude::*;
use vstd::string::*;

verus! {

/// The closed set of failure kinds shared by every provider and the
/// dispatcher. Each variant carries a human-readable detail text.
#[derive(Debug)]
pub enum ConfigError {
    AlreadyExists(String),
    MissingPrerequisite(String),
    FileWriteError(String),
    ValidationError(String),
    DependencyError(String),
}

/// Ghost image of `ConfigError`: the same five kinds, with the detail text
/// as a sequence of characters. Contracts speak of errors through this type.
pub enum ConfigErrorView {
    AlreadyExists(Seq<char>),
    MissingPrerequisite(Seq<char>),
    FileWriteError(Seq<char>),
    ValidationError(Seq<char>),
    DependencyError(Seq<char>),
}

impl View for ConfigError {
    type V = ConfigErrorView;

    open spec fn view(&self) -> ConfigErrorView {
        match self {
            ConfigError::AlreadyExists(d) => ConfigErrorView::AlreadyExists(d@),
            ConfigError::MissingPrerequisite(d) => ConfigErrorView::MissingPrerequisite(d@),
            ConfigError::FileWriteError(d) => ConfigErrorView::FileWriteError(d@),
            ConfigError::ValidationError(d) => ConfigErrorView::ValidationError(d@),
            ConfigError::DependencyError(d) => ConfigErrorView::DependencyError(d@),
        }
    }
}

impl ConfigErrorView {
    /// The one-line rendering of an error of this kind and detail.
    pub open spec fn message(self) -> Seq<char> {
        match self {
            ConfigErrorView::AlreadyExists(d) => "Configuration '"@ + d + "' already exists"@,
            ConfigErrorView::MissingPrerequisite(d) => "Missing prerequisite: "@ + d,
            ConfigErrorView::FileWriteError(d) => "Failed to write configuration file: "@ + d,
            ConfigErrorView::ValidationError(d) => "Configuration validation failed: "@ + d,
            ConfigErrorView::DependencyError(d) => "Dependency installation failed: "@ + d,
        }
    }
}

impl ConfigError {
    /// Renders the error as its human-readable message.
    pub fn message(&self) -> (r: String)
        ensures
            r@ == self@.message(),
    {
        match self {
            ConfigError::AlreadyExists(d) => String::from_str("Configuration '")
                .concat(d.as_str())
                .concat("' already exists"),
            ConfigError::MissingPrerequisite(d) => String::from_str("Missing prerequisite: ")
                .concat(d.as_str()),
            ConfigError::FileWriteError(d) => String::from_str(
                "Failed to write configuration file: ",
            ).concat(d.as_str()),
            ConfigError::ValidationError(d) => String::from_str("Configuration validation failed: ")
                .concat(d.as_str()),
            ConfigError::DependencyError(d) => String::from_str("Dependency installation failed: ")
                .concat(d.as_str()),
        }
    }
}

/// Lifts a lifecycle result to the ghost level, keeping the success case
/// and taking the view of the error case.
pub open spec fn result_view(r: Result<(), ConfigError>) -> Result<(), ConfigErrorView> {
    match r {
        Ok(_) => Ok(()),
        Err(e) => Err(e@),
    }
}

} // verus!

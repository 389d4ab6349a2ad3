use vstd::prelude::*;

verus! {

/// A failure, by category, with its message.
pub enum SnowError {
    /// The wrapped tool reported an error, or its output lacked what was expected.
    Nix(String),
    /// Information about the environment (user, host) was not available.
    Env(String),
    /// The configuration read from the flake is malformed or incomplete.
    SnowConfig(String),
    /// Spawning or talking to a process failed.
    IO(String),
}

/// What a `SnowError` says, as sequences of characters.
pub enum Failure {
    Nix(Seq<char>),
    Env(Seq<char>),
    SnowConfig(Seq<char>),
    IO(Seq<char>),
}

impl View for SnowError {
    type V = Failure;

    open spec fn view(&self) -> Failure {
        match self {
            SnowError::Nix(m) => Failure::Nix(m@),
            SnowError::Env(m) => Failure::Env(m@),
            SnowError::SnowConfig(m) => Failure::SnowConfig(m@),
            SnowError::IO(m) => Failure::IO(m@),
        }
    }
}

/// The text shown to the user for a failure.
pub open spec fn failure_text(f: Failure) -> Seq<char> {
    match f {
        Failure::Nix(m) => "Nix command failed with error: "@ + m,
        Failure::Env(m) => "Environment error: "@ + m,
        Failure::SnowConfig(m) => "Error parsing snow config: "@ + m,
        Failure::IO(m) => "Error in interaction with shell: "@ + m,
    }
}

impl SnowError {
    /// The text shown to the user for this failure.
    pub fn message(&self) -> (r: String)
        ensures
            r@ == failure_text(self@),
    {
        match self {
            SnowError::Nix(m) => String::from_str("Nix command failed with error: ").concat(m.as_str()),
            SnowError::Env(m) => String::from_str("Environment error: ").concat(m.as_str()),
            SnowError::SnowConfig(m) => String::from_str("Error parsing snow config: ").concat(
                m.as_str(),
            ),
            SnowError::IO(m) => String::from_str("Error in interaction with shell: ").concat(
                m.as_str(),
            ),
        }
    }
}

} // verus!

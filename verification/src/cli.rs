//! The commands of the program, as plain values.

use vstd::prelude::*;

verus! {

/// `config`: shows where the configuration lives.
#[derive(Debug, PartialEq, Eq, Clone)]
pub struct CommandConfig {
    /// If set, the path of the configuration file is printed.
    pub path: bool,
}

/// `list`: shows the search providers.
#[derive(Debug, PartialEq, Eq, Clone)]
pub struct CommandList {
    /// Shows the aliases beside each name.
    pub verbose: bool,
}

/// `open`: searches for a word.
#[derive(Debug, PartialEq, Eq, Clone)]
pub struct CommandOpen {
    /// The provider to search with; the first one of the configuration if
    /// none is named.
    pub provider: Option<String>,
    /// The word to search for, or `-` to take it from standard input.
    pub word: String,
}

/// Mathematical model of a [`CommandOpen`].
pub struct CommandOpenView {
    pub provider: Option<Seq<char>>,
    pub word: Seq<char>,
}

impl View for CommandOpen {
    type V = CommandOpenView;

    open spec fn view(&self) -> CommandOpenView {
        CommandOpenView {
            provider: match self.provider {
                Some(name) => Some(name@),
                None => None,
            },
            word: self.word@,
        }
    }
}

} // verus!

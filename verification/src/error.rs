//! Why a toolchain configuration could not be made.

use crate::text::{decimal, push_decimal};
use vstd::prelude::*;
use vstd::string::StringExecFns;

verus! {

/// The reason for which a target triple and an API level were turned down.
#[derive(Debug, PartialEq, Eq)]
pub enum ConfigurationError {
    /// The kit ships no system root for the triple's architecture at this API
    /// level.
    UnsupportedCombination { target: String, api_level: u8 },
    /// The triple is empty, so it names no architecture.
    MalformedInput,
}

/// What a [`ConfigurationError`] holds, as plain values.
pub enum ConfigurationErrorView {
    /// No system root for the architecture of `target` at `api_level`.
    UnsupportedCombination { target: Seq<char>, api_level: u8 },
    /// The triple is empty.
    MalformedInput,
}

impl View for ConfigurationError {
    type V = ConfigurationErrorView;

    open spec fn view(&self) -> ConfigurationErrorView {
        match self {
            ConfigurationError::UnsupportedCombination { target, api_level } => {
                ConfigurationErrorView::UnsupportedCombination {
                    target: target@,
                    api_level: *api_level,
                }
            },
            ConfigurationError::MalformedInput => ConfigurationErrorView::MalformedInput,
        }
    }
}

impl ConfigurationErrorView {
    /// The text that reports this error to a person.
    pub open spec fn message(self) -> Seq<char> {
        match self {
            ConfigurationErrorView::UnsupportedCombination { target, api_level } => {
                "Not support target "@ + target + " for API "@ + decimal(api_level as nat)
            },
            ConfigurationErrorView::MalformedInput => "invalid target triple"@,
        }
    }
}

impl ConfigurationError {
    /// Renders the error for a person to read.
    pub fn message(&self) -> (text: String)
        ensures
            text@ == self@.message(),
    {
        match self {
            ConfigurationError::UnsupportedCombination { target, api_level } => {
                let mut text = String::from_str("Not support target ");
                text.append(target.as_str());
                text.append(" for API ");
                push_decimal(&mut text, *api_level);
                text
            },
            ConfigurationError::MalformedInput => String::from_str("invalid target triple"),
        }
    }
}

} // verus!

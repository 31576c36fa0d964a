//! The error taxonomy: every failure a command can hit, as one structured
//! value carrying a message and an optional remediation hint.

use vstd::prelude::*;
use vstd::string::*;

use crate::text::{spec_decimal, u64_to_dec};

verus! {

#[derive(Debug, PartialEq)]
pub enum CliError {
    /// No usable API key was supplied (fatal, pre-flight).
    MissingApiKey,
    /// The configured base URL does not parse (fatal, pre-flight).
    InvalidBaseUrl(String),
    /// Caller-fixable local validation failure; never sent over the wire.
    InvalidInput { message: String, hint: Option<String> },
    /// Network-level failure, with reconstructed request context.
    Transport { message: String, hint: Option<String> },
    /// Non-2xx HTTP response, with the full forensic bundle.
    Api { status: u16, message: String, hint: Option<String> },
    /// 2xx response whose body did not decode as expected.
    ResponseParse { message: String, hint: Option<String> },
    /// Local rendering failure.
    Output(String),
}

/// The shape of an Invalid-Input error, for stating builder contracts.
#[verifier::ext_equal]
pub struct SpecInvalid {
    pub message: Seq<char>,
    pub hint: Option<Seq<char>>,
}

/// `e` is the Invalid-Input error that `se` describes.
pub open spec fn is_invalid_input(e: CliError, se: SpecInvalid) -> bool {
    &&& e matches CliError::InvalidInput { message, hint }
    &&& message@ == se.message
    &&& match hint {
        Some(h) => se.hint == Some(h@),
        None => se.hint is None,
    }
}

pub open spec fn spec_hint(e: CliError) -> Option<Seq<char>> {
    match e {
        CliError::MissingApiKey => Some(
            "Set RECLAIM_API_KEY or pass --api-key. You can find your key in Reclaim settings."@,
        ),
        CliError::InvalidBaseUrl(_) => Some(
            "Use a valid URL, e.g. --base-url https://api.app.reclaim.ai/api"@,
        ),
        CliError::InvalidInput { hint, .. } => match hint {
            Some(h) => Some(h@),
            None => None,
        },
        CliError::Transport { hint, .. } => match hint {
            Some(h) => Some(h@),
            None => None,
        },
        CliError::Api { hint, .. } => match hint {
            Some(h) => Some(h@),
            None => None,
        },
        CliError::ResponseParse { hint, .. } => match hint {
            Some(h) => Some(h@),
            None => None,
        },
        CliError::Output(_) => None,
    }
}

/// The one-line (or multi-line) message the outermost layer prints.
pub open spec fn spec_render(e: CliError) -> Seq<char> {
    match e {
        CliError::MissingApiKey => "Missing Reclaim API key."@,
        CliError::InvalidBaseUrl(url) => "Invalid base URL: "@ + url@,
        CliError::InvalidInput { message, .. } => message@,
        CliError::Transport { message, .. } => message@,
        CliError::Api { status, message, .. } => "Reclaim API returned HTTP "@ + spec_decimal(
            status as nat,
        ) + ": "@ + message@,
        CliError::ResponseParse { message, .. } => message@,
        CliError::Output(message) => message@,
    }
}

impl CliError {
    /// The remediation hint to print after the message, when one exists.
    pub fn hint(&self) -> (r: Option<&str>)
        ensures
            match r {
                Some(h) => spec_hint(*self) == Some(h@),
                None => spec_hint(*self) is None,
            },
    {
        match self {
            CliError::MissingApiKey => Some(
                "Set RECLAIM_API_KEY or pass --api-key. You can find your key in Reclaim settings.",
            ),
            CliError::InvalidBaseUrl(_) => Some(
                "Use a valid URL, e.g. --base-url https://api.app.reclaim.ai/api",
            ),
            CliError::InvalidInput { hint, .. } => match hint {
                Some(h) => Some(h.as_str()),
                None => None,
            },
            CliError::Transport { hint, .. } => match hint {
                Some(h) => Some(h.as_str()),
                None => None,
            },
            CliError::Api { hint, .. } => match hint {
                Some(h) => Some(h.as_str()),
                None => None,
            },
            CliError::ResponseParse { hint, .. } => match hint {
                Some(h) => Some(h.as_str()),
                None => None,
            },
            CliError::Output(_) => None,
        }
    }

    /// The error's display text.
    pub fn render(&self) -> (r: String)
        ensures
            r@ == spec_render(*self),
    {
        match self {
            CliError::MissingApiKey => String::from_str("Missing Reclaim API key."),
            CliError::InvalidBaseUrl(url) => {
                let mut out = String::from_str("Invalid base URL: ");
                out.append(url.as_str());
                out
            },
            CliError::InvalidInput { message, .. } => message.clone(),
            CliError::Transport { message, .. } => message.clone(),
            CliError::Api { status, message, .. } => {
                let mut out = String::from_str("Reclaim API returned HTTP ");
                let dec = u64_to_dec(*status as u64);
                out.append(dec.as_str());
                out.append(": ");
                out.append(message.as_str());
                out
            },
            CliError::ResponseParse { message, .. } => message.clone(),
            CliError::Output(message) => message.clone(),
        }
    }
}

} // verus!

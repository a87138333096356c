//! What the library has to say about rendering the site's pages.
//!
//! The pages are rendered by a template engine, which the program around
//! the library calls. The library names the template of the home page,
//! lays out the data, answers the one function that templates call,
//! `date_suffix`, and says what becomes of the engine's outcome.

use vstd::prelude::*;
use vstd::string::StringExecFns;
use crate::message::{Message, MessageText};

verus! {

/// The name of the template that the home page is rendered from.
pub const INDEX_TEMPLATE: &'static str = "index.html";

/// Why a page could not be rendered.
#[derive(Debug)]
pub enum TemplateError {
    /// The engine refused the templates or failed to render the page.
    /// Holds what it said.
    Compile(String),
}

impl TemplateError {
    /// What the user is told of this failure: that the templates failed
    /// to compile, and for which reason the engine said so.
    pub open spec fn message_text(self) -> MessageText {
        match self {
            TemplateError::Compile(said) => MessageText {
                summary: "Failed to compile templates"@,
                reasons: seq![said@],
                subtleties: Seq::empty(),
            },
        }
    }

    /// Writes what the user is told of this failure.
    pub fn message(&self) -> (m: Message)
        ensures
            m@ == self.message_text(),
    {
        match self {
            TemplateError::Compile(said) => {
                let mut m = Message::simple("Failed to compile templates");
                m.add_reason(said.clone());
                assert(m@.reasons =~= seq![said@]);
                m
            },
        }
    }
}

/// The page, or the failure, that an outcome of the engine stands for.
pub open spec fn page_of(outcome: Result<String, String>) -> Result<String, TemplateError> {
    match outcome {
        Ok(page) => Ok(page),
        Err(said) => Err(TemplateError::Compile(said)),
    }
}

/// The ending that turns the number `n` into an ordinal: `th` for eleven
/// to thirteen, else `st`, `nd` or `rd` for a last digit of one, two or
/// three, else `th`. A negative number takes `th`.
pub open spec fn suffix_of(n: int) -> Seq<char> {
    if 11 <= n <= 13 {
        "th"@
    } else if n >= 0 && n % 10 == 1 {
        "st"@
    } else if n >= 0 && n % 10 == 2 {
        "nd"@
    } else if n >= 0 && n % 10 == 3 {
        "rd"@
    } else {
        "th"@
    }
}

/// Computes [`suffix_of`].
pub fn date_suffix(n: i64) -> (suffix: String)
    ensures
        suffix@ == suffix_of(n as int),
{
    if 11 <= n && n <= 13 {
        String::from_str("th")
    } else if n >= 0 && n % 10 == 1 {
        String::from_str("st")
    } else if n >= 0 && n % 10 == 2 {
        String::from_str("nd")
    } else if n >= 0 && n % 10 == 3 {
        String::from_str("rd")
    } else {
        String::from_str("th")
    }
}

/// What `date_suffix` answers when a template calls it: the suffix of its
/// `timestamp` argument, where that is a whole number that fits an `i64`,
/// and a refusal where the argument is missing or is anything else.
pub fn date_suffix_argument(timestamp: Option<i64>) -> (r: Result<String, String>)
    ensures
        r is Ok <==> timestamp is Some,
        r matches Ok(suffix) ==> suffix@ == suffix_of(timestamp->0 as int),
        r matches Err(reason) ==> reason@ == "Failed to generate date suffix"@,
{
    match timestamp {
        Some(n) => Ok(date_suffix(n)),
        None => Err(String::from_str("Failed to generate date suffix")),
    }
}

/// What the caller gets for an outcome of the engine: the page, or the
/// engine's words as a [`TemplateError::Compile`].
pub fn page_or_error(outcome: Result<String, String>) -> (r: Result<String, TemplateError>)
    ensures
        r == page_of(outcome),
{
    match outcome {
        Ok(page) => Ok(page),
        Err(said) => Err(TemplateError::Compile(said)),
    }
}

} // verus!

//! The shape of the upstream listing document, and the error taxonomy of the
//! listing fetch.

use vstd::prelude::*;
use vstd::string::StringExecFns;

verus! {

/// The whole listing document: a copyright notice and a list of dates.
pub struct Schedule {
    pub copyright: String,
    pub dates: Vec<Date>,
}

/// One calendar date with the games played on it.
pub struct Date {
    pub date: String,
    pub games: Vec<Game>,
}

/// One game; only its editorial content is consumed.
pub struct Game {
    pub content: Content,
}

pub struct Content {
    pub editorial: Editorial,
}

pub struct Editorial {
    pub recap: Recap,
}

pub struct Recap {
    pub home: Home,
}

/// The home-side recap: display text plus the photo cuts.
pub struct Home {
    pub headline: String,
    pub subhead: String,
    pub photo: Photos,
}

pub struct Photos {
    pub cuts: Cuts,
}

/// The two photo size variants consumed: a large cut and a small cut.
pub struct Cuts {
    pub large: Photo,
    pub small: Photo,
}

/// One photo cut: its dimensions and source locator.
pub struct Photo {
    pub width: u32,
    pub height: u32,
    pub src: String,
}

/// The stage at which the listing fetch failed.
pub enum ErrorContext {
    URIParsing,
    ConnectionEstablishment,
    Downloading,
    Deserializing,
}

impl ErrorContext {
    /// The descriptive text of this failure stage.
    pub open spec fn spec_message(&self) -> Seq<char> {
        match self {
            ErrorContext::URIParsing => "Failed to parse the given API endpoint"@,
            ErrorContext::ConnectionEstablishment => (
                "Failed to establish a connection with the given API endpoint"@
            ),
            ErrorContext::Downloading => "Failed to download data from the given API endpoint"@,
            ErrorContext::Deserializing => (
                "Failed to deserialize data from the given API endpoint"@
            ),
        }
    }

    /// Renders the descriptive text of this failure stage.
    pub fn message(&self) -> (r: String)
        ensures
            r@ == self.spec_message(),
    {
        match self {
            ErrorContext::URIParsing => "Failed to parse the given API endpoint".to_owned(),
            ErrorContext::ConnectionEstablishment => {
                "Failed to establish a connection with the given API endpoint".to_owned()
            },
            ErrorContext::Downloading => {
                "Failed to download data from the given API endpoint".to_owned()
            },
            ErrorContext::Deserializing => {
                "Failed to deserialize data from the given API endpoint".to_owned()
            },
        }
    }
}

/// A failure of the listing fetch: the failing source locator, the stage at
/// which it failed, and the underlying cause.
pub struct APIError {
    src: String,
    context: ErrorContext,
    original: String,
}

impl APIError {
    /// The source locator whose fetch failed.
    pub closed spec fn spec_src(&self) -> Seq<char> {
        self.src@
    }

    /// The stage at which the fetch failed.
    pub closed spec fn spec_context(&self) -> ErrorContext {
        self.context
    }

    /// The underlying cause, already rendered as text.
    pub closed spec fn spec_original(&self) -> Seq<char> {
        self.original@
    }

    /// Packs up one listing-fetch failure.
    pub fn new(src: String, context: ErrorContext, original: String) -> (e: APIError)
        ensures
            e.spec_src() == src@,
            e.spec_context() == context,
            e.spec_original() == original@,
    {
        APIError { src, context, original }
    }

    /// The full diagnostic line: the stage's text, then the underlying cause,
    /// then the source locator.
    pub fn message(&self) -> (r: String)
        ensures
            r@ == self.spec_context().spec_message() + ". Error: "@ + self.spec_original()
                + ". Source: "@ + self.spec_src(),
    {
        let mut r = self.context.message();
        r.append(". Error: ");
        r.append(self.original.as_str());
        r.append(". Source: ");
        r.append(self.src.as_str());
        r
    }
}

} // verus!

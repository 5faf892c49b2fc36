//! Why a page could not be fetched or read, in words fit for the run log.

use vstd::prelude::*;
use crate::decimal::decimal_text;
use crate::decimal::usize_to_string;
use crate::text::debug_form;
use crate::text::debug_quoted;

verus! {

/// Why a page could not be turned into a record. Each variant names the
/// structural marker that was missing or malformed.
#[derive(Clone, Debug, PartialEq, Eq)]
pub enum ParseError {
    /// The markup library rejected a selector.
    InvalidSelector,
    /// No `div` of class `nomdujoueur`.
    MissingNameBlock,
    /// The name block holds no text.
    MissingNameText,
    /// The name block holds no `span`.
    MissingCountryCode,
    /// The `span` of the name block holds no text.
    MissingCountryText,
    /// The country code is not wrapped in parentheses; the text found. The
    /// description shows the text in quotes, as the debug format writes it.
    MalformedCountryCode(String),
    /// Fewer than two `div`s of class `contenu_typeinfojoueur`; their number.
    TooFewInfoBlocks(usize),
    /// No `div` of class `contenu_typeinfojoueur even`; the description gives
    /// their number, which is zero.
    MissingCategoryBlock,
    /// The category block holds no text.
    MissingCategoryText,
    /// The category is none of the known ones; the text found.
    UnknownCategory(String),
    /// The birth year block holds no text.
    MissingBirthYear,
    /// A ranking page without a single placement.
    NoPlacements,
    /// The placement at this position has no rank, or none that is a number.
    InvalidRank(usize),
    /// The placement at this position has no player, or none that is a number.
    InvalidPlayer(usize),
}

/// A [`ParseError`] with its texts as character sequences.
pub enum ParseErrorView {
    InvalidSelector,
    MissingNameBlock,
    MissingNameText,
    MissingCountryCode,
    MissingCountryText,
    MalformedCountryCode(Seq<char>),
    TooFewInfoBlocks(usize),
    MissingCategoryBlock,
    MissingCategoryText,
    UnknownCategory(Seq<char>),
    MissingBirthYear,
    NoPlacements,
    InvalidRank(usize),
    InvalidPlayer(usize),
}

impl View for ParseError {
    type V = ParseErrorView;

    open spec fn view(&self) -> ParseErrorView {
        match self {
            ParseError::InvalidSelector => ParseErrorView::InvalidSelector,
            ParseError::MissingNameBlock => ParseErrorView::MissingNameBlock,
            ParseError::MissingNameText => ParseErrorView::MissingNameText,
            ParseError::MissingCountryCode => ParseErrorView::MissingCountryCode,
            ParseError::MissingCountryText => ParseErrorView::MissingCountryText,
            ParseError::MalformedCountryCode(text) => ParseErrorView::MalformedCountryCode(text@),
            ParseError::TooFewInfoBlocks(n) => ParseErrorView::TooFewInfoBlocks(*n),
            ParseError::MissingCategoryBlock => ParseErrorView::MissingCategoryBlock,
            ParseError::MissingCategoryText => ParseErrorView::MissingCategoryText,
            ParseError::UnknownCategory(text) => ParseErrorView::UnknownCategory(text@),
            ParseError::MissingBirthYear => ParseErrorView::MissingBirthYear,
            ParseError::NoPlacements => ParseErrorView::NoPlacements,
            ParseError::InvalidRank(at) => ParseErrorView::InvalidRank(*at),
            ParseError::InvalidPlayer(at) => ParseErrorView::InvalidPlayer(*at),
        }
    }
}

impl ParseErrorView {
    /// The description of the error.
    pub open spec fn message(self) -> Seq<char> {
        match self {
            ParseErrorView::InvalidSelector => "invalid selector"@,
            ParseErrorView::MissingNameBlock => "can't find div nomdujoueur"@,
            ParseErrorView::MissingNameText => "can't find text in nomdujoueur div"@,
            ParseErrorView::MissingCountryCode => "can't find country code"@,
            ParseErrorView::MissingCountryText => "can't find country code text"@,
            ParseErrorView::MalformedCountryCode(text) => "invalid country code ("@
                + debug_quoted(text) + ")"@,
            ParseErrorView::TooFewInfoBlocks(n) => "invalid number of contenu_typeinfojoueur ("@
                + decimal_text(n as int) + ")"@,
            ParseErrorView::MissingCategoryBlock =>
                "invalid number of contenu_typeinfojoueur (0)"@,
            ParseErrorView::MissingCategoryText => "can't find category text"@,
            ParseErrorView::UnknownCategory(text) => "invalid category: "@ + text,
            ParseErrorView::MissingBirthYear => "can't find birth year"@,
            ParseErrorView::NoPlacements => "can't find any placement"@,
            ParseErrorView::InvalidRank(at) => "invalid rank in placement "@ + decimal_text(
                at as int,
            ),
            ParseErrorView::InvalidPlayer(at) => "invalid player in placement "@ + decimal_text(
                at as int,
            ),
        }
    }
}

impl ParseError {
    /// The description of the error, for the run log.
    pub fn describe(&self) -> (r: String)
        ensures
            r@ == self@.message(),
    {
        match self {
            ParseError::InvalidSelector => String::from_str("invalid selector"),
            ParseError::MissingNameBlock => String::from_str("can't find div nomdujoueur"),
            ParseError::MissingNameText => String::from_str("can't find text in nomdujoueur div"),
            ParseError::MissingCountryCode => String::from_str("can't find country code"),
            ParseError::MissingCountryText => String::from_str("can't find country code text"),
            ParseError::MalformedCountryCode(text) => {
                let mut out = String::from_str("invalid country code (");
                let quoted = debug_form(text.as_str());
                out.append(quoted.as_str());
                out.append(")");
                out
            },
            ParseError::TooFewInfoBlocks(n) => {
                let mut out = String::from_str("invalid number of contenu_typeinfojoueur (");
                let number = usize_to_string(*n);
                out.append(number.as_str());
                out.append(")");
                out
            },
            ParseError::MissingCategoryBlock => String::from_str(
                "invalid number of contenu_typeinfojoueur (0)",
            ),
            ParseError::MissingCategoryText => String::from_str("can't find category text"),
            ParseError::UnknownCategory(text) => {
                let mut out = String::from_str("invalid category: ");
                out.append(text.as_str());
                out
            },
            ParseError::MissingBirthYear => String::from_str("can't find birth year"),
            ParseError::NoPlacements => String::from_str("can't find any placement"),
            ParseError::InvalidRank(at) => {
                let mut out = String::from_str("invalid rank in placement ");
                let number = usize_to_string(*at);
                out.append(number.as_str());
                out
            },
            ParseError::InvalidPlayer(at) => {
                let mut out = String::from_str("invalid player in placement ");
                let number = usize_to_string(*at);
                out.append(number.as_str());
                out
            },
        }
    }
}

/// Why a page could not be fetched.
#[derive(Clone, Copy, Debug, PartialEq, Eq, Structural)]
pub enum FetchError {
    /// No connection: the name did not resolve, the host refused, or the
    /// secure channel could not be set up.
    Unreachable,
    /// The server answered with this status, which is not a success.
    HttpStatus(u16),
    /// No answer within the time allowed.
    Timeout,
}

impl FetchError {
    /// The description of the error.
    pub open spec fn message(self) -> Seq<char> {
        match self {
            FetchError::Unreachable => "host unreachable"@,
            FetchError::HttpStatus(code) => "http status "@ + decimal_text(code as int),
            FetchError::Timeout => "timed out"@,
        }
    }

    /// The description of the error, for the run log.
    pub fn describe(&self) -> (r: String)
        ensures
            r@ == self.message(),
    {
        match self {
            FetchError::Unreachable => String::from_str("host unreachable"),
            FetchError::HttpStatus(code) => {
                let mut out = String::from_str("http status ");
                let number = usize_to_string(*code as usize);
                out.append(number.as_str());
                out
            },
            FetchError::Timeout => String::from_str("timed out"),
        }
    }

    /// The error that the status of an answer amounts to: none for the
    /// statuses 200 to 299, [`FetchError::HttpStatus`] for every other.
    pub fn from_status(code: u16) -> (r: Option<FetchError>)
        ensures
            r == if 200 <= code <= 299 {
                None
            } else {
                Some(FetchError::HttpStatus(code))
            },
    {
        if code >= 200 && code <= 299 {
            None
        } else {
            Some(FetchError::HttpStatus(code))
        }
    }
}

} // verus!

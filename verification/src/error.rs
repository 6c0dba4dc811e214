//! The errors of the library.
use vstd::prelude::*;
use regex::Error as RegexError;
use reqwest::Error as ReqwestError;
use serde_json::Error as JsonError;
use std::io::Error as IoError;

verus! {

#[verifier::external_type_specification]
#[verifier::external_body]
pub struct ExReqwestError(ReqwestError);

#[verifier::external_type_specification]
#[verifier::external_body]
pub struct ExJsonError(JsonError);

#[verifier::external_type_specification]
#[verifier::external_body]
pub struct ExIoError(IoError);

#[verifier::external_type_specification]
#[verifier::external_body]
pub struct ExStrumParseError(strum::ParseError);

#[verifier::external_type_specification]
#[verifier::external_body]
pub struct ExInquireError(inquire::InquireError);

#[verifier::external_type_specification]
#[verifier::external_body]
pub struct ExReport(color_eyre::Report);

/// Everything that can go wrong when talking to Systembolaget.
#[derive(Debug)]
pub enum Error {
    /// A request needs an API key and none is set.
    NoApiKey,
    /// The API key could not be found in the shop's pages.
    FetchApiKey,
    /// A regular expression did not compile.
    Regex(RegexError),
    /// A network request failed.
    Network(ReqwestError),
    /// A response could not be deserialized.
    Deserialize(JsonError),
    /// Reading or writing failed.
    IO(IoError),
    /// A text named no variant of an enum.
    Strum(strum::ParseError),
    /// An interactive prompt failed.
    Inquire(inquire::InquireError),
    /// Any other failure.
    Other(color_eyre::Report),
}

/// `strum::ParseError::VariantNotFound`, the error of a failed enum parse.
#[verifier::external_body]
pub(crate) fn variant_not_found() -> strum::ParseError {
    strum::ParseError::VariantNotFound
}

/// The result type of the library.
pub type Result<T, E = Error> = core::result::Result<T, E>;

} // verus!

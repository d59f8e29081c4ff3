//! What the library takes on trust: the calls into the standard library and
//! into the `semver` crate whose results it does not compute itself. Each
//! contract here is believed, not proved.

use crate::numeral::triple_text;
use vstd::prelude::*;

verus! {

/// What `String::from_utf8_lossy` makes of `bytes`: their text as UTF-8, with
/// the replacement character in place of each part that is not UTF-8.
pub uninterp spec fn lossy_text(bytes: Seq<u8>) -> Seq<char>;

/// `String::from_utf8_lossy`, with the result as an owned string. How the
/// standard library replaces malformed parts is not restated here: the result
/// is named by `lossy_text`.
#[verifier::external_body]
pub(crate) fn utf8_lossy(bytes: &[u8]) -> (r: String)
    ensures
        r@ == lossy_text(bytes@),
{
    String::from_utf8_lossy(bytes).into_owned()
}

/// What `semver::Version::parse` makes of `text`: the three numbers, the
/// pre-release label and the build metadata, or `None` where it rejects the
/// text.
pub uninterp spec fn semver_parsed(text: Seq<char>) -> Option<
    (u64, u64, u64, Seq<char>, Seq<char>),
>;

/// A version as the `semver` crate has it, in plain values: the three
/// numbers, the pre-release label and the build metadata.
pub type SemverParts = (u64, u64, u64, String, String);

/// The error of the `semver` crate's parsers.
#[verifier::external_type_specification]
#[verifier::external_body]
pub struct ExSemverError(semver::Error);

/// `semver::Version::parse`, with the parsed version taken apart into its
/// fields. The crate's grammar is not restated here: the result is named by
/// `semver_parsed`. One fact about it is: three decimal numerals joined by
/// dots, each the numeral of a `u64`, parse to those three numbers with no
/// pre-release label and no build metadata.
#[verifier::external_body]
pub(crate) fn parse_semver(text: &str) -> (r: Result<SemverParts, semver::Error>)
    ensures
        r is Ok <==> semver_parsed(text@) is Some,
        r matches Ok(parts) ==> semver_parsed(text@) == Some(
            (parts.0, parts.1, parts.2, parts.3@, parts.4@),
        ),
        r is Err ==> forall|major: u64, minor: u64, patch: u64|
            text@ != #[trigger] triple_text(major, minor, patch),
        r matches Ok(parts) ==> forall|major: u64, minor: u64, patch: u64|
            text@ == #[trigger] triple_text(major, minor, patch) ==> parts.0 == major && parts.1
                == minor && parts.2 == patch && parts.3@.len() == 0 && parts.4@.len() == 0,
{
    match semver::Version::parse(text) {
        Ok(v) => Ok(
            (v.major, v.minor, v.patch, v.pre.as_str().to_owned(), v.build.as_str().to_owned()),
        ),
        Err(e) => Err(e),
    }
}

/// The `Display` text of a `semver::Error`. Nothing is claimed of it.
#[verifier::external_body]
pub(crate) fn parse_error_text(error: &semver::Error) -> String {
    error.to_string()
}

} // verus!

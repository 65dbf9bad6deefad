//! The version of the platform that a virtual machine asks for, written as a semantic
//! version requirement such as `>=1.2, <2`.

use crate::error::ErrorKind;
use vstd::prelude::*;

verus! {

/// A parsed version requirement of the `semver` crate. The service only carries it to
/// the process that runs the machine.
#[verifier::external_type_specification]
#[verifier::external_body]
pub struct ExVersionReq(semver::VersionReq);

/// Why the `semver` crate refused a text.
#[verifier::external_type_specification]
#[verifier::external_body]
pub struct ExSemverError(semver::Error);

/// Whether `text` is a version requirement in the grammar of the `semver` crate.
pub uninterp spec fn version_req_is_valid(text: Seq<char>) -> bool;

/// `semver::VersionReq::parse` reads a version requirement. Whether it succeeds
/// depends on the text alone; the grammar is that of the crate and is not spelled out
/// here. The call returns for every text.
pub assume_specification[ semver::VersionReq::parse ](text: &str) -> (r: Result<
    semver::VersionReq,
    semver::Error,
>)
    ensures
        r is Ok == version_req_is_valid(text@),
;

/// The error of a configuration whose platform version cannot be read.
pub fn platform_version_result(parsed: Result<semver::VersionReq, semver::Error>) -> (r: Result<
    semver::VersionReq,
    ErrorKind,
>)
    ensures
        match parsed {
            Ok(req) => r == Ok::<semver::VersionReq, ErrorKind>(req),
            Err(_) => r == Err::<semver::VersionReq, ErrorKind>(ErrorKind::IllegalArgument),
        },
{
    match parsed {
        Ok(req) => Ok(req),
        Err(_) => Err(ErrorKind::IllegalArgument),
    }
}

/// Reads the platform version requirement of a configuration. A text that is no
/// version requirement makes the configuration malformed.
pub fn parse_platform_version_req(s: &str) -> (r: Result<semver::VersionReq, ErrorKind>)
    ensures
        r is Ok <==> version_req_is_valid(s@),
        r is Err ==> r == Err::<semver::VersionReq, ErrorKind>(ErrorKind::IllegalArgument),
{
    platform_version_result(semver::VersionReq::parse(s))
}

} // verus!

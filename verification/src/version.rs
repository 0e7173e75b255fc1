//! Version negotiation: the runtime library reports a semantic version
//! triple, and the wrapper only operates against the one version it was
//! built for, since the wire layout of every later call depends on it.

use vstd::prelude::*;

use crate::codes::MndResult;

verus! {

/// A semantic (major, minor, patch) version triple reported by the runtime
/// library.
#[derive(Debug, Copy, Clone, PartialEq, Eq, Structural)]
pub struct ApiVersion {
    pub major: u32,
    pub minor: u32,
    pub patch: u32,
}

/// The one library version this wrapper is compatible with: an exact match
/// on all three components, with no forward or backward compatibility.
pub open spec fn supported_version(major: u32, minor: u32, patch: u32) -> bool {
    major == 1 && minor == 0 && patch == 0
}

/// Relies on semver::VersionReq::matches, together with VersionReq::parse
/// and Version::new: a requirement of the form "=MAJOR.MINOR.PATCH" holds of
/// a version built by Version::new exactly when the two triples are equal.
/// Version::new sets an empty pre-release, and parsing a "=N.N.N" string
/// with decimal u64 components never fails.
#[verifier::external_body]
fn exact_requirement_matches(
    req_major: u64,
    req_minor: u64,
    req_patch: u64,
    major: u64,
    minor: u64,
    patch: u64,
) -> (r: bool)
    ensures
        r == (major == req_major && minor == req_minor && patch == req_patch),
{
    let req_text = format!("={}.{}.{}", req_major, req_minor, req_patch);
    let req = semver::VersionReq::parse(&req_text).unwrap();
    req.matches(&semver::Version::new(major, minor, patch))
}

/// Check the version the library reports against the version this wrapper
/// requires. On a mismatch the session constructor must not proceed: no
/// handle is created.
pub fn negotiate(major: u32, minor: u32, patch: u32) -> (r: Result<ApiVersion, MndResult>)
    ensures
        supported_version(major, minor, patch) <==> r is Ok,
        r matches Ok(v) ==> v == (ApiVersion { major, minor, patch }),
        r matches Err(e) ==> e == MndResult::ErrorInvalidVersion,
{
    if exact_requirement_matches(1, 0, 0, major as u64, minor as u64, patch as u64) {
        Ok(ApiVersion { major, minor, patch })
    } else {
        Err(MndResult::ErrorInvalidVersion)
    }
}

} // verus!

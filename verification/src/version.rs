//! Which upgrades are allowed: only those to a strictly newer version.
//!
//! Versions are semantic versions. Reading and ordering them is the work of
//! the `semver` crate; this module names what it answers and decides on it.

use vstd::prelude::*;

use crate::error::ContractError;

verus! {

/// How one version stands to another.
#[derive(Clone, Copy, Debug, PartialEq, Eq, Structural)]
pub enum VersionOrder {
    Less,
    Equal,
    Greater,
}

/// How the version that `semver` reads from `stored` stands to the one it
/// reads from `target`, or `None` where it rejects one of the two texts.
pub uninterp spec fn version_order(stored: Seq<char>, target: Seq<char>) -> Option<VersionOrder>;

/// Orders two versions with the `Ord` of `semver::Version`, after reading each
/// from its text with `semver::Version::parse`. The result is not proved: it
/// is named [`version_order`]. One fact is taken from `semver` beside the name:
/// a version is not less than itself.
#[verifier::external_body]
fn compare_versions(stored: &str, target: &str) -> (r: Option<VersionOrder>)
    ensures
        r == version_order(stored@, target@),
        stored@ == target@ ==> r != Some(VersionOrder::Less),
{
    match (semver::Version::parse(stored), semver::Version::parse(target)) {
        (Ok(a), Ok(b)) => Some(
            match a.cmp(&b) {
                std::cmp::Ordering::Less => VersionOrder::Less,
                std::cmp::Ordering::Equal => VersionOrder::Equal,
                std::cmp::Ordering::Greater => VersionOrder::Greater,
            },
        ),
        _ => None,
    }
}

/// An upgrade is allowed exactly when both versions are readable and the
/// stored one is strictly less than the target.
pub open spec fn transition(order: Option<VersionOrder>) -> Result<(), ContractError> {
    match order {
        Some(VersionOrder::Less) => Ok(()),
        _ => Err(ContractError::InvalidVersionTransition),
    }
}

/// Decides on an upgrade from how the stored version stands to the target.
pub fn check_transition(order: Option<VersionOrder>) -> (r: Result<(), ContractError>)
    ensures
        r == transition(order),
{
    match order {
        Some(VersionOrder::Less) => Ok(()),
        _ => Err(ContractError::InvalidVersionTransition),
    }
}

/// Allows an upgrade from the version `stored` to the version `target` exactly
/// when both are semantic versions and `stored` is strictly older. An upgrade
/// to the version that is stored is never allowed.
pub fn ensure_newer(stored: &str, target: &str) -> (r: Result<(), ContractError>)
    ensures
        r == transition(version_order(stored@, target@)),
        stored@ == target@ ==> r.is_err(),
{
    check_transition(compare_versions(stored, target))
}

} // verus!

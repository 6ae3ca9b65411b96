//! License codes as stored in the database.
use vstd::prelude::*;
use crate::text::str_equal;

verus! {

/// The status of a license code.
#[derive(Debug, Clone, Copy, PartialEq, Eq, Structural)]
pub enum LicenseStatus {
    Active,
    Expired,
    Cancelled,
}

/// The stored text of a status (the lower-cased variant name).
pub open spec fn license_status_text(s: LicenseStatus) -> Seq<char> {
    match s {
        LicenseStatus::Active => "active"@,
        LicenseStatus::Expired => "expired"@,
        LicenseStatus::Cancelled => "cancelled"@,
    }
}

/// The stored text of a status.
pub fn license_status_str(s: LicenseStatus) -> (r: &'static str)
    ensures
        r@ == license_status_text(s),
{
    match s {
        LicenseStatus::Active => "active",
        LicenseStatus::Expired => "expired",
        LicenseStatus::Cancelled => "cancelled",
    }
}

/// The status a stored text stands for; unknown texts count as active.
pub open spec fn license_status_of(text: Seq<char>) -> LicenseStatus {
    if text == "expired"@ {
        LicenseStatus::Expired
    } else if text == "cancelled"@ {
        LicenseStatus::Cancelled
    } else {
        LicenseStatus::Active
    }
}

/// The status a stored text stands for; unknown texts count as active.
pub fn license_status_from_str(text: &str) -> (r: LicenseStatus)
    ensures
        r == license_status_of(text@),
{
    if str_equal(text, "expired") {
        LicenseStatus::Expired
    } else if str_equal(text, "cancelled") {
        LicenseStatus::Cancelled
    } else {
        LicenseStatus::Active
    }
}

/// Reading back the stored text of a status gives the status.
pub proof fn lemma_license_status_round_trip(s: LicenseStatus)
    ensures
        license_status_of(license_status_text(s)) == s,
{
    reveal_strlit("active");
    reveal_strlit("expired");
    reveal_strlit("cancelled");
    match s {
        LicenseStatus::Active => {
            assert("active"@[0] != "expired"@[0]);
            assert("active"@[0] != "cancelled"@[0]);
        },
        LicenseStatus::Expired => {},
        LicenseStatus::Cancelled => {
            assert("cancelled"@[0] != "expired"@[0]);
        },
    }
}

} // verus!

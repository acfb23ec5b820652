//! The account status of a user.

use vstd::prelude::*;

verus! {

/// The state of a user's account. Any status may replace any other.
#[derive(Debug, Clone, Copy, PartialEq, Eq, Structural)]
pub enum UserStatus {
    Active,
    Inactive,
    Suspended,
    Pending,
}

/// The name under which a status is shown.
pub open spec fn status_label(status: UserStatus) -> Seq<char> {
    match status {
        UserStatus::Active => "active"@,
        UserStatus::Inactive => "inactive"@,
        UserStatus::Suspended => "suspended"@,
        UserStatus::Pending => "pending"@,
    }
}

/// The sentence that explains a status.
pub open spec fn status_description(status: UserStatus) -> Seq<char> {
    match status {
        UserStatus::Active => "User is active and can perform all operations"@,
        UserStatus::Inactive => "User is inactive and has limited access"@,
        UserStatus::Suspended => "User is suspended and cannot access the system"@,
        UserStatus::Pending => "User account is pending approval"@,
    }
}

impl UserStatus {
    /// The name under which the status is shown.
    pub fn as_str(&self) -> (label: &'static str)
        ensures
            label@ == status_label(*self),
    {
        match self {
            UserStatus::Active => "active",
            UserStatus::Inactive => "inactive",
            UserStatus::Suspended => "suspended",
            UserStatus::Pending => "pending",
        }
    }

    /// The name under which the status is shown, as an owned string.
    pub fn to_string(&self) -> (label: String)
        ensures
            label@ == status_label(*self),
    {
        self.as_str().to_owned()
    }
}

/// The sentence that explains `status`.
pub fn match_user_status(status: &UserStatus) -> (description: &'static str)
    ensures
        description@ == status_description(*status),
{
    match status {
        UserStatus::Active => "User is active and can perform all operations",
        UserStatus::Inactive => "User is inactive and has limited access",
        UserStatus::Suspended => "User is suspended and cannot access the system",
        UserStatus::Pending => "User account is pending approval",
    }
}

} // verus!

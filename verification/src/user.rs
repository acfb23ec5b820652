//! The user record.

use crate::clock::current_timestamp;
use crate::error::{Timestamp, UserId, ValidationError, ValidationErrorView};
use crate::profile::{UserProfile, UserProfileView};
use crate::role::{RoleSet, UserRole};
use crate::status::UserStatus;
use crate::text::{is_blank, is_blank_str};
use crate::validation::{age_ok, email_shape_ok, is_valid_email, MAX_AGE};
use vstd::prelude::*;

verus! {

/// A user of the system.
#[derive(Debug, PartialEq)]
pub struct User {
    pub id: UserId,
    pub name: String,
    pub email: String,
    pub age: Option<u32>,
    pub status: UserStatus,
    pub roles: RoleSet,
    pub profile: Option<UserProfile>,
    pub created_at: Timestamp,
    pub updated_at: Timestamp,
}

/// The mathematical value of a [`User`].
#[verifier::ext_equal]
pub struct UserView {
    pub id: UserId,
    pub name: Seq<char>,
    pub email: Seq<char>,
    pub age: Option<u32>,
    pub status: UserStatus,
    pub roles: Set<UserRole>,
    pub profile: Option<UserProfileView>,
    pub created_at: Timestamp,
    pub updated_at: Timestamp,
}

/// The value of an optional profile.
pub open spec fn profile_view(profile: Option<UserProfile>) -> Option<UserProfileView> {
    match profile {
        Some(profile) => Some(profile@),
        None => None,
    }
}

impl View for User {
    type V = UserView;

    open spec fn view(&self) -> UserView {
        UserView {
            id: self.id,
            name: self.name@,
            email: self.email@,
            age: self.age,
            status: self.status,
            roles: self.roles@,
            profile: profile_view(self.profile),
            created_at: self.created_at,
            updated_at: self.updated_at,
        }
    }
}

/// The user that [`User::new_at`] makes: active, with the role `User`, without
/// age or profile, created and last changed at `now`.
pub open spec fn fresh_user(
    id: UserId,
    name: Seq<char>,
    email: Seq<char>,
    now: Timestamp,
) -> UserView {
    UserView {
        id,
        name,
        email,
        age: None,
        status: UserStatus::Active,
        roles: Set::<UserRole>::empty().insert(UserRole::User),
        profile: None,
        created_at: now,
        updated_at: now,
    }
}

/// The first reason for which a user is refused, if there is one. The checks
/// run in this order: name not blank, e-mail not blank, e-mail shape, age.
pub open spec fn first_violation(user: UserView) -> Option<ValidationErrorView> {
    if is_blank(user.name) {
        Some(ValidationErrorView::EmptyField("name"@))
    } else if is_blank(user.email) {
        Some(ValidationErrorView::EmptyField("email"@))
    } else if !email_shape_ok(user.email) {
        Some(ValidationErrorView::InvalidEmail(user.email))
    } else {
        match user.age {
            Some(age) if !age_ok(age) => Some(ValidationErrorView::InvalidAge(age)),
            _ => None,
        }
    }
}

/// A user is valid when no check refuses it.
pub open spec fn is_valid_user(user: UserView) -> bool {
    first_violation(user) is None
}

impl Clone for User {
    fn clone(&self) -> (out: Self)
        ensures
            out@ == self@,
    {
        let profile = match &self.profile {
            Some(profile) => Some(profile.clone()),
            None => None,
        };
        User {
            id: self.id,
            name: self.name.clone(),
            email: self.email.clone(),
            age: self.age,
            status: self.status,
            roles: self.roles,
            profile,
            created_at: self.created_at,
            updated_at: self.updated_at,
        }
    }
}

impl User {
    /// A user made at the time `now`.
    pub fn new_at(id: UserId, name: String, email: String, now: Timestamp) -> (out: Self)
        ensures
            out@ == fresh_user(id, name@, email@, now),
    {
        User {
            id,
            name,
            email,
            age: None,
            status: UserStatus::Active,
            roles: RoleSet::single(UserRole::User),
            profile: None,
            created_at: now,
            updated_at: now,
        }
    }

    /// A user made now, by the system clock.
    pub fn new(id: UserId, name: String, email: String) -> (out: Self)
        ensures
            out@ == fresh_user(id, name@, email@, out.created_at),
    {
        User::new_at(id, name, email, current_timestamp())
    }

    /// The same user with the age `age`, changed at `now`.
    pub fn with_age_at(self, age: u32, now: Timestamp) -> (out: Self)
        ensures
            out@ == (UserView { age: Some(age), updated_at: now, ..self@ }),
    {
        let mut out = self;
        out.age = Some(age);
        out.updated_at = now;
        out
    }

    /// The same user with the age `age`, changed now.
    pub fn with_age(self, age: u32) -> (out: Self)
        ensures
            out@ == (UserView { age: Some(age), updated_at: out.updated_at, ..self@ }),
    {
        self.with_age_at(age, current_timestamp())
    }

    /// The same user with exactly the roles that occur in `roles`, changed at
    /// `now`.
    pub fn with_roles_at(self, roles: Vec<UserRole>, now: Timestamp) -> (out: Self)
        ensures
            out@ == (UserView { roles: roles@.to_set(), updated_at: now, ..self@ }),
    {
        let mut out = self;
        out.roles = RoleSet::from_roles(&roles);
        out.updated_at = now;
        out
    }

    /// The same user with exactly the roles that occur in `roles`, changed now.
    pub fn with_roles(self, roles: Vec<UserRole>) -> (out: Self)
        ensures
            out@ == (UserView { roles: roles@.to_set(), updated_at: out.updated_at, ..self@ }),
    {
        self.with_roles_at(roles, current_timestamp())
    }

    /// The same user with the profile `profile`, changed at `now`.
    pub fn with_profile_at(self, profile: UserProfile, now: Timestamp) -> (out: Self)
        ensures
            out@ == (UserView { profile: Some(profile@), updated_at: now, ..self@ }),
    {
        let mut out = self;
        out.profile = Some(profile);
        out.updated_at = now;
        out
    }

    /// The same user with the profile `profile`, changed now.
    pub fn with_profile(self, profile: UserProfile) -> (out: Self)
        ensures
            out@ == (UserView { profile: Some(profile@), updated_at: out.updated_at, ..self@ }),
    {
        self.with_profile_at(profile, current_timestamp())
    }

    /// Sets the status, at the time `now`.
    pub fn update_status_at(&mut self, status: UserStatus, now: Timestamp)
        ensures
            final(self)@ == (UserView { status, updated_at: now, ..old(self)@ }),
    {
        self.status = status;
        self.updated_at = now;
    }

    /// Sets the status, now.
    pub fn update_status(&mut self, status: UserStatus)
        ensures
            final(self)@ == (UserView { status, updated_at: final(self).updated_at, ..old(self)@ }),
    {
        self.update_status_at(status, current_timestamp());
    }

    /// Adds a role, at the time `now`.
    pub fn add_role_at(&mut self, role: UserRole, now: Timestamp)
        ensures
            final(self)@ == (UserView {
                roles: old(self)@.roles.insert(role),
                updated_at: now,
                ..old(self)@
            }),
    {
        self.roles.insert(role);
        self.updated_at = now;
    }

    /// Adds a role, now.
    pub fn add_role(&mut self, role: UserRole)
        ensures
            final(self)@ == (UserView {
                roles: old(self)@.roles.insert(role),
                updated_at: final(self).updated_at,
                ..old(self)@
            }),
    {
        self.add_role_at(role, current_timestamp());
    }

    /// Takes a role away, at the time `now`.
    pub fn remove_role_at(&mut self, role: &UserRole, now: Timestamp)
        ensures
            final(self)@ == (UserView {
                roles: old(self)@.roles.remove(*role),
                updated_at: now,
                ..old(self)@
            }),
    {
        self.roles.remove(role);
        self.updated_at = now;
    }

    /// Takes a role away, now.
    pub fn remove_role(&mut self, role: &UserRole)
        ensures
            final(self)@ == (UserView {
                roles: old(self)@.roles.remove(*role),
                updated_at: final(self).updated_at,
                ..old(self)@
            }),
    {
        self.remove_role_at(role, current_timestamp());
    }

    /// Whether the user has the role `Admin`.
    pub fn is_admin(&self) -> (b: bool)
        ensures
            b == self@.roles.contains(UserRole::Admin),
    {
        self.roles.contains(&UserRole::Admin)
    }

    /// Whether the user's status is `Active`.
    pub fn is_active(&self) -> (b: bool)
        ensures
            b == (self@.status == UserStatus::Active),
    {
        self.status == UserStatus::Active
    }

    /// Checks the fields in order and reports the first that fails: name not
    /// blank, e-mail not blank, e-mail shape, age.
    pub fn validate(&self) -> (checked: Result<(), ValidationError>)
        ensures
            checked is Ok <==> is_valid_user(self@),
            checked matches Err(error) ==> first_violation(self@) == Some(error@),
    {
        if is_blank_str(self.name.as_str()) {
            return Err(ValidationError::EmptyField("name".to_owned()));
        }
        if is_blank_str(self.email.as_str()) {
            return Err(ValidationError::EmptyField("email".to_owned()));
        }
        if !is_valid_email(self.email.as_str()) {
            return Err(ValidationError::InvalidEmail(self.email.clone()));
        }
        if let Some(age) = self.age {
            if age > MAX_AGE {
                return Err(ValidationError::InvalidAge(age));
            }
        }
        Ok(())
    }
}

} // verus!

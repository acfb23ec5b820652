//! The mathematical model of the repository: which users it holds, which
//! identifier comes next, and what each operation makes of that.

use crate::error::{Timestamp, UserErrorView, UserId, ValidationErrorView};
use crate::status::status_label;
use crate::text::contains_ignoring_case;
use crate::user::{first_violation, is_valid_user, UserView};
use vstd::prelude::*;

verus! {

/// The state of a repository: the stored users by identifier, and the
/// identifier that the next stored user will get.
#[verifier::ext_equal]
pub struct RegistryState {
    pub users: Map<UserId, UserView>,
    pub next_id: UserId,
}

impl RegistryState {
    /// The state of a new repository: no users, first identifier 1.
    pub open spec fn initial() -> RegistryState {
        RegistryState { users: Map::empty(), next_id: 1 }
    }

    /// What holds of every state that the operations reach from the initial
    /// one: identifiers start at 1 and lie below the next one, every user is
    /// stored under its own identifier and is valid, and no two users share
    /// an e-mail address.
    pub open spec fn wf(self) -> bool {
        &&& self.users.dom().finite()
        &&& self.next_id >= 1
        &&& forall|id: UserId| #[trigger]
            self.users.contains_key(id) ==> 1 <= id < self.next_id && self.users[id].id == id
                && is_valid_user(self.users[id])
        &&& forall|a: UserId, b: UserId|
            #![trigger self.users[a], self.users[b]]
            self.users.contains_key(a) && self.users.contains_key(b) && self.users[a].email
                == self.users[b].email ==> a == b
    }

    /// Whether another identifier can be handed out.
    pub open spec fn has_free_id(self) -> bool {
        self.next_id < UserId::MAX
    }

    /// Whether some stored user has the e-mail address `email`.
    pub open spec fn email_taken(self, email: Seq<char>) -> bool {
        exists|id: UserId| #[trigger] self.users.contains_key(id) && self.users[id].email == email
    }

    /// What looking up `id` returns.
    pub open spec fn find(self, id: UserId) -> Option<UserView> {
        if self.users.contains_key(id) {
            Some(self.users[id])
        } else {
            None
        }
    }

    /// The record that is stored when `user` is saved at the time `now`: the
    /// next identifier, and both timestamps at `now`.
    pub open spec fn stamped(self, user: UserView, now: Timestamp) -> UserView {
        UserView { id: self.next_id, created_at: now, updated_at: now, ..user }
    }

    /// What saving `user` at the time `now` returns: the first violation of a
    /// field check; else `DuplicateEmail` where the address is taken; else
    /// the stored record.
    pub open spec fn save_outcome(self, user: UserView, now: Timestamp) -> Result<
        UserView,
        ValidationErrorView,
    > {
        match first_violation(user) {
            Some(error) => Err(error),
            None => if self.email_taken(user.email) {
                Err(ValidationErrorView::DuplicateEmail(user.email))
            } else {
                Ok(self.stamped(user, now))
            },
        }
    }

    /// The state after saving `user` at the time `now`.
    pub open spec fn after_save(self, user: UserView, now: Timestamp) -> RegistryState {
        match self.save_outcome(user, now) {
            Ok(stored) => RegistryState {
                users: self.users.insert(stored.id, stored),
                next_id: (self.next_id + 1) as UserId,
            },
            Err(_) => self,
        }
    }

    /// The record that replaces the one under `id` when it is updated with
    /// `user` at the time `now`: the identifier and the time of creation
    /// stay, the time of the last change becomes `now`.
    pub open spec fn restamped(self, id: UserId, user: UserView, now: Timestamp) -> UserView {
        UserView { id, created_at: self.users[id].created_at, updated_at: now, ..user }
    }

    /// What updating `id` with `user` at the time `now` returns: the first
    /// violation of a field check; else `NotFound` where `id` is absent; else
    /// `DuplicateEmail` where the new address belongs to another user; else
    /// the stored record.
    pub open spec fn update_outcome(self, id: UserId, user: UserView, now: Timestamp) -> Result<
        UserView,
        UserErrorView,
    > {
        match first_violation(user) {
            Some(error) => Err(UserErrorView::Validation(error)),
            None => if !self.users.contains_key(id) {
                Err(UserErrorView::NotFound(id))
            } else if user.email != self.users[id].email && self.email_taken(user.email) {
                Err(UserErrorView::Validation(ValidationErrorView::DuplicateEmail(user.email)))
            } else {
                Ok(self.restamped(id, user, now))
            },
        }
    }

    /// The state after updating `id` with `user` at the time `now`.
    pub open spec fn after_update(
        self,
        id: UserId,
        user: UserView,
        now: Timestamp,
    ) -> RegistryState {
        match self.update_outcome(id, user, now) {
            Ok(stored) => RegistryState { users: self.users.insert(id, stored), ..self },
            Err(_) => self,
        }
    }

    /// The state after deleting `id`.
    pub open spec fn after_delete(self, id: UserId) -> RegistryState {
        RegistryState { users: self.users.remove(id), ..self }
    }
}

/// A listing holds every stored user exactly once.
pub open spec fn lists_all(listing: Seq<UserView>, users: Map<UserId, UserView>) -> bool {
    &&& listing.len() == users.dom().len()
    &&& forall|i: int|
        0 <= i < listing.len() ==> users.contains_key((#[trigger] listing[i]).id)
            && users[listing[i].id] == listing[i]
    &&& forall|i: int, j: int|
        0 <= i < j < listing.len() ==> (#[trigger] listing[i]).id != (#[trigger] listing[j]).id
    &&& forall|id: UserId| #[trigger]
        users.contains_key(id) ==> exists|i: int|
            0 <= i < listing.len() && (#[trigger] listing[i]).id == id
}

/// The characters of each value of a map of strings.
pub open spec fn criteria_view(criteria: Map<Seq<char>, String>) -> Map<Seq<char>, Seq<char>> {
    criteria.map_values(|value: String| value@)
}

/// A user matches a set of criteria when it meets each of them. Under
/// `name` and `email` the value must occur in the field, case ignored; under
/// `status` the value must be the label of the user's status. Any other key
/// is ignored.
pub open spec fn matches_criteria(user: UserView, criteria: Map<Seq<char>, Seq<char>>) -> bool {
    &&& criteria.contains_key("name"@) ==> contains_ignoring_case(user.name, criteria["name"@])
    &&& criteria.contains_key("email"@) ==> contains_ignoring_case(user.email, criteria["email"@])
    &&& criteria.contains_key("status"@) ==> status_label(user.status) == criteria["status"@]
}

/// The users of `listing` that match `criteria`, in the order of `listing`.
pub open spec fn select_matching(
    listing: Seq<UserView>,
    criteria: Map<Seq<char>, Seq<char>>,
) -> Seq<UserView> {
    listing.filter(|user: UserView| matches_criteria(user, criteria))
}

/// Selecting from one more user appends that user if it matches.
pub proof fn lemma_select_matching_step(
    listing: Seq<UserView>,
    criteria: Map<Seq<char>, Seq<char>>,
    i: int,
)
    requires
        0 <= i < listing.len(),
    ensures
        select_matching(listing.take(i + 1), criteria) == if matches_criteria(listing[i], criteria) {
            select_matching(listing.take(i), criteria).push(listing[i])
        } else {
            select_matching(listing.take(i), criteria)
        },
{
    assert(listing.take(i + 1) =~= listing.take(i).push(listing[i]));
    listing.take(i).lemma_filter_push(
        listing[i],
        |user: UserView| matches_criteria(user, criteria),
    );
}

} // verus!

//! The in-memory repository: users by identifier, with an index that keeps
//! e-mail addresses unique.

use crate::clock::current_timestamp;
use crate::error::{
    Timestamp, UserError, UserErrorView, UserId, ValidationError, ValidationErrorView,
};
use crate::registry::{
    criteria_view, lemma_select_matching_step, lists_all, matches_criteria, select_matching,
    RegistryState,
};
use crate::string_map::StringMap;
use crate::text::{contains_ignore_case, str_eq};
use crate::user::{User, UserView};
use std::collections::HashMap;
use vstd::prelude::*;
use vstd::std_specs::hash::*;
use vstd::std_specs::iter::IteratorSpec;

verus! {

broadcast use group_hash_axioms;

/// Stores users in memory. Every stored user has an identifier that the
/// repository assigned, and an e-mail address that no other stored user has.
pub struct InMemoryUserRepository {
    users: HashMap<UserId, User>,
    next_id: UserId,
    email_index: StringMap<UserId>,
}

/// The values of the stored users, by identifier.
pub open spec fn user_views(users: Map<UserId, User>) -> Map<UserId, UserView> {
    Map::new(|id: UserId| users.contains_key(id), |id: UserId| users[id]@)
}

/// The values of a list of users, in order.
pub open spec fn views_of(users: Seq<User>) -> Seq<UserView> {
    Seq::new(users.len(), |i: int| users[i]@)
}

/// The value of what `find_by_id` returns.
pub open spec fn found_view(found: Option<User>) -> Option<UserView> {
    match found {
        Some(user) => Some(user@),
        None => None,
    }
}

/// The value of what `save` returns.
pub open spec fn saved_view(saved: Result<User, ValidationError>) -> Result<
    UserView,
    ValidationErrorView,
> {
    match saved {
        Ok(user) => Ok(user@),
        Err(error) => Err(error@),
    }
}

/// The value of what `update` returns.
pub open spec fn updated_view(updated: Result<User, UserError>) -> Result<UserView, UserErrorView> {
    match updated {
        Ok(user) => Ok(user@),
        Err(error) => Err(error@),
    }
}

/// Whether `user` meets every criterion of `criteria`.
pub fn user_matches(user: &User, criteria: &StringMap<String>) -> (b: bool)
    ensures
        b == matches_criteria(user@, criteria_view(criteria@)),
{
    if let Some(part) = criteria.get("name") {
        if !contains_ignore_case(user.name.as_str(), part.as_str()) {
            return false;
        }
    }
    if let Some(part) = criteria.get("email") {
        if !contains_ignore_case(user.email.as_str(), part.as_str()) {
            return false;
        }
    }
    if let Some(label) = criteria.get("status") {
        if !str_eq(user.status.as_str(), label.as_str()) {
            return false;
        }
    }
    true
}

/// What a store of entities of type `T` with identifiers of type `ID`
/// offers.
pub trait Repository<T, ID> {
    /// The invariant of the store.
    spec fn wf(&self) -> bool;

    /// Whether the store can take one more entity.
    spec fn has_room(&self) -> bool;

    /// The entity with the identifier `id`, if there is one.
    fn find_by_id(&self, id: ID) -> (found: Option<T>)
    ;

    /// All entities, each once.
    fn find_all(&self) -> (all: Vec<T>)
        requires
            self.wf(),
    ;

    /// Stores `entity` under a fresh identifier, or refuses it.
    fn save(&mut self, entity: T) -> (saved: Result<T, ValidationError>)
        requires
            old(self).wf(),
            old(self).has_room(),
        ensures
            final(self).wf(),
    ;

    /// Puts `entity` in place of the one stored under `id`, or refuses it.
    fn update(&mut self, id: ID, entity: T) -> (updated: Result<T, UserError>)
        requires
            old(self).wf(),
        ensures
            final(self).wf(),
    ;

    /// Takes the entity stored under `id` out. Returns whether there was
    /// one.
    fn delete(&mut self, id: ID) -> (removed: bool)
        requires
            old(self).wf(),
        ensures
            final(self).wf(),
    ;

    /// The entities that meet every criterion of `criteria`.
    fn find_by_criteria(&self, criteria: &StringMap<String>) -> (found: Vec<T>)
        requires
            self.wf(),
    ;
}

impl View for InMemoryUserRepository {
    type V = RegistryState;

    closed spec fn view(&self) -> RegistryState {
        RegistryState { users: user_views(self.users@), next_id: self.next_id }
    }
}

impl InMemoryUserRepository {
    /// The index holds the address of every stored user, and nothing else.
    spec fn index_mirrors_users(&self) -> bool {
        &&& forall|email: Seq<char>| #[trigger]
            self.email_index@.contains_key(email) ==> self.users@.contains_key(
                self.email_index@[email],
            ) && self.users@[self.email_index@[email]].email@ == email
        &&& forall|id: UserId| #[trigger]
            self.users@.contains_key(id) ==> self.email_index@.contains_key(
                self.users@[id].email@,
            ) && self.email_index@[self.users@[id].email@] == id
    }

    /// `self` and `other` hold the same records; only the next identifier
    /// may differ.
    pub closed spec fn same_records(&self, other: &Self) -> bool {
        self.users == other.users && self.email_index == other.email_index
    }

    /// The e-mail index: the identifier of the stored user under each address.
    pub closed spec fn indexed_emails(&self) -> Map<Seq<char>, UserId> {
        self.email_index@
    }

    /// The index of a well-formed repository holds exactly the addresses of
    /// the stored users, each with the identifier of the one user that has
    /// it.
    pub proof fn lemma_index_mirrors_users(&self)
        requires
            self.wf(),
        ensures
            forall|email: Seq<char>| #[trigger]
                self.indexed_emails().contains_key(email) <==> self@.email_taken(email),
            forall|id: UserId| #[trigger]
                self@.users.contains_key(id) ==> self.indexed_emails().contains_key(
                    self@.users[id].email,
                ) && self.indexed_emails()[self@.users[id].email] == id,
    {
        assert forall|email: Seq<char>| #[trigger]
            self.indexed_emails().contains_key(email) <==> self@.email_taken(email) by {
            self.lemma_index_decides(email);
        }
    }

    /// A well-formed repository has a well-formed state.
    pub proof fn lemma_wf_state(&self)
        requires
            self.wf(),
        ensures
            self@.wf(),
    {
    }

    proof fn lemma_index_decides(&self, email: Seq<char>)
        requires
            self.wf(),
        ensures
            self.email_index@.contains_key(email) == self@.email_taken(email),
    {
        if self.email_index@.contains_key(email) {
            let id = self.email_index@[email];
            assert(self@.users.contains_key(id) && self@.users[id].email == email);
        }
        if self@.email_taken(email) {
            let id = choose|id: UserId| #[trigger]
                self@.users.contains_key(id) && self@.users[id].email == email;
            assert(self.users@.contains_key(id));
        }
    }

    /// An empty repository whose first identifier is 1.
    pub fn new() -> (out: Self)
        ensures
            out.wf(),
            out@ == RegistryState::initial(),
    {
        let out = InMemoryUserRepository {
            users: HashMap::new(),
            next_id: 1,
            email_index: StringMap::new(),
        };
        assert(out@.users =~= Map::<UserId, UserView>::empty());
        out
    }

    /// The identifier that the next stored user will get.
    pub fn next_id(&self) -> (id: UserId)
        ensures
            id == self@.next_id,
    {
        self.next_id
    }

    /// The number of stored users.
    pub fn len(&self) -> (n: usize)
        ensures
            n == self@.users.dom().len(),
    {
        assert(self@.users.dom() =~= self.users@.dom());
        self.users.len()
    }

    /// Hands out the next identifier.
    pub fn generate_id(&mut self) -> (id: UserId)
        requires
            old(self).wf(),
            old(self)@.has_free_id(),
        ensures
            final(self).wf(),
            id == old(self)@.next_id,
            final(self)@ == (RegistryState { next_id: (id + 1) as UserId, ..old(self)@ }),
            final(self).same_records(old(self)),
    {
        let id = self.next_id;
        self.next_id += 1;
        id
    }

    /// Stores `user` at the time `now` under a fresh identifier, whatever
    /// identifier it carries. A user that fails a field check, or whose
    /// address is taken, is refused and the repository stays as it is.
    pub fn save_at(&mut self, user: User, now: Timestamp) -> (saved: Result<User, ValidationError>)
        requires
            old(self).wf(),
            old(self)@.has_free_id(),
        ensures
            final(self).wf(),
            saved_view(saved) == old(self)@.save_outcome(user@, now),
            final(self)@ == old(self)@.after_save(user@, now),
    {
        let mut stored = user;
        match stored.validate() {
            Err(error) => {
                return Err(error);
            },
            Ok(()) => {},
        }
        proof {
            self.lemma_index_decides(stored.email@);
        }
        if self.email_index.contains_key(stored.email.as_str()) {
            return Err(ValidationError::DuplicateEmail(stored.email));
        }
        let ghost before = *self;
        let id = self.generate_id();
        stored.id = id;
        stored.created_at = now;
        stored.updated_at = now;
        self.email_index.insert(stored.email.clone(), id);
        self.users.insert(id, stored.clone());
        proof {
            assert(self@.users =~= old(self)@.users.insert(id, stored@));
            assert(self.index_mirrors_users()) by {
                assert forall|email: Seq<char>| #[trigger]
                    self.email_index@.contains_key(email) implies self.users@.contains_key(
                    self.email_index@[email],
                ) && self.users@[self.email_index@[email]].email@ == email by {
                    if email != stored.email@ {
                        let holder = before.email_index@[email];
                        assert(before@.users.contains_key(holder));
                    }
                }
            }
        }
        Ok(stored)
    }

    /// Replaces the user stored under `id` by `user` at the time `now`. The
    /// identifier and the time of creation stay as they were. A user that
    /// fails a field check, an absent `id`, or an address that belongs to
    /// another user is refused and the repository stays as it is.
    pub fn update_at(&mut self, id: UserId, user: User, now: Timestamp) -> (updated: Result<
        User,
        UserError,
    >)
        requires
            old(self).wf(),
        ensures
            final(self).wf(),
            updated_view(updated) == old(self)@.update_outcome(id, user@, now),
            final(self)@ == old(self)@.after_update(id, user@, now),
    {
        let mut stored = user;
        match stored.validate() {
            Err(error) => {
                return Err(UserError::Validation(error));
            },
            Ok(()) => {},
        }
        let (previous_email, created_at) = match self.users.get(&id) {
            Some(existing) => (existing.email.clone(), existing.created_at),
            None => {
                return Err(UserError::NotFound(id));
            },
        };
        let email_changed = !(stored.email == previous_email);
        proof {
            self.lemma_index_decides(stored.email@);
        }
        if email_changed && self.email_index.contains_key(stored.email.as_str()) {
            return Err(UserError::Validation(ValidationError::DuplicateEmail(stored.email)));
        }
        if email_changed {
            self.email_index.remove(previous_email.as_str());
            self.email_index.insert(stored.email.clone(), id);
        }
        stored.id = id;
        stored.created_at = created_at;
        stored.updated_at = now;
        self.users.insert(id, stored.clone());
        proof {
            assert(self@.users =~= old(self)@.users.insert(id, stored@));
        }
        Ok(stored)
    }

    /// The stored users in the order in which the repository walks them. The
    /// order is fixed as long as the repository does not change, and is
    /// otherwise unspecified.
    pub closed spec fn listing(&self) -> Seq<UserView> {
        let entries = into_iter(spec_hash_map_iter(&self.users));
        Seq::new(entries.len(), |i: int| entries[i].1@)
    }
}

impl Repository<User, UserId> for InMemoryUserRepository {
    /// The invariant of the repository: its state is well formed, and the
    /// e-mail index mirrors the stored users.
    closed spec fn wf(&self) -> bool {
        &&& self@.wf()
        &&& self.index_mirrors_users()
    }

    /// There is room as long as an identifier is left.
    open spec fn has_room(&self) -> bool {
        self@.has_free_id()
    }

    /// The stored user with the identifier `id`, if there is one.
    fn find_by_id(&self, id: UserId) -> (found: Option<User>)
        ensures
            found_view(found) == self@.find(id),
    {
        match self.users.get(&id) {
            Some(user) => Some(user.clone()),
            None => None,
        }
    }

    /// All stored users, each once, in the order of [`Self::listing`].
    fn find_all(&self) -> (out: Vec<User>)
        ensures
            views_of(out@) == self.listing(),
            lists_all(self.listing(), self@.users),
    {
        let mut out: Vec<User> = Vec::new();
        let ghost entries = into_iter(spec_hash_map_iter(&self.users));
        for entry in it: self.users.iter()
            invariant
                it.seq().unref() == entries,
                it.seq() == spec_hash_map_iter(&self.users).remaining(),
                out@.len() == it.index(),
                forall|j: int| 0 <= j < it.index() ==> (#[trigger] out@[j])@ == entries[j].1@,
        {
            let (_, user) = entry;
            out.push(user.clone());
        }
        proof {
            let listing = self.listing();
            let walked = spec_hash_map_iter(&self.users).remaining();
            assert(self@.users.dom() =~= self.users@.dom());
            assert forall|i: int| 0 <= i < listing.len() implies self@.users.contains_key(
                (#[trigger] listing[i]).id,
            ) && self@.users[listing[i].id] == listing[i] by {
                assert(self.users@.contains_key(*walked[i].0));
            }
            assert forall|i: int, j: int| 0 <= i < j < listing.len() implies (#[trigger] listing[i]).id
                != (#[trigger] listing[j]).id by {
                assert(self.users@.contains_key(*walked[i].0));
                assert(self.users@.contains_key(*walked[j].0));
            }
            assert forall|id: UserId| #[trigger] self@.users.contains_key(id) implies exists|i: int|
                0 <= i < listing.len() && (#[trigger] listing[i]).id == id by {
                let pair = (&id, &self.users@[id]);
                let i = choose|i: int| 0 <= i < walked.len() && walked[i] == pair;
                assert(listing[i].id == id);
            }
        }
        out
    }

    /// Stores `user` now, by the system clock. See [`Self::save_at`].
    fn save(&mut self, user: User) -> (saved: Result<User, ValidationError>)
        ensures
            exists|now: Timestamp|
                saved_view(saved) == #[trigger] old(self)@.save_outcome(user@, now) && final(self)@
                    == old(self)@.after_save(user@, now),
    {
        self.save_at(user, current_timestamp())
    }

    /// Replaces the user stored under `id` by `user` now, by the system
    /// clock. See [`Self::update_at`].
    fn update(&mut self, id: UserId, user: User) -> (updated: Result<User, UserError>)
        ensures
            exists|now: Timestamp|
                updated_view(updated) == #[trigger] old(self)@.update_outcome(id, user@, now)
                    && final(self)@ == old(self)@.after_update(id, user@, now),
    {
        self.update_at(id, user, current_timestamp())
    }

    /// Takes the user stored under `id` out, together with the index entry of
    /// its address. Returns whether there was such a user.
    fn delete(&mut self, id: UserId) -> (removed: bool)
        ensures
            removed == old(self)@.users.contains_key(id),
            final(self)@ == old(self)@.after_delete(id),
    {
        let removed = match self.users.remove(&id) {
            Some(user) => {
                self.email_index.remove(user.email.as_str());
                true
            },
            None => false,
        };
        assert(self@.users =~= old(self)@.users.remove(id));
        removed
    }

    /// The stored users that match `criteria`, in the order of
    /// [`Self::listing`].
    fn find_by_criteria(&self, criteria: &StringMap<String>) -> (out: Vec<User>)
        ensures
            views_of(out@) == select_matching(self.listing(), criteria_view(criteria@)),
            lists_all(self.listing(), self@.users),
    {
        let all = self.find_all();
        let ghost wanted = criteria_view(criteria@);
        let ghost listing = self.listing();
        let ghost found = all@;
        let mut out: Vec<User> = Vec::new();
        for user in it: all
            invariant
                it.seq() == found,
                views_of(found) == listing,
                wanted == criteria_view(criteria@),
                views_of(out@) == select_matching(listing.take(it.index()), wanted),
        {
            proof {
                lemma_select_matching_step(listing, wanted, it.index());
            }
            if user_matches(&user, criteria) {
                out.push(user);
            }
        }
        assert(listing.take(listing.len() as int) =~= listing);
        out
    }
}

} // verus!

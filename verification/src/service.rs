//! The service: creation from plain data, partial updates, pages and search
//! on top of one repository.

use crate::clock::current_timestamp;
use crate::error::{Timestamp, UserError, UserErrorView, UserId, ValidationError};
use crate::registry::{criteria_view, lists_all, select_matching, RegistryState};
use crate::repository::{saved_view, updated_view, views_of, InMemoryUserRepository, Repository};
use crate::role::{RoleSet, UserRole};
use crate::status::UserStatus;
use crate::string_map::StringMap;
use crate::user::{User, UserView};
use vstd::prelude::*;

verus! {

/// What is needed to create a user.
#[derive(Debug, PartialEq)]
pub struct CreateUserData {
    pub name: String,
    pub email: String,
    pub age: Option<u32>,
    pub roles: Vec<UserRole>,
}

/// The changes to make to a user. A field that is `None` stays as it is.
#[derive(Debug, PartialEq)]
pub struct UpdateUserData {
    pub name: Option<String>,
    pub email: Option<String>,
    pub age: Option<u32>,
    pub status: Option<UserStatus>,
    pub roles: Option<Vec<UserRole>>,
}

/// Where a page lies in a listing.
#[derive(Debug, Clone, Copy, PartialEq)]
pub struct PaginationInfo {
    pub page: u32,
    pub limit: u32,
    pub total: u32,
    pub total_pages: u32,
}

/// An answer of the service together with what describes it.
#[derive(Debug, PartialEq)]
pub struct ApiResponse<T> {
    pub data: T,
    pub status: u16,
    pub message: String,
    pub timestamp: Timestamp,
    pub pagination: Option<PaginationInfo>,
}

impl Clone for CreateUserData {
    fn clone(&self) -> (out: Self)
        ensures
            out.name@ == self.name@,
            out.email@ == self.email@,
            out.age == self.age,
            out.roles@ == self.roles@,
    {
        CreateUserData {
            name: self.name.clone(),
            email: self.email.clone(),
            age: self.age,
            roles: self.roles.clone(),
        }
    }
}

impl Clone for UpdateUserData {
    fn clone(&self) -> (out: Self)
        ensures
            out@ == self@,
    {
        let name = match &self.name {
            Some(name) => Some(name.clone()),
            None => None,
        };
        let email = match &self.email {
            Some(email) => Some(email.clone()),
            None => None,
        };
        let roles = match &self.roles {
            Some(roles) => {
                let copy = roles.clone();
                Some(copy)
            },
            None => None,
        };
        UpdateUserData { name, email, age: self.age, status: self.status, roles }
    }
}

impl<T: Clone> Clone for ApiResponse<T> {
    fn clone(&self) -> (out: Self)
        ensures
            cloned::<T>(self.data, out.data),
            out.status == self.status,
            out.message@ == self.message@,
            out.timestamp == self.timestamp,
            out.pagination == self.pagination,
    {
        ApiResponse {
            data: self.data.clone(),
            status: self.status,
            message: self.message.clone(),
            timestamp: self.timestamp,
            pagination: self.pagination,
        }
    }
}

/// The user that the service hands to the repository when it creates one at
/// the time `now`: the age is 0 where none is given, the roles are `User`
/// alone where none is given, and the identifier is a placeholder.
pub open spec fn candidate(
    name: Seq<char>,
    email: Seq<char>,
    age: Option<u32>,
    roles: Seq<UserRole>,
    now: Timestamp,
) -> UserView {
    UserView {
        id: 0,
        name,
        email,
        age: Some(
            match age {
                Some(age) => age,
                None => 0,
            },
        ),
        status: UserStatus::Active,
        roles: if roles.len() == 0 {
            Set::<UserRole>::empty().insert(UserRole::User)
        } else {
            roles.to_set()
        },
        profile: None,
        created_at: now,
        updated_at: now,
    }
}

/// The mathematical value of an [`UpdateUserData`].
pub struct UserPatch {
    pub name: Option<Seq<char>>,
    pub email: Option<Seq<char>>,
    pub age: Option<u32>,
    pub status: Option<UserStatus>,
    pub roles: Option<Set<UserRole>>,
}

impl View for UpdateUserData {
    type V = UserPatch;

    open spec fn view(&self) -> UserPatch {
        UserPatch {
            name: match self.name {
                Some(name) => Some(name@),
                None => None,
            },
            email: match self.email {
                Some(email) => Some(email@),
                None => None,
            },
            age: self.age,
            status: self.status,
            roles: match self.roles {
                Some(roles) => Some(roles@.to_set()),
                None => None,
            },
        }
    }
}

/// The user `current` with the fields that `patch` gives put in place of its
/// own. A status in the patch also moves the time of the last change to
/// `now`.
pub open spec fn patched(current: UserView, patch: UserPatch, now: Timestamp) -> UserView {
    UserView {
        name: match patch.name {
            Some(name) => name,
            None => current.name,
        },
        email: match patch.email {
            Some(email) => email,
            None => current.email,
        },
        age: match patch.age {
            Some(age) => Some(age),
            None => current.age,
        },
        status: match patch.status {
            Some(status) => status,
            None => current.status,
        },
        roles: match patch.roles {
            Some(roles) => roles,
            None => current.roles,
        },
        updated_at: if patch.status is Some {
            now
        } else {
            current.updated_at
        },
        ..current
    }
}

/// What updating `id` by `patch` at the time `now` returns: `NotFound` where
/// `id` is absent, else what the repository makes of the patched user.
pub open spec fn patch_outcome(
    state: RegistryState,
    id: UserId,
    patch: UserPatch,
    now: Timestamp,
) -> Result<UserView, UserErrorView> {
    if state.users.contains_key(id) {
        state.update_outcome(id, patched(state.users[id], patch, now), now)
    } else {
        Err(UserErrorView::NotFound(id))
    }
}

/// The state after updating `id` by `patch` at the time `now`.
pub open spec fn after_patch(
    state: RegistryState,
    id: UserId,
    patch: UserPatch,
    now: Timestamp,
) -> RegistryState {
    if state.users.contains_key(id) {
        state.after_update(id, patched(state.users[id], patch, now), now)
    } else {
        state
    }
}

/// The first position of page `page` when each page holds `limit` users.
pub open spec fn page_start(page: u32, limit: u32) -> int {
    page * limit
}

/// Page `page` of `listing` when each page holds `limit` users: the users
/// from position `page * limit` up to, and without, `(page + 1) * limit`, as
/// far as the listing reaches.
pub open spec fn page_of<A>(listing: Seq<A>, page: u32, limit: u32) -> Seq<A> {
    let start = page_start(page, limit);
    let end = start + limit;
    if start >= listing.len() {
        Seq::empty()
    } else if end >= listing.len() {
        listing.subrange(start, listing.len() as int)
    } else {
        listing.subrange(start, end)
    }
}

/// The criteria of a search for `query`: the name must hold it.
pub open spec fn name_criteria(query: Seq<char>) -> Map<Seq<char>, Seq<char>> {
    Map::<Seq<char>, Seq<char>>::empty().insert("name"@, query)
}

/// What a service over entities of type `T` with identifiers of type `ID`
/// offers.
pub trait Service<T, ID> {
    /// The invariant of the service.
    spec fn wf(&self) -> bool;

    /// Whether the service can take one more entity.
    spec fn has_room(&self) -> bool;

    /// Creates an entity from `data` and stores it, or refuses it.
    fn create(&mut self, data: CreateUserData) -> (created: Result<T, ValidationError>)
        requires
            old(self).wf(),
            old(self).has_room(),
        ensures
            final(self).wf(),
    ;

    /// The entity with the identifier `id`, or an error where there is none.
    fn get(&self, id: ID) -> (found: Result<T, UserError>)
    ;

    /// Changes the fields of the entity `id` that `data` gives, or refuses
    /// the change.
    fn update(&mut self, id: ID, data: UpdateUserData) -> (updated: Result<T, UserError>)
        requires
            old(self).wf(),
        ensures
            final(self).wf(),
    ;

    /// Deletes the entity `id`. Returns whether there was one.
    fn delete(&mut self, id: ID) -> (removed: bool)
        requires
            old(self).wf(),
        ensures
            final(self).wf(),
    ;

    /// Page `page` of the entities when each page holds `limit` of them.
    fn list(&self, page: u32, limit: u32) -> (out: Vec<T>)
        requires
            self.wf(),
    ;

    /// The entities that `query` finds.
    fn search(&self, query: &str) -> (out: Vec<T>)
        requires
            self.wf(),
    ;
}

/// Creates, reads, changes and deletes users of one repository.
pub struct UserService {
    repository: InMemoryUserRepository,
}

impl View for UserService {
    type V = RegistryState;

    closed spec fn view(&self) -> RegistryState {
        self.repository@
    }
}

impl UserService {
    /// The stored users in the order in which [`Self::list`] pages them.
    pub closed spec fn listing(&self) -> Seq<UserView> {
        self.repository.listing()
    }

    /// A well-formed service has a well-formed state.
    pub proof fn lemma_wf_state(&self)
        requires
            self.wf(),
        ensures
            self@.wf(),
    {
        self.repository.lemma_wf_state();
    }

    /// A service over an empty repository.
    pub fn new() -> (out: Self)
        ensures
            out.wf(),
            out@ == RegistryState::initial(),
    {
        UserService { repository: InMemoryUserRepository::new() }
    }

    /// The identifier that the next created user will get.
    pub fn next_id(&self) -> (id: UserId)
        ensures
            id == self@.next_id,
    {
        self.repository.next_id()
    }

    /// Creates a user from `data` at the time `now` and stores it.
    pub fn create_at(&mut self, data: CreateUserData, now: Timestamp) -> (created: Result<
        User,
        ValidationError,
    >)
        requires
            old(self).wf(),
            old(self)@.has_free_id(),
        ensures
            final(self).wf(),
            saved_view(created) == old(self)@.save_outcome(
                candidate(data.name@, data.email@, data.age, data.roles@, now),
                now,
            ),
            final(self)@ == old(self)@.after_save(
                candidate(data.name@, data.email@, data.age, data.roles@, now),
                now,
            ),
    {
        let age = match data.age {
            Some(age) => age,
            None => 0,
        };
        let mut user = User::new_at(0, data.name, data.email, now).with_age_at(age, now);
        if data.roles.len() > 0 {
            user = user.with_roles_at(data.roles, now);
        }
        self.repository.save_at(user, now)
    }

    /// Changes the fields of the user `id` that `data` gives, at the time
    /// `now`, and stores the result.
    pub fn update_at(
        &mut self,
        id: UserId,
        data: UpdateUserData,
        now: Timestamp,
    ) -> (updated: Result<User, UserError>)
        requires
            old(self).wf(),
        ensures
            final(self).wf(),
            updated_view(updated) == patch_outcome(old(self)@, id, data@, now),
            final(self)@ == after_patch(old(self)@, id, data@, now),
    {
        let mut user = match self.repository.find_by_id(id) {
            Some(user) => user,
            None => {
                return Err(UserError::NotFound(id));
            },
        };
        if let Some(name) = data.name {
            user.name = name;
        }
        if let Some(email) = data.email {
            user.email = email;
        }
        if let Some(age) = data.age {
            user.age = Some(age);
        }
        if let Some(status) = data.status {
            user.update_status_at(status, now);
        }
        if let Some(roles) = data.roles {
            user.roles = RoleSet::from_roles(&roles);
        }
        self.repository.update_at(id, user, now)
    }
}

impl Service<User, UserId> for UserService {
    /// The invariant of the service: that of its repository.
    closed spec fn wf(&self) -> bool {
        self.repository.wf()
    }

    /// There is room as long as an identifier is left.
    open spec fn has_room(&self) -> bool {
        self@.has_free_id()
    }

    /// Creates a user from `data` now, by the system clock, and stores it.
    /// See [`Self::create_at`].
    fn create(&mut self, data: CreateUserData) -> (created: Result<User, ValidationError>)
        ensures
            exists|now: Timestamp|
                saved_view(created) == #[trigger] old(self)@.save_outcome(
                    candidate(data.name@, data.email@, data.age, data.roles@, now),
                    now,
                ) && final(self)@ == old(self)@.after_save(
                    candidate(data.name@, data.email@, data.age, data.roles@, now),
                    now,
                ),
    {
        self.create_at(data, current_timestamp())
    }

    /// The user with the identifier `id`; `NotFound` where there is none.
    fn get(&self, id: UserId) -> (found: Result<User, UserError>)
        ensures
            match found {
                Ok(user) => self@.find(id) == Some(user@),
                Err(error) => self@.find(id) is None && error@ == UserErrorView::NotFound(id),
            },
    {
        match self.repository.find_by_id(id) {
            Some(user) => Ok(user),
            None => Err(UserError::NotFound(id)),
        }
    }

    /// Changes the fields of the user `id` that `data` gives, now, by the
    /// system clock. See [`Self::update_at`].
    fn update(&mut self, id: UserId, data: UpdateUserData) -> (updated: Result<User, UserError>)
        ensures
            exists|now: Timestamp|
                updated_view(updated) == #[trigger] patch_outcome(old(self)@, id, data@, now)
                    && final(self)@ == after_patch(old(self)@, id, data@, now),
    {
        self.update_at(id, data, current_timestamp())
    }

    /// Deletes the user `id`. Returns whether there was such a user.
    fn delete(&mut self, id: UserId) -> (removed: bool)
        ensures
            removed == old(self)@.users.contains_key(id),
            final(self)@ == old(self)@.after_delete(id),
    {
        self.repository.delete(id)
    }

    /// Page `page` of the stored users when each page holds `limit` of them.
    /// A page that begins beyond the last user is empty.
    fn list(&self, page: u32, limit: u32) -> (out: Vec<User>)
        ensures
            views_of(out@) == page_of(self.listing(), page, limit),
            lists_all(self.listing(), self@.users),
    {
        let all = self.repository.find_all();
        let ghost found = all@;
        let total: u64 = all.len() as u64;
        assert(page * limit <= 0xFFFF_FFFF * 0xFFFF_FFFF) by (nonlinear_arith)
            requires
                0 <= page <= 0xFFFF_FFFF,
                0 <= limit <= 0xFFFF_FFFF,
        ;
        let start: u64 = page as u64 * limit as u64;
        let end: u64 = start + limit as u64;
        let stop: u64 = if end >= total { total } else { end };
        let mut out: Vec<User> = Vec::new();
        if start >= total {
            return out;
        }
        let mut position: u64 = 0;
        for user in it: all
            invariant
                it.seq() == found,
                position == it.index(),
                total == found.len(),
                start < total,
                start <= stop <= total,
                out@ == found.subrange(
                    start as int,
                    if position < start {
                        start as int
                    } else if position < stop {
                        position as int
                    } else {
                        stop as int
                    },
                ),
        {
            if start <= position && position < stop {
                out.push(user);
            }
            position += 1;
        }
        out
    }

    /// The stored users whose name holds `query`, case ignored.
    fn search(&self, query: &str) -> (out: Vec<User>)
        ensures
            views_of(out@) == select_matching(self.listing(), name_criteria(query@)),
            lists_all(self.listing(), self@.users),
    {
        let mut criteria: StringMap<String> = StringMap::new();
        criteria.insert("name".to_owned(), query.to_owned());
        assert(criteria_view(criteria@) =~= name_criteria(query@));
        self.repository.find_by_criteria(&criteria)
    }
}

} // verus!

//! What holds of the registry whatever its state: the laws of saving,
//! updating, deleting and paging, each proved from the model.

use crate::error::{Timestamp, UserId, ValidationErrorView};
use crate::registry::RegistryState;
use crate::role::UserRole;
use crate::service::{after_patch, candidate, page_of, page_start, patch_outcome, UserPatch};
use crate::text::is_blank;
use crate::user::{is_valid_user, UserView};
use crate::validation::{age_ok, email_shape_ok};
use vstd::prelude::*;

verus! {

/// The state of a new repository is well formed.
pub proof fn law_initial_state_is_wf()
    ensures
        RegistryState::initial().wf(),
{
}

/// Saving keeps the state well formed.
pub proof fn law_save_keeps_wf(state: RegistryState, user: UserView, now: Timestamp)
    requires
        state.wf(),
        state.has_free_id(),
    ensures
        state.after_save(user, now).wf(),
{
}

/// Updating keeps the state well formed.
pub proof fn law_update_keeps_wf(state: RegistryState, id: UserId, user: UserView, now: Timestamp)
    requires
        state.wf(),
    ensures
        state.after_update(id, user, now).wf(),
{
}

/// Deleting keeps the state well formed.
pub proof fn law_delete_keeps_wf(state: RegistryState, id: UserId)
    requires
        state.wf(),
    ensures
        state.after_delete(id).wf(),
{
}

/// Creating a user whose name and address are not blank, whose address has
/// the accepted shape and is not taken, and whose age, if given, is accepted,
/// succeeds. The new user gets the next identifier, which no stored user has
/// and which lies above every identifier handed out before.
pub proof fn law_create_succeeds(
    state: RegistryState,
    name: Seq<char>,
    email: Seq<char>,
    age: Option<u32>,
    roles: Seq<UserRole>,
    now: Timestamp,
)
    requires
        state.wf(),
        state.has_free_id(),
        !is_blank(name),
        !is_blank(email),
        email_shape_ok(email),
        age matches Some(years) ==> age_ok(years),
        !state.email_taken(email),
    ensures
        state.save_outcome(candidate(name, email, age, roles, now), now) matches Ok(stored) && {
            &&& stored.id == state.next_id
            &&& !state.users.contains_key(stored.id)
            &&& forall|id: UserId| #[trigger] state.users.contains_key(id) ==> id < stored.id
            &&& state.after_save(candidate(name, email, age, roles, now), now).next_id == stored.id
                + 1
        },
{
}

/// No operation ever lowers the next identifier: an identifier that was
/// handed out is never handed out again.
pub proof fn law_next_id_never_falls(
    state: RegistryState,
    id: UserId,
    user: UserView,
    now: Timestamp,
)
    requires
        state.has_free_id(),
    ensures
        state.after_save(user, now).next_id >= state.next_id,
        state.save_outcome(user, now) is Ok ==> state.after_save(user, now).next_id > state.next_id,
        state.after_update(id, user, now).next_id == state.next_id,
        state.after_delete(id).next_id == state.next_id,
{
}

/// Two users that are saved one after the other get different identifiers:
/// the second gets the one after the first.
pub proof fn law_saved_ids_differ(
    state: RegistryState,
    first: UserView,
    second: UserView,
    first_time: Timestamp,
    second_time: Timestamp,
)
    requires
        state.has_free_id(),
        state.save_outcome(first, first_time) is Ok,
        state.after_save(first, first_time).save_outcome(second, second_time) is Ok,
    ensures
        ({
            let one = state.save_outcome(first, first_time)->Ok_0;
            let two = state.after_save(first, first_time).save_outcome(second, second_time)->Ok_0;
            two.id == one.id + 1
        }),
{
}

/// Saving a user and then looking up the identifier that was returned finds
/// that user: equal to the one given but for the identifier and the two
/// timestamps.
pub proof fn law_save_then_find(state: RegistryState, user: UserView, now: Timestamp)
    requires
        state.wf(),
        state.has_free_id(),
        state.save_outcome(user, now) is Ok,
    ensures
        ({
            let stored = state.save_outcome(user, now)->Ok_0;
            &&& state.after_save(user, now).find(stored.id) == Some(stored)
            &&& stored == (UserView {
                id: stored.id,
                created_at: stored.created_at,
                updated_at: stored.updated_at,
                ..user
            })
            &&& stored.created_at == now
            &&& stored.updated_at == now
        }),
{
}

/// After a user was saved, saving a second valid user with the same address
/// fails with `DuplicateEmail`, and the repository stays as it was: it holds
/// as many users as before.
pub proof fn law_second_save_with_same_email_fails(
    state: RegistryState,
    first: UserView,
    second: UserView,
    first_time: Timestamp,
    second_time: Timestamp,
)
    requires
        state.wf(),
        state.has_free_id(),
        state.save_outcome(first, first_time) is Ok,
        is_valid_user(second),
        second.email == first.email,
    ensures
        ({
            let between = state.after_save(first, first_time);
            &&& between.save_outcome(second, second_time) == Err::<
                UserView,
                ValidationErrorView,
            >(ValidationErrorView::DuplicateEmail(second.email))
            &&& between.after_save(second, second_time) == between
            &&& between.after_save(second, second_time).users.dom().len()
                == between.users.dom().len()
        }),
{
    let between = state.after_save(first, first_time);
    let stored = state.save_outcome(first, first_time)->Ok_0;
    assert(between.users.contains_key(stored.id) && between.users[stored.id].email == second.email);
}

/// An update that succeeds keeps the identifier and the time of creation and
/// sets the time of the last change to the time of the update; where the
/// clock has not gone back, that is no earlier than before.
pub proof fn law_update_keeps_creation(
    state: RegistryState,
    id: UserId,
    patch: UserPatch,
    now: Timestamp,
)
    requires
        state.wf(),
        patch_outcome(state, id, patch, now) is Ok,
        now >= state.users[id].updated_at,
    ensures
        ({
            let stored = patch_outcome(state, id, patch, now)->Ok_0;
            &&& state.users.contains_key(id)
            &&& stored.id == id
            &&& stored.created_at == state.users[id].created_at
            &&& stored.updated_at == now
            &&& stored.updated_at >= state.users[id].updated_at
            &&& after_patch(state, id, patch, now).find(id) == Some(stored)
        }),
{
}

/// Deleting a stored user takes it out and frees its address: a valid user
/// with that address can be saved afterwards.
pub proof fn law_delete_frees_email(
    state: RegistryState,
    id: UserId,
    user: UserView,
    now: Timestamp,
)
    requires
        state.wf(),
        state.users.contains_key(id),
        is_valid_user(user),
        user.email == state.users[id].email,
    ensures
        state.after_delete(id).find(id) is None,
        !state.after_delete(id).email_taken(user.email),
        state.after_delete(id).save_outcome(user, now) is Ok,
        state.after_delete(id).users.dom().len() == state.users.dom().len() - 1,
{
    let after = state.after_delete(id);
    if after.email_taken(user.email) {
        let other = choose|other: UserId| #[trigger]
            after.users.contains_key(other) && after.users[other].email == user.email;
        assert(state.users.contains_key(other) && other != id);
    }
}

/// Deleting an identifier that is not stored changes nothing.
pub proof fn law_delete_absent_changes_nothing(state: RegistryState, id: UserId)
    requires
        !state.users.contains_key(id),
    ensures
        state.after_delete(id) == state,
{
}

/// The smaller of two numbers.
pub open spec fn smaller(a: int, b: int) -> int {
    if a <= b {
        a
    } else {
        b
    }
}

/// A page holds `limit` users, or as many as are left from its first
/// position on, or none.
pub proof fn law_page_len<A>(listing: Seq<A>, page: u32, limit: u32)
    ensures
        page_of(listing, page, limit).len() == smaller(
            limit as int,
            if listing.len() - page_start(page, limit) >= 0 {
                listing.len() - page_start(page, limit)
            } else {
                0
            },
        ),
{
    assert(page_start(page, limit) >= 0) by (nonlinear_arith)
        requires
            page_start(page, limit) == page * limit,
            page >= 0,
            limit >= 0,
    ;
}

/// The first `count` pages of `listing`, one after the other.
pub open spec fn pages_joined<A>(listing: Seq<A>, limit: u32, count: nat) -> Seq<A>
    decreases count,
{
    if count == 0 {
        Seq::empty()
    } else {
        pages_joined(listing, limit, (count - 1) as nat) + page_of(
            listing,
            (count - 1) as u32,
            limit,
        )
    }
}

/// The first `count` pages, one after the other, are the first
/// `count * limit` users of the listing, or all of them where it has fewer.
pub proof fn law_pages_join<A>(listing: Seq<A>, limit: u32, count: nat)
    requires
        limit > 0,
        count <= u32::MAX,
    ensures
        pages_joined(listing, limit, count) == listing.take(
            smaller(count * limit, listing.len() as int),
        ),
    decreases count,
{
    if count == 0 {
        assert(pages_joined(listing, limit, count) =~= listing.take(0));
    } else {
        let before = (count - 1) as nat;
        law_pages_join(listing, limit, before);
        assert(count * limit == before * limit + limit) by (nonlinear_arith)
            requires
                count == before + 1,
        ;
        assert(before * limit >= 0) by (nonlinear_arith)
            requires
                before >= 0,
                limit >= 0,
        ;
        assert(pages_joined(listing, limit, count) =~= listing.take(
            smaller(count * limit, listing.len() as int),
        ));
    }
}

/// With pages of `limit` users, `count` pages cover a listing of at most
/// `count * limit` users: joined, they are the listing.
pub proof fn law_pages_cover<A>(listing: Seq<A>, limit: u32, count: nat)
    requires
        limit > 0,
        count <= u32::MAX,
        count * limit >= listing.len(),
    ensures
        pages_joined(listing, limit, count) == listing,
{
    law_pages_join(listing, limit, count);
}

} // verus!

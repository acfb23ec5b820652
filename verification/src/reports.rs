//! Summaries over lists of users.

use crate::repository::views_of;
use crate::role::UserRole;
use crate::status::UserStatus;
use crate::user::{User, UserView};
use vstd::prelude::*;
use vstd::string::StringExecFns;

verus! {

/// The age from which a user counts as an adult.
pub const ADULT_AGE: u32 = 18;

/// The characters of each string of a list, in order.
pub open spec fn string_views(strings: Seq<String>) -> Seq<Seq<char>> {
    Seq::new(strings.len(), |i: int| strings[i]@)
}

/// A user is an active adult when its status is `Active` and its age is
/// known and at least [`ADULT_AGE`].
pub open spec fn is_active_adult(user: UserView) -> bool {
    user.status == UserStatus::Active && match user.age {
        Some(age) => age >= ADULT_AGE,
        None => false,
    }
}

/// The line that stands for a user: its name, then its address in brackets.
pub open spec fn summary_line(user: UserView) -> Seq<char> {
    user.name + " ("@ + user.email + ")"@
}

/// The lines of the active adults among `users`, in order.
pub open spec fn active_adult_lines(users: Seq<UserView>) -> Seq<Seq<char>> {
    users.filter(|user: UserView| is_active_adult(user)).map_values(
        |user: UserView| summary_line(user),
    )
}

/// The addresses of the administrators among `users`, in order.
pub open spec fn admin_emails(users: Seq<UserView>) -> Seq<Seq<char>> {
    users.filter(|user: UserView| user.roles.contains(UserRole::Admin)).map_values(
        |user: UserView| user.email,
    )
}

/// The users among `users` that have the role `role`, in order.
pub open spec fn having_role(users: Seq<UserView>, role: UserRole) -> Seq<UserView> {
    users.filter(|user: UserView| user.roles.contains(role))
}

/// One line for each active adult among `users`, in order.
pub fn process_user_data(users: Vec<User>) -> (lines: Vec<String>)
    ensures
        string_views(lines@) == active_adult_lines(views_of(users@)),
{
    let ghost given = views_of(users@);
    let ghost found = users@;
    let mut lines: Vec<String> = Vec::new();
    for user in it: users
        invariant
            it.seq() == found,
            given == views_of(found),
            string_views(lines@) == active_adult_lines(given.take(it.index())),
    {
        let ghost shorter = given.take(it.index());
        proof {
            assert(given.take(it.index() + 1) =~= shorter.push(user@));
            shorter.lemma_filter_push(user@, |user: UserView| is_active_adult(user));
        }
        let adult = match user.age {
            Some(age) => age >= ADULT_AGE,
            None => false,
        };
        if user.is_active() && adult {
            let mut line = user.name;
            line.append(" (");
            line.append(user.email.as_str());
            line.append(")");
            lines.push(line);
            proof {
                let chosen = shorter.filter(|user: UserView| is_active_adult(user));
                assert(chosen.push(user@).map_values(|user: UserView| summary_line(user))
                    =~= chosen.map_values(|user: UserView| summary_line(user)).push(
                    summary_line(user@),
                ));
            }
        }
    }
    proof {
        assert(given.take(given.len() as int) =~= given);
    }
    lines
}

/// The address of each administrator among `users`, in order.
pub fn get_admin_emails(users: &[User]) -> (emails: Vec<String>)
    ensures
        string_views(emails@) == admin_emails(views_of(users@)),
{
    let ghost given = views_of(users@);
    let mut emails: Vec<String> = Vec::new();
    let mut i: usize = 0;
    while i < users.len()
        invariant
            i <= users@.len(),
            given == views_of(users@),
            string_views(emails@) == admin_emails(given.take(i as int)),
        decreases users@.len() - i,
    {
        let ghost shorter = given.take(i as int);
        let user = &users[i];
        proof {
            assert(given.take(i + 1) =~= shorter.push(user@));
            shorter.lemma_filter_push(user@, |user: UserView| user.roles.contains(UserRole::Admin));
        }
        if user.is_admin() {
            emails.push(user.email.clone());
            proof {
                let chosen = shorter.filter(|user: UserView| user.roles.contains(UserRole::Admin));
                assert(chosen.push(user@).map_values(|user: UserView| user.email)
                    =~= chosen.map_values(|user: UserView| user.email).push(user@.email));
            }
        }
        i += 1;
    }
    proof {
        assert(given.take(given.len() as int) =~= given);
    }
    emails
}

/// Users sorted by role. A user stands in the group of each role it has; a
/// role that no user has, has no group.
#[derive(Debug, PartialEq)]
pub struct RoleGroups {
    admin: Vec<User>,
    user: Vec<User>,
    moderator: Vec<User>,
    guest: Vec<User>,
}

impl RoleGroups {
    /// The users that stand under `role`, in order; empty where the role has
    /// no group.
    pub closed spec fn members(&self, role: UserRole) -> Seq<UserView> {
        match role {
            UserRole::Admin => views_of(self.admin@),
            UserRole::User => views_of(self.user@),
            UserRole::Moderator => views_of(self.moderator@),
            UserRole::Guest => views_of(self.guest@),
        }
    }

    /// The group of `role`, if the role has one.
    pub fn get(&self, role: &UserRole) -> (group: Option<&Vec<User>>)
        ensures
            match group {
                Some(users) => self@.contains_key(*role) && views_of(users@) == self@[*role],
                None => !self@.contains_key(*role),
            },
    {
        let users = match role {
            UserRole::Admin => &self.admin,
            UserRole::User => &self.user,
            UserRole::Moderator => &self.moderator,
            UserRole::Guest => &self.guest,
        };
        if users.len() > 0 {
            Some(users)
        } else {
            None
        }
    }

    /// The number of groups.
    pub fn len(&self) -> (n: usize)
        ensures
            n == self@.dom().len(),
    {
        let mut n: usize = 0;
        let ghost mut counted: Set<UserRole> = Set::empty();
        if self.admin.len() > 0 {
            n += 1;
            proof {
                counted = counted.insert(UserRole::Admin);
            }
        }
        if self.user.len() > 0 {
            n += 1;
            proof {
                counted = counted.insert(UserRole::User);
            }
        }
        if self.moderator.len() > 0 {
            n += 1;
            proof {
                counted = counted.insert(UserRole::Moderator);
            }
        }
        if self.guest.len() > 0 {
            n += 1;
            proof {
                counted = counted.insert(UserRole::Guest);
            }
        }
        proof {
            assert(counted =~= self@.dom());
        }
        n
    }
}

impl View for RoleGroups {
    type V = Map<UserRole, Seq<UserView>>;

    closed spec fn view(&self) -> Map<UserRole, Seq<UserView>> {
        Map::new(|role: UserRole| self.members(role).len() > 0, |role: UserRole| self.members(role))
    }
}

/// Sorts `users` into one group for each role that some user has. Within a
/// group the users keep the order in which they came.
pub fn group_users_by_role(users: Vec<User>) -> (groups: RoleGroups)
    ensures
        forall|role: UserRole| #[trigger]
            groups@.contains_key(role) <==> having_role(views_of(users@), role).len() > 0,
        forall|role: UserRole| #[trigger]
            groups@.contains_key(role) ==> groups@[role] == having_role(views_of(users@), role),
{
    let ghost given = views_of(users@);
    let ghost found = users@;
    let mut groups = RoleGroups {
        admin: Vec::new(),
        user: Vec::new(),
        moderator: Vec::new(),
        guest: Vec::new(),
    };
    for user in it: users
        invariant
            it.seq() == found,
            given == views_of(found),
            forall|role: UserRole| #[trigger]
                groups.members(role) == having_role(given.take(it.index()), role),
    {
        let ghost shorter = given.take(it.index());
        let ghost before = groups;
        proof {
            assert(given.take(it.index() + 1) =~= shorter.push(user@));
            assert forall|role: UserRole|
                having_role(shorter.push(user@), role) == if user@.roles.contains(role) {
                    having_role(shorter, role).push(user@)
                } else {
                    having_role(shorter, role)
                } by {
                shorter.lemma_filter_push(user@, |user: UserView| user.roles.contains(role));
            }
        }
        if user.roles.contains(&UserRole::Admin) {
            groups.admin.push(user.clone());
        }
        if user.roles.contains(&UserRole::User) {
            groups.user.push(user.clone());
        }
        if user.roles.contains(&UserRole::Moderator) {
            groups.moderator.push(user.clone());
        }
        if user.roles.contains(&UserRole::Guest) {
            groups.guest.push(user.clone());
        }
        proof {
            assert forall|role: UserRole| #[trigger]
                groups.members(role) == having_role(given.take(it.index() + 1), role) by {
                assert(before.members(role) == having_role(shorter, role));
            }
        }
    }
    proof {
        assert(given.take(given.len() as int) =~= given);
    }
    groups
}

} // verus!

//! User roles and sets of roles.

use vstd::prelude::*;

verus! {

/// What a user may do. The roles are ranked by [`role_priority`].
#[derive(Debug, Clone, Copy, PartialEq, Eq, Hash, Structural)]
pub enum UserRole {
    Admin,
    User,
    Moderator,
    Guest,
}

/// The rank of a role: the higher, the more it may do.
pub open spec fn role_priority(role: UserRole) -> int {
    match role {
        UserRole::Admin => 4,
        UserRole::Moderator => 3,
        UserRole::User => 2,
        UserRole::Guest => 1,
    }
}

/// The name under which a role is shown.
pub open spec fn role_label(role: UserRole) -> Seq<char> {
    match role {
        UserRole::Admin => "admin"@,
        UserRole::User => "user"@,
        UserRole::Moderator => "moderator"@,
        UserRole::Guest => "guest"@,
    }
}

impl UserRole {
    /// The name under which the role is shown.
    pub fn as_str(&self) -> (label: &'static str)
        ensures
            label@ == role_label(*self),
    {
        match self {
            UserRole::Admin => "admin",
            UserRole::User => "user",
            UserRole::Moderator => "moderator",
            UserRole::Guest => "guest",
        }
    }

    /// The name under which the role is shown, as an owned string.
    pub fn to_string(&self) -> (label: String)
        ensures
            label@ == role_label(*self),
    {
        self.as_str().to_owned()
    }
}

/// The rank of `role`.
pub fn match_user_role(role: &UserRole) -> (priority: u8)
    ensures
        priority == role_priority(*role),
{
    match role {
        UserRole::Admin => 4,
        UserRole::Moderator => 3,
        UserRole::User => 2,
        UserRole::Guest => 1,
    }
}

/// A set of roles. Its view is the mathematical set of the roles it holds.
#[derive(Debug, Clone, Copy, PartialEq, Eq, Structural)]
pub struct RoleSet {
    admin: bool,
    user: bool,
    moderator: bool,
    guest: bool,
}

impl View for RoleSet {
    type V = Set<UserRole>;

    closed spec fn view(&self) -> Set<UserRole> {
        Set::new(
            |role: UserRole|
                match role {
                    UserRole::Admin => self.admin,
                    UserRole::User => self.user,
                    UserRole::Moderator => self.moderator,
                    UserRole::Guest => self.guest,
                },
        )
    }
}

impl RoleSet {
    /// The empty set.
    pub fn new() -> (out: Self)
        ensures
            out@ == Set::<UserRole>::empty(),
    {
        RoleSet { admin: false, user: false, moderator: false, guest: false }
    }

    /// The set that holds `role` and nothing else.
    pub fn single(role: UserRole) -> (out: Self)
        ensures
            out@ == Set::<UserRole>::empty().insert(role),
    {
        let mut out = RoleSet::new();
        out.insert(role);
        out
    }

    /// The set of the roles that occur in `roles`.
    pub fn from_roles(roles: &Vec<UserRole>) -> (out: Self)
        ensures
            out@ == roles@.to_set(),
    {
        let mut out = RoleSet::new();
        let mut i: usize = 0;
        while i < roles.len()
            invariant
                i <= roles.len(),
                forall|role: UserRole| out@.contains(role) <==> roles@.take(i as int).contains(role),
            decreases roles.len() - i,
        {
            let ghost before = out@;
            out.insert(roles[i]);
            proof {
                let now = roles@.take(i + 1);
                assert forall|role: UserRole| out@.contains(role) <==> now.contains(
                    role,
                ) by {
                    if role == roles@[i as int] {
                        assert(now[i as int] == role);
                    } else if before.contains(role) {
                        let j = choose|j: int|
                            0 <= j < i && roles@.take(i as int)[j] == role;
                        assert(now[j] == role);
                    }
                }
            }
            i += 1;
        }
        assert(roles@.take(i as int) =~= roles@);
        out
    }

    /// Whether `role` is in the set.
    pub fn contains(&self, role: &UserRole) -> (b: bool)
        ensures
            b == self@.contains(*role),
    {
        match role {
            UserRole::Admin => self.admin,
            UserRole::User => self.user,
            UserRole::Moderator => self.moderator,
            UserRole::Guest => self.guest,
        }
    }

    /// Adds `role`; returns whether it was absent before.
    pub fn insert(&mut self, role: UserRole) -> (added: bool)
        ensures
            final(self)@ == old(self)@.insert(role),
            added == !old(self)@.contains(role),
    {
        let added = !self.contains(&role);
        match role {
            UserRole::Admin => {
                self.admin = true;
            },
            UserRole::User => {
                self.user = true;
            },
            UserRole::Moderator => {
                self.moderator = true;
            },
            UserRole::Guest => {
                self.guest = true;
            },
        }
        added
    }

    /// Takes `role` out; returns whether it was present before.
    pub fn remove(&mut self, role: &UserRole) -> (removed: bool)
        ensures
            final(self)@ == old(self)@.remove(*role),
            removed == old(self)@.contains(*role),
    {
        let removed = self.contains(role);
        match role {
            UserRole::Admin => {
                self.admin = false;
            },
            UserRole::User => {
                self.user = false;
            },
            UserRole::Moderator => {
                self.moderator = false;
            },
            UserRole::Guest => {
                self.guest = false;
            },
        }
        removed
    }

    /// Whether the set holds no role.
    pub fn is_empty(&self) -> (b: bool)
        ensures
            b == (self@ == Set::<UserRole>::empty()),
    {
        let b = !self.admin && !self.user && !self.moderator && !self.guest;
        proof {
            if b {
                assert(self@ =~= Set::<UserRole>::empty());
            } else {
                assert(self@.contains(UserRole::Admin) || self@.contains(UserRole::User)
                    || self@.contains(UserRole::Moderator) || self@.contains(UserRole::Guest));
            }
        }
        b
    }

    /// The roles of the set, each once, from the highest rank down.
    pub fn to_vec(&self) -> (out: Vec<UserRole>)
        ensures
            out@.to_set() == self@,
            out@.no_duplicates(),
            forall|i: int, j: int|
                0 <= i < j < out@.len() ==> role_priority(out@[i]) > role_priority(out@[j]),
    {
        let mut out: Vec<UserRole> = Vec::new();
        if self.admin {
            out.push(UserRole::Admin);
        }
        if self.moderator {
            out.push(UserRole::Moderator);
        }
        if self.user {
            out.push(UserRole::User);
        }
        if self.guest {
            out.push(UserRole::Guest);
        }
        proof {
            assert forall|role: UserRole| out@.to_set().contains(role) <==> self@.contains(
                role,
            ) by {
                if self@.contains(role) {
                    let at_moderator: int = if self.admin { 1 } else { 0 };
                    let at_user: int = at_moderator + if self.moderator { 1int } else { 0 };
                    let at_guest: int = at_user + if self.user { 1int } else { 0 };
                    match role {
                        UserRole::Admin => assert(out@[0] == role),
                        UserRole::Moderator => assert(out@[at_moderator] == role),
                        UserRole::User => assert(out@[at_user] == role),
                        UserRole::Guest => assert(out@[at_guest] == role),
                    }
                }
            }
        }
        out
    }
}

} // verus!

//! Accounts and the role policy applied at registration.

use vstd::prelude::*;
use crate::text::{contains, contains_text};

verus! {

/// Privilege level of an account.
#[derive(Clone, Copy, Debug, PartialEq, Eq, Structural)]
pub enum Role {
    User,
    Admin,
}

/// The characters of `admin`.
pub open spec fn admin_marker() -> Seq<char> {
    seq!['a', 'd', 'm', 'i', 'n']
}

/// The role granted at registration: `Admin` exactly when the username holds
/// `admin` (case-sensitive) somewhere, `User` otherwise.
pub open spec fn role_policy(username: Seq<char>) -> Role {
    if contains(username, admin_marker()) {
        Role::Admin
    } else {
        Role::User
    }
}

/// The lower-case name of a role.
pub open spec fn role_name(r: Role) -> Seq<char> {
    match r {
        Role::User => seq!['u', 's', 'e', 'r'],
        Role::Admin => admin_marker(),
    }
}

impl Role {
    /// Applies the registration policy to `username`.
    pub fn for_username(username: &str) -> (r: Role)
        ensures
            r == role_policy(username@),
    {
        let marker = "admin";
        proof {
            reveal_strlit("admin");
            assert(marker@ =~= admin_marker());
        }
        if contains_text(username, marker) {
            Role::Admin
        } else {
            Role::User
        }
    }

    /// `"user"` or `"admin"`.
    pub fn name(&self) -> (r: String)
        ensures
            r@ == role_name(*self),
    {
        proof {
            reveal_strlit("user");
            reveal_strlit("admin");
        }
        match self {
            Role::User => {
                let r = String::from_str("user");
                proof { assert(r@ =~= role_name(*self)); }
                r
            },
            Role::Admin => {
                let r = String::from_str("admin");
                proof { assert(r@ =~= role_name(*self)); }
                r
            },
        }
    }

    /// The role whose name is `s`, if any.
    pub fn parse(s: &str) -> (r: Option<Role>)
        ensures
            r matches Some(role) ==> role_name(role) == s@,
            r is None ==> s@ != role_name(Role::User) && s@ != role_name(Role::Admin),
    {
        let user = String::from_str("user");
        let admin = String::from_str("admin");
        let given = String::from_str(s);
        proof {
            reveal_strlit("user");
            reveal_strlit("admin");
            assert(user@ =~= role_name(Role::User));
            assert(admin@ =~= role_name(Role::Admin));
        }
        if given == user {
            Some(Role::User)
        } else if given == admin {
            Some(Role::Admin)
        } else {
            None
        }
    }
}

/// A registered account.
pub struct Model {
    pub id: u64,
    pub username: String,
    pub password: String,
    pub full_name: String,
    pub role: Role,
    pub created_at: String,
}

impl Model {
    /// A field-by-field copy.
    pub fn duplicate(&self) -> (r: Model)
        ensures
            r == *self,
    {
        Model {
            id: self.id,
            username: self.username.clone(),
            password: self.password.clone(),
            full_name: self.full_name.clone(),
            role: self.role,
            created_at: self.created_at.clone(),
        }
    }
}

} // verus!

//! Entries of the audit trail.

use vstd::prelude::*;

verus! {

/// The kind of action an audit entry records.
#[derive(Clone, Copy, Debug, PartialEq, Eq, Structural)]
pub enum Action {
    Register,
    Login,
    CreateDoc,
    DeleteDoc,
    Comment,
}

/// The upper-case name under which an action is recorded.
pub open spec fn action_name(a: Action) -> Seq<char> {
    match a {
        Action::Register => seq!['R', 'E', 'G', 'I', 'S', 'T', 'E', 'R'],
        Action::Login => seq!['L', 'O', 'G', 'I', 'N'],
        Action::CreateDoc => seq!['C', 'R', 'E', 'A', 'T', 'E', '_', 'D', 'O', 'C'],
        Action::DeleteDoc => seq!['D', 'E', 'L', 'E', 'T', 'E', '_', 'D', 'O', 'C'],
        Action::Comment => seq!['C', 'O', 'M', 'M', 'E', 'N', 'T'],
    }
}

impl Action {
    /// The name under which the action is recorded, such as `CREATE_DOC`.
    pub fn name(&self) -> (r: String)
        ensures
            r@ == action_name(*self),
    {
        proof {
            reveal_strlit("REGISTER");
            reveal_strlit("LOGIN");
            reveal_strlit("CREATE_DOC");
            reveal_strlit("DELETE_DOC");
            reveal_strlit("COMMENT");
        }
        let r = match self {
            Action::Register => String::from_str("REGISTER"),
            Action::Login => String::from_str("LOGIN"),
            Action::CreateDoc => String::from_str("CREATE_DOC"),
            Action::DeleteDoc => String::from_str("DELETE_DOC"),
            Action::Comment => String::from_str("COMMENT"),
        };
        proof {
            assert(r@ =~= action_name(*self));
        }
        r
    }
}

/// One entry of the audit trail; never changed once appended.
pub struct Model {
    pub id: u64,
    pub username: String,
    pub action: Action,
    pub details: String,
    pub created_at: String,
}

impl Model {
    /// A field-by-field copy.
    pub fn duplicate(&self) -> (r: Model)
        ensures
            r == *self,
    {
        Model {
            id: self.id,
            username: self.username.clone(),
            action: self.action,
            details: self.details.clone(),
            created_at: self.created_at.clone(),
        }
    }
}

} // verus!

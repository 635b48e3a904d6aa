//! Comments attached to documents.

use vstd::prelude::*;

verus! {

/// A comment row. `doc_id` is not checked against the stored documents.
pub struct Model {
    pub id: u64,
    pub doc_id: u64,
    pub admin_name: String,
    pub text: String,
    pub created_at: String,
}

impl Model {
    /// A field-by-field copy.
    pub fn duplicate(&self) -> (r: Model)
        ensures
            r == *self,
    {
        Model {
            id: self.id,
            doc_id: self.doc_id,
            admin_name: self.admin_name.clone(),
            text: self.text.clone(),
            created_at: self.created_at.clone(),
        }
    }
}

} // verus!

//! Stored documents. The content field only ever holds ciphertext.

use vstd::prelude::*;

verus! {

/// A document row as persisted.
pub struct Model {
    pub id: u64,
    pub title: String,
    pub category: String,
    pub created_at: String,
    pub content_encrypted: String,
    pub owner_name: String,
}

impl Model {
    /// A field-by-field copy.
    pub fn duplicate(&self) -> (r: Model)
        ensures
            r == *self,
    {
        Model {
            id: self.id,
            title: self.title.clone(),
            category: self.category.clone(),
            created_at: self.created_at.clone(),
            content_encrypted: self.content_encrypted.clone(),
            owner_name: self.owner_name.clone(),
        }
    }
}

} // verus!

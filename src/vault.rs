//! The repository: accounts, encrypted documents, comments and the audit
//! trail, with the rules that tie them together.

use vstd::prelude::*;
use vstd::string::*;
use crate::audit;
use crate::audit::Action;
use crate::clock::{local_timestamp, minute_stamp};
use crate::comment;
use crate::document;
use crate::text::{clip, clip_details, decimal, labelled_number};
use crate::user;
use crate::user::{Role, role_policy};

verus! {

/// The kind of row an error refers to.
#[derive(Clone, Copy, Debug, PartialEq, Eq, Structural)]
pub enum Entity {
    User,
    Document,
    Comment,
}

/// Everything an operation of the repository can fail with.
#[derive(Clone, Copy, Debug, PartialEq, Eq, Structural)]
pub enum VaultError {
    DuplicateUser,
    InvalidCredentials,
    NotFound(Entity, u64),
    EncryptionFailure,
    DecryptionFailure,
    ValidationError,
    BackendUnavailable,
}

/// The repository's tables and the next identifier of each.
pub struct Vault {
    users: Vec<user::Model>,
    documents: Vec<document::Model>,
    comments: Vec<comment::Model>,
    audit: Vec<audit::Model>,
    next_user: u64,
    next_document: u64,
    next_comment: u64,
    next_audit: u64,
}

/// Whether `name` is the username of some account in `users`.
pub open spec fn username_taken(users: Seq<user::Model>, name: Seq<char>) -> bool {
    exists|i: int| 0 <= i < users.len() && users[i].username@ == name
}

/// `post` is `pre` with `e` appended, where `e` records `action` by `username`
/// with `details` clipped, under the identifier `id`.
pub open spec fn entry_appended(
    pre: Seq<audit::Model>,
    post: Seq<audit::Model>,
    id: u64,
    username: Seq<char>,
    action: Action,
    details: Seq<char>,
) -> bool {
    &&& post.len() == pre.len() + 1
    &&& post.subrange(0, pre.len() as int) == pre
    &&& post.last().id == id
    &&& post.last().username@ == username
    &&& post.last().action == action
    &&& post.last().details@ == clip(details)
}

/// A document as shown to readers, with its content decrypted.
pub struct Listed {
    pub id: u64,
    pub title: String,
    pub content: Result<String, VaultError>,
    pub author: String,
}

/// What row `k` of a listing shows, given the decrypted contents.
pub open spec fn listed_content(plaintexts: Seq<Option<String>>, k: int) -> Result<
    String,
    VaultError,
> {
    if k < plaintexts.len() && plaintexts[k] is Some {
        Ok(plaintexts[k]->Some_0)
    } else {
        Err(VaultError::DecryptionFailure)
    }
}

/// The newest `limit` entries of `log`, most recent first.
pub open spec fn recent_first(log: Seq<audit::Model>, limit: nat) -> Seq<audit::Model> {
    let count = if limit < log.len() { limit as int } else { log.len() as int };
    Seq::new(count as nat, |k: int| log[log.len() - 1 - k])
}

/// Row counts of the repository.
pub struct Stats {
    pub users: usize,
    pub documents: usize,
    pub audits: usize,
}

/// Document rows as shown to readers: `plaintexts[k]` is what decrypting
/// the ciphertext of `rows[k]` gave, `None` where it failed. A row without a
/// plaintext carries `DecryptionFailure`; the other rows are unaffected.
pub fn list_documents(rows: &Vec<document::Model>, plaintexts: &Vec<Option<String>>) -> (r: Vec<Listed>)
    ensures
        r@.len() == rows@.len(),
        forall|k: int| 0 <= k < r@.len() ==> #[trigger] r@[k].id == rows@[k].id
            && r@[k].title@ == rows@[k].title@
            && r@[k].author@ == rows@[k].owner_name@
            && r@[k].content == listed_content(plaintexts@, k),
{
    let mut r: Vec<Listed> = Vec::new();
    let mut i: usize = 0;
    while i < rows.len()
        invariant
            i <= rows@.len(),
            r@.len() == i,
            forall|k: int| 0 <= k < i ==> #[trigger] r@[k].id == rows@[k].id
                && r@[k].title@ == rows@[k].title@
                && r@[k].author@ == rows@[k].owner_name@
                && r@[k].content == listed_content(plaintexts@, k),
        decreases rows@.len() - i,
    {
        let content = if i < plaintexts.len() {
            match &plaintexts[i] {
                Some(p) => Ok(p.clone()),
                None => Err(VaultError::DecryptionFailure),
            }
        } else {
            Err(VaultError::DecryptionFailure)
        };
        let d = &rows[i];
        r.push(Listed { id: d.id, title: d.title.clone(), content, author: d.owner_name.clone() });
        i = i + 1;
    }
    r
}

impl Vault {
    /// The accounts, in order of registration.
    pub closed spec fn users(&self) -> Seq<user::Model> {
        self.users@
    }

    /// The documents, in order of creation.
    pub closed spec fn documents(&self) -> Seq<document::Model> {
        self.documents@
    }

    /// The comments, in order of creation.
    pub closed spec fn comments(&self) -> Seq<comment::Model> {
        self.comments@
    }

    /// The audit trail, oldest entry first.
    pub closed spec fn audit_log(&self) -> Seq<audit::Model> {
        self.audit@
    }

    /// The identifier the next account will get.
    pub closed spec fn next_user_id(&self) -> u64 {
        self.next_user
    }

    /// The identifier the next document will get.
    pub closed spec fn next_document_id(&self) -> u64 {
        self.next_document
    }

    /// The identifier the next comment will get.
    pub closed spec fn next_comment_id(&self) -> u64 {
        self.next_comment
    }

    /// The identifier the next audit entry will get.
    pub closed spec fn next_audit_id(&self) -> u64 {
        self.next_audit
    }

    /// Identifiers ascend in each table and stay below the next one to be
    /// given out; usernames are unique.
    pub closed spec fn wf(&self) -> bool {
        &&& forall|i: int, j: int| 0 <= i < j < self.users@.len()
            ==> self.users@[i].id < self.users@[j].id
        &&& forall|i: int| 0 <= i < self.users@.len() ==> self.users@[i].id < self.next_user
        &&& forall|i: int, j: int| 0 <= i < j < self.documents@.len()
            ==> self.documents@[i].id < self.documents@[j].id
        &&& forall|i: int| 0 <= i < self.documents@.len()
            ==> self.documents@[i].id < self.next_document
        &&& forall|i: int, j: int| 0 <= i < j < self.comments@.len()
            ==> self.comments@[i].id < self.comments@[j].id
        &&& forall|i: int| 0 <= i < self.comments@.len()
            ==> self.comments@[i].id < self.next_comment
        &&& forall|i: int, j: int| 0 <= i < j < self.audit@.len()
            ==> self.audit@[i].id < self.audit@[j].id
        &&& forall|i: int| 0 <= i < self.audit@.len() ==> self.audit@[i].id < self.next_audit
        &&& forall|i: int, j: int| 0 <= i < self.users@.len() && 0 <= j < self.users@.len()
            && i != j ==> self.users@[i].username@ != self.users@[j].username@
    }

    /// `post` differs from `pre` only in that one entry recording `action` by
    /// `username` was appended to the audit trail; when no identifier is left
    /// for it, nothing changed (the entry is best-effort).
    pub open spec fn logged(
        pre: &Vault,
        post: &Vault,
        username: Seq<char>,
        action: Action,
        details: Seq<char>,
    ) -> bool {
        &&& post.users() == pre.users()
        &&& post.documents() == pre.documents()
        &&& post.comments() == pre.comments()
        &&& post.next_user_id() == pre.next_user_id()
        &&& post.next_document_id() == pre.next_document_id()
        &&& post.next_comment_id() == pre.next_comment_id()
        &&& if pre.next_audit_id() < u64::MAX {
            &&& entry_appended(
                pre.audit_log(),
                post.audit_log(),
                pre.next_audit_id(),
                username,
                action,
                details,
            )
            &&& post.next_audit_id() == pre.next_audit_id() + 1
        } else {
            post.audit_log() == pre.audit_log() && post.next_audit_id() == pre.next_audit_id()
        }
    }

    /// Every entry of `pre`'s audit trail is still in `post`'s, unchanged and
    /// at the same position.
    pub open spec fn audit_kept(pre: &Vault, post: &Vault) -> bool {
        &&& pre.audit_log().len() <= post.audit_log().len()
        &&& post.audit_log().subrange(0, pre.audit_log().len() as int) =~= pre.audit_log()
    }

    /// An empty repository.
    pub fn new() -> (r: Vault)
        ensures
            r.wf(),
            r.users().len() == 0,
            r.documents().len() == 0,
            r.comments().len() == 0,
            r.audit_log().len() == 0,
            r.next_user_id() == 1,
            r.next_document_id() == 1,
            r.next_comment_id() == 1,
            r.next_audit_id() == 1,
    {
        Vault {
            users: Vec::new(),
            documents: Vec::new(),
            comments: Vec::new(),
            audit: Vec::new(),
            next_user: 1,
            next_document: 1,
            next_comment: 1,
            next_audit: 1,
        }
    }

    /// Appends an entry to the audit trail, clipping `details`; skipped when
    /// no identifier is left.
    pub fn log_audit(&mut self, username: &str, action: Action, details: &str)
        requires
            old(self).wf(),
        ensures
            final(self).wf(),
            Vault::audit_kept(old(self), final(self)),
            Vault::logged(old(self), final(self), username@, action, details@),
    {
        if self.next_audit == u64::MAX {
            return;
        }
        let entry = audit::Model {
            id: self.next_audit,
            username: String::from_str(username),
            action,
            details: clip_details(details),
            created_at: local_timestamp(),
        };
        self.audit.push(entry);
        self.next_audit = self.next_audit + 1;
        proof {
            assert(self.audit@.subrange(0, old(self).audit@.len() as int) =~= old(self).audit@);
        }
    }

    /// The outcome of `register`: refused for a taken username or when no
    /// identifier is left (nothing changes then); otherwise the account is
    /// appended with the role of `role_policy` and a `REGISTER` entry logged.
    pub open spec fn register_post(
        pre: &Vault,
        post: &Vault,
        username: Seq<char>,
        password: Seq<char>,
        full_name: Seq<char>,
        r: Result<Role, VaultError>,
    ) -> bool {
        if username_taken(pre.users(), username) {
            r == Err::<Role, VaultError>(VaultError::DuplicateUser) && *post == *pre
        } else if pre.next_user_id() == u64::MAX {
            r == Err::<Role, VaultError>(VaultError::BackendUnavailable) && *post == *pre
        } else {
            exists|mid: Vault| {
                &&& mid.users().len() == pre.users().len() + 1
                &&& mid.users().subrange(0, pre.users().len() as int) == pre.users()
                &&& mid.users().last().id == pre.next_user_id()
                &&& mid.users().last().username@ == username
                &&& mid.users().last().password@ == password
                &&& mid.users().last().full_name@ == full_name
                &&& mid.users().last().role == role_policy(username)
                &&& mid.next_user_id() == pre.next_user_id() + 1
                &&& mid.documents() == pre.documents()
                &&& mid.comments() == pre.comments()
                &&& mid.audit_log() == pre.audit_log()
                &&& mid.next_document_id() == pre.next_document_id()
                &&& mid.next_comment_id() == pre.next_comment_id()
                &&& mid.next_audit_id() == pre.next_audit_id()
                &&& Vault::logged(&mid, post, username, Action::Register, "New user registered"@)
            } && r == Ok::<Role, VaultError>(role_policy(username))
        }
    }

    /// Index of the account named `name`, if any.
    fn find_username(&self, name: &String) -> (r: Option<usize>)
        ensures
            r matches Some(i) ==> i < self.users@.len() && self.users@[i as int].username@
                == name@,
            r is None ==> !username_taken(self.users(), name@),
    {
        let mut i: usize = 0;
        while i < self.users.len()
            invariant
                i <= self.users@.len(),
                forall|k: int| 0 <= k < i ==> self.users@[k].username@ != name@,
            decreases self.users@.len() - i,
        {
            if self.users[i].username == *name {
                return Some(i);
            }
            i = i + 1;
        }
        None
    }

    /// Creates an account whose role follows `role_policy`, and logs it.
    pub fn register(&mut self, username: String, password: String, full_name: String) -> (r:
        Result<Role, VaultError>)
        requires
            old(self).wf(),
        ensures
            final(self).wf(),
            Vault::audit_kept(old(self), final(self)),
            Vault::register_post(old(self), final(self), username@, password@, full_name@, r),
    {
        if self.find_username(&username).is_some() {
            return Err(VaultError::DuplicateUser);
        }
        if self.next_user == u64::MAX {
            return Err(VaultError::BackendUnavailable);
        }
        let role = Role::for_username(username.as_str());
        let account = user::Model {
            id: self.next_user,
            username: username.clone(),
            password,
            full_name,
            role,
            created_at: local_timestamp(),
        };
        self.users.push(account);
        self.next_user = self.next_user + 1;
        proof {
            assert(self.users@.subrange(0, old(self).users@.len() as int) =~= old(self).users@);
        }
        let ghost mid = *self;
        self.log_audit(username.as_str(), Action::Register, "New user registered");
        proof {
            assert(Vault::logged(&mid, self, username@, Action::Register, "New user registered"@));
        }
        Ok(role)
    }

    /// The outcome of `login`: the matching account, with a `LOGIN` entry
    /// logged, exactly when some account has both `username` and `password`;
    /// otherwise `InvalidCredentials` and nothing changes.
    pub open spec fn login_post(
        pre: &Vault,
        post: &Vault,
        username: Seq<char>,
        password: Seq<char>,
        r: Result<user::Model, VaultError>,
    ) -> bool {
        match r {
            Ok(u) => {
                &&& exists|i: int| 0 <= i < pre.users().len() && pre.users()[i] == u
                &&& u.username@ == username
                &&& u.password@ == password
                &&& Vault::logged(pre, post, username, Action::Login, "Login successful"@)
            },
            Err(e) => {
                &&& e == VaultError::InvalidCredentials
                &&& *post == *pre
                &&& !exists|i: int| 0 <= i < pre.users().len()
                    && pre.users()[i].username@ == username
                    && pre.users()[i].password@ == password
            },
        }
    }

    /// Checks a username and password; on success logs the login and
    /// returns the account.
    pub fn login(&mut self, username: String, password: String) -> (r: Result<
        user::Model,
        VaultError,
    >)
        requires
            old(self).wf(),
        ensures
            final(self).wf(),
            Vault::audit_kept(old(self), final(self)),
            Vault::login_post(old(self), final(self), username@, password@, r),
    {
        match self.find_username(&username) {
            None => Err(VaultError::InvalidCredentials),
            Some(i) => {
                if self.users[i].password == password {
                    let u = self.users[i].duplicate();
                    self.log_audit(username.as_str(), Action::Login, "Login successful");
                    Ok(u)
                } else {
                    proof {
                        assert forall|k: int| 0 <= k < self.users@.len()
                            && self.users@[k].username@ == username@
                            implies self.users@[k].password@ != password@ by {
                            if k != i {
                                assert(self.users@[k].username@ != self.users@[i as int].username@);
                            }
                        }
                    }
                    Err(VaultError::InvalidCredentials)
                }
            },
        }
    }

    /// The outcome of `create_document`: `EncryptionFailure` when no
    /// ciphertext came, `BackendUnavailable` when no identifier is left
    /// (nothing changes in either case); otherwise the document is appended
    /// holding exactly the ciphertext, and a `CREATE_DOC` entry naming its
    /// identifier is logged after it.
    pub open spec fn create_document_post(
        pre: &Vault,
        post: &Vault,
        title: Seq<char>,
        ciphertext: Option<String>,
        owner: Seq<char>,
        r: Result<u64, VaultError>,
    ) -> bool {
        match ciphertext {
            None => r == Err::<u64, VaultError>(VaultError::EncryptionFailure) && *post == *pre,
            Some(c) => if pre.next_document_id() == u64::MAX {
                r == Err::<u64, VaultError>(VaultError::BackendUnavailable) && *post == *pre
            } else {
                &&& r == Ok::<u64, VaultError>(pre.next_document_id())
                &&& exists|mid: Vault| {
                    &&& mid.documents().len() == pre.documents().len() + 1
                    &&& mid.documents().subrange(0, pre.documents().len() as int)
                        == pre.documents()
                    &&& mid.documents().last().id == pre.next_document_id()
                    &&& mid.documents().last().title@ == title
                    &&& mid.documents().last().category@.len() == 0
                    &&& mid.documents().last().content_encrypted == c
                    &&& mid.documents().last().owner_name@ == owner
                    &&& mid.next_document_id() == pre.next_document_id() + 1
                    &&& mid.users() == pre.users()
                    &&& mid.comments() == pre.comments()
                    &&& mid.audit_log() == pre.audit_log()
                    &&& mid.next_user_id() == pre.next_user_id()
                    &&& mid.next_comment_id() == pre.next_comment_id()
                    &&& mid.next_audit_id() == pre.next_audit_id()
                    &&& Vault::logged(
                        &mid,
                        post,
                        owner,
                        Action::CreateDoc,
                        "ID: "@ + decimal(pre.next_document_id() as nat),
                    )
                }
            },
        }
    }

    /// Stores a document whose content was encrypted by the caller
    /// (`None` when encryption failed), then logs its creation.
    pub fn create_document(&mut self, title: String, ciphertext: Option<String>, owner: String) -> (r:
        Result<u64, VaultError>)
        requires
            old(self).wf(),
        ensures
            final(self).wf(),
            Vault::audit_kept(old(self), final(self)),
            Vault::create_document_post(old(self), final(self), title@, ciphertext, owner@, r),
    {
        let content = match ciphertext {
            None => return Err(VaultError::EncryptionFailure),
            Some(c) => c,
        };
        if self.next_document == u64::MAX {
            return Err(VaultError::BackendUnavailable);
        }
        let id = self.next_document;
        let doc = document::Model {
            id,
            title,
            category: String::new(),
            created_at: local_timestamp(),
            content_encrypted: content,
            owner_name: owner.clone(),
        };
        self.documents.push(doc);
        self.next_document = id + 1;
        proof {
            assert(self.documents@.subrange(0, old(self).documents@.len() as int)
                =~= old(self).documents@);
        }
        let ghost mid = *self;
        let details = labelled_number("ID: ", id);
        self.log_audit(owner.as_str(), Action::CreateDoc, details.as_str());
        proof {
            assert(Vault::logged(&mid, self, owner@, Action::CreateDoc, details@));
        }
        Ok(id)
    }

    /// A copy of every document row, oldest first, as persisted: the
    /// content field holds ciphertext.
    pub fn document_rows(&self) -> (r: Vec<document::Model>)
        ensures
            r@ == self.documents(),
    {
        let mut r: Vec<document::Model> = Vec::new();
        let mut i: usize = 0;
        while i < self.documents.len()
            invariant
                i <= self.documents@.len(),
                r@ == self.documents@.subrange(0, i as int),
            decreases self.documents@.len() - i,
        {
            r.push(self.documents[i].duplicate());
            proof {
                assert(self.documents@.subrange(0, i + 1) =~= self.documents@.subrange(
                    0,
                    i as int,
                ).push(self.documents@[i as int]));
            }
            i = i + 1;
        }
        proof {
            assert(self.documents@.subrange(0, i as int) =~= self.documents@);
        }
        r
    }

    /// Index of the document with identifier `id`, if any.
    fn find_document(&self, id: u64) -> (r: Option<usize>)
        ensures
            r matches Some(i) ==> i < self.documents@.len() && self.documents@[i as int].id == id,
            r is None ==> forall|k: int| 0 <= k < self.documents@.len()
                ==> self.documents@[k].id != id,
    {
        let mut i: usize = 0;
        while i < self.documents.len()
            invariant
                i <= self.documents@.len(),
                forall|k: int| 0 <= k < i ==> self.documents@[k].id != id,
            decreases self.documents@.len() - i,
        {
            if self.documents[i].id == id {
                return Some(i);
            }
            i = i + 1;
        }
        None
    }

    /// The outcome of `delete_document`: the row with identifier `id` is
    /// removed if there is one (`r` says whether), and a `DELETE_DOC` entry
    /// naming `id` is logged either way.
    pub open spec fn delete_document_post(
        pre: &Vault,
        post: &Vault,
        id: u64,
        actor: Seq<char>,
        r: bool,
    ) -> bool {
        &&& r == exists|i: int| 0 <= i < pre.documents().len() && pre.documents()[i].id == id
        &&& exists|mid: Vault| {
            &&& (if r {
                exists|i: int| 0 <= i < pre.documents().len() && pre.documents()[i].id == id
                    && mid.documents() == pre.documents().remove(i)
            } else {
                mid.documents() == pre.documents()
            })
            &&& mid.users() == pre.users()
            &&& mid.comments() == pre.comments()
            &&& mid.audit_log() == pre.audit_log()
            &&& mid.next_user_id() == pre.next_user_id()
            &&& mid.next_document_id() == pre.next_document_id()
            &&& mid.next_comment_id() == pre.next_comment_id()
            &&& mid.next_audit_id() == pre.next_audit_id()
            &&& Vault::logged(&mid, post, actor, Action::DeleteDoc, "ID: "@ + decimal(id as nat))
        }
    }

    /// Removes the document `id` if present and logs the attempt; deleting
    /// a missing document is not an error.
    pub fn delete_document(&mut self, id: u64, actor: String) -> (r: bool)
        requires
            old(self).wf(),
        ensures
            final(self).wf(),
            Vault::audit_kept(old(self), final(self)),
            Vault::delete_document_post(old(self), final(self), id, actor@, r),
    {
        let pos = self.find_document(id);
        let found = pos.is_some();
        if let Some(i) = pos {
            self.documents.remove(i);
            proof {
                let pre = old(self).documents@;
                assert forall|a: int, b: int| 0 <= a < b < self.documents@.len()
                    implies self.documents@[a].id < self.documents@[b].id by {
                    if a >= i {
                        assert(self.documents@[a] == pre[a + 1]);
                    }
                    if b >= i {
                        assert(self.documents@[b] == pre[b + 1]);
                    }
                }
                assert forall|a: int| 0 <= a < self.documents@.len()
                    implies self.documents@[a].id < self.next_document by {
                    if a >= i {
                        assert(self.documents@[a] == pre[a + 1]);
                    }
                }
            }
        }
        let ghost mid = *self;
        let details = labelled_number("ID: ", id);
        self.log_audit(actor.as_str(), Action::DeleteDoc, details.as_str());
        proof {
            assert(Vault::logged(&mid, self, actor@, Action::DeleteDoc, details@));
            match pos {
                Some(i) => {
                    assert(old(self).documents()[i as int].id == id);
                    assert(mid.documents() == old(self).documents().remove(i as int));
                },
                None => {},
            }
        }
        found
    }

    /// Index of the account with identifier `id`, if any.
    fn find_user(&self, id: u64) -> (r: Option<usize>)
        ensures
            r matches Some(i) ==> i < self.users@.len() && self.users@[i as int].id == id,
            r is None ==> forall|k: int| 0 <= k < self.users@.len() ==> self.users@[k].id != id,
    {
        let mut i: usize = 0;
        while i < self.users.len()
            invariant
                i <= self.users@.len(),
                forall|k: int| 0 <= k < i ==> self.users@[k].id != id,
            decreases self.users@.len() - i,
        {
            if self.users[i].id == id {
                return Some(i);
            }
            i = i + 1;
        }
        None
    }

    /// Every account, in order of registration.
    pub fn list_users(&self) -> (r: Vec<user::Model>)
        ensures
            r@ == self.users(),
    {
        let mut r: Vec<user::Model> = Vec::new();
        let mut i: usize = 0;
        while i < self.users.len()
            invariant
                i <= self.users@.len(),
                r@ == self.users@.subrange(0, i as int),
            decreases self.users@.len() - i,
        {
            r.push(self.users[i].duplicate());
            proof {
                assert(self.users@.subrange(0, i + 1) =~= self.users@.subrange(0, i as int).push(
                    self.users@[i as int],
                ));
            }
            i = i + 1;
        }
        proof {
            assert(self.users@.subrange(0, i as int) =~= self.users@);
        }
        r
    }

    /// Removes the account `id` if present; `r` says whether one was there.
    /// Deleting a missing account changes nothing.
    pub fn delete_user(&mut self, id: u64) -> (r: bool)
        requires
            old(self).wf(),
        ensures
            final(self).wf(),
            Vault::audit_kept(old(self), final(self)),
            r == exists|i: int| 0 <= i < old(self).users().len() && old(self).users()[i].id == id,
            r ==> exists|i: int| 0 <= i < old(self).users().len() && old(self).users()[i].id == id
                && final(self).users() == old(self).users().remove(i),
            !r ==> *final(self) == *old(self),
            final(self).documents() == old(self).documents(),
            final(self).comments() == old(self).comments(),
            final(self).audit_log() == old(self).audit_log(),
            final(self).next_user_id() == old(self).next_user_id(),
            final(self).next_document_id() == old(self).next_document_id(),
            final(self).next_comment_id() == old(self).next_comment_id(),
            final(self).next_audit_id() == old(self).next_audit_id(),
    {
        match self.find_user(id) {
            None => false,
            Some(i) => {
                self.users.remove(i);
                proof {
                    let pre = old(self).users@;
                    assert forall|a: int| 0 <= a < self.users@.len() implies #[trigger] self.users@[a]
                        == if a < i { pre[a] } else { pre[a + 1] } by {}
                    assert(old(self).users()[i as int].id == id);
                }
                true
            },
        }
    }

    /// The outcome of `update_user`: `NotFound` when no account has `id`,
    /// `ValidationError` when `role` names no role, `DuplicateUser` when
    /// another account already has `username` (nothing changes in these
    /// cases); otherwise the account's full name, username and role are
    /// replaced in place and the updated account is returned.
    pub open spec fn update_user_post(
        pre: &Vault,
        post: &Vault,
        id: u64,
        full_name: Seq<char>,
        username: Seq<char>,
        role: Seq<char>,
        r: Result<user::Model, VaultError>,
    ) -> bool {
        if !exists|i: int| 0 <= i < pre.users().len() && pre.users()[i].id == id {
            r == Err::<user::Model, VaultError>(VaultError::NotFound(Entity::User, id))
                && *post == *pre
        } else if role != user::role_name(Role::User) && role != user::role_name(Role::Admin) {
            r == Err::<user::Model, VaultError>(VaultError::ValidationError) && *post == *pre
        } else if exists|j: int| 0 <= j < pre.users().len() && pre.users()[j].id != id
            && pre.users()[j].username@ == username {
            r == Err::<user::Model, VaultError>(VaultError::DuplicateUser) && *post == *pre
        } else {
            exists|i: int, u: user::Model| {
                &&& 0 <= i < pre.users().len()
                &&& pre.users()[i].id == id
                &&& r == Ok::<user::Model, VaultError>(u)
                &&& u.id == id
                &&& u.full_name@ == full_name
                &&& u.username@ == username
                &&& user::role_name(u.role) == role
                &&& u.password == pre.users()[i].password
                &&& u.created_at == pre.users()[i].created_at
                &&& post.users() == pre.users().update(i, u)
                &&& post.documents() == pre.documents()
                &&& post.comments() == pre.comments()
                &&& post.audit_log() == pre.audit_log()
                &&& post.next_user_id() == pre.next_user_id()
                &&& post.next_document_id() == pre.next_document_id()
                &&& post.next_comment_id() == pre.next_comment_id()
                &&& post.next_audit_id() == pre.next_audit_id()
            }
        }
    }

    /// Replaces the full name, username and role of the account `id`.
    pub fn update_user(&mut self, id: u64, full_name: String, username: String, role: &str) -> (r:
        Result<user::Model, VaultError>)
        requires
            old(self).wf(),
        ensures
            final(self).wf(),
            Vault::audit_kept(old(self), final(self)),
            Vault::update_user_post(old(self), final(self), id, full_name@, username@, role@, r),
    {
        let i = match self.find_user(id) {
            None => return Err(VaultError::NotFound(Entity::User, id)),
            Some(i) => i,
        };
        let new_role = match Role::parse(role) {
            None => return Err(VaultError::ValidationError),
            Some(x) => x,
        };
        let holder = self.find_username(&username);
        match holder {
            Some(j) => {
                if self.users[j].id != id {
                    return Err(VaultError::DuplicateUser);
                }
            },
            None => {},
        }
        proof {
            assert forall|k: int| 0 <= k < self.users@.len() && self.users@[k].username@
                == username@ implies self.users@[k].id == id by {
                if let Some(j) = holder {
                    if k != j {
                        assert(self.users@[k].username@ != self.users@[j as int].username@);
                    }
                }
            }
        }
        let u = user::Model {
            id,
            username,
            password: self.users[i].password.clone(),
            full_name,
            role: new_role,
            created_at: self.users[i].created_at.clone(),
        };
        let out = u.duplicate();
        self.users.set(i, u);
        proof {
            assert(self.users@ == old(self).users@.update(i as int, out));
        }
        Ok(out)
    }

    /// The outcome of `add_comment`: `BackendUnavailable` when no identifier
    /// is left (nothing changes); otherwise the comment is appended, whether
    /// or not a document `doc_id` exists, and a `COMMENT` entry naming the
    /// document is logged after it.
    pub open spec fn add_comment_post(
        pre: &Vault,
        post: &Vault,
        doc_id: u64,
        text: Seq<char>,
        author: Seq<char>,
        r: Result<u64, VaultError>,
    ) -> bool {
        if pre.next_comment_id() == u64::MAX {
            r == Err::<u64, VaultError>(VaultError::BackendUnavailable) && *post == *pre
        } else {
            &&& r == Ok::<u64, VaultError>(pre.next_comment_id())
            &&& exists|mid: Vault| {
                &&& mid.comments().len() == pre.comments().len() + 1
                &&& mid.comments().subrange(0, pre.comments().len() as int) == pre.comments()
                &&& mid.comments().last().id == pre.next_comment_id()
                &&& mid.comments().last().doc_id == doc_id
                &&& mid.comments().last().text@ == text
                &&& mid.comments().last().admin_name@ == author
                &&& mid.next_comment_id() == pre.next_comment_id() + 1
                &&& mid.users() == pre.users()
                &&& mid.documents() == pre.documents()
                &&& mid.audit_log() == pre.audit_log()
                &&& mid.next_user_id() == pre.next_user_id()
                &&& mid.next_document_id() == pre.next_document_id()
                &&& mid.next_audit_id() == pre.next_audit_id()
                &&& Vault::logged(
                    &mid,
                    post,
                    author,
                    Action::Comment,
                    "Doc: "@ + decimal(doc_id as nat),
                )
            }
        }
    }

    /// Attaches a comment to the document `doc_id` and logs it.
    pub fn add_comment(&mut self, doc_id: u64, text: String, author: String) -> (r: Result<
        u64,
        VaultError,
    >)
        requires
            old(self).wf(),
        ensures
            final(self).wf(),
            Vault::audit_kept(old(self), final(self)),
            Vault::add_comment_post(old(self), final(self), doc_id, text@, author@, r),
    {
        if self.next_comment == u64::MAX {
            return Err(VaultError::BackendUnavailable);
        }
        let id = self.next_comment;
        let c = comment::Model {
            id,
            doc_id,
            admin_name: author.clone(),
            text,
            created_at: minute_stamp(local_timestamp()),
        };
        self.comments.push(c);
        self.next_comment = id + 1;
        proof {
            assert(self.comments@.subrange(0, old(self).comments@.len() as int)
                =~= old(self).comments@);
        }
        let ghost mid = *self;
        let details = labelled_number("Doc: ", doc_id);
        self.log_audit(author.as_str(), Action::Comment, details.as_str());
        proof {
            assert(Vault::logged(&mid, self, author@, Action::Comment, details@));
        }
        Ok(id)
    }

    /// The comments on document `doc_id`, oldest first.
    pub fn list_comments(&self, doc_id: u64) -> (r: Vec<comment::Model>)
        ensures
            r@ == self.comments().filter(|c: comment::Model| c.doc_id == doc_id),
    {
        let ghost pred = |c: comment::Model| c.doc_id == doc_id;
        let mut r: Vec<comment::Model> = Vec::new();
        let mut i: usize = 0;
        while i < self.comments.len()
            invariant
                i <= self.comments@.len(),
                pred == (|c: comment::Model| c.doc_id == doc_id),
                r@ == self.comments@.subrange(0, i as int).filter(pred),
            decreases self.comments@.len() - i,
        {
            proof {
                let next = self.comments@.subrange(0, i + 1);
                assert(next.drop_last() =~= self.comments@.subrange(0, i as int));
                assert(next.last() == self.comments@[i as int]);
                reveal(Seq::filter);
            }
            if self.comments[i].doc_id == doc_id {
                r.push(self.comments[i].duplicate());
            }
            i = i + 1;
        }
        proof {
            assert(self.comments@.subrange(0, i as int) =~= self.comments@);
        }
        r
    }

    /// At most `limit` audit entries, most recent first.
    pub fn list_audit(&self, limit: usize) -> (r: Vec<audit::Model>)
        ensures
            r@ == recent_first(self.audit_log(), limit as nat),
    {
        let n = self.audit.len();
        let count = if limit < n { limit } else { n };
        let mut r: Vec<audit::Model> = Vec::new();
        let mut k: usize = 0;
        while k < count
            invariant
                n == self.audit@.len(),
                count <= n,
                count == if limit < n { limit } else { n },
                k <= count,
                r@ =~= recent_first(self.audit@, limit as nat).subrange(0, k as int),
            decreases count - k,
        {
            r.push(self.audit[n - 1 - k].duplicate());
            k = k + 1;
        }
        proof {
            assert(recent_first(self.audit@, limit as nat).subrange(0, k as int)
                =~= recent_first(self.audit@, limit as nat));
        }
        r
    }

    /// The number of accounts, documents and audit entries.
    pub fn stats(&self) -> (r: Stats)
        ensures
            r.users == self.users().len(),
            r.documents == self.documents().len(),
            r.audits == self.audit_log().len(),
    {
        Stats { users: self.users.len(), documents: self.documents.len(), audits: self.audit.len() }
    }
}

} // verus!

//! Properties that relate several operations of the repository, proved
//! from the operations' own contracts.

use vstd::prelude::*;
use crate::audit::Action;
use crate::text::clip;
use crate::user::Role;
use crate::vault::{Vault, VaultError, recent_first, username_taken};

verus! {

/// Registering the same username a second time is refused with
/// `DuplicateUser` and changes nothing, unless the first attempt found no
/// identifier left.
pub proof fn lemma_second_registration_refused(
    v0: Vault,
    v1: Vault,
    v2: Vault,
    username: Seq<char>,
    password1: Seq<char>,
    full_name1: Seq<char>,
    password2: Seq<char>,
    full_name2: Seq<char>,
    r1: Result<Role, VaultError>,
    r2: Result<Role, VaultError>,
)
    requires
        Vault::register_post(&v0, &v1, username, password1, full_name1, r1),
        Vault::register_post(&v1, &v2, username, password2, full_name2, r2),
        r1 != Err::<Role, VaultError>(VaultError::BackendUnavailable),
    ensures
        r2 == Err::<Role, VaultError>(VaultError::DuplicateUser),
        v2 == v1,
{
    if !username_taken(v0.users(), username) {
        let last = v1.users().len() - 1;
        assert(v1.users()[last].username@ == username);
    }
    assert(username_taken(v1.users(), username));
}

/// Two documents created one after the other, with the same title or not,
/// both succeed and get different identifiers, provided two identifiers are
/// left.
pub proof fn lemma_documents_get_distinct_ids(
    v0: Vault,
    v1: Vault,
    v2: Vault,
    title: Seq<char>,
    ciphertext1: String,
    owner1: Seq<char>,
    ciphertext2: String,
    owner2: Seq<char>,
    r1: Result<u64, VaultError>,
    r2: Result<u64, VaultError>,
)
    requires
        Vault::create_document_post(&v0, &v1, title, Some(ciphertext1), owner1, r1),
        Vault::create_document_post(&v1, &v2, title, Some(ciphertext2), owner2, r2),
        v0.next_document_id() < u64::MAX - 1,
    ensures
        r1 is Ok,
        r2 is Ok,
        r1->Ok_0 != r2->Ok_0,
{
    assert(v1.next_document_id() == v0.next_document_id() + 1);
}

/// Starting from an empty audit trail, after three logged operations a
/// listing with room for at least three entries returns exactly those three,
/// the most recent first, with descending identifiers.
pub proof fn lemma_audit_most_recent_first(
    v0: Vault,
    v1: Vault,
    v2: Vault,
    v3: Vault,
    user1: Seq<char>,
    action1: Action,
    details1: Seq<char>,
    user2: Seq<char>,
    action2: Action,
    details2: Seq<char>,
    user3: Seq<char>,
    action3: Action,
    details3: Seq<char>,
    limit: nat,
)
    requires
        v0.audit_log().len() == 0,
        v0.next_audit_id() < u64::MAX - 2,
        Vault::logged(&v0, &v1, user1, action1, details1),
        Vault::logged(&v1, &v2, user2, action2, details2),
        Vault::logged(&v2, &v3, user3, action3, details3),
        limit >= 3,
    ensures
        ({
            let listed = recent_first(v3.audit_log(), limit);
            &&& listed.len() == 3
            &&& listed[0].username@ == user3 && listed[0].action == action3
                && listed[0].details@ == clip(details3)
            &&& listed[1].username@ == user2 && listed[1].action == action2
                && listed[1].details@ == clip(details2)
            &&& listed[2].username@ == user1 && listed[2].action == action1
                && listed[2].details@ == clip(details1)
            &&& listed[0].id > listed[1].id > listed[2].id
        }),
{
    let log3 = v3.audit_log();
    assert(v1.audit_log().len() == 1);
    assert(v2.audit_log().len() == 2);
    assert(log3.len() == 3);
    assert(log3[0] == v2.audit_log()[0]) by {
        assert(log3.subrange(0, 2)[0] == log3[0]);
    }
    assert(log3[1] == v2.audit_log()[1]) by {
        assert(log3.subrange(0, 2)[1] == log3[1]);
    }
    assert(v2.audit_log()[0] == v1.audit_log()[0]) by {
        assert(v2.audit_log().subrange(0, 1)[0] == v2.audit_log()[0]);
    }
}

} // verus!

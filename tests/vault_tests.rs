use doc_vault::audit::Action;
use doc_vault::text::{clip_details, contains_text, labelled_number};
use doc_vault::user::Role;
use doc_vault::clock::minute_stamp;
use doc_vault::vault::{list_documents, Entity, Vault, VaultError};

fn s(x: &str) -> String {
    x.to_string()
}

#[test]
fn second_registration_is_duplicate() {
    let mut v = Vault::new();
    assert_eq!(v.register(s("alice"), s("p"), s("Alice")), Ok(Role::User));
    assert_eq!(v.register(s("alice"), s("q"), s("Other")), Err(VaultError::DuplicateUser));
    assert_eq!(v.list_users().len(), 1);
    assert_eq!(v.stats().audits, 1);
}

#[test]
fn role_follows_username() {
    let mut v = Vault::new();
    assert_eq!(v.register(s("teamadmin99"), s("p"), s("Team")), Ok(Role::Admin));
    assert_eq!(v.register(s("alice"), s("p"), s("Alice")), Ok(Role::User));
    assert_eq!(v.register(s("Admin"), s("p"), s("Cap")), Ok(Role::User));
    let users = v.list_users();
    assert_eq!(users[0].role, Role::Admin);
    assert_eq!(users[1].role, Role::User);
    assert_eq!(Role::for_username("xadmin"), Role::Admin);
    assert_eq!(Role::for_username("admi"), Role::User);
}

#[test]
fn stored_content_is_the_ciphertext() {
    let mut v = Vault::new();
    let id = v.create_document(s("T"), Some(s("9f8e7d")), s("alice")).unwrap();
    let rows = v.document_rows();
    assert_eq!(rows.len(), 1);
    assert_eq!(rows[0].content_encrypted, s("9f8e7d"));
    assert_ne!(rows[0].content_encrypted, s("secret"));
    let listed = list_documents(&rows, &vec![Some(s("secret"))]);
    assert_eq!(listed.len(), 1);
    assert_eq!(listed[0].id, id);
    assert_eq!(listed[0].title, s("T"));
    assert_eq!(listed[0].author, s("alice"));
    assert_eq!(listed[0].content, Ok(s("secret")));
}

#[test]
fn failed_decryption_is_reported_per_row() {
    let mut v = Vault::new();
    v.create_document(s("A"), Some(s("c1")), s("alice")).unwrap();
    v.create_document(s("B"), Some(s("c2")), s("bob")).unwrap();
    v.create_document(s("C"), Some(s("c3")), s("carol")).unwrap();
    let listed = list_documents(&v.document_rows(), &vec![Some(s("one")), None]);
    assert_eq!(listed.len(), 3);
    assert_eq!(listed[0].content, Ok(s("one")));
    assert_eq!(listed[1].content, Err(VaultError::DecryptionFailure));
    assert_eq!(listed[2].content, Err(VaultError::DecryptionFailure));
    assert_eq!(listed[2].title, s("C"));
}

#[test]
fn failed_encryption_stores_nothing() {
    let mut v = Vault::new();
    assert_eq!(v.create_document(s("T"), None, s("alice")), Err(VaultError::EncryptionFailure));
    assert_eq!(v.stats().documents, 0);
    assert_eq!(v.stats().audits, 0);
}

#[test]
fn audit_lists_most_recent_first() {
    let mut v = Vault::new();
    v.register(s("alice"), s("p"), s("Alice")).unwrap();
    let id = v.create_document(s("T"), Some(s("x")), s("alice")).unwrap();
    v.add_comment(id, s("nice"), s("alice")).unwrap();
    let log = v.list_audit(100);
    assert_eq!(log.len(), 3);
    assert_eq!(log[0].action, Action::Comment);
    assert_eq!(log[0].details, s("Doc: 1"));
    assert_eq!(log[1].action, Action::CreateDoc);
    assert_eq!(log[1].details, s("ID: 1"));
    assert_eq!(log[2].action, Action::Register);
    assert_eq!(log[2].details, s("New user registered"));
    assert!(log[0].id > log[1].id && log[1].id > log[2].id);
    assert_eq!(v.list_audit(2).len(), 2);
    assert_eq!(v.list_audit(2)[0].action, Action::Comment);
    assert_eq!(v.list_audit(0).len(), 0);
}

#[test]
fn long_details_are_clipped() {
    let mut v = Vault::new();
    let long = "a".repeat(600);
    v.log_audit("alice", Action::Comment, &long);
    let log = v.list_audit(100);
    assert_eq!(log[0].details, format!("{}...", "a".repeat(500)));
    assert_eq!(log[0].details.chars().count(), 503);
}

#[test]
fn clipping_counts_characters() {
    assert_eq!(clip_details(&"a".repeat(500)), "a".repeat(500));
    assert_eq!(clip_details(""), s(""));
    let wide = "é".repeat(501);
    assert_eq!(clip_details(&wide), format!("{}...", "é".repeat(500)));
}

#[test]
fn deleting_missing_user_changes_nothing() {
    let mut v = Vault::new();
    v.register(s("alice"), s("p"), s("Alice")).unwrap();
    assert!(!v.delete_user(999999));
    assert_eq!(v.list_users().len(), 1);
    assert_eq!(v.stats().audits, 1);
    assert!(v.delete_user(1));
    assert_eq!(v.list_users().len(), 0);
    assert!(!v.delete_user(1));
}

#[test]
fn same_title_documents_get_distinct_ids() {
    let mut v = Vault::new();
    let a = v.create_document(s("T"), Some(s("x")), s("alice")).unwrap();
    let b = v.create_document(s("T"), Some(s("y")), s("bob")).unwrap();
    assert_ne!(a, b);
    assert_eq!(v.stats().documents, 2);
}

#[test]
fn login_checks_password() {
    let mut v = Vault::new();
    v.register(s("alice"), s("pw"), s("Alice")).unwrap();
    assert_eq!(v.login(s("alice"), s("bad")).err(), Some(VaultError::InvalidCredentials));
    assert_eq!(v.login(s("bob"), s("pw")).err(), Some(VaultError::InvalidCredentials));
    assert_eq!(v.stats().audits, 1);
    let u = v.login(s("alice"), s("pw")).unwrap();
    assert_eq!(u.username, s("alice"));
    assert_eq!(u.full_name, s("Alice"));
    let log = v.list_audit(1);
    assert_eq!(log[0].action, Action::Login);
    assert_eq!(log[0].details, s("Login successful"));
}

#[test]
fn update_user_outcomes() {
    let mut v = Vault::new();
    v.register(s("alice"), s("pw"), s("Alice")).unwrap();
    v.register(s("bob"), s("pw2"), s("Bob")).unwrap();
    assert_eq!(
        v.update_user(7, s("X"), s("x"), "user").err(),
        Some(VaultError::NotFound(Entity::User, 7))
    );
    assert_eq!(v.update_user(1, s("X"), s("x"), "root").err(), Some(VaultError::ValidationError));
    assert_eq!(v.update_user(1, s("X"), s("bob"), "user").err(), Some(VaultError::DuplicateUser));
    let u = v.update_user(1, s("Alice A"), s("alice2"), "admin").unwrap();
    assert_eq!(u.id, 1);
    assert_eq!(u.username, s("alice2"));
    assert_eq!(u.full_name, s("Alice A"));
    assert_eq!(u.role, Role::Admin);
    assert_eq!(u.password, s("pw"));
    let same = v.update_user(2, s("Bob"), s("bob"), "user").unwrap();
    assert_eq!(same.username, s("bob"));
    assert_eq!(v.list_users()[0].username, s("alice2"));
}

#[test]
fn comments_are_listed_per_document() {
    let mut v = Vault::new();
    let c1 = v.add_comment(5, s("first"), s("alice")).unwrap();
    v.add_comment(6, s("other"), s("bob")).unwrap();
    let c3 = v.add_comment(5, s("second"), s("carol")).unwrap();
    let on5 = v.list_comments(5);
    assert_eq!(on5.len(), 2);
    assert_eq!(on5[0].id, c1);
    assert_eq!(on5[0].text, s("first"));
    assert_eq!(on5[1].id, c3);
    assert_eq!(on5[1].admin_name, s("carol"));
    assert_eq!(v.list_comments(9).len(), 0);
}

#[test]
fn deleting_document_is_logged_either_way() {
    let mut v = Vault::new();
    let id = v.create_document(s("T"), Some(s("x")), s("alice")).unwrap();
    assert!(v.delete_document(id, s("alice")));
    assert!(!v.delete_document(id, s("alice")));
    assert_eq!(v.stats().documents, 0);
    let log = v.list_audit(100);
    assert_eq!(log.len(), 3);
    assert_eq!(log[0].action, Action::DeleteDoc);
    assert_eq!(log[0].details, s("ID: 1"));
}

#[test]
fn identifiers_render_in_decimal() {
    assert_eq!(labelled_number("ID: ", 0), s("ID: 0"));
    assert_eq!(labelled_number("Doc: ", 1234567890), s("Doc: 1234567890"));
    assert_eq!(labelled_number("", u64::MAX), u64::MAX.to_string());
}

#[test]
fn substring_search() {
    assert!(contains_text("abc", ""));
    assert!(contains_text("xxadminyy", "admin"));
    assert!(!contains_text("adm", "admin"));
    assert!(!contains_text("ADMIN", "admin"));
}

#[test]
fn names_of_roles_and_actions() {
    assert_eq!(Role::Admin.name(), s("admin"));
    assert_eq!(Role::User.name(), s("user"));
    assert_eq!(Role::parse("admin"), Some(Role::Admin));
    assert_eq!(Role::parse("user"), Some(Role::User));
    assert_eq!(Role::parse("Admin"), None);
    assert_eq!(Action::CreateDoc.name(), s("CREATE_DOC"));
    assert_eq!(Action::Register.name(), s("REGISTER"));
}

#[test]
fn creation_stamps_come_from_the_clock() {
    let mut v = Vault::new();
    v.register(s("alice"), s("p"), s("Alice")).unwrap();
    let stamp = v.list_users()[0].created_at.clone();
    assert_eq!(stamp.chars().count(), 19);
    assert_eq!(&stamp[4..5], "-");
    v.add_comment(1, s("t"), s("alice")).unwrap();
    let c = v.list_comments(1)[0].created_at.clone();
    assert_eq!(c.chars().count(), 16);
    assert_eq!(minute_stamp(s("2024-01-02 03:04:05")), s("2024-01-02 03:04"));
    assert_eq!(minute_stamp(s("short")), s("short"));
}

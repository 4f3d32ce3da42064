use onboarding::admin::{
    check_invitation, create_invitation, delete_invitation, list_invitations, register_invitation,
    signup_url, DataCreateInvitation, SIGNUP_BASE,
};
use onboarding::error::Error;
use onboarding::invitations::{alphabet, generate_code, Invitation, CODE_LENGTH};
use onboarding::models::User;
use onboarding::reference::{AbstractGreetings, AbstractInvitations, ReferenceDb};
use onboarding::users::{fetch_invitation, list_all, ListAllAction, ListAllEvent};

fn admin() -> User {
    User { id: "admin1".to_string(), username: "Admin".to_string(), privileged: true, bot: None }
}

fn member(id: &str) -> User {
    User { id: id.to_string(), username: "member".to_string(), privileged: false, bot: None }
}

fn invitation(code: &str, email: &str) -> Invitation {
    Invitation::with_code(
        code.to_string(),
        "2024-01-02T03:04:05.006Z".to_string(),
        email.to_string(),
        "admin1".to_string(),
        Some("author".to_string()),
        Some("{\"genre\":\"sf\"}".to_string()),
    )
}

#[test]
fn generated_codes_use_the_alphabet() {
    let a = alphabet();
    for _ in 0..50 {
        let code = generate_code();
        assert_eq!(code.chars().count(), CODE_LENGTH);
        assert!(code.chars().all(|c| a.contains(&c)));
    }
    assert!(!a.contains(&'I') && !a.contains(&'l') && !a.contains(&'O') && !a.contains(&'u'));
}

#[test]
fn new_invitation_is_unused_and_fresh() {
    let inv = Invitation::new("a@b.c".to_string(), "admin1".to_string(), None, None);
    assert_eq!(inv.code.len(), 8);
    assert!(!inv.used);
    assert!(inv.used_by.is_none());
    assert_eq!(inv.email, "a@b.c");
    assert_eq!(inv.created_by, "admin1");
    assert!(inv.created_at.ends_with('Z'));
    assert_eq!(inv.created_at.len(), 24);
}

#[test]
fn fetch_after_insert_returns_the_invitation() {
    let mut db = ReferenceDb::new();
    db.insert_invitation(&invitation("ABCD2345", "x@y.z")).unwrap();
    let got = db.fetch_invitation("ABCD2345").unwrap();
    assert_eq!(got.email, "x@y.z");
    assert_eq!(got.vertical.as_deref(), Some("author"));
    assert!(matches!(db.fetch_invitation("ZZZZ9999"), Err(Error::NotFound)));
}

#[test]
fn duplicate_insert_is_refused_and_changes_nothing() {
    let mut db = ReferenceDb::new();
    db.insert_invitation(&invitation("ABCD2345", "first@y.z")).unwrap();
    let r = db.insert_invitation(&invitation("ABCD2345", "second@y.z"));
    match r {
        Err(Error::DatabaseError { operation, collection }) => {
            assert_eq!(operation, "insert");
            assert_eq!(collection, "invitation");
        }
        other => panic!("unexpected {:?}", other),
    }
    assert_eq!(db.len(), 1);
    assert_eq!(db.fetch_invitation("ABCD2345").unwrap().email, "first@y.z");
}

#[test]
fn mark_used_then_fetch_shows_redeemer() {
    let mut db = ReferenceDb::new();
    db.insert_invitation(&invitation("ABCD2345", "x@y.z")).unwrap();
    db.insert_invitation(&invitation("QRST6789", "o@y.z")).unwrap();
    db.mark_invitation_used("ABCD2345", "user7").unwrap();
    let got = db.fetch_invitation("ABCD2345").unwrap();
    assert!(got.used);
    assert_eq!(got.used_by.as_deref(), Some("user7"));
    let other = db.fetch_invitation("QRST6789").unwrap();
    assert!(!other.used);
    assert!(matches!(db.mark_invitation_used("NOPE0000", "user7"), Err(Error::NotFound)));
}

#[test]
fn delete_then_fetch_is_not_found() {
    let mut db = ReferenceDb::new();
    db.insert_invitation(&invitation("ABCD2345", "x@y.z")).unwrap();
    db.insert_invitation(&invitation("QRST6789", "o@y.z")).unwrap();
    db.delete_invitation("ABCD2345").unwrap();
    assert!(matches!(db.fetch_invitation("ABCD2345"), Err(Error::NotFound)));
    assert!(db.fetch_invitation("QRST6789").is_ok());
    assert!(matches!(db.delete_invitation("ABCD2345"), Err(Error::NotFound)));
}

#[test]
fn fetch_all_keeps_insertion_order() {
    let mut db = ReferenceDb::new();
    db.insert_invitation(&invitation("BBBB2222", "b@y.z")).unwrap();
    db.insert_invitation(&invitation("AAAA1111", "a@y.z")).unwrap();
    let all = db.fetch_all_invitations().unwrap();
    let codes: Vec<&str> = all.iter().map(|i| i.code.as_str()).collect();
    assert_eq!(codes, vec!["BBBB2222", "AAAA1111"]);
}

#[test]
fn fetch_by_user_finds_the_first_redeemed() {
    let mut db = ReferenceDb::new();
    db.insert_invitation(&invitation("AAAA1111", "a@y.z")).unwrap();
    db.insert_invitation(&invitation("BBBB2222", "b@y.z")).unwrap();
    assert!(matches!(db.fetch_invitation_by_user("u1"), Err(Error::NotFound)));
    db.mark_invitation_used("BBBB2222", "u1").unwrap();
    db.mark_invitation_used("AAAA1111", "u1").unwrap();
    assert_eq!(db.fetch_invitation_by_user("u1").unwrap().code, "AAAA1111");
}

#[test]
fn reference_greeting_is_the_default() {
    let db = ReferenceDb::new();
    let g = db.fetch_greeting(Some("author")).unwrap();
    assert_eq!(g.vertical, "default");
    assert_eq!(g.message, "Hey {username}! Welcome to your studio.");
}

#[test]
fn check_accepts_unused_and_refuses_used_or_unknown() {
    let mut db = ReferenceDb::new();
    db.insert_invitation(&invitation("ABCD2345", "x@y.z")).unwrap();
    let ok = check_invitation(&db, "ABCD2345".to_string()).unwrap();
    assert!(ok.valid);
    assert_eq!(ok.email, "x@y.z");
    assert!(matches!(check_invitation(&db, "NOPE0000".to_string()), Err(Error::NotFound)));
    db.mark_invitation_used("ABCD2345", "u1").unwrap();
    assert!(matches!(check_invitation(&db, "ABCD2345".to_string()), Err(Error::NotFound)));
}

#[test]
fn signup_url_joins_base_and_code() {
    assert_eq!(signup_url("https://x.test/s", "ABCD2345"), "https://x.test/s?code=ABCD2345");
}

#[test]
fn create_invitation_requires_privilege() {
    let mut db = ReferenceDb::new();
    let data = DataCreateInvitation { email: "a@b.c".to_string(), vertical: None, metadata: None, signup_base: None };
    assert!(matches!(create_invitation(&mut db, &member("m1"), data), Err(Error::NotPrivileged)));
    assert_eq!(db.len(), 0);
}

#[test]
fn create_invitation_stores_and_links() {
    let mut db = ReferenceDb::new();
    let data = DataCreateInvitation {
        email: "a@b.c".to_string(),
        vertical: Some("home_services".to_string()),
        metadata: Some("{}".to_string()),
        signup_base: None,
    };
    let r = create_invitation(&mut db, &admin(), data).unwrap();
    assert_eq!(r.email, "a@b.c");
    assert_eq!(r.signup_url, format!("{}?code={}", SIGNUP_BASE, r.code));
    assert_eq!(SIGNUP_BASE, "https://hub2.apricotter.com/signup");
    let stored = db.fetch_invitation(&r.code).unwrap();
    assert_eq!(stored.created_by, "admin1");
    assert_eq!(stored.vertical.as_deref(), Some("home_services"));
    assert!(!stored.used);
    let data = DataCreateInvitation {
        email: "b@b.c".to_string(),
        vertical: None,
        metadata: None,
        signup_base: Some("https://other.test/join".to_string()),
    };
    let r = create_invitation(&mut db, &admin(), data).unwrap();
    assert_eq!(r.signup_url, format!("https://other.test/join?code={}", r.code));
    assert_eq!(db.len(), 2);
}

#[test]
fn register_invitation_refuses_taken_codes() {
    let mut db = ReferenceDb::new();
    let r = register_invitation(&mut db, invitation("ABCD2345", "x@y.z"), None).unwrap();
    assert_eq!(r.code, "ABCD2345");
    assert_eq!(r.signup_url, "https://hub2.apricotter.com/signup?code=ABCD2345");
    let again = register_invitation(&mut db, invitation("ABCD2345", "w@y.z"), None);
    match again {
        Err(Error::DatabaseError { operation, collection }) => {
            assert_eq!(operation, "insert");
            assert_eq!(collection, "invitation");
        }
        other => panic!("unexpected {:?}", other),
    }
    assert_eq!(db.len(), 1);
}

#[test]
fn delete_invitation_route() {
    let mut db = ReferenceDb::new();
    db.insert_invitation(&invitation("ABCD2345", "x@y.z")).unwrap();
    assert!(matches!(delete_invitation(&mut db, &member("m"), "ABCD2345".to_string()), Err(Error::NotPrivileged)));
    assert_eq!(db.len(), 1);
    assert!(delete_invitation(&mut db, &admin(), "ABCD2345".to_string()).unwrap().deleted);
    assert_eq!(db.len(), 0);
    assert!(matches!(delete_invitation(&mut db, &admin(), "ABCD2345".to_string()), Err(Error::NotFound)));
}

#[test]
fn list_invitations_route() {
    let mut db = ReferenceDb::new();
    assert!(matches!(list_invitations(&db, &member("m")), Err(Error::NotPrivileged)));
    db.insert_invitation(&invitation("AAAA1111", "a@y.z")).unwrap();
    db.insert_invitation(&invitation("BBBB2222", "b@y.z")).unwrap();
    db.mark_invitation_used("BBBB2222", "u9").unwrap();
    let records = list_invitations(&db, &admin()).unwrap();
    assert_eq!(records.len(), 2);
    assert_eq!(records[0].code, "AAAA1111");
    assert_eq!(records[1].code, "BBBB2222");
    assert!(records[1].used);
    assert_eq!(records[1].used_by.as_deref(), Some("u9"));
    assert_eq!(records[0].created_at, "2024-01-02T03:04:05.006Z");
    assert_eq!(records[0].metadata.as_deref(), Some("{\"genre\":\"sf\"}"));
}

#[test]
fn fetch_own_invitation_route() {
    let mut db = ReferenceDb::new();
    db.insert_invitation(&invitation("AAAA1111", "a@y.z")).unwrap();
    assert!(matches!(fetch_invitation(&member("u1"), &db), Err(Error::NotFound)));
    db.mark_invitation_used("AAAA1111", "u1").unwrap();
    let r = fetch_invitation(&member("u1"), &db).unwrap();
    assert_eq!(r.vertical.as_deref(), Some("author"));
    assert_eq!(r.metadata.as_deref(), Some("{\"genre\":\"sf\"}"));
}

#[test]
fn list_all_requires_privilege() {
    let (_, a) = list_all(&member("c"));
    assert!(matches!(a, ListAllAction::Respond(Err(Error::NotPrivileged))));
    let (mut req, a) = list_all(&admin());
    assert!(matches!(a, ListAllAction::FetchAllUsers));
    let users = vec![member("a"), member("b")];
    match req.advance(ListAllEvent::UsersFetched(Ok(users))) {
        ListAllAction::Respond(Ok(listed)) => {
            assert_eq!(listed.len(), 2);
            assert_eq!(listed[1].id, "b");
        }
        other => panic!("unexpected {:?}", other),
    }
    assert!(!req.expects_event(&ListAllEvent::UsersFetched(Ok(vec![]))));
    let (mut req, _) = list_all(&admin());
    assert!(matches!(req.advance(ListAllEvent::UsersFetched(Err(Error::NotFound))), ListAllAction::Respond(Err(Error::NotFound))));
}

#[test]
fn delete_undoes_insert() {
    let mut db = ReferenceDb::new();
    db.insert_invitation(&invitation("AAAA1111", "a@y.z")).unwrap();
    db.insert_invitation(&invitation("BBBB2222", "b@y.z")).unwrap();
    db.delete_invitation("BBBB2222").unwrap();
    let all = db.fetch_all_invitations().unwrap();
    assert_eq!(all.len(), 1);
    assert_eq!(all[0].code, "AAAA1111");
    assert_eq!(all[0].email, "a@y.z");
}

#[test]
fn insert_leaves_other_codes_alone() {
    let mut db = ReferenceDb::new();
    db.insert_invitation(&invitation("AAAA1111", "a@y.z")).unwrap();
    db.mark_invitation_used("AAAA1111", "u1").unwrap();
    db.insert_invitation(&invitation("BBBB2222", "b@y.z")).unwrap();
    let a = db.fetch_invitation("AAAA1111").unwrap();
    assert!(a.used);
    assert_eq!(a.used_by.as_deref(), Some("u1"));
    assert_eq!(a.email, "a@y.z");
}

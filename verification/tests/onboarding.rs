use onboarding::error::Error;
use onboarding::invitations::Invitation;
use onboarding::models::{Member, MemberCompositeKey, Server, User};
use onboarding::onboard::{
    complete, find_studio, heal, member_servers, DataOnboard, HealAction, HealEvent, OnboardAction, OnboardEvent,
};
use onboarding::provision::{ProvisionAction, ProvisionEvent, StudioPlan};
use onboarding::reference::{AbstractInvitations, ReferenceDb};

fn user(id: &str, name: &str) -> User {
    User { id: id.to_string(), username: name.to_string(), privileged: false, bot: None }
}

fn server(id: &str, name: &str) -> Server {
    Server { id: id.to_string(), name: name.to_string(), vertical: None, intake_metadata: None }
}

fn db_with_code(code: &str) -> ReferenceDb {
    let mut db = ReferenceDb::new();
    let inv = Invitation::with_code(
        code.to_string(),
        "2024-01-02T03:04:05.006Z".to_string(),
        "c@d.e".to_string(),
        "admin1".to_string(),
        None,
        None,
    );
    db.insert_invitation(&inv).unwrap();
    db
}

fn onboard_data(name: &str, code: Option<&str>) -> DataOnboard {
    DataOnboard { username: name.to_string(), entry_code: code.map(|c| c.to_string()) }
}

#[test]
fn usernames_are_validated() {
    assert!(onboard_data("Alice", None).validate().is_ok());
    assert!(onboard_data("jo.doe-2_x", None).validate().is_ok());
    assert!(onboard_data("Zoë", None).validate().is_ok());
    match onboard_data("a", None).validate() {
        Err(Error::FailedValidation { error }) => assert_eq!(error, "username: Validation error: length"),
        other => panic!("unexpected {:?}", other),
    }
    match onboard_data("has space", None).validate() {
        Err(Error::FailedValidation { error }) => assert_eq!(error, "username: Validation error: regex"),
        other => panic!("unexpected {:?}", other),
    }
    match onboard_data("!", None).validate() {
        Err(Error::FailedValidation { error }) => {
            assert_eq!(error, "username: Validation error: length, Validation error: regex")
        }
        other => panic!("unexpected {:?}", other),
    }
    assert!(onboard_data(&"x".repeat(32), None).validate().is_ok());
    assert!(onboard_data(&"x".repeat(33), None).validate().is_err());
    assert!(onboard_data("zero\u{200b}width", None).validate().is_err());
}

#[test]
fn complete_refuses_onboarded_accounts_and_bad_codes() {
    let mut db = db_with_code("ABCD2345");
    let (_, a) = complete(&mut db, "acc".to_string(), Some(user("u", "Ann")), onboard_data("Ann", Some("ABCD2345")));
    assert!(matches!(a, OnboardAction::Respond(Err(Error::AlreadyOnboarded))));
    let (_, a) = complete(&mut db, "acc".to_string(), None, onboard_data("A", Some("ABCD2345")));
    assert!(matches!(a, OnboardAction::Respond(Err(Error::FailedValidation { .. }))));
    let (_, a) = complete(&mut db, "acc".to_string(), None, onboard_data("Ann", None));
    assert!(matches!(a, OnboardAction::Respond(Err(Error::InvalidEntryCode))));
    let (_, a) = complete(&mut db, "acc".to_string(), None, onboard_data("Ann", Some("NOPE0000")));
    assert!(matches!(a, OnboardAction::Respond(Err(Error::InvalidEntryCode))));
    // none of the refusals touched the invitation
    let inv = db.fetch_invitation("ABCD2345").unwrap();
    assert!(!inv.used);
    assert_eq!(inv.used_by, None);
}

#[test]
fn complete_runs_the_whole_onboarding() {
    let mut db = db_with_code("ABCD2345");
    let (mut o, a) = complete(&mut db, "acc9".to_string(), None, onboard_data("Ann", Some("ABCD2345")));
    match a {
        OnboardAction::CreateUser { username, account_id } => {
            assert_eq!(username, "Ann");
            assert_eq!(account_id, "acc9");
        }
        other => panic!("unexpected {:?}", other),
    }
    // the invitation is held for the account while its user is created
    let inv = db.fetch_invitation("ABCD2345").unwrap();
    assert!(inv.used);
    assert_eq!(inv.used_by.as_deref(), Some("acc9"));
    let a = o.advance(&mut db, OnboardEvent::UserCreated(Ok(user("u1", "Ann"))));
    match a {
        OnboardAction::CreateServer { owner_id, data } => {
            assert_eq!(owner_id, "u1");
            assert_eq!(data.name, "Ann's Studio");
        }
        other => panic!("unexpected {:?}", other),
    }
    // the invitation is now spent
    let inv = db.fetch_invitation("ABCD2345").unwrap();
    assert!(inv.used);
    assert_eq!(inv.used_by.as_deref(), Some("u1"));
    let (_, again) = complete(&mut db, "acc10".to_string(), None, onboard_data("Bob", Some("ABCD2345")));
    assert!(matches!(again, OnboardAction::Respond(Err(Error::InvalidEntryCode))));

    let mut a = o.advance(&mut db, OnboardEvent::ServerCreated(Ok("srv1".to_string())));
    let mut channels = Vec::new();
    let mut n = 0;
    loop {
        n += 1;
        assert!(n < 30);
        let event = match a {
            OnboardAction::Provision(ProvisionAction::CreateChannel { server_id, data }) => {
                assert_eq!(server_id, "srv1");
                channels.push(data.name.clone());
                ProvisionEvent::ChannelCreated(Ok(format!("ch-{}", data.name)))
            }
            OnboardAction::Provision(ProvisionAction::AddMember { server_id, user_id }) => {
                assert_eq!(server_id, "srv1");
                if user_id == "u1" { ProvisionEvent::ClientAdded } else { ProvisionEvent::BotAdded }
            }
            OnboardAction::Provision(ProvisionAction::ReadBotToken) => ProvisionEvent::BotToken(Some("tok".to_string())),
            OnboardAction::Provision(ProvisionAction::FetchBotByToken { token }) => {
                assert_eq!(token, "tok");
                ProvisionEvent::BotFetched(Ok("bot1".to_string()))
            }
            OnboardAction::Provision(ProvisionAction::FetchUser { user_id }) => {
                assert_eq!(user_id, "bot1");
                ProvisionEvent::BotUserFetched(Ok("botuser1".to_string()))
            }
            OnboardAction::Provision(ProvisionAction::SendMessage { message }) => {
                assert_eq!(message.channel, "ch-bot");
                assert_eq!(message.author, "botuser1");
                assert_eq!(message.id.len(), 26);
                assert_eq!(
                    message.content.as_deref(),
                    Some("Hello Ann! I'm your personal assistant. I'd like to help you complete onboarding.")
                );
                ProvisionEvent::WelcomeSent
            }
            OnboardAction::Respond(r) => {
                assert_eq!(r.unwrap().id, "u1");
                break;
            }
            other => panic!("unexpected {:?}", other),
        };
        assert!(o.expects_event(&OnboardEvent::Provision(match &event {
            ProvisionEvent::ChannelCreated(_) => ProvisionEvent::ChannelCreated(Ok(String::new())),
            ProvisionEvent::ClientAdded => ProvisionEvent::ClientAdded,
            ProvisionEvent::BotToken(_) => ProvisionEvent::BotToken(None),
            ProvisionEvent::BotFetched(_) => ProvisionEvent::BotFetched(Ok(String::new())),
            ProvisionEvent::BotUserFetched(_) => ProvisionEvent::BotUserFetched(Ok(String::new())),
            ProvisionEvent::BotAdded => ProvisionEvent::BotAdded,
            ProvisionEvent::WelcomeSent => ProvisionEvent::WelcomeSent,
        })));
        a = o.advance(&mut db, OnboardEvent::Provision(event));
    }
    assert_eq!(channels, vec!["ann", "bot", "strategies", "content", "approvals", "review", "documents"]);
}

#[test]
fn failed_bot_channel_skips_the_welcome() {
    let plan = StudioPlan::for_healing("Kim");
    let (mut p, _) = onboarding::provision::Provisioning::start(plan, "s".to_string(), "c".to_string());
    assert!(matches!(p.advance(ProvisionEvent::ChannelCreated(Ok("c0".to_string()))), ProvisionAction::CreateChannel { .. }));
    // bot channel creation fails
    p.advance(ProvisionEvent::ChannelCreated(Err(Error::NotFound)));
    for _ in 2..7 {
        p.advance(ProvisionEvent::ChannelCreated(Ok("cx".to_string())));
    }
    assert!(matches!(p.advance(ProvisionEvent::ClientAdded), ProvisionAction::ReadBotToken));
    assert!(matches!(p.advance(ProvisionEvent::BotToken(Some("tok".to_string()))), ProvisionAction::Finished));
}

#[test]
fn missing_token_or_bot_ends_the_setup() {
    let plan = StudioPlan::for_healing("Kim");
    let (mut p, _) = onboarding::provision::Provisioning::start(plan, "s".to_string(), "c".to_string());
    for _ in 0..7 {
        p.advance(ProvisionEvent::ChannelCreated(Ok("cx".to_string())));
    }
    p.advance(ProvisionEvent::ClientAdded);
    assert!(matches!(p.advance(ProvisionEvent::BotToken(None)), ProvisionAction::Finished));

    let plan = StudioPlan::for_healing("Kim");
    let (mut p, _) = onboarding::provision::Provisioning::start(plan, "s".to_string(), "c".to_string());
    for _ in 0..7 {
        p.advance(ProvisionEvent::ChannelCreated(Ok("cx".to_string())));
    }
    p.advance(ProvisionEvent::ClientAdded);
    p.advance(ProvisionEvent::BotToken(Some("t".to_string())));
    assert!(matches!(p.advance(ProvisionEvent::BotFetched(Err(Error::NotFound))), ProvisionAction::Finished));
}

#[test]
fn user_creation_failure_is_the_answer() {
    let mut db = db_with_code("ABCD2345");
    let (mut o, _) = complete(&mut db, "acc".to_string(), None, onboard_data("Ann", Some("ABCD2345")));
    assert_eq!(db.fetch_invitation("ABCD2345").unwrap().used_by.as_deref(), Some("acc"));
    let a = o.advance(&mut db, OnboardEvent::UserCreated(Err(Error::NotPrivileged)));
    assert!(matches!(a, OnboardAction::Respond(Err(Error::NotPrivileged))));
    // the invitation is handed back
    let inv = db.fetch_invitation("ABCD2345").unwrap();
    assert!(!inv.used);
    assert_eq!(inv.used_by, None);
    let (_, again) = complete(&mut db, "acc2".to_string(), None, onboard_data("Bob", Some("ABCD2345")));
    assert!(matches!(again, OnboardAction::CreateUser { .. }));
}

#[test]
fn failure_hands_back_only_a_held_invitation() {
    let mut db = db_with_code("ABCD2345");
    let (mut o, _) = complete(&mut db, "acc".to_string(), None, onboard_data("Ann", Some("ABCD2345")));
    db.mark_invitation_used("ABCD2345", "u7").unwrap();
    let a = o.advance(&mut db, OnboardEvent::UserCreated(Err(Error::NotFound)));
    assert!(matches!(a, OnboardAction::Respond(Err(Error::NotFound))));
    assert_eq!(db.fetch_invitation("ABCD2345").unwrap().used_by.as_deref(), Some("u7"));
}

#[test]
fn plans_name_the_studio_and_channels() {
    let plan = StudioPlan::for_onboarding("MaRy");
    assert_eq!(plan.server_name, "MaRy's Studio");
    assert_eq!(plan.channels, vec!["mary", "bot", "strategies", "content", "approvals", "review", "documents"]);
    let plan = StudioPlan::for_healing("MaRy");
    assert_eq!(plan.channels, vec!["onboarding", "assistant", "strategies", "content", "approvals", "review", "documents"]);
    assert_eq!(plan.welcome, "Hello MaRy! I'm your personal assistant. I'd like to help you complete onboarding.");
}

#[test]
fn studios_are_found_by_lowercase_name() {
    let servers = vec![server("a", "Lobby"), server("b", "Kim's STUDIO"), server("c", "studio two")];
    assert_eq!(find_studio(&servers).as_deref(), Some("b"));
    assert_eq!(find_studio(&vec![server("a", "Lobby"), server("b", "Stud io")]), None);
    assert_eq!(find_studio(&vec![]), None);
}

#[test]
fn memberships_map_to_servers() {
    let ms = vec![
        Member { id: MemberCompositeKey { server: "s1".to_string(), user: "u".to_string() } },
        Member { id: MemberCompositeKey { server: "s2".to_string(), user: "u".to_string() } },
    ];
    assert_eq!(member_servers(&ms), vec!["s1", "s2"]);
}

#[test]
fn heal_does_nothing_when_a_studio_exists() {
    let (mut h, a) = heal(user("u1", "Kim"));
    assert!(matches!(a, HealAction::FetchMemberships { ref user_id } if user_id == "u1"));
    let ms = vec![Member { id: MemberCompositeKey { server: "s1".to_string(), user: "u1".to_string() } }];
    match h.advance(HealEvent::MembershipsFetched(Ok(ms))) {
        HealAction::FetchServers { server_ids } => assert_eq!(server_ids, vec!["s1"]),
        other => panic!("unexpected {:?}", other),
    }
    match h.advance(HealEvent::ServersFetched(Ok(vec![server("s1", "Kim's Studio")]))) {
        HealAction::Respond(Ok(r)) => {
            assert!(!r.healed);
            assert_eq!(r.server_id.as_deref(), Some("s1"));
        }
        other => panic!("unexpected {:?}", other),
    }
}

#[test]
fn heal_creates_a_studio_when_none_exists() {
    let (mut h, _) = heal(user("u1", "Kim"));
    match h.advance(HealEvent::MembershipsFetched(Ok(vec![]))) {
        HealAction::CreateServer { owner_id, data } => {
            assert_eq!(owner_id, "u1");
            assert_eq!(data.name, "Kim's Studio");
        }
        other => panic!("unexpected {:?}", other),
    }
    let mut a = h.advance(HealEvent::ServerCreated(Ok("s9".to_string())));
    let mut channels = Vec::new();
    loop {
        let event = match a {
            HealAction::Provision(ProvisionAction::CreateChannel { data, .. }) => {
                channels.push(data.name);
                ProvisionEvent::ChannelCreated(Ok("x".to_string()))
            }
            HealAction::Provision(ProvisionAction::AddMember { .. }) => ProvisionEvent::ClientAdded,
            HealAction::Provision(ProvisionAction::ReadBotToken) => ProvisionEvent::BotToken(None),
            HealAction::Respond(r) => {
                let r = r.unwrap();
                assert!(r.healed);
                assert_eq!(r.server_id.as_deref(), Some("s9"));
                break;
            }
            other => panic!("unexpected {:?}", other),
        };
        a = h.advance(HealEvent::Provision(event));
    }
    assert_eq!(channels, vec!["onboarding", "assistant", "strategies", "content", "approvals", "review", "documents"]);
}

#[test]
fn heal_errors_are_the_answer() {
    let (mut h, _) = heal(user("u1", "Kim"));
    assert!(matches!(h.advance(HealEvent::MembershipsFetched(Err(Error::NotFound))), HealAction::Respond(Err(Error::NotFound))));
    let (mut h, _) = heal(user("u1", "Kim"));
    h.advance(HealEvent::MembershipsFetched(Ok(vec![Member {
        id: MemberCompositeKey { server: "s1".to_string(), user: "u1".to_string() },
    }])));
    match h.advance(HealEvent::ServersFetched(Ok(vec![server("s1", "Lobby")]))) {
        HealAction::CreateServer { .. } => {}
        other => panic!("unexpected {:?}", other),
    }
    assert!(matches!(h.advance(HealEvent::ServerCreated(Err(Error::NotPrivileged))), HealAction::Respond(Err(Error::NotPrivileged))));
}

#[test]
fn interleaved_onboardings_redeem_a_code_once() {
    let mut db = db_with_code("ABCD2345");
    let (mut first, a1) = complete(&mut db, "acc1".to_string(), None, onboard_data("Ann", Some("ABCD2345")));
    let (_, a2) = complete(&mut db, "acc2".to_string(), None, onboard_data("Bob", Some("ABCD2345")));
    assert!(matches!(a1, OnboardAction::CreateUser { .. }));
    // the second signup is refused before any user is requested
    assert!(matches!(a2, OnboardAction::Respond(Err(Error::InvalidEntryCode))));
    // and so is a second start for the same account
    let (_, a3) = complete(&mut db, "acc1".to_string(), None, onboard_data("Ann", Some("ABCD2345")));
    assert!(matches!(a3, OnboardAction::Respond(Err(Error::InvalidEntryCode))));
    let r1 = first.advance(&mut db, OnboardEvent::UserCreated(Ok(user("u1", "Ann"))));
    assert!(matches!(r1, OnboardAction::CreateServer { .. }));
    assert_eq!(db.fetch_invitation("ABCD2345").unwrap().used_by.as_deref(), Some("u1"));
}

#[test]
fn revoked_code_is_refused_when_redeeming() {
    let mut db = db_with_code("ABCD2345");
    let (mut o, _) = complete(&mut db, "acc1".to_string(), None, onboard_data("Ann", Some("ABCD2345")));
    db.delete_invitation("ABCD2345").unwrap();
    let r = o.advance(&mut db, OnboardEvent::UserCreated(Ok(user("u1", "Ann"))));
    assert!(matches!(r, OnboardAction::Respond(Err(Error::NotFound))));
}

#[test]
fn code_taken_by_another_account_is_refused_when_redeeming() {
    let mut db = db_with_code("ABCD2345");
    let (mut o, _) = complete(&mut db, "acc1".to_string(), None, onboard_data("Ann", Some("ABCD2345")));
    db.mark_invitation_used("ABCD2345", "acc2").unwrap();
    let r = o.advance(&mut db, OnboardEvent::UserCreated(Ok(user("u1", "Ann"))));
    assert!(matches!(r, OnboardAction::Respond(Err(Error::InvalidEntryCode))));
    assert_eq!(db.fetch_invitation("ABCD2345").unwrap().used_by.as_deref(), Some("acc2"));
}

#[test]
fn released_invitation_reads_unused() {
    let mut db = db_with_code("ABCD2345");
    db.mark_invitation_used("ABCD2345", "acc").unwrap();
    db.release_invitation("ABCD2345").unwrap();
    let inv = db.fetch_invitation("ABCD2345").unwrap();
    assert!(!inv.used);
    assert_eq!(inv.used_by, None);
    assert!(matches!(db.release_invitation("NOPE0000"), Err(Error::NotFound)));
}

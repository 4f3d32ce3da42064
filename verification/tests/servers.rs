use onboarding::error::Error;
use onboarding::mongo::{found_invitation, listing_outcome, redemption_update, update_outcome};
use onboarding::greetings::{fetch_greeting_step, Greeting, GreetingLookupAction, GreetingLookupEvent};
use onboarding::models::{BotInformation, DataCreateServerChannel, LegacyServerChannelType, Server, User};
use onboarding::servers::{
    add_bot, complete_onboarding, create_book_channel, fetch_greeting, AddBotAction, AddBotEvent, BookChannelAction,
    BookChannelEvent, CompleteOnboardingAction, CompleteOnboardingEvent, DataAddBot, GreetingFetchAction,
    GreetingFetchEvent, GreetingRequest,
};

fn bot() -> User {
    User {
        id: "bot1".to_string(),
        username: "otto".to_string(),
        privileged: false,
        bot: Some(BotInformation { owner: "owner".to_string() }),
    }
}

fn person() -> User {
    User { id: "u1".to_string(), username: "kim".to_string(), privileged: false, bot: None }
}

fn server(vertical: Option<&str>, metadata: Option<&str>) -> Server {
    Server {
        id: "s1".to_string(),
        name: "Kim's Studio".to_string(),
        vertical: vertical.map(|v| v.to_string()),
        intake_metadata: metadata.map(|m| m.to_string()),
    }
}

fn greeting(v: &str) -> Greeting {
    Greeting { vertical: v.to_string(), message: format!("hi from {}", v) }
}

#[test]
fn greeting_lookup_prefers_the_vertical() {
    match fetch_greeting_step(Some("author"), GreetingLookupEvent::Start) {
        GreetingLookupAction::FindVertical { key } => assert_eq!(key, "author"),
        other => panic!("unexpected {:?}", other),
    }
    match fetch_greeting_step(Some("author"), GreetingLookupEvent::VerticalFound(Ok(Some(greeting("author"))))) {
        GreetingLookupAction::Respond(Ok(g)) => assert_eq!(g.vertical, "author"),
        other => panic!("unexpected {:?}", other),
    }
}

#[test]
fn greeting_lookup_falls_back_to_default() {
    match fetch_greeting_step(None, GreetingLookupEvent::Start) {
        GreetingLookupAction::FindDefault { key } => assert_eq!(key, "default"),
        other => panic!("unexpected {:?}", other),
    }
    match fetch_greeting_step(Some("author"), GreetingLookupEvent::VerticalFound(Ok(None))) {
        GreetingLookupAction::FindDefault { key } => assert_eq!(key, "default"),
        other => panic!("unexpected {:?}", other),
    }
    match fetch_greeting_step(Some("author"), GreetingLookupEvent::DefaultFound(Ok(Some(greeting("default"))))) {
        GreetingLookupAction::Respond(Ok(g)) => assert_eq!(g.vertical, "default"),
        other => panic!("unexpected {:?}", other),
    }
    assert!(matches!(
        fetch_greeting_step(Some("author"), GreetingLookupEvent::DefaultFound(Ok(None))),
        GreetingLookupAction::Respond(Err(Error::NotFound))
    ));
    match fetch_greeting_step(None, GreetingLookupEvent::DefaultFound(Err(Error::NotFound))) {
        GreetingLookupAction::Respond(Err(Error::DatabaseError { operation, collection })) => {
            assert_eq!(operation, "find_one");
            assert_eq!(collection, "greetings");
        }
        other => panic!("unexpected {:?}", other),
    }
}

#[test]
fn greeting_route_checks_membership() {
    let (mut req, a) = fetch_greeting();
    assert!(matches!(a, GreetingFetchAction::FetchServer));
    assert!(!req.expects_event(&GreetingFetchEvent::MembershipChecked { server: server(None, None), is_member: true }));
    assert!(matches!(
        req.advance(GreetingFetchEvent::ServerFetched(Err(Error::NotFound))),
        GreetingFetchAction::Respond(Err(Error::NotFound))
    ));
    let (mut req, _) = fetch_greeting();
    assert!(matches!(
        req.advance(GreetingFetchEvent::ServerFetched(Ok(server(None, None)))),
        GreetingFetchAction::CheckMembership { .. }
    ));
    assert!(matches!(
        req.advance(GreetingFetchEvent::MembershipChecked { server: server(None, None), is_member: false }),
        GreetingFetchAction::Respond(Err(Error::NotFound))
    ));
}

fn at_membership_check() -> GreetingRequest {
    let (mut req, _) = fetch_greeting();
    req.advance(GreetingFetchEvent::ServerFetched(Ok(server(None, None))));
    req
}

#[test]
fn greeting_route_defaults_the_vertical_and_keeps_json_metadata() {
    let mut req = at_membership_check();
    match req.advance(GreetingFetchEvent::MembershipChecked { server: server(None, None), is_member: true }) {
        GreetingFetchAction::FetchGreeting { vertical, .. } => assert_eq!(vertical, "default"),
        other => panic!("unexpected {:?}", other),
    }
    let mut req = at_membership_check();
    match req.advance(GreetingFetchEvent::MembershipChecked { server: server(Some("author"), None), is_member: true }) {
        GreetingFetchAction::FetchGreeting { vertical, .. } => assert_eq!(vertical, "author"),
        other => panic!("unexpected {:?}", other),
    }
    let ev = GreetingFetchEvent::GreetingFetched {
        server: server(Some("author"), Some("{\"genre\": \"sf\"}")),
        greeting: Ok(greeting("author")),
    };
    match req.advance(ev) {
        GreetingFetchAction::Respond(Ok(r)) => {
            assert_eq!(r.vertical, "author");
            assert_eq!(r.message, "hi from author");
            assert_eq!(r.metadata.as_deref(), Some("{\"genre\": \"sf\"}"));
        }
        other => panic!("unexpected {:?}", other),
    }
    let mut req = at_membership_check();
    req.advance(GreetingFetchEvent::MembershipChecked { server: server(None, None), is_member: true });
    let ev = GreetingFetchEvent::GreetingFetched { server: server(None, Some("{not json")), greeting: Ok(greeting("default")) };
    match req.advance(ev) {
        GreetingFetchAction::Respond(Ok(r)) => assert!(r.metadata.is_none()),
        other => panic!("unexpected {:?}", other),
    }
}

fn channel(name: &str) -> DataCreateServerChannel {
    DataCreateServerChannel {
        channel_type: LegacyServerChannelType::Text,
        name: name.to_string(),
        description: None,
        nsfw: None,
    }
}

#[test]
fn book_channel_route() {
    let (mut req, a) = create_book_channel(&bot(), channel("book-processing-dune"));
    assert!(matches!(a, BookChannelAction::FetchServer));
    req.advance(BookChannelEvent::ServerFetched(Ok(server(None, None))));
    assert!(matches!(
        req.advance(BookChannelEvent::MembershipChecked { server: server(None, None), is_member: false }),
        BookChannelAction::Respond(Err(Error::NotFound))
    ));
    let (mut req, _) = create_book_channel(&bot(), channel("book-processing-dune"));
    req.advance(BookChannelEvent::ServerFetched(Ok(server(None, None))));
    assert!(!req.expects_event(&BookChannelEvent::ChannelCreated(Ok("c7".to_string()))));
    match req.advance(BookChannelEvent::MembershipChecked { server: server(None, None), is_member: true }) {
        BookChannelAction::CreateChannel { data: d, server } => {
            assert_eq!(d.name, "book-processing-dune");
            assert_eq!(server.id, "s1");
        }
        other => panic!("unexpected {:?}", other),
    }
    match req.advance(BookChannelEvent::ChannelCreated(Ok("c7".to_string()))) {
        BookChannelAction::Respond(Ok(r)) => {
            assert_eq!(r.channel_id, "c7");
            assert_eq!(r.channel_name, "book-processing-dune");
        }
        other => panic!("unexpected {:?}", other),
    }
}

#[test]
fn book_channel_route_is_for_bots() {
    let (req, a) = create_book_channel(&person(), channel("book-processing-dune"));
    assert!(matches!(a, BookChannelAction::Respond(Err(Error::NotPrivileged))));
    assert!(!req.expects_event(&BookChannelEvent::ServerFetched(Ok(server(None, None)))));
}

#[test]
fn complete_onboarding_route_is_for_bots() {
    let (_, a) = complete_onboarding(&person());
    assert!(matches!(a, CompleteOnboardingAction::Respond(Err(Error::NotPrivileged))));
    let (mut req, a) = complete_onboarding(&bot());
    assert!(matches!(a, CompleteOnboardingAction::FetchServer));
    match req.advance(CompleteOnboardingEvent::ServerFetched(Ok(server(None, None)))) {
        CompleteOnboardingAction::UpdateServer { changes, .. } => assert_eq!(changes.onboarding_complete, Some(true)),
        other => panic!("unexpected {:?}", other),
    }
    assert!(matches!(
        req.advance(CompleteOnboardingEvent::ServerUpdated(Ok(()))),
        CompleteOnboardingAction::Respond(Ok(()))
    ));
}

#[test]
fn add_bot_route() {
    let data = || DataAddBot { bot_id: "quill".to_string() };
    let (_, a) = add_bot(&person(), data());
    assert!(matches!(a, AddBotAction::Respond(Err(Error::NotPrivileged))));
    let (mut req, a) = add_bot(&bot(), data());
    assert!(matches!(a, AddBotAction::FetchServer));
    assert!(!req.expects_event(&AddBotEvent::MemberAdded));
    req.advance(AddBotEvent::ServerFetched(Ok(server(None, None))));
    assert!(matches!(
        req.advance(AddBotEvent::MembershipChecked { server: server(None, None), is_member: false }),
        AddBotAction::Respond(Err(Error::NotFound))
    ));
    let (mut req, _) = add_bot(&bot(), data());
    req.advance(AddBotEvent::ServerFetched(Ok(server(None, None))));
    match req.advance(AddBotEvent::MembershipChecked { server: server(None, None), is_member: true }) {
        AddBotAction::FetchUser { user_id, .. } => assert_eq!(user_id, "quill"),
        other => panic!("unexpected {:?}", other),
    }
    match req.advance(AddBotEvent::BotUserFetched { server: server(None, None), bot_user: Ok(bot()) }) {
        AddBotAction::AddMember { user, .. } => assert_eq!(user.id, "bot1"),
        other => panic!("unexpected {:?}", other),
    }
    assert!(matches!(req.advance(AddBotEvent::MemberAdded), AddBotAction::Respond(Ok(()))));
    let (mut req, _) = add_bot(&bot(), data());
    req.advance(AddBotEvent::ServerFetched(Ok(server(None, None))));
    req.advance(AddBotEvent::MembershipChecked { server: server(None, None), is_member: true });
    assert!(matches!(
        req.advance(AddBotEvent::BotUserFetched { server: server(None, None), bot_user: Err(Error::NotFound) }),
        AddBotAction::Respond(Err(Error::NotFound))
    ));
}

#[test]
fn add_bot_refuses_accounts_that_are_not_bots() {
    let (mut req, _) = add_bot(&bot(), DataAddBot { bot_id: "p1".to_string() });
    req.advance(AddBotEvent::ServerFetched(Ok(server(None, None))));
    req.advance(AddBotEvent::MembershipChecked { server: server(None, None), is_member: true });
    assert!(matches!(
        req.advance(AddBotEvent::BotUserFetched { server: server(None, None), bot_user: Ok(person()) }),
        AddBotAction::Respond(Err(Error::NotFound))
    ));
    assert!(!req.expects_event(&AddBotEvent::MemberAdded));
}

fn stored(code: &str) -> onboarding::invitations::Invitation {
    onboarding::invitations::Invitation::with_code(
        code.to_string(),
        "2024-01-02T03:04:05.006Z".to_string(),
        "e@f.g".to_string(),
        "admin1".to_string(),
        None,
        None,
    )
}

#[test]
fn undecodable_documents_are_skipped() {
    let docs = vec![Some(stored("AAAA1111")), None, Some(stored("BBBB2222")), None];
    let all = onboarding::mongo::collect_decoded(docs);
    let codes: Vec<&str> = all.iter().map(|i| i.code.as_str()).collect();
    assert_eq!(codes, vec!["AAAA1111", "BBBB2222"]);
    assert!(onboarding::mongo::collect_decoded(vec![None]).is_empty());
}

#[test]
fn missing_documents_are_not_found() {
    assert_eq!(found_invitation(Ok(Some(stored("AAAA1111")))).unwrap().code, "AAAA1111");
    assert!(matches!(found_invitation(Ok(None)), Err(Error::NotFound)));
    assert!(matches!(found_invitation(Err(Error::NotPrivileged)), Err(Error::NotPrivileged)));
    assert!(update_outcome(Ok(())).is_ok());
    match update_outcome(Err(Error::NotFound)) {
        Err(Error::DatabaseError { operation, collection }) => {
            assert_eq!(operation, "update");
            assert_eq!(collection, "invitations");
        }
        other => panic!("unexpected {:?}", other),
    }
}

#[test]
fn failed_listing_is_a_find_error() {
    match listing_outcome(Err(Error::NotFound)) {
        Err(Error::DatabaseError { operation, collection }) => {
            assert_eq!(operation, "find");
            assert_eq!(collection, "invitations");
        }
        other => panic!("unexpected {:?}", other),
    }
    let all = listing_outcome(Ok(vec![None, Some(stored("AAAA1111"))])).unwrap();
    assert_eq!(all.len(), 1);
}

#[test]
fn redemption_update_sets_used_and_redeemer() {
    let u = redemption_update("AAAA1111", "u7");
    assert_eq!(u.code, "AAAA1111");
    assert!(u.used);
    assert_eq!(u.used_by, "u7");
}

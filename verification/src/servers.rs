use vstd::prelude::*;
use crate::error::Error;
use crate::greetings::Greeting;
use crate::invitations::opt_view;
use crate::models::{DataCreateServerChannel, LegacyServerChannelType, PartialServer, Server, User};
use crate::text::owned;

verus! {

/// Whether `serde_json` reads a text as a JSON value.
pub uninterp spec fn is_json(text: Seq<char>) -> bool;

/// Reads a text as JSON with `serde_json::from_str::<serde_json::Value>`
/// and tells whether that succeeded.
///
/// Claimed: the answer is a function of the text alone, named `is_json`;
/// which texts are JSON is left to serde_json and not stated.
#[verifier::external_body]
fn parses_as_json(text: &str) -> (ok: bool)
    ensures
        ok == is_json(text@),
{
    serde_json::from_str::<serde_json::Value>(text).is_ok()
}

/// Server greeting response.
#[derive(Debug)]
pub struct GreetingResponse {
    /// The vertical key (e.g. "author", "home_services", "default")
    pub vertical: String,
    /// Greeting message template; {username} is substituted by the caller if known
    pub message: String,
    /// Intake metadata captured at invite time, as JSON text
    pub metadata: Option<String>,
}

/// The vertical a server's greeting is looked up for.
pub open spec fn vertical_of(server: Server) -> Seq<char> {
    match server.vertical {
        Some(v) => v@,
        None => "default"@,
    }
}

/// The intake metadata a greeting answer carries: the server's, when it is JSON.
pub open spec fn intake_of(server: Server) -> Option<Seq<char>> {
    match server.intake_metadata {
        Some(t) => if is_json(t@) { Some(t@) } else { None },
        None => None,
    }
}

/// A greeting answer carries the server's intake metadata exactly when that
/// text is JSON, whatever the server's vertical, name or ID; and the
/// greeting is looked up under the server's vertical, or under the default
/// key when it has none.
pub proof fn lemma_greeting_reads_server(server: Server)
    ensures
        server.intake_metadata is Some && is_json(server.intake_metadata.unwrap()@)
            ==> intake_of(server) == Some(server.intake_metadata.unwrap()@),
        server.intake_metadata is Some && !is_json(server.intake_metadata.unwrap()@) ==> intake_of(server) is None,
        server.intake_metadata is None ==> intake_of(server) is None,
        server.vertical is Some ==> vertical_of(server) == server.vertical.unwrap()@,
        server.vertical is None ==> vertical_of(server) == crate::greetings::default_key(),
{
}

/// What came back from the last action of a greeting request.
#[derive(Debug)]
pub enum GreetingFetchEvent {
    ServerFetched(Result<Server, Error>),
    MembershipChecked { server: Server, is_member: bool },
    GreetingFetched { server: Server, greeting: Result<Greeting, Error> },
}

/// The next thing a greeting request asks to be done.
#[derive(Debug)]
pub enum GreetingFetchAction {
    /// Look up the target server
    FetchServer,
    /// Tell whether the caller belongs to the server
    CheckMembership { server: Server },
    /// Fetch the greeting for this vertical
    FetchGreeting { server: Server, vertical: String },
    Respond(Result<GreetingResponse, Error>),
}

/// Where a greeting request stands.
#[derive(Debug)]
pub enum GreetingFetchStage {
    FetchingServer,
    CheckingMembership,
    FetchingGreeting,
    Done,
}

/// A greeting request under way.
#[derive(Debug)]
pub struct GreetingRequest {
    pub stage: GreetingFetchStage,
}

/// # Fetch Server Greeting
///
/// Returns the onboarding greeting message for a server's client vertical.
/// Used by the onboarding bot to send the welcome message in #start-here.
/// Callers who do not belong to the server are answered `NotFound`. The
/// returned action is the first step; `GreetingRequest::advance` takes it
/// from there.
pub fn fetch_greeting() -> (res: (GreetingRequest, GreetingFetchAction))
    ensures
        res.0.stage is FetchingServer,
        res.1 is FetchServer,
{
    (GreetingRequest { stage: GreetingFetchStage::FetchingServer }, GreetingFetchAction::FetchServer)
}

impl GreetingRequest {
    /// Whether the request awaits `event`.
    pub open spec fn expects(&self, event: GreetingFetchEvent) -> bool {
        match (self.stage, event) {
            (GreetingFetchStage::FetchingServer, GreetingFetchEvent::ServerFetched(_)) => true,
            (GreetingFetchStage::CheckingMembership, GreetingFetchEvent::MembershipChecked { .. }) => true,
            (GreetingFetchStage::FetchingGreeting, GreetingFetchEvent::GreetingFetched { .. }) => true,
            _ => false,
        }
    }

    /// Whether the request awaits `event`.
    pub fn expects_event(&self, event: &GreetingFetchEvent) -> (res: bool)
        ensures
            res == self.expects(*event),
    {
        match (&self.stage, event) {
            (GreetingFetchStage::FetchingServer, GreetingFetchEvent::ServerFetched(_)) => true,
            (GreetingFetchStage::CheckingMembership, GreetingFetchEvent::MembershipChecked { .. }) => true,
            (GreetingFetchStage::FetchingGreeting, GreetingFetchEvent::GreetingFetched { .. }) => true,
            _ => false,
        }
    }

    /// Takes the outcome of the last action and says what to do next.
    pub fn advance(&mut self, event: GreetingFetchEvent) -> (action: GreetingFetchAction)
        requires
            old(self).expects(event),
        ensures
            final(self).stage is Done <==> action is Respond,
            match event {
                GreetingFetchEvent::ServerFetched(Err(e)) => action == GreetingFetchAction::Respond(Err(e)),
                GreetingFetchEvent::ServerFetched(Ok(server)) => {
                    final(self).stage is CheckingMembership && action == GreetingFetchAction::CheckMembership { server }
                },
                GreetingFetchEvent::MembershipChecked { server, is_member } => if is_member {
                    &&& final(self).stage is FetchingGreeting
                    &&& action matches GreetingFetchAction::FetchGreeting { server: s, vertical }
                    &&& s == server
                    &&& vertical@ == vertical_of(server)
                } else {
                    action matches GreetingFetchAction::Respond(Err(e)) && e is NotFound
                },
                GreetingFetchEvent::GreetingFetched { server, greeting: Err(e) } => action == GreetingFetchAction::Respond(Err(e)),
                GreetingFetchEvent::GreetingFetched { server, greeting: Ok(g) } => {
                    &&& action matches GreetingFetchAction::Respond(Ok(r))
                    &&& r.vertical == g.vertical
                    &&& r.message == g.message
                    &&& opt_view(r.metadata) == intake_of(server)
                },
            },
    {
        match event {
            GreetingFetchEvent::ServerFetched(Err(e)) => {
                self.stage = GreetingFetchStage::Done;
                GreetingFetchAction::Respond(Err(e))
            },
            GreetingFetchEvent::ServerFetched(Ok(server)) => {
                self.stage = GreetingFetchStage::CheckingMembership;
                GreetingFetchAction::CheckMembership { server }
            },
            GreetingFetchEvent::MembershipChecked { server, is_member } => {
                if !is_member {
                    self.stage = GreetingFetchStage::Done;
                    return GreetingFetchAction::Respond(Err(Error::NotFound));
                }
                let vertical = match &server.vertical {
                    Some(v) => v.clone(),
                    None => owned("default"),
                };
                self.stage = GreetingFetchStage::FetchingGreeting;
                GreetingFetchAction::FetchGreeting { server, vertical }
            },
            GreetingFetchEvent::GreetingFetched { server, greeting: Err(e) } => {
                self.stage = GreetingFetchStage::Done;
                GreetingFetchAction::Respond(Err(e))
            },
            GreetingFetchEvent::GreetingFetched { server, greeting: Ok(g) } => {
                let metadata = match server.intake_metadata {
                    Some(t) => if parses_as_json(t.as_str()) { Some(t) } else { None },
                    None => None,
                };
                self.stage = GreetingFetchStage::Done;
                GreetingFetchAction::Respond(Ok(GreetingResponse { vertical: g.vertical, message: g.message, metadata }))
            },
        }
    }
}

/// Answer of the book channel creation.
#[derive(Debug)]
pub struct BookChannelResponse {
    pub channel_id: String,
    pub channel_name: String,
}

/// A copy of a channel request.
pub fn copy_channel_request(data: &DataCreateServerChannel) -> (res: DataCreateServerChannel)
    ensures
        res == *data,
{
    DataCreateServerChannel {
        channel_type: match data.channel_type {
            LegacyServerChannelType::Text => LegacyServerChannelType::Text,
            LegacyServerChannelType::Voice => LegacyServerChannelType::Voice,
        },
        name: data.name.clone(),
        description: crate::invitations::clone_opt(&data.description),
        nsfw: data.nsfw,
    }
}

/// What came back from the last action of a book channel request.
#[derive(Debug)]
pub enum BookChannelEvent {
    ServerFetched(Result<Server, Error>),
    MembershipChecked { server: Server, is_member: bool },
    /// The channel creation ended; the new channel's ID or the failure
    ChannelCreated(Result<String, Error>),
}

/// The next thing a book channel request asks to be done.
#[derive(Debug)]
pub enum BookChannelAction {
    FetchServer,
    CheckMembership { server: Server },
    CreateChannel { server: Server, data: DataCreateServerChannel },
    Respond(Result<BookChannelResponse, Error>),
}

/// Where a book channel request stands.
#[derive(Debug)]
pub enum BookChannelStage {
    FetchingServer,
    CheckingMembership,
    CreatingChannel,
    Done,
}

/// A book channel request under way: the channel it asks for, and how far it got.
#[derive(Debug)]
pub struct BookChannelRequest {
    pub data: DataCreateServerChannel,
    pub stage: BookChannelStage,
}

/// # Create Book Processing Channel
///
/// Creates a per-book processing channel on behalf of a bot user, as the
/// request `data` describes it. This is a system operation: only bots may
/// call it, and it skips the channel management permission check; the
/// calling bot must belong to the server, else the answer is `NotFound`.
/// The returned action is the first step; `BookChannelRequest::advance`
/// takes it from there.
pub fn create_book_channel(user: &User, data: DataCreateServerChannel) -> (res: (BookChannelRequest, BookChannelAction))
    ensures
        res.0.data == data,
        res.0.stage is Done <==> res.1 is Respond,
        user.bot is None ==> (res.1 matches BookChannelAction::Respond(Err(e)) && e is NotPrivileged),
        user.bot is Some ==> res.0.stage is FetchingServer && res.1 is FetchServer,
{
    if user.bot.is_none() {
        return (BookChannelRequest { data, stage: BookChannelStage::Done }, BookChannelAction::Respond(Err(Error::NotPrivileged)));
    }
    (BookChannelRequest { data, stage: BookChannelStage::FetchingServer }, BookChannelAction::FetchServer)
}

impl BookChannelRequest {
    /// Whether the request awaits `event`.
    pub open spec fn expects(&self, event: BookChannelEvent) -> bool {
        match (self.stage, event) {
            (BookChannelStage::FetchingServer, BookChannelEvent::ServerFetched(_)) => true,
            (BookChannelStage::CheckingMembership, BookChannelEvent::MembershipChecked { .. }) => true,
            (BookChannelStage::CreatingChannel, BookChannelEvent::ChannelCreated(_)) => true,
            _ => false,
        }
    }

    /// Whether the request awaits `event`.
    pub fn expects_event(&self, event: &BookChannelEvent) -> (res: bool)
        ensures
            res == self.expects(*event),
    {
        match (&self.stage, event) {
            (BookChannelStage::FetchingServer, BookChannelEvent::ServerFetched(_)) => true,
            (BookChannelStage::CheckingMembership, BookChannelEvent::MembershipChecked { .. }) => true,
            (BookChannelStage::CreatingChannel, BookChannelEvent::ChannelCreated(_)) => true,
            _ => false,
        }
    }

    /// Takes the outcome of the last action and says what to do next.
    pub fn advance(&mut self, event: BookChannelEvent) -> (action: BookChannelAction)
        requires
            old(self).expects(event),
        ensures
            final(self).data == old(self).data,
            final(self).stage is Done <==> action is Respond,
            match event {
                BookChannelEvent::ServerFetched(Err(e)) => action == BookChannelAction::Respond(Err(e)),
                BookChannelEvent::ServerFetched(Ok(server)) => {
                    final(self).stage is CheckingMembership && action == BookChannelAction::CheckMembership { server }
                },
                BookChannelEvent::MembershipChecked { server, is_member } => if is_member {
                    final(self).stage is CreatingChannel && action == BookChannelAction::CreateChannel { server, data: old(self).data }
                } else {
                    action matches BookChannelAction::Respond(Err(e)) && e is NotFound
                },
                BookChannelEvent::ChannelCreated(Err(e)) => action == BookChannelAction::Respond(Err(e)),
                BookChannelEvent::ChannelCreated(Ok(channel_id)) => {
                    action == BookChannelAction::Respond(Ok(BookChannelResponse { channel_id, channel_name: old(self).data.name }))
                },
            },
    {
        match event {
            BookChannelEvent::ServerFetched(Err(e)) => {
                self.stage = BookChannelStage::Done;
                BookChannelAction::Respond(Err(e))
            },
            BookChannelEvent::ServerFetched(Ok(server)) => {
                self.stage = BookChannelStage::CheckingMembership;
                BookChannelAction::CheckMembership { server }
            },
            BookChannelEvent::MembershipChecked { server, is_member } => {
                if is_member {
                    self.stage = BookChannelStage::CreatingChannel;
                    BookChannelAction::CreateChannel { server, data: copy_channel_request(&self.data) }
                } else {
                    self.stage = BookChannelStage::Done;
                    BookChannelAction::Respond(Err(Error::NotFound))
                }
            },
            BookChannelEvent::ChannelCreated(Err(e)) => {
                self.stage = BookChannelStage::Done;
                BookChannelAction::Respond(Err(e))
            },
            BookChannelEvent::ChannelCreated(Ok(channel_id)) => {
                self.stage = BookChannelStage::Done;
                BookChannelAction::Respond(Ok(BookChannelResponse { channel_id, channel_name: self.data.name.clone() }))
            },
        }
    }
}

/// What came back from the last action of an onboarding completion.
#[derive(Debug)]
pub enum CompleteOnboardingEvent {
    ServerFetched(Result<Server, Error>),
    ServerUpdated(Result<(), Error>),
}

/// The next thing an onboarding completion asks to be done.
#[derive(Debug)]
pub enum CompleteOnboardingAction {
    FetchServer,
    UpdateServer { server: Server, changes: PartialServer },
    Respond(Result<(), Error>),
}

/// Where an onboarding completion stands.
#[derive(Debug)]
pub enum CompleteOnboardingStage {
    FetchingServer,
    UpdatingServer,
    Done,
}

/// An onboarding completion under way.
#[derive(Debug)]
pub struct CompleteOnboardingRequest {
    pub stage: CompleteOnboardingStage,
}

/// # Complete Onboarding
///
/// Called by the onboarding bot after the client has confirmed their
/// profile: sets the server's "onboarding complete" flag. Only bots may
/// call it. The returned action is the first step;
/// `CompleteOnboardingRequest::advance` takes it from there.
pub fn complete_onboarding(user: &User) -> (res: (CompleteOnboardingRequest, CompleteOnboardingAction))
    ensures
        res.0.stage is Done <==> res.1 is Respond,
        user.bot is None ==> (res.1 matches CompleteOnboardingAction::Respond(Err(e)) && e is NotPrivileged),
        user.bot is Some ==> res.0.stage is FetchingServer && res.1 is FetchServer,
{
    if user.bot.is_none() {
        (CompleteOnboardingRequest { stage: CompleteOnboardingStage::Done }, CompleteOnboardingAction::Respond(Err(Error::NotPrivileged)))
    } else {
        (CompleteOnboardingRequest { stage: CompleteOnboardingStage::FetchingServer }, CompleteOnboardingAction::FetchServer)
    }
}

impl CompleteOnboardingRequest {
    /// Whether the request awaits `event`.
    pub open spec fn expects(&self, event: CompleteOnboardingEvent) -> bool {
        match (self.stage, event) {
            (CompleteOnboardingStage::FetchingServer, CompleteOnboardingEvent::ServerFetched(_)) => true,
            (CompleteOnboardingStage::UpdatingServer, CompleteOnboardingEvent::ServerUpdated(_)) => true,
            _ => false,
        }
    }

    /// Whether the request awaits `event`.
    pub fn expects_event(&self, event: &CompleteOnboardingEvent) -> (res: bool)
        ensures
            res == self.expects(*event),
    {
        match (&self.stage, event) {
            (CompleteOnboardingStage::FetchingServer, CompleteOnboardingEvent::ServerFetched(_)) => true,
            (CompleteOnboardingStage::UpdatingServer, CompleteOnboardingEvent::ServerUpdated(_)) => true,
            _ => false,
        }
    }

    /// Takes the outcome of the last action and says what to do next.
    pub fn advance(&mut self, event: CompleteOnboardingEvent) -> (action: CompleteOnboardingAction)
        requires
            old(self).expects(event),
        ensures
            final(self).stage is Done <==> action is Respond,
            match event {
                CompleteOnboardingEvent::ServerFetched(Err(e)) => action == CompleteOnboardingAction::Respond(Err(e)),
                CompleteOnboardingEvent::ServerFetched(Ok(server)) => {
                    &&& final(self).stage is UpdatingServer
                    &&& action == CompleteOnboardingAction::UpdateServer { server, changes: PartialServer { onboarding_complete: Some(true) } }
                },
                CompleteOnboardingEvent::ServerUpdated(r) => action == CompleteOnboardingAction::Respond(r),
            },
    {
        match event {
            CompleteOnboardingEvent::ServerFetched(Err(e)) => {
                self.stage = CompleteOnboardingStage::Done;
                CompleteOnboardingAction::Respond(Err(e))
            },
            CompleteOnboardingEvent::ServerFetched(Ok(server)) => {
                self.stage = CompleteOnboardingStage::UpdatingServer;
                CompleteOnboardingAction::UpdateServer { server, changes: PartialServer { onboarding_complete: Some(true) } }
            },
            CompleteOnboardingEvent::ServerUpdated(r) => {
                self.stage = CompleteOnboardingStage::Done;
                CompleteOnboardingAction::Respond(r)
            },
        }
    }
}

/// Body of the bot addition request.
#[derive(Debug)]
pub struct DataAddBot {
    /// ID of the bot to add
    pub bot_id: String,
}

/// What came back from the last action of a bot addition.
#[derive(Debug)]
pub enum AddBotEvent {
    ServerFetched(Result<Server, Error>),
    MembershipChecked { server: Server, is_member: bool },
    BotUserFetched { server: Server, bot_user: Result<User, Error> },
    /// The membership request ended (its outcome does not matter)
    MemberAdded,
}

/// The next thing a bot addition asks to be done.
#[derive(Debug)]
pub enum AddBotAction {
    FetchServer,
    CheckMembership { server: Server },
    FetchUser { server: Server, user_id: String },
    AddMember { server: Server, user: User },
    Respond(Result<(), Error>),
}

/// Where a bot addition stands.
#[derive(Debug)]
pub enum AddBotStage {
    FetchingServer,
    CheckingMembership,
    FetchingBotUser,
    AddingMember,
    Done,
}

/// A bot addition under way: the bot it adds, and how far it got.
#[derive(Debug)]
pub struct AddBotRequest {
    pub bot_id: String,
    pub stage: AddBotStage,
}

/// # Add Bot to Server
///
/// Adds a bot to a server on behalf of another bot. Only bots that belong
/// to the server may call it; the server management permission check is
/// skipped, as this is a system operation. Only bot accounts are added: an
/// ID that names no bot is answered `NotFound`. A bot that already belongs
/// to the server is left as it is. The returned action is the first step;
/// `AddBotRequest::advance` takes it from there.
pub fn add_bot(user: &User, data: DataAddBot) -> (res: (AddBotRequest, AddBotAction))
    ensures
        res.0.bot_id == data.bot_id,
        res.0.stage is Done <==> res.1 is Respond,
        user.bot is None ==> (res.1 matches AddBotAction::Respond(Err(e)) && e is NotPrivileged),
        user.bot is Some ==> res.0.stage is FetchingServer && res.1 is FetchServer,
{
    if user.bot.is_none() {
        (AddBotRequest { bot_id: data.bot_id, stage: AddBotStage::Done }, AddBotAction::Respond(Err(Error::NotPrivileged)))
    } else {
        (AddBotRequest { bot_id: data.bot_id, stage: AddBotStage::FetchingServer }, AddBotAction::FetchServer)
    }
}

impl AddBotRequest {
    /// Whether the request awaits `event`.
    pub open spec fn expects(&self, event: AddBotEvent) -> bool {
        match (self.stage, event) {
            (AddBotStage::FetchingServer, AddBotEvent::ServerFetched(_)) => true,
            (AddBotStage::CheckingMembership, AddBotEvent::MembershipChecked { .. }) => true,
            (AddBotStage::FetchingBotUser, AddBotEvent::BotUserFetched { .. }) => true,
            (AddBotStage::AddingMember, AddBotEvent::MemberAdded) => true,
            _ => false,
        }
    }

    /// Whether the request awaits `event`.
    pub fn expects_event(&self, event: &AddBotEvent) -> (res: bool)
        ensures
            res == self.expects(*event),
    {
        match (&self.stage, event) {
            (AddBotStage::FetchingServer, AddBotEvent::ServerFetched(_)) => true,
            (AddBotStage::CheckingMembership, AddBotEvent::MembershipChecked { .. }) => true,
            (AddBotStage::FetchingBotUser, AddBotEvent::BotUserFetched { .. }) => true,
            (AddBotStage::AddingMember, AddBotEvent::MemberAdded) => true,
            _ => false,
        }
    }

    /// Takes the outcome of the last action and says what to do next.
    pub fn advance(&mut self, event: AddBotEvent) -> (action: AddBotAction)
        requires
            old(self).expects(event),
        ensures
            final(self).bot_id == old(self).bot_id,
            final(self).stage is Done <==> action is Respond,
            match event {
                AddBotEvent::ServerFetched(Err(e)) => action == AddBotAction::Respond(Err(e)),
                AddBotEvent::ServerFetched(Ok(server)) => {
                    final(self).stage is CheckingMembership && action == AddBotAction::CheckMembership { server }
                },
                AddBotEvent::MembershipChecked { server, is_member } => if is_member {
                    final(self).stage is FetchingBotUser && action == AddBotAction::FetchUser { server, user_id: old(self).bot_id }
                } else {
                    action matches AddBotAction::Respond(Err(e)) && e is NotFound
                },
                AddBotEvent::BotUserFetched { server, bot_user: Err(e) } => action == AddBotAction::Respond(Err(e)),
                AddBotEvent::BotUserFetched { server, bot_user: Ok(u) } => if u.bot is Some {
                    final(self).stage is AddingMember && action == AddBotAction::AddMember { server, user: u }
                } else {
                    action matches AddBotAction::Respond(Err(e)) && e is NotFound
                },
                AddBotEvent::MemberAdded => action == AddBotAction::Respond(Ok(())),
            },
    {
        match event {
            AddBotEvent::ServerFetched(Err(e)) => {
                self.stage = AddBotStage::Done;
                AddBotAction::Respond(Err(e))
            },
            AddBotEvent::ServerFetched(Ok(server)) => {
                self.stage = AddBotStage::CheckingMembership;
                AddBotAction::CheckMembership { server }
            },
            AddBotEvent::MembershipChecked { server, is_member } => {
                if is_member {
                    self.stage = AddBotStage::FetchingBotUser;
                    AddBotAction::FetchUser { server, user_id: self.bot_id.clone() }
                } else {
                    self.stage = AddBotStage::Done;
                    AddBotAction::Respond(Err(Error::NotFound))
                }
            },
            AddBotEvent::BotUserFetched { server, bot_user: Err(e) } => {
                self.stage = AddBotStage::Done;
                AddBotAction::Respond(Err(e))
            },
            AddBotEvent::BotUserFetched { server, bot_user: Ok(u) } => {
                if u.bot.is_none() {
                    self.stage = AddBotStage::Done;
                    return AddBotAction::Respond(Err(Error::NotFound));
                }
                self.stage = AddBotStage::AddingMember;
                AddBotAction::AddMember { server, user: u }
            },
            AddBotEvent::MemberAdded => {
                self.stage = AddBotStage::Done;
                AddBotAction::Respond(Ok(()))
            },
        }
    }
}

} // verus!

use vstd::prelude::*;
use crate::error::Error;
use crate::models::{DataCreateServer, DataCreateServerChannel, LegacyServerChannelType, Message};
use crate::text::{concat2, concat3, lowercase, owned, to_lowercase};

verus! {

/// The studio channels that follow the first two in every studio.
pub open spec fn studio_tail_channels() -> Seq<Seq<char>> {
    seq!["strategies"@, "content"@, "approvals"@, "review"@, "documents"@]
}

/// Name of a client's studio server.
pub open spec fn studio_name(username: Seq<char>) -> Seq<char> {
    username + "'s Studio"@
}

/// Text of the welcome message the onboarding bot sends.
pub open spec fn welcome_text(username: Seq<char>) -> Seq<char> {
    "Hello "@ + username + "! I'm your personal assistant. I'd like to help you complete onboarding."@
}

/// Channels of a studio set up when a client completes onboarding: one named
/// after the client, then the bot channel, then the common ones.
pub open spec fn onboarding_channels(username: Seq<char>) -> Seq<Seq<char>> {
    seq![lowercase(username), "bot"@] + studio_tail_channels()
}

/// Channels of a studio set up when an account is healed.
pub open spec fn healing_channels() -> Seq<Seq<char>> {
    seq!["onboarding"@, "assistant"@] + studio_tail_channels()
}

/// Position of the channel where the onboarding bot lives.
pub const BOT_CHANNEL: usize = 1;

/// What a studio is made of: the server name, the channels in creation order
/// (the one at `BOT_CHANNEL` hosts the bot) and the welcome message text.
#[derive(Debug)]
pub struct StudioPlan {
    pub server_name: String,
    pub channels: Vec<String>,
    pub welcome: String,
}

impl StudioPlan {
    /// The channel names as mathematical strings.
    pub open spec fn channel_names(&self) -> Seq<Seq<char>> {
        self.channels@.map_values(|c: String| c@)
    }

    /// A plan names a bot channel.
    pub open spec fn wf(&self) -> bool {
        self.channels@.len() > BOT_CHANNEL
    }

    /// The plan for a client completing onboarding.
    pub fn for_onboarding(username: &str) -> (plan: Self)
        ensures
            plan.wf(),
            plan.server_name@ == studio_name(username@),
            plan.channel_names() == onboarding_channels(username@),
            plan.welcome@ == welcome_text(username@),
    {
        let mut channels: Vec<String> = Vec::new();
        channels.push(to_lowercase(username));
        channels.push(owned("bot"));
        push_tail_channels(&mut channels);
        let plan = StudioPlan {
            server_name: concat2(username, "'s Studio"),
            channels,
            welcome: concat3(
                "Hello ",
                username,
                "! I'm your personal assistant. I'd like to help you complete onboarding.",
            ),
        };
        assert(plan.server_name@ =~= studio_name(username@));
        assert(plan.channel_names() =~= onboarding_channels(username@));
        plan
    }

    /// The plan for healing an account that has no studio.
    pub fn for_healing(username: &str) -> (plan: Self)
        ensures
            plan.wf(),
            plan.server_name@ == studio_name(username@),
            plan.channel_names() == healing_channels(),
            plan.welcome@ == welcome_text(username@),
    {
        let mut channels: Vec<String> = Vec::new();
        channels.push(owned("onboarding"));
        channels.push(owned("assistant"));
        push_tail_channels(&mut channels);
        let plan = StudioPlan {
            server_name: concat2(username, "'s Studio"),
            channels,
            welcome: concat3(
                "Hello ",
                username,
                "! I'm your personal assistant. I'd like to help you complete onboarding.",
            ),
        };
        assert(plan.server_name@ =~= studio_name(username@));
        assert(plan.channel_names() =~= healing_channels());
        plan
    }

    /// The request that creates the studio server.
    pub fn server_request(&self) -> (data: DataCreateServer)
        ensures
            data.name == self.server_name,
            data.description is None,
            data.nsfw is None,
    {
        DataCreateServer { name: self.server_name.clone(), description: None, nsfw: None }
    }
}

/// Appends the common studio channels.
fn push_tail_channels(channels: &mut Vec<String>)
    ensures
        final(channels)@.map_values(|c: String| c@) == old(channels)@.map_values(|c: String| c@) + studio_tail_channels(),
{
    let ghost start = channels@;
    channels.push(owned("strategies"));
    channels.push(owned("content"));
    channels.push(owned("approvals"));
    channels.push(owned("review"));
    channels.push(owned("documents"));
    assert(channels@.map_values(|c: String| c@) =~= start.map_values(|c: String| c@) + studio_tail_channels());
}

/// A plain text channel request with the given name.
pub fn text_channel(name: String) -> (data: DataCreateServerChannel)
    ensures
        data.channel_type is Text,
        data.name == name,
        data.description is None,
        data.nsfw is None,
{
    DataCreateServerChannel { channel_type: LegacyServerChannelType::Text, name, description: None, nsfw: None }
}

/// A fresh message ID: `ulid::Ulid::new()` rendered with `Ulid::to_string`.
///
/// Claimed, as the crate's source shows: the text is the 26-character
/// Crockford base32 encoding of the ULID. The ULID itself depends on the
/// clock and on chance; its characters are not stated.
#[verifier::external_body]
fn new_message_id() -> (id: String)
    ensures
        id@.len() == 26,
{
    ulid::Ulid::new().to_string()
}

impl Message {
    /// A text message with a fresh ID.
    pub fn new(channel: String, author: String, content: String) -> (m: Self)
        ensures
            m.id@.len() == 26,
            m.channel == channel,
            m.author == author,
            m.content == Some(content),
    {
        Message { id: new_message_id(), channel, author, content: Some(content) }
    }
}

/// Where a studio set-up stands.
#[derive(Debug)]
pub enum ProvisionStage {
    /// Creating the channel at this position of the plan
    CreatingChannel(usize),
    /// Adding the client to the server
    AddingClient,
    /// Reading the bot's token from the environment
    ReadingBotToken,
    /// Looking the bot up by its token
    FetchingBot,
    /// Looking up the bot's user account
    FetchingBotUser,
    /// Adding the bot to the server
    AddingBot,
    /// Sending the welcome message
    SendingWelcome,
    /// Nothing left to do
    Finished,
}

/// What came back from the last action of a studio set-up.
#[derive(Debug)]
pub enum ProvisionEvent {
    /// A channel creation ended; the ID of the new channel or the failure
    ChannelCreated(Result<String, Error>),
    /// The client membership request ended (its outcome does not matter)
    ClientAdded,
    /// The bot token, if the environment holds one
    BotToken(Option<String>),
    /// The bot lookup ended; the bot's ID or the failure
    BotFetched(Result<String, Error>),
    /// The bot account lookup ended; the account's ID or the failure
    BotUserFetched(Result<String, Error>),
    /// The bot membership request ended (its outcome does not matter)
    BotAdded,
    /// The welcome message was handed over (its outcome does not matter)
    WelcomeSent,
}

/// The next thing a studio set-up asks to be done.
#[derive(Debug)]
pub enum ProvisionAction {
    CreateChannel { server_id: String, data: DataCreateServerChannel },
    AddMember { server_id: String, user_id: String },
    ReadBotToken,
    FetchBotByToken { token: String },
    FetchUser { user_id: String },
    SendMessage { message: Message },
    Finished,
}

/// Number of events a set-up at `stage` can still take, for a plan of
/// `n` channels.
pub open spec fn steps_left(stage: ProvisionStage, n: nat) -> nat {
    match stage {
        ProvisionStage::CreatingChannel(k) => if k <= n { ((n - k) + 6) as nat } else { 6 },
        ProvisionStage::AddingClient => 6,
        ProvisionStage::ReadingBotToken => 5,
        ProvisionStage::FetchingBot => 4,
        ProvisionStage::FetchingBotUser => 3,
        ProvisionStage::AddingBot => 2,
        ProvisionStage::SendingWelcome => 1,
        ProvisionStage::Finished => 0,
    }
}

/// Whether a set-up at `stage` awaits `event`.
pub open spec fn awaits(stage: ProvisionStage, event: ProvisionEvent) -> bool {
    match (stage, event) {
        (ProvisionStage::CreatingChannel(_), ProvisionEvent::ChannelCreated(_)) => true,
        (ProvisionStage::AddingClient, ProvisionEvent::ClientAdded) => true,
        (ProvisionStage::ReadingBotToken, ProvisionEvent::BotToken(_)) => true,
        (ProvisionStage::FetchingBot, ProvisionEvent::BotFetched(_)) => true,
        (ProvisionStage::FetchingBotUser, ProvisionEvent::BotUserFetched(_)) => true,
        (ProvisionStage::AddingBot, ProvisionEvent::BotAdded) => true,
        (ProvisionStage::SendingWelcome, ProvisionEvent::WelcomeSent) => true,
        _ => false,
    }
}

/// The ID of a channel creation that succeeded.
pub open spec fn created_id(r: Result<String, Error>) -> Option<String> {
    match r {
        Ok(id) => Some(id),
        Err(_) => None,
    }
}

/// One step of a studio set-up: `pre` took `event`, became `post` and
/// asked for `action`.
pub open spec fn provision_step(pre: Provisioning, event: ProvisionEvent, post: Provisioning, action: ProvisionAction) -> bool {
    &&& (post.plan == pre.plan)
    &&& (post.server_id == pre.server_id)
    &&& (post.client_id == pre.client_id)
    &&& (steps_left(post.stage, post.plan.channels@.len()) < steps_left(pre.stage, pre.plan.channels@.len()))
    &&& (post.stage is Finished <==> action is Finished)
    &&& (match (pre.stage, event) {
        (ProvisionStage::CreatingChannel(k), ProvisionEvent::ChannelCreated(r)) => {
            &&& post.bot_channel == (if k == BOT_CHANNEL { created_id(r) } else { pre.bot_channel })
            &&& post.bot_user == pre.bot_user
            &&& if k + 1 < pre.plan.channels@.len() {
                &&& post.stage == ProvisionStage::CreatingChannel((k + 1) as usize)
                &&& action matches ProvisionAction::CreateChannel { server_id, data }
                &&& server_id == pre.server_id
                &&& data.name == pre.plan.channels@[k + 1]
                &&& data.channel_type is Text && data.description is None && data.nsfw is None
            } else {
                &&& post.stage is AddingClient
                &&& action == (ProvisionAction::AddMember { server_id: pre.server_id, user_id: pre.client_id })
            }
        },
        (ProvisionStage::AddingClient, _) => {
            &&& post.stage is ReadingBotToken
            &&& action is ReadBotToken
            &&& post.bot_channel == pre.bot_channel
            &&& post.bot_user == pre.bot_user
        },
        (ProvisionStage::ReadingBotToken, ProvisionEvent::BotToken(t)) => {
            &&& post.bot_channel == pre.bot_channel
            &&& post.bot_user == pre.bot_user
            &&& if t is Some && pre.bot_channel is Some {
                &&& post.stage is FetchingBot
                &&& action == (ProvisionAction::FetchBotByToken { token: t.unwrap() })
            } else {
                action is Finished
            }
        },
        (ProvisionStage::FetchingBot, ProvisionEvent::BotFetched(r)) => {
            &&& post.bot_channel == pre.bot_channel
            &&& post.bot_user == pre.bot_user
            &&& match r {
                Ok(bot_id) => post.stage is FetchingBotUser && action == (ProvisionAction::FetchUser { user_id: bot_id }),
                Err(_) => action is Finished,
            }
        },
        (ProvisionStage::FetchingBotUser, ProvisionEvent::BotUserFetched(r)) => {
            &&& post.bot_channel == pre.bot_channel
            &&& match r {
                Ok(user_id) => {
                    &&& post.stage is AddingBot
                    &&& post.bot_user == Some(user_id)
                    &&& action == (ProvisionAction::AddMember { server_id: pre.server_id, user_id })
                },
                Err(_) => action is Finished && post.bot_user == pre.bot_user,
            }
        },
        (ProvisionStage::AddingBot, _) => {
            &&& post.stage is SendingWelcome
            &&& post.bot_channel == pre.bot_channel
            &&& post.bot_user == pre.bot_user
            &&& action matches ProvisionAction::SendMessage { message }
            &&& message.id@.len() == 26
            &&& message.channel == pre.bot_channel.unwrap()
            &&& message.author == pre.bot_user.unwrap()
            &&& message.content == Some(pre.plan.welcome)
        },
        (ProvisionStage::SendingWelcome, _) => {
            &&& action is Finished
            &&& post.bot_channel == pre.bot_channel
            &&& post.bot_user == pre.bot_user
        },
        _ => false,
    })
}

/// Setting up a client's studio once its server exists: the plan's channels
/// are created in order, the client joins, and, when the environment names
/// a bot and the bot channel was created, the bot joins and greets the
/// client in the bot channel. Failures of these steps do not stop the
/// set-up; a missing bot, bot account or bot channel skips the greeting.
#[derive(Debug)]
pub struct Provisioning {
    pub plan: StudioPlan,
    /// ID of the studio server
    pub server_id: String,
    /// ID of the client's account
    pub client_id: String,
    pub stage: ProvisionStage,
    /// ID of the bot channel, once it was created
    pub bot_channel: Option<String>,
    /// ID of the bot's account, once it was found
    pub bot_user: Option<String>,
}

impl Provisioning {
    pub open spec fn wf(&self) -> bool {
        &&& self.plan.wf()
        &&& self.stage matches ProvisionStage::CreatingChannel(k) ==> k < self.plan.channels@.len()
        &&& (self.stage matches ProvisionStage::CreatingChannel(k) && k <= BOT_CHANNEL) ==> self.bot_channel is None
        &&& (self.stage is FetchingBot || self.stage is FetchingBotUser || self.stage is AddingBot || self.stage is SendingWelcome) ==> self.bot_channel is Some
        &&& (self.stage is AddingBot || self.stage is SendingWelcome) ==> self.bot_user is Some
    }

    /// Whether the set-up awaits `event`.
    pub open spec fn expects(&self, event: ProvisionEvent) -> bool {
        awaits(self.stage, event)
    }

    /// Whether the set-up awaits `event`.
    pub fn expects_event(&self, event: &ProvisionEvent) -> (res: bool)
        ensures
            res == self.expects(*event),
    {
        match (&self.stage, event) {
            (ProvisionStage::CreatingChannel(_), ProvisionEvent::ChannelCreated(_)) => true,
            (ProvisionStage::AddingClient, ProvisionEvent::ClientAdded) => true,
            (ProvisionStage::ReadingBotToken, ProvisionEvent::BotToken(_)) => true,
            (ProvisionStage::FetchingBot, ProvisionEvent::BotFetched(_)) => true,
            (ProvisionStage::FetchingBotUser, ProvisionEvent::BotUserFetched(_)) => true,
            (ProvisionStage::AddingBot, ProvisionEvent::BotAdded) => true,
            (ProvisionStage::SendingWelcome, ProvisionEvent::WelcomeSent) => true,
            _ => false,
        }
    }

    /// Starts setting up the studio in the server `server_id` for the client
    /// `client_id`; the first action creates the plan's first channel.
    pub fn start(plan: StudioPlan, server_id: String, client_id: String) -> (res: (Self, ProvisionAction))
        requires
            plan.wf(),
        ensures
            res.0.wf(),
            res.0.plan == plan,
            res.0.server_id == server_id,
            res.0.client_id == client_id,
            res.0.stage == ProvisionStage::CreatingChannel(0),
            res.0.bot_channel is None,
            res.0.bot_user is None,
            res.1 matches ProvisionAction::CreateChannel { server_id: s, data } && s == server_id
                && data.name == plan.channels@[0] && data.channel_type is Text
                && data.description is None && data.nsfw is None,
    {
        let name = plan.channels[0].clone();
        let action = ProvisionAction::CreateChannel { server_id: server_id.clone(), data: text_channel(name) };
        (Provisioning { plan, server_id, client_id, stage: ProvisionStage::CreatingChannel(0), bot_channel: None, bot_user: None }, action)
    }

    /// Takes the outcome of the last action and says what to do next.
    pub fn advance(&mut self, event: ProvisionEvent) -> (action: ProvisionAction)
        requires
            old(self).wf(),
            old(self).expects(event),
        ensures
            final(self).wf(),
            provision_step(*old(self), event, *final(self), action),
    {
        match event {
            ProvisionEvent::ChannelCreated(r) => {
                let k = match self.stage {
                    ProvisionStage::CreatingChannel(k) => k,
                    _ => 0,
                };
                let n = self.plan.channels.len();
                assert(k < n);
                if k == BOT_CHANNEL {
                    self.bot_channel = match r {
                        Ok(id) => Some(id),
                        Err(_) => None,
                    };
                }
                if k + 1 < n {
                    self.stage = ProvisionStage::CreatingChannel(k + 1);
                    let name = self.plan.channels[k + 1].clone();
                    ProvisionAction::CreateChannel { server_id: self.server_id.clone(), data: text_channel(name) }
                } else {
                    self.stage = ProvisionStage::AddingClient;
                    ProvisionAction::AddMember { server_id: self.server_id.clone(), user_id: self.client_id.clone() }
                }
            },
            ProvisionEvent::ClientAdded => {
                self.stage = ProvisionStage::ReadingBotToken;
                ProvisionAction::ReadBotToken
            },
            ProvisionEvent::BotToken(t) => {
                match (t, &self.bot_channel) {
                    (Some(token), Some(_)) => {
                        self.stage = ProvisionStage::FetchingBot;
                        ProvisionAction::FetchBotByToken { token }
                    },
                    _ => {
                        self.stage = ProvisionStage::Finished;
                        ProvisionAction::Finished
                    },
                }
            },
            ProvisionEvent::BotFetched(r) => {
                match r {
                    Ok(bot_id) => {
                        self.stage = ProvisionStage::FetchingBotUser;
                        ProvisionAction::FetchUser { user_id: bot_id }
                    },
                    Err(_) => {
                        self.stage = ProvisionStage::Finished;
                        ProvisionAction::Finished
                    },
                }
            },
            ProvisionEvent::BotUserFetched(r) => {
                match r {
                    Ok(user_id) => {
                        self.stage = ProvisionStage::AddingBot;
                        self.bot_user = Some(user_id.clone());
                        ProvisionAction::AddMember { server_id: self.server_id.clone(), user_id }
                    },
                    Err(_) => {
                        self.stage = ProvisionStage::Finished;
                        ProvisionAction::Finished
                    },
                }
            },
            ProvisionEvent::BotAdded => {
                self.stage = ProvisionStage::SendingWelcome;
                let channel = match &self.bot_channel {
                    Some(c) => c.clone(),
                    None => owned(""),
                };
                let author = match &self.bot_user {
                    Some(u) => u.clone(),
                    None => owned(""),
                };
                ProvisionAction::SendMessage { message: Message::new(channel, author, self.plan.welcome.clone()) }
            },
            ProvisionEvent::WelcomeSent => {
                self.stage = ProvisionStage::Finished;
                ProvisionAction::Finished
            },
        }
    }
}

impl ProvisionStage {
    /// Whether nothing is left to do.
    pub fn is_finished(&self) -> (res: bool)
        ensures
            res == (*self is Finished),
    {
        match self {
            ProvisionStage::Finished => true,
            _ => false,
        }
    }
}

/// `ps`, `es` and `acts` record a run of a studio set-up: the state
/// `ps[i]` took the event `es[i]`, became `ps[i + 1]` and asked for `acts[i]`.
pub open spec fn is_run(ps: Seq<Provisioning>, es: Seq<ProvisionEvent>, acts: Seq<ProvisionAction>) -> bool {
    &&& ps.len() == es.len() + 1
    &&& acts.len() == es.len()
    &&& forall|i: int| 0 <= i < ps.len() ==> (#[trigger] ps[i]).wf()
    &&& forall|i: int| 0 <= i < es.len() ==> provision_step(#[trigger] ps[i], es[i], ps[i + 1], acts[i])
}

/// Along a run the plan, the server and the client stay as they were, and
/// every event brings the set-up closer to its end.
pub proof fn lemma_run_keeps_plan(ps: Seq<Provisioning>, es: Seq<ProvisionEvent>, acts: Seq<ProvisionAction>, i: int)
    requires
        is_run(ps, es, acts),
        0 <= i < ps.len(),
    ensures
        ps[i].plan == ps[0].plan,
        ps[i].server_id == ps[0].server_id,
        ps[i].client_id == ps[0].client_id,
        steps_left(ps[i].stage, ps[0].plan.channels@.len()) + i <= steps_left(ps[0].stage, ps[0].plan.channels@.len()),
    decreases i,
{
    if i > 0 {
        lemma_run_keeps_plan(ps, es, acts, i - 1);
        assert(provision_step(ps[i - 1], es[i - 1], ps[i], acts[i - 1]));
    }
}

/// A studio set-up ends: a run takes at most as many events as the plan has
/// channels, plus six.
pub proof fn lemma_setup_terminates(ps: Seq<Provisioning>, es: Seq<ProvisionEvent>, acts: Seq<ProvisionAction>)
    requires
        is_run(ps, es, acts),
    ensures
        es.len() <= steps_left(ps[0].stage, ps[0].plan.channels@.len()),
        ps[0].stage matches ProvisionStage::CreatingChannel(k) && k == 0 ==> es.len() <= ps[0].plan.channels@.len() + 6,
{
    lemma_run_keeps_plan(ps, es, acts, es.len() as int);
}

/// A set-up started at its first channel creates the plan's channels one
/// after another, in the plan's order, in the studio server; once they are
/// all asked for, it adds the client to the server.
pub proof fn lemma_channels_in_plan_order(ps: Seq<Provisioning>, es: Seq<ProvisionEvent>, acts: Seq<ProvisionAction>, i: int)
    requires
        is_run(ps, es, acts),
        ps[0].stage == ProvisionStage::CreatingChannel(0),
        0 <= i < es.len(),
        i < ps[0].plan.channels@.len(),
    ensures
        ps[i].stage == ProvisionStage::CreatingChannel(i as usize),
        i + 1 < ps[0].plan.channels@.len() ==> (acts[i] matches ProvisionAction::CreateChannel { server_id, data }
            && server_id == ps[0].server_id && data.name == ps[0].plan.channels@[i + 1]),
        i + 1 == ps[0].plan.channels@.len() ==> acts[i] == (ProvisionAction::AddMember {
            server_id: ps[0].server_id,
            user_id: ps[0].client_id,
        }),
    decreases i,
{
    lemma_run_keeps_plan(ps, es, acts, i);
    if i > 0 {
        lemma_channels_in_plan_order(ps, es, acts, i - 1);
        assert(provision_step(ps[i - 1], es[i - 1], ps[i], acts[i - 1]));
    }
    assert(provision_step(ps[i], es[i], ps[i + 1], acts[i]));
}

/// Once the bot channel's creation has been answered, a run remembers that
/// answer as the bot channel.
proof fn lemma_bot_channel_kept(ps: Seq<Provisioning>, es: Seq<ProvisionEvent>, acts: Seq<ProvisionAction>, i: int)
    requires
        is_run(ps, es, acts),
        ps[0].stage == ProvisionStage::CreatingChannel(0),
        ps[0].plan.channels@.len() > BOT_CHANNEL,
        BOT_CHANNEL < i <= es.len(),
    ensures
        es[BOT_CHANNEL as int] matches ProvisionEvent::ChannelCreated(r) && ps[i].bot_channel == created_id(r),
    decreases i,
{
    let n = ps[0].plan.channels@.len();
    lemma_channels_in_plan_order(ps, es, acts, BOT_CHANNEL as int);
    assert(provision_step(ps[1], es[1], ps[2], acts[1]));
    if i > 2 {
        lemma_bot_channel_kept(ps, es, acts, i - 1);
        lemma_run_keeps_plan(ps, es, acts, i - 1);
        assert(provision_step(ps[i - 1], es[i - 1], ps[i], acts[i - 1]));
        match ps[i - 1].stage {
            ProvisionStage::CreatingChannel(k) => {
                assert(k != BOT_CHANNEL);
            },
            _ => {},
        }
    }
}

/// The welcome message of a set-up goes to the bot channel created in that
/// set-up, comes from the bot account that joined, and carries the plan's
/// welcome text.
pub proof fn lemma_welcome_goes_to_bot_channel(
    ps: Seq<Provisioning>,
    es: Seq<ProvisionEvent>,
    acts: Seq<ProvisionAction>,
    j: int,
)
    requires
        is_run(ps, es, acts),
        ps[0].stage == ProvisionStage::CreatingChannel(0),
        0 <= j < es.len(),
        acts[j] is SendMessage,
    ensures
        acts[j] matches ProvisionAction::SendMessage { message } && es[BOT_CHANNEL as int] == ProvisionEvent::ChannelCreated(Ok(message.channel))
            && message.author == ps[j].bot_user.unwrap()
            && message.content == Some(ps[0].plan.welcome),
{
    assert(ps[0].wf());
    assert(provision_step(ps[j], es[j], ps[j + 1], acts[j]));
    assert(ps[j].stage is AddingBot);
    if j <= BOT_CHANNEL {
        lemma_channels_in_plan_order(ps, es, acts, j);
    }
    lemma_bot_channel_kept(ps, es, acts, j);
    lemma_run_keeps_plan(ps, es, acts, j);
    assert(ps[j].wf());
}

} // verus!

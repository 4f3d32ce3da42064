use vstd::prelude::*;

verus! {

/// What marks an account as a bot.
#[derive(Debug)]
pub struct BotInformation {
    /// ID of the user who owns the bot
    pub owner: String,
}

/// An account, as far as the onboarding rules read it.
#[derive(Debug)]
pub struct User {
    /// Account ID
    pub id: String,
    /// Username
    pub username: String,
    /// Whether the account may administer invitations and list users
    pub privileged: bool,
    /// Present on bot accounts
    pub bot: Option<BotInformation>,
}

/// A server, as far as the onboarding rules read it.
#[derive(Debug)]
pub struct Server {
    /// Server ID
    pub id: String,
    /// Server name
    pub name: String,
    /// Client vertical the server was set up for
    pub vertical: Option<String>,
    /// Intake form metadata, as JSON text
    pub intake_metadata: Option<String>,
}

/// The changes applied to a server by a partial update.
#[derive(Debug)]
pub struct PartialServer {
    /// New value of the "onboarding complete" flag, if it changes
    pub onboarding_complete: Option<bool>,
}

/// Key of a server membership.
#[derive(Debug)]
pub struct MemberCompositeKey {
    /// Server ID
    pub server: String,
    /// User ID
    pub user: String,
}

/// A server membership.
#[derive(Debug)]
pub struct Member {
    /// Which user belongs to which server
    pub id: MemberCompositeKey,
}

/// Kind of channel a server channel request creates.
#[derive(Debug)]
pub enum LegacyServerChannelType {
    Text,
    Voice,
}

/// Request to create a channel in a server.
#[derive(Debug)]
pub struct DataCreateServerChannel {
    /// Kind of channel
    pub channel_type: LegacyServerChannelType,
    /// Channel name
    pub name: String,
    /// Channel description
    pub description: Option<String>,
    /// Whether the channel is age-restricted
    pub nsfw: Option<bool>,
}

/// Request to create a server.
#[derive(Debug)]
pub struct DataCreateServer {
    /// Server name
    pub name: String,
    /// Server description
    pub description: Option<String>,
    /// Whether the server is age-restricted
    pub nsfw: Option<bool>,
}

/// A message to be sent to a channel.
#[derive(Debug)]
pub struct Message {
    /// Message ID
    pub id: String,
    /// ID of the channel it is sent to
    pub channel: String,
    /// ID of the author
    pub author: String,
    /// Text of the message
    pub content: Option<String>,
}

} // verus!

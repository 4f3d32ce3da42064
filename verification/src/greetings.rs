use vstd::prelude::*;
use crate::error::Error;
use crate::text::owned;

verus! {

/// A vertical-specific onboarding greeting sent to #start-here by the
/// onboarding bot.
#[derive(Debug)]
pub struct Greeting {
    /// Vertical key (e.g. "author", "home_services", "default")
    pub vertical: String,
    /// Message template; `{username}` marks where the username goes
    pub message: String,
}

/// Key of the greeting used when a vertical has none of its own.
pub open spec fn default_key() -> Seq<char> {
    "default"@
}

/// What came back from a lookup in the greetings collection.
#[derive(Debug)]
pub enum GreetingLookupEvent {
    /// The lookup is about to start
    Start,
    /// The lookup of the requested vertical ended
    VerticalFound(Result<Option<Greeting>, Error>),
    /// The lookup of the default greeting ended
    DefaultFound(Result<Option<Greeting>, Error>),
}

/// The next thing a greeting lookup asks to be done.
#[derive(Debug)]
pub enum GreetingLookupAction {
    /// Find the greeting stored under the requested vertical
    FindVertical { key: String },
    /// Find the greeting stored under `"default"`
    FindDefault { key: String },
    /// Answer the lookup
    Respond(Result<Greeting, Error>),
}

/// Whether an error is the one a failed read of the greetings collection
/// turns into.
pub open spec fn is_greetings_read_error(e: Error) -> bool {
    e matches Error::DatabaseError { operation, collection } && operation@ == "find_one"@ && collection@ == "greetings"@
}

/// The error a failed read of the greetings collection turns into.
fn greetings_read_error() -> (e: Error)
    ensures
        is_greetings_read_error(e),
{
    Error::DatabaseError { operation: owned("find_one"), collection: owned("greetings") }
}

/// Fetches the greeting for a vertical from the greetings collection,
/// falling back to the `"default"` greeting: the vertical's own greeting is
/// looked up first, when a vertical is given; if there is none the default
/// one is; if there is no default greeting either the answer is `NotFound`.
/// A failed read answers with a database error.
pub fn fetch_greeting_step(vertical: Option<&str>, event: GreetingLookupEvent) -> (action: GreetingLookupAction)
    ensures
        match event {
            GreetingLookupEvent::Start => match vertical {
                Some(v) => action matches GreetingLookupAction::FindVertical { key } && key@ == v@,
                None => action matches GreetingLookupAction::FindDefault { key } && key@ == default_key(),
            },
            GreetingLookupEvent::VerticalFound(r) => match r {
                Err(_) => action matches GreetingLookupAction::Respond(Err(e)) && is_greetings_read_error(e),
                Ok(Some(g)) => action == GreetingLookupAction::Respond(Ok(g)),
                Ok(None) => action matches GreetingLookupAction::FindDefault { key } && key@ == default_key(),
            },
            GreetingLookupEvent::DefaultFound(r) => match r {
                Err(_) => action matches GreetingLookupAction::Respond(Err(e)) && is_greetings_read_error(e),
                Ok(Some(g)) => action == GreetingLookupAction::Respond(Ok(g)),
                Ok(None) => action matches GreetingLookupAction::Respond(Err(e)) && e is NotFound,
            },
        },
{
    match event {
        GreetingLookupEvent::Start => match vertical {
            Some(v) => GreetingLookupAction::FindVertical { key: owned(v) },
            None => GreetingLookupAction::FindDefault { key: owned("default") },
        },
        GreetingLookupEvent::VerticalFound(r) => match r {
            Err(_) => GreetingLookupAction::Respond(Err(greetings_read_error())),
            Ok(Some(g)) => GreetingLookupAction::Respond(Ok(g)),
            Ok(None) => GreetingLookupAction::FindDefault { key: owned("default") },
        },
        GreetingLookupEvent::DefaultFound(r) => match r {
            Err(_) => GreetingLookupAction::Respond(Err(greetings_read_error())),
            Ok(Some(g)) => GreetingLookupAction::Respond(Ok(g)),
            Ok(None) => GreetingLookupAction::Respond(Err(Error::NotFound)),
        },
    }
}

} // verus!

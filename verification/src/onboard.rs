use vstd::prelude::*;
use crate::error::Error;
use crate::models::{DataCreateServer, Member, Server, User};
use crate::provision::{
    ProvisionAction, ProvisionEvent, ProvisionStage, Provisioning, StudioPlan, healing_channels, onboarding_channels, provision_step,
    studio_name, welcome_text,
};
use crate::reference::{AbstractInvitations, ReferenceDb, has_code, lookup, mark_unused, mark_used};
use crate::text::{concat2, lowercase, owned, seq_contains, str_contains, str_equal, to_lowercase};

verus! {

/// Pattern a username must match: letters, digits, `_`, `.` and `-` only.
/// Zero-width spaces and lookalike symbols are not letters, so they are refused.
pub const USERNAME_PATTERN: &'static str = r"^(\p{L}|[\d_.-])+$";

/// Fewest characters in a username.
pub const USERNAME_MIN: u64 = 2;

/// Most characters in a username.
pub const USERNAME_MAX: u64 = 32;

/// Whether `regex::Regex::new` accepts a pattern.
pub uninterp spec fn regex_compiles(pattern: Seq<char>) -> bool;

/// What `regex::Regex::is_match` answers for a compiled pattern and a text.
pub uninterp spec fn regex_matches(pattern: Seq<char>, text: Seq<char>) -> bool;

/// Compiles `pattern` with `regex::Regex::new` and, if it compiles, tests
/// `text` with `Regex::is_match`.
///
/// Claimed: the answer is `None` exactly when the pattern does not compile,
/// and otherwise whether the text matches; both are functions of the pattern
/// and the text alone, named `regex_compiles` and `regex_matches`. What
/// those are for given values is left to the regex crate and not stated.
#[verifier::external_body]
fn regex_is_match(pattern: &str, text: &str) -> (res: Option<bool>)
    ensures
        res is Some <==> regex_compiles(pattern@),
        res matches Some(b) ==> b == regex_matches(pattern@, text@),
{
    match regex::Regex::new(pattern) {
        Ok(re) => Some(re.is_match(text)),
        Err(_) => None,
    }
}

/// `validator::validate_length` on a string with both bounds given.
///
/// Claimed, as the crate's source shows: it counts the characters of the
/// string (`chars().count()`) and answers whether the count lies within
/// `min..=max`.
#[verifier::external_body]
fn length_within(value: &str, min: u64, max: u64) -> (ok: bool)
    ensures
        ok == (min <= value@.len() && value@.len() <= max),
{
    validator::validate_length(value, Some(min), Some(max), None)
}

/// Whether a username is acceptable.
pub open spec fn valid_username(name: Seq<char>) -> bool {
    &&& USERNAME_MIN <= name.len() <= USERNAME_MAX
    &&& regex_compiles(USERNAME_PATTERN@)
    &&& regex_matches(USERNAME_PATTERN@, name)
}

/// Text of the validation failure, naming each rule the username broke.
pub open spec fn validation_message(length_ok: bool, pattern_ok: bool) -> Seq<char> {
    if !length_ok && !pattern_ok {
        "username: Validation error: length, Validation error: regex"@
    } else if !length_ok {
        "username: Validation error: length"@
    } else {
        "username: Validation error: regex"@
    }
}

/// Text of the validation failure for a username.
pub open spec fn username_failure(name: Seq<char>) -> Seq<char> {
    validation_message(
        USERNAME_MIN <= name.len() <= USERNAME_MAX,
        regex_compiles(USERNAME_PATTERN@) && regex_matches(USERNAME_PATTERN@, name),
    )
}

/// # New User Data
#[derive(Debug)]
pub struct DataOnboard {
    /// New username which will be used to identify the user on the platform
    pub username: String,
    /// Entry code required when the server has registration gating enabled
    pub entry_code: Option<String>,
}

impl DataOnboard {
    /// Checks the username: 2 to 32 characters, matching `USERNAME_PATTERN`.
    pub fn validate(&self) -> (res: Result<(), Error>)
        ensures
            res is Ok <==> valid_username(self.username@),
            res matches Err(e) ==> e matches Error::FailedValidation { error } && error@ == username_failure(self.username@),
    {
        let length_ok = length_within(self.username.as_str(), USERNAME_MIN, USERNAME_MAX);
        let pattern_ok = match regex_is_match(USERNAME_PATTERN, self.username.as_str()) {
            Some(b) => b,
            None => false,
        };
        if length_ok && pattern_ok {
            Ok(())
        } else if !length_ok && !pattern_ok {
            Err(Error::FailedValidation { error: owned("username: Validation error: length, Validation error: regex") })
        } else if !length_ok {
            Err(Error::FailedValidation { error: owned("username: Validation error: length") })
        } else {
            Err(Error::FailedValidation { error: owned("username: Validation error: regex") })
        }
    }
}

/// Whether an entry code names an invitation of `db` that was not redeemed yet.
pub open spec fn redeemable(db: Seq<crate::invitations::InvitationView>, code: Seq<char>) -> bool {
    lookup(db, code) matches Some(inv) && !inv.used
}

/// Whether the invitation `code` is held by the account `account`, which
/// took it when its onboarding started.
pub open spec fn held_by(db: Seq<crate::invitations::InvitationView>, code: Seq<char>, account: Seq<char>) -> bool {
    lookup(db, code) matches Some(inv) && inv.used && inv.used_by == Some(account)
}

/// Whether the account `account` may go on redeeming the invitation `code`:
/// the invitation exists and is either unused or held by that account.
pub open spec fn redeemable_by(db: Seq<crate::invitations::InvitationView>, code: Seq<char>, account: Seq<char>) -> bool {
    lookup(db, code) matches Some(inv) && (!inv.used || inv.used_by == Some(account))
}

/// Where completing onboarding stands.
#[derive(Debug)]
pub enum OnboardStage {
    /// Creating the account
    CreatingUser,
    /// Creating the studio server
    CreatingServer,
    /// Setting up the studio
    Provisioning,
    /// Answered
    Done,
}

/// What came back from the last action of an onboarding.
#[derive(Debug)]
pub enum OnboardEvent {
    /// The account creation ended; the new account or the failure
    UserCreated(Result<User, Error>),
    /// The server creation ended; the new server's ID or the failure
    ServerCreated(Result<String, Error>),
    /// A step of the studio set-up ended
    Provision(ProvisionEvent),
}

/// The next thing an onboarding asks to be done.
#[derive(Debug)]
pub enum OnboardAction {
    /// Create the account with this username for the session's account ID
    CreateUser { username: String, account_id: String },
    /// Create a server owned by the new account
    CreateServer { owner_id: String, data: DataCreateServer },
    /// A step of the studio set-up
    Provision(ProvisionAction),
    /// Answer the request
    Respond(Result<User, Error>),
}

/// Completing onboarding: the invitation is taken for the session's
/// account, the user is created, the invitation redeemed by that user, and
/// the client's studio set up.
#[derive(Debug)]
pub struct Onboarding {
    /// The entry code being redeemed
    pub code: String,
    /// The session's account, which holds the invitation
    pub account_id: String,
    pub stage: OnboardStage,
    /// The new account, once created
    pub user: Option<User>,
    /// The studio plan, until the server exists
    pub plan: Option<StudioPlan>,
    /// The studio set-up, once the server exists
    pub provisioning: Option<Provisioning>,
}

impl Onboarding {
    pub open spec fn wf(&self) -> bool {
        &&& self.stage is CreatingServer ==> self.user is Some && self.plan is Some && self.plan.unwrap().wf()
        &&& self.stage is Provisioning ==> self.user is Some && self.provisioning is Some && self.provisioning.unwrap().wf()
    }

    /// Whether the onboarding awaits `event`.
    pub open spec fn expects(&self, event: OnboardEvent) -> bool {
        match (self.stage, event) {
            (OnboardStage::CreatingUser, OnboardEvent::UserCreated(_)) => true,
            (OnboardStage::CreatingServer, OnboardEvent::ServerCreated(_)) => true,
            (OnboardStage::Provisioning, OnboardEvent::Provision(e)) => self.provisioning.unwrap().expects(e),
            _ => false,
        }
    }

    /// Whether the onboarding awaits `event`.
    pub fn expects_event(&self, event: &OnboardEvent) -> (res: bool)
        requires
            self.wf(),
        ensures
            res == self.expects(*event),
    {
        match (&self.stage, event) {
            (OnboardStage::CreatingUser, OnboardEvent::UserCreated(_)) => true,
            (OnboardStage::CreatingServer, OnboardEvent::ServerCreated(_)) => true,
            (OnboardStage::Provisioning, OnboardEvent::Provision(e)) => match &self.provisioning {
                Some(p) => p.expects_event(e),
                None => false,
            },
            _ => false,
        }
    }

    /// Advances the onboarding with the outcome of its last action.
    pub fn advance(&mut self, db: &mut ReferenceDb, event: OnboardEvent) -> (action: OnboardAction)
        requires
            old(self).wf(),
            old(self).expects(event),
        ensures
            final(self).wf(),
                final(self).code == old(self).code,
            final(self).account_id == old(self).account_id,
            final(self).stage is Done <==> action is Respond,
            match (old(self).stage, event) {
                (OnboardStage::CreatingUser, OnboardEvent::UserCreated(Err(e))) => {
                    // the invitation the account holds is handed back
                    &&& action == OnboardAction::Respond(Err(e))
                    &&& final(db)@ == if held_by(old(db)@, old(self).code@, old(self).account_id@) {
                        mark_unused(old(db)@, old(self).code@)
                    } else {
                        old(db)@
                    }
                },
                (OnboardStage::CreatingUser, OnboardEvent::UserCreated(Ok(u))) => {
                    if redeemable_by(old(db)@, old(self).code@, old(self).account_id@) {
                        // the invitation is redeemed by the new account
                        &&& final(db)@ == mark_used(old(db)@, old(self).code@, u.id@)
                        &&& final(self).stage is CreatingServer
                        &&& final(self).user == Some(u)
                        &&& final(self).plan.unwrap().channel_names() == onboarding_channels(u.username@)
                        &&& final(self).plan.unwrap().welcome@ == welcome_text(u.username@)
                        &&& action matches OnboardAction::CreateServer { owner_id, data }
                        &&& owner_id == u.id
                        &&& data.name@ == studio_name(u.username@)
                        &&& data.description is None && data.nsfw is None
                    } else if !has_code(old(db)@, old(self).code@) {
                        // the invitation was revoked meanwhile
                        &&& final(db)@ == old(db)@
                        &&& action matches OnboardAction::Respond(Err(e)) && e is NotFound
                    } else {
                        // another account holds the invitation: it is not redeemed twice
                        &&& final(db)@ == old(db)@
                        &&& action matches OnboardAction::Respond(Err(e)) && e is InvalidEntryCode
                    }
                },
                (OnboardStage::CreatingServer, OnboardEvent::ServerCreated(Err(e))) => {
                    action == OnboardAction::Respond(Err(e)) && final(db)@ == old(db)@
                },
                (OnboardStage::CreatingServer, OnboardEvent::ServerCreated(Ok(server_id))) => {
                    &&& final(db)@ == old(db)@
                    &&& final(self).stage is Provisioning
                    &&& final(self).user == old(self).user
                    &&& final(self).provisioning.unwrap().plan == old(self).plan.unwrap()
                    &&& final(self).provisioning.unwrap().server_id == server_id
                    &&& final(self).provisioning.unwrap().client_id == old(self).user.unwrap().id
                    &&& final(self).provisioning.unwrap().stage == ProvisionStage::CreatingChannel(0)
                    &&& final(self).provisioning.unwrap().bot_channel is None
                    &&& final(self).provisioning.unwrap().bot_user is None
                    &&& action matches OnboardAction::Provision(ProvisionAction::CreateChannel { server_id: s, data })
                    &&& s == server_id
                    &&& data.name == old(self).plan.unwrap().channels@[0]
                    &&& data.channel_type is Text && data.description is None && data.nsfw is None
                },
                (OnboardStage::Provisioning, OnboardEvent::Provision(e)) => {
                    &&& final(db)@ == old(db)@
                    &&& final(self).provisioning is Some
                    &&& if final(self).provisioning.unwrap().stage is Finished {
                        &&& provision_step(old(self).provisioning.unwrap(), e, final(self).provisioning.unwrap(), ProvisionAction::Finished)
                        &&& action == OnboardAction::Respond(Ok(old(self).user.unwrap()))
                    } else {
                        &&& final(self).user == old(self).user
                        &&& action matches OnboardAction::Provision(a)
                        &&& provision_step(old(self).provisioning.unwrap(), e, final(self).provisioning.unwrap(), a)
                    }
                },
                _ => false,
            },
    {
        match event {
            OnboardEvent::UserCreated(Err(e)) => {
                // The invitation goes back only while this account holds it.
                match db.fetch_invitation(self.code.as_str()) {
                    Ok(inv) => {
                        if held(&inv, self.account_id.as_str()) {
                            let _ = db.release_invitation(self.code.as_str());
                        }
                    },
                    Err(_) => {},
                }
                self.stage = OnboardStage::Done;
                OnboardAction::Respond(Err(e))
            },
            OnboardEvent::UserCreated(Ok(u)) => {
                // Checking and redeeming happen in one step: the invitation is
                // redeemed only while this account still holds it.
                match db.fetch_invitation(self.code.as_str()) {
                    Err(_) => {
                        self.stage = OnboardStage::Done;
                        return OnboardAction::Respond(Err(Error::NotFound));
                    },
                    Ok(inv) => {
                        if !open_for(&inv, self.account_id.as_str()) {
                            self.stage = OnboardStage::Done;
                            return OnboardAction::Respond(Err(Error::InvalidEntryCode));
                        }
                    },
                }
                match db.mark_invitation_used(self.code.as_str(), u.id.as_str()) {
                    Err(e) => {
                        self.stage = OnboardStage::Done;
                        OnboardAction::Respond(Err(e))
                    },
                    Ok(()) => {
                        let plan = StudioPlan::for_onboarding(u.username.as_str());
                        let data = plan.server_request();
                        let owner_id = u.id.clone();
                        self.plan = Some(plan);
                        self.user = Some(u);
                        self.stage = OnboardStage::CreatingServer;
                        OnboardAction::CreateServer { owner_id, data }
                    },
                }
            },
            OnboardEvent::ServerCreated(Err(e)) => {
                self.stage = OnboardStage::Done;
                OnboardAction::Respond(Err(e))
            },
            OnboardEvent::ServerCreated(Ok(server_id)) => {
                let plan = self.plan.take().unwrap();
                let client_id = match &self.user {
                    Some(u) => u.id.clone(),
                    None => owned(""),
                };
                let (p, a) = Provisioning::start(plan, server_id, client_id);
                self.provisioning = Some(p);
                self.stage = OnboardStage::Provisioning;
                OnboardAction::Provision(a)
            },
            OnboardEvent::Provision(e) => {
                let mut p = self.provisioning.take().unwrap();
                let a = p.advance(e);
                let finished = p.stage.is_finished();
                self.provisioning = Some(p);
                if finished {
                    self.stage = OnboardStage::Done;
                    let user = self.user.take().unwrap();
                    OnboardAction::Respond(Ok(user))
                } else {
                    OnboardAction::Provision(a)
                }
            },
        }
    }
}

/// Whether the invitation `inv` is held by the account `account`: used,
/// with that account as its redeemer.
pub fn held(inv: &crate::invitations::Invitation, account: &str) -> (res: bool)
    ensures
        res == (inv.used && inv@.used_by == Some(account@)),
{
    if !inv.used {
        return false;
    }
    match &inv.used_by {
        Some(holder) => str_equal(holder.as_str(), account),
        None => false,
    }
}

/// Whether the invitation `inv` is open to the account `account`: unused,
/// or held by that account.
pub fn open_for(inv: &crate::invitations::Invitation, account: &str) -> (res: bool)
    ensures
        res == (!inv.used || inv@.used_by == Some(account@)),
{
    if !inv.used {
        return true;
    }
    match &inv.used_by {
        Some(holder) => str_equal(holder.as_str(), account),
        None => false,
    }
}

/// # Complete Onboarding
///
/// Sets the username of a signed-in account that has no user yet, redeems
/// its invitation and sets up the client's studio. `account_id` is the
/// session's account, `user` the user the account already has, if any.
///
/// Invitations are single-use: in one step with its check, the invitation is
/// taken for the account (marked used, with the account as its redeemer)
/// before the user is requested, so while it is held no other request is
/// sent on to create a user with the same code. If the user cannot be
/// created, `Onboarding::advance` hands the invitation back. The returned
/// action is the first step; `Onboarding::advance` takes it from there.
pub fn complete(db: &mut ReferenceDb, account_id: String, user: Option<User>, data: DataOnboard) -> (res: (Onboarding, OnboardAction))
    ensures
        res.0.wf(),
        res.0.stage is Done <==> res.1 is Respond,
        res.1 is Respond ==> final(db)@ == old(db)@,
        user is Some ==> (res.1 matches OnboardAction::Respond(Err(e)) && e is AlreadyOnboarded),
        user is None && !valid_username(data.username@) ==> (res.1 matches OnboardAction::Respond(Err(e))
            && e matches Error::FailedValidation { error } && error@ == username_failure(data.username@)),
        user is None && valid_username(data.username@)
            && (data.entry_code is None || !redeemable(old(db)@, data.entry_code.unwrap()@))
            ==> (res.1 matches OnboardAction::Respond(Err(e)) && e is InvalidEntryCode),
        user is None && valid_username(data.username@) && data.entry_code is Some
            && redeemable(old(db)@, data.entry_code.unwrap()@) ==> {
            &&& final(db)@ == mark_used(old(db)@, data.entry_code.unwrap()@, account_id@)
            &&& held_by(final(db)@, data.entry_code.unwrap()@, account_id@)
            &&& !redeemable(final(db)@, data.entry_code.unwrap()@)
            &&& res.0.stage is CreatingUser
            &&& res.0.code == data.entry_code.unwrap()
            &&& res.0.account_id == account_id
            &&& res.1 == (OnboardAction::CreateUser { username: data.username, account_id })
        },
{
    let mut onboarding = Onboarding {
        code: owned(""),
        account_id: owned(""),
        stage: OnboardStage::Done,
        user: None,
        plan: None,
        provisioning: None,
    };
    if user.is_some() {
        return (onboarding, OnboardAction::Respond(Err(Error::AlreadyOnboarded)));
    }
    match data.validate() {
        Err(e) => return (onboarding, OnboardAction::Respond(Err(e))),
        Ok(()) => {},
    }
    let code = match data.entry_code {
        Some(c) => c,
        None => return (onboarding, OnboardAction::Respond(Err(Error::InvalidEntryCode))),
    };
    let invitation = match db.fetch_invitation(code.as_str()) {
        Ok(inv) => inv,
        Err(_) => return (onboarding, OnboardAction::Respond(Err(Error::InvalidEntryCode))),
    };
    if invitation.used {
        return (onboarding, OnboardAction::Respond(Err(Error::InvalidEntryCode)));
    }
    let ghost before = db@;
    match db.mark_invitation_used(code.as_str(), account_id.as_str()) {
        Err(e) => return (onboarding, OnboardAction::Respond(Err(e))),
        Ok(()) => {},
    }
    proof { crate::reference::lemma_fetch_after_mark(before, code@, account_id@); }
    onboarding.code = code;
    onboarding.account_id = account_id.clone();
    onboarding.stage = OnboardStage::CreatingUser;
    (onboarding, OnboardAction::CreateUser { username: data.username, account_id })
}

/// Answer of the account healing.
#[derive(Debug)]
pub struct HealResult {
    /// Whether a studio was created
    pub healed: bool,
    /// The studio server: the one found or the one created
    pub server_id: Option<String>,
}

/// Whether a server name marks a client's studio: its lowercase form
/// contains "studio".
pub open spec fn is_studio_name(name: Seq<char>) -> bool {
    seq_contains(lowercase(name), "studio"@)
}

/// `i` is the first server of `servers` that is a studio.
pub open spec fn is_first_studio(servers: Seq<Server>, i: int) -> bool {
    &&& 0 <= i < servers.len()
    &&& is_studio_name(servers[i].name@)
    &&& forall|j: int| 0 <= j < i ==> !is_studio_name(#[trigger] servers[j].name@)
}

/// The ID of the first server that is a studio, if any.
pub fn find_studio(servers: &Vec<Server>) -> (res: Option<String>)
    ensures
        match res {
            Some(id) => exists|i: int| is_first_studio(servers@, i) && servers@[i].id == id,
            None => forall|i: int| 0 <= i < servers@.len() ==> !is_studio_name(#[trigger] servers@[i].name@),
        },
{
    let n = servers.len();
    let mut i: usize = 0;
    while i < n
        invariant
            n == servers@.len(),
            i <= n,
            forall|j: int| 0 <= j < i ==> !is_studio_name(#[trigger] servers@[j].name@),
        decreases n - i,
    {
        let lower = to_lowercase(servers[i].name.as_str());
        if str_contains(lower.as_str(), "studio") {
            assert(is_first_studio(servers@, i as int));
            return Some(servers[i].id.clone());
        }
        i = i + 1;
    }
    None
}

/// The servers of a list of memberships, in the same order.
pub fn member_servers(memberships: &Vec<Member>) -> (ids: Vec<String>)
    ensures
        ids@.len() == memberships@.len(),
        forall|i: int| 0 <= i < ids@.len() ==> #[trigger] ids@[i] == memberships@[i].id.server,
{
    let n = memberships.len();
    let mut ids: Vec<String> = Vec::new();
    let mut i: usize = 0;
    while i < n
        invariant
            n == memberships@.len(),
            i <= n,
            ids@.len() == i,
            forall|k: int| 0 <= k < i ==> #[trigger] ids@[k] == memberships@[k].id.server,
        decreases n - i,
    {
        ids.push(memberships[i].id.server.clone());
        i = i + 1;
    }
    ids
}

/// Where healing an account stands.
#[derive(Debug)]
pub enum HealStage {
    /// Listing the account's memberships
    FetchingMemberships,
    /// Fetching the servers the account belongs to
    FetchingServers,
    /// Creating the studio server
    CreatingServer,
    /// Setting up the studio
    Provisioning,
    /// Answered
    Done,
}

/// What came back from the last action of a healing.
#[derive(Debug)]
pub enum HealEvent {
    MembershipsFetched(Result<Vec<Member>, Error>),
    ServersFetched(Result<Vec<Server>, Error>),
    ServerCreated(Result<String, Error>),
    Provision(ProvisionEvent),
}

/// The next thing a healing asks to be done.
#[derive(Debug)]
pub enum HealAction {
    FetchMemberships { user_id: String },
    FetchServers { server_ids: Vec<String> },
    CreateServer { owner_id: String, data: DataCreateServer },
    Provision(ProvisionAction),
    Respond(Result<HealResult, Error>),
}

/// Healing an account: if none of its servers is a studio, one is created
/// and set up.
#[derive(Debug)]
pub struct Healing {
    /// The account being healed
    pub user: User,
    pub stage: HealStage,
    /// The studio set-up, once the server exists
    pub provisioning: Option<Provisioning>,
}

/// Answer of a healing that found a studio.
pub open spec fn found_studio(id: String) -> Result<HealResult, Error> {
    Ok(HealResult { healed: false, server_id: Some(id) })
}

impl Healing {
    pub open spec fn wf(&self) -> bool {
        self.stage is Provisioning ==> self.provisioning is Some && self.provisioning.unwrap().wf()
    }

    /// Whether the healing awaits `event`.
    pub open spec fn expects(&self, event: HealEvent) -> bool {
        match (self.stage, event) {
            (HealStage::FetchingMemberships, HealEvent::MembershipsFetched(_)) => true,
            (HealStage::FetchingServers, HealEvent::ServersFetched(_)) => true,
            (HealStage::CreatingServer, HealEvent::ServerCreated(_)) => true,
            (HealStage::Provisioning, HealEvent::Provision(e)) => self.provisioning.unwrap().expects(e),
            _ => false,
        }
    }

    /// Whether the healing awaits `event`.
    pub fn expects_event(&self, event: &HealEvent) -> (res: bool)
        requires
            self.wf(),
        ensures
            res == self.expects(*event),
    {
        match (&self.stage, event) {
            (HealStage::FetchingMemberships, HealEvent::MembershipsFetched(_)) => true,
            (HealStage::FetchingServers, HealEvent::ServersFetched(_)) => true,
            (HealStage::CreatingServer, HealEvent::ServerCreated(_)) => true,
            (HealStage::Provisioning, HealEvent::Provision(e)) => match &self.provisioning {
                Some(p) => p.expects_event(e),
                None => false,
            },
            _ => false,
        }
    }

    /// The request creating this account's studio server.
    fn create_server(&mut self) -> (action: HealAction)
        ensures
            final(self).user == old(self).user,
            final(self).provisioning == old(self).provisioning,
            final(self).stage is CreatingServer,
            action matches HealAction::CreateServer { owner_id, data } && owner_id == old(self).user.id
                && data.name@ == studio_name(old(self).user.username@) && data.description is None && data.nsfw is None,
    {
        self.stage = HealStage::CreatingServer;
        HealAction::CreateServer {
            owner_id: self.user.id.clone(),
            data: DataCreateServer { name: concat2(self.user.username.as_str(), "'s Studio"), description: None, nsfw: None },
        }
    }

    /// Advances the healing with the outcome of its last action.
    pub fn advance(&mut self, event: HealEvent) -> (action: HealAction)
        requires
            old(self).wf(),
            old(self).expects(event),
        ensures
            final(self).wf(),
            final(self).user == old(self).user,
            final(self).stage is Done <==> action is Respond,
            match (old(self).stage, event) {
                (HealStage::FetchingMemberships, HealEvent::MembershipsFetched(Err(e))) => action == HealAction::Respond(Err(e)),
                (HealStage::FetchingMemberships, HealEvent::MembershipsFetched(Ok(ms))) => {
                    if ms@.len() == 0 {
                        &&& final(self).stage is CreatingServer
                        &&& action matches HealAction::CreateServer { owner_id, data }
                        &&& owner_id == old(self).user.id
                        &&& data.name@ == studio_name(old(self).user.username@)
                        &&& data.description is None && data.nsfw is None
                    } else {
                        &&& final(self).stage is FetchingServers
                        &&& action matches HealAction::FetchServers { server_ids }
                        &&& server_ids@.len() == ms@.len()
                        &&& forall|i: int| 0 <= i < ms@.len() ==> #[trigger] server_ids@[i] == ms@[i].id.server
                    }
                },
                (HealStage::FetchingServers, HealEvent::ServersFetched(Err(e))) => action == HealAction::Respond(Err(e)),
                (HealStage::FetchingServers, HealEvent::ServersFetched(Ok(servers))) => {
                    if exists|i: int| 0 <= i < servers@.len() && is_studio_name(#[trigger] servers@[i].name@) {
                        // a studio exists: nothing is created
                        exists|i: int| is_first_studio(servers@, i) && action == HealAction::Respond(found_studio(servers@[i].id))
                    } else {
                        &&& final(self).stage is CreatingServer
                        &&& action matches HealAction::CreateServer { owner_id, data }
                        &&& owner_id == old(self).user.id
                        &&& data.name@ == studio_name(old(self).user.username@)
                        &&& data.description is None && data.nsfw is None
                    }
                },
                (HealStage::CreatingServer, HealEvent::ServerCreated(Err(e))) => action == HealAction::Respond(Err(e)),
                (HealStage::CreatingServer, HealEvent::ServerCreated(Ok(server_id))) => {
                    &&& final(self).stage is Provisioning
                    &&& final(self).provisioning.unwrap().server_id == server_id
                    &&& final(self).provisioning.unwrap().client_id == old(self).user.id
                    &&& final(self).provisioning.unwrap().stage == ProvisionStage::CreatingChannel(0)
                    &&& final(self).provisioning.unwrap().bot_channel is None
                    &&& final(self).provisioning.unwrap().bot_user is None
                    &&& final(self).provisioning.unwrap().plan.channel_names() == healing_channels()
                    &&& final(self).provisioning.unwrap().plan.welcome@ == welcome_text(old(self).user.username@)
                    &&& action matches HealAction::Provision(ProvisionAction::CreateChannel { server_id: s, data })
                    &&& s == server_id
                    &&& data.name@ == healing_channels()[0]
                    &&& data.channel_type is Text && data.description is None && data.nsfw is None
                },
                (HealStage::Provisioning, HealEvent::Provision(e)) => {
                    &&& final(self).provisioning is Some
                    &&& if final(self).provisioning.unwrap().stage is Finished {
                        &&& provision_step(old(self).provisioning.unwrap(), e, final(self).provisioning.unwrap(), ProvisionAction::Finished)
                        &&& action == HealAction::Respond(Ok(HealResult {
                            healed: true,
                            server_id: Some(old(self).provisioning.unwrap().server_id),
                        }))
                    } else {
                        &&& action matches HealAction::Provision(a)
                        &&& provision_step(old(self).provisioning.unwrap(), e, final(self).provisioning.unwrap(), a)
                    }
                },
                _ => false,
            },
    {
        match event {
            HealEvent::MembershipsFetched(Err(e)) => {
                self.stage = HealStage::Done;
                HealAction::Respond(Err(e))
            },
            HealEvent::MembershipsFetched(Ok(ms)) => {
                let server_ids = member_servers(&ms);
                if server_ids.len() == 0 {
                    self.create_server()
                } else {
                    self.stage = HealStage::FetchingServers;
                    HealAction::FetchServers { server_ids }
                }
            },
            HealEvent::ServersFetched(Err(e)) => {
                self.stage = HealStage::Done;
                HealAction::Respond(Err(e))
            },
            HealEvent::ServersFetched(Ok(servers)) => {
                match find_studio(&servers) {
                    Some(id) => {
                        self.stage = HealStage::Done;
                        HealAction::Respond(Ok(HealResult { healed: false, server_id: Some(id) }))
                    },
                    None => self.create_server(),
                }
            },
            HealEvent::ServerCreated(Err(e)) => {
                self.stage = HealStage::Done;
                HealAction::Respond(Err(e))
            },
            HealEvent::ServerCreated(Ok(server_id)) => {
                let plan = StudioPlan::for_healing(self.user.username.as_str());
                let (p, a) = Provisioning::start(plan, server_id, self.user.id.clone());
                self.provisioning = Some(p);
                self.stage = HealStage::Provisioning;
                HealAction::Provision(a)
            },
            HealEvent::Provision(e) => {
                let mut p = self.provisioning.take().unwrap();
                let a = p.advance(e);
                let finished = p.stage.is_finished();
                let server_id = p.server_id.clone();
                self.provisioning = Some(p);
                if finished {
                    self.stage = HealStage::Done;
                    HealAction::Respond(Ok(HealResult { healed: true, server_id: Some(server_id) }))
                } else {
                    HealAction::Provision(a)
                }
            },
        }
    }
}

/// # Heal Account
///
/// Creates the client's studio server and channels if they don't already
/// have one. Safe to call multiple times: does nothing if the studio already
/// exists. The returned action is the first step; `Healing::advance` takes
/// it from there.
pub fn heal(user: User) -> (res: (Healing, HealAction))
    ensures
        res.0.wf(),
        res.0.user == user,
        res.0.stage is FetchingMemberships,
        res.1 == (HealAction::FetchMemberships { user_id: user.id }),
{
    let user_id = user.id.clone();
    (Healing { user, stage: HealStage::FetchingMemberships, provisioning: None }, HealAction::FetchMemberships { user_id })
}

/// Some server of `servers` up to position `k` is the first studio, when
/// the server at `k` is one.
proof fn lemma_first_studio_exists(servers: Seq<Server>, k: int)
    requires
        0 <= k < servers.len(),
        is_studio_name(servers[k].name@),
    ensures
        exists|i: int| i <= k && is_first_studio(servers, i),
    decreases k,
{
    if exists|j: int| 0 <= j < k && is_studio_name(#[trigger] servers[j].name@) {
        let j = choose|j: int| 0 <= j < k && is_studio_name(#[trigger] servers[j].name@);
        lemma_first_studio_exists(servers, j);
    } else {
        assert(is_first_studio(servers, k));
    }
}

/// Healing is safe to call again: when a later healing fetches a list of
/// servers holding the studio an earlier one created for `username`, it
/// finds a studio at or before it, so `Healing::advance` answers with that
/// studio and creates nothing. This holds whenever the lowercase form of the
/// studio name contains "studio", which is the law's condition.
pub proof fn lemma_second_heal_finds_studio(servers: Seq<Server>, k: int, username: Seq<char>)
    requires
        0 <= k < servers.len(),
        servers[k].name@ == studio_name(username),
        is_studio_name(studio_name(username)),
    ensures
        exists|i: int| 0 <= i < servers.len() && is_studio_name(#[trigger] servers[i].name@),
        exists|i: int| i <= k && is_first_studio(servers, i),
{
    lemma_first_studio_exists(servers, k);
}

/// Invitations are single-use: once the invitation with code `c` has been
/// redeemed (by any onboarding, including one running alongside), the code
/// is no longer redeemable, so the signup check answers `NotFound`, and both
/// the start of an onboarding and the redeeming step of one already under
/// way answer `InvalidEntryCode` for it; and the
/// redeeming account is known as the redeemer of an invitation, so it can
/// read its invitation back.
pub proof fn lemma_redeemed_code_is_spent(s: Seq<crate::invitations::InvitationView>, c: Seq<char>, u: Seq<char>)
    requires
        crate::reference::codes_distinct(s),
        has_code(s, c),
    ensures
        !redeemable(mark_used(s, c, u), c),
        crate::reference::has_redeemer(mark_used(s, c, u), u),
{
    crate::reference::lemma_fetch_after_mark(s, c, u);
}

/// An invitation is taken by one request at a time: once `complete` has
/// taken the code `c` for the account `a` (or the user `a` has redeemed
/// it), `a` holds it, every further start with `c` is refused with
/// `InvalidEntryCode` before any user is requested, and no other account's
/// redeeming step may go on with it.
pub proof fn lemma_code_admits_one_account(s: Seq<crate::invitations::InvitationView>, c: Seq<char>, a: Seq<char>, b: Seq<char>)
    requires
        crate::reference::codes_distinct(s),
        has_code(s, c),
        a != b,
    ensures
        held_by(mark_used(s, c, a), c, a),
        !redeemable(mark_used(s, c, a), c),
        !redeemable_by(mark_used(s, c, a), c, b),
{
    crate::reference::lemma_fetch_after_mark(s, c, a);
}

/// A signup whose user could not be created leaves the invitations as they
/// were: the unused invitation `c` taken for the account `a` is handed back
/// by its failure step, and can be redeemed again.
pub proof fn lemma_failed_signup_returns_code(s: Seq<crate::invitations::InvitationView>, c: Seq<char>, a: Seq<char>)
    requires
        crate::reference::codes_distinct(s),
        lookup(s, c) matches Some(v) && !v.used && v.used_by is None,
    ensures
        held_by(mark_used(s, c, a), c, a),
        mark_unused(mark_used(s, c, a), c) == s,
        redeemable(mark_unused(mark_used(s, c, a), c), c),
{
    crate::reference::lemma_fetch_after_mark(s, c, a);
    crate::reference::lemma_release_undoes_mark(s, c, a);
}

/// Redeeming depends on the redemption state alone, whatever else the
/// invitation holds (email, creator, creation time, vertical, metadata):
/// an invitation just stored unused can start an onboarding and be redeemed
/// by any account; an invitation an onboarding took for the account `a` is
/// redeemed for `a`'s new user by its redeeming step.
pub proof fn lemma_redeeming_ignores_other_fields(
    s: Seq<crate::invitations::InvitationView>,
    v: crate::invitations::InvitationView,
    c: Seq<char>,
    a: Seq<char>,
    b: Seq<char>,
)
    requires
        crate::reference::codes_distinct(s),
    ensures
        !has_code(s, v.code) && !v.used ==> redeemable(s.push(v), v.code) && redeemable_by(s.push(v), v.code, b),
        has_code(s, c) && !lookup(s, c).unwrap().used ==> redeemable(s, c) && redeemable_by(s, c, b),
        has_code(s, c) ==> redeemable_by(mark_used(s, c, a), c, a) && held_by(mark_used(s, c, a), c, a),
{
    if !has_code(s, v.code) {
        crate::reference::lemma_fetch_after_insert(s, v);
    }
    if has_code(s, c) {
        crate::reference::lemma_fetch_after_mark(s, c, a);
    }
}

/// A server is taken for a studio exactly when the lowercase form of its
/// name holds "studio" as a run of characters: when some server's does,
/// healing finds a studio at or before it; a server found as the studio
/// always has such a name; and a healing that finds one answers that
/// nothing was healed, naming the server found.
pub proof fn lemma_studio_found_by_lowercase_name(servers: Seq<Server>, k: int, id: String)
    ensures
        0 <= k < servers.len() && (exists|p: int|
            0 <= p && p + "studio"@.len() <= lowercase(servers[k].name@).len()
            && #[trigger] lowercase(servers[k].name@).subrange(p, p + "studio"@.len()) == "studio"@)
            ==> exists|i: int| i <= k && is_first_studio(servers, i),
        forall|i: int| #[trigger] is_first_studio(servers, i) ==> exists|p: int|
            0 <= p && p + "studio"@.len() <= lowercase(servers[i].name@).len()
            && #[trigger] lowercase(servers[i].name@).subrange(p, p + "studio"@.len()) == "studio"@,
        found_studio(id) matches Ok(r) && !r.healed && r.server_id == Some(id),
{
    if 0 <= k < servers.len() && (exists|p: int|
        0 <= p && p + "studio"@.len() <= lowercase(servers[k].name@).len()
        && #[trigger] lowercase(servers[k].name@).subrange(p, p + "studio"@.len()) == "studio"@) {
        lemma_first_studio_exists(servers, k);
    }
}

/// A username is accepted exactly when it has 2 to 32 characters and
/// matches the username pattern.
pub proof fn lemma_username_rules(name: Seq<char>)
    ensures
        valid_username(name) <==> (2 <= name.len() <= 32 && regex_compiles(USERNAME_PATTERN@)
            && regex_matches(USERNAME_PATTERN@, name)),
{
}

} // verus!

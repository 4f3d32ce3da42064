use vstd::prelude::*;
use crate::error::Error;
use crate::invitations::opt_view;
use crate::models::User;
use crate::reference::{AbstractInvitations, ReferenceDb, has_redeemer, is_first_redeemed_by};

verus! {

/// The invitation an account was created with, as shown to its owner.
#[derive(Debug)]
pub struct InvitationResponse {
    pub vertical: Option<String>,
    /// Intake form metadata, as JSON text
    pub metadata: Option<String>,
}

/// # Fetch Own Invitation
///
/// Returns the invitation used to create this account, including vertical
/// and intake metadata.
pub fn fetch_invitation(user: &User, db: &ReferenceDb) -> (res: Result<InvitationResponse, Error>)
    ensures
        res is Ok <==> has_redeemer(db@, user.id@),
        res matches Ok(r) ==> exists|i: int| {
            &&& is_first_redeemed_by(db@, user.id@, i)
            &&& opt_view(r.vertical) == db@[i].vertical
            &&& opt_view(r.metadata) == db@[i].metadata
        },
        res matches Err(e) ==> e is NotFound,
{
    let inv = db.fetch_invitation_by_user(user.id.as_str())?;
    Ok(InvitationResponse { vertical: inv.vertical, metadata: inv.metadata })
}

/// What came back from the last action of a user listing.
#[derive(Debug)]
pub enum ListAllEvent {
    /// The instance's users, or the failure to read them
    UsersFetched(Result<Vec<User>, Error>),
}

/// The next thing a user listing asks to be done.
#[derive(Debug)]
pub enum ListAllAction {
    /// Read all users of the instance
    FetchAllUsers,
    Respond(Result<Vec<User>, Error>),
}

/// Where a user listing stands.
#[derive(Debug)]
pub enum ListAllStage {
    FetchingUsers,
    Done,
}

/// A user listing under way.
#[derive(Debug)]
pub struct ListAllRequest {
    pub stage: ListAllStage,
}

/// # List All Users
///
/// Returns all users on the instance. Requires privileged access: other
/// callers are refused before any user is read. The returned action is the
/// first step; `ListAllRequest::advance` takes it from there.
pub fn list_all(user: &User) -> (res: (ListAllRequest, ListAllAction))
    ensures
        res.0.stage is Done <==> res.1 is Respond,
        !user.privileged ==> (res.1 matches ListAllAction::Respond(Err(e)) && e is NotPrivileged),
        user.privileged ==> res.0.stage is FetchingUsers && res.1 is FetchAllUsers,
{
    if !user.privileged {
        return (ListAllRequest { stage: ListAllStage::Done }, ListAllAction::Respond(Err(Error::NotPrivileged)));
    }
    (ListAllRequest { stage: ListAllStage::FetchingUsers }, ListAllAction::FetchAllUsers)
}

impl ListAllRequest {
    /// Whether the listing awaits `event`.
    pub open spec fn expects(&self, event: ListAllEvent) -> bool {
        self.stage is FetchingUsers
    }

    /// Whether the listing awaits `event`.
    pub fn expects_event(&self, event: &ListAllEvent) -> (res: bool)
        ensures
            res == self.expects(*event),
    {
        match self.stage {
            ListAllStage::FetchingUsers => true,
            ListAllStage::Done => false,
        }
    }

    /// Answers with the users read, or with the failure to read them.
    pub fn advance(&mut self, event: ListAllEvent) -> (action: ListAllAction)
        requires
            old(self).expects(event),
        ensures
            final(self).stage is Done,
            match event {
                ListAllEvent::UsersFetched(r) => action == ListAllAction::Respond(r),
            },
    {
        self.stage = ListAllStage::Done;
        match event {
            ListAllEvent::UsersFetched(r) => ListAllAction::Respond(r),
        }
    }
}

} // verus!

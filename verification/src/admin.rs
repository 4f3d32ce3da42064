use vstd::prelude::*;
use crate::error::Error;
use crate::invitations::{Invitation, InvitationView, is_invitation_code, opt_view};
use crate::models::User;
use crate::reference::{AbstractInvitations, ReferenceDb, has_code, lookup, index_of};
use crate::text::concat3;

verus! {

/// Where signup links point unless the request names another page.
pub const SIGNUP_BASE: &'static str = "https://hub2.apricotter.com/signup";

/// Answer of the invitation check.
#[derive(Debug)]
pub struct CheckResponse {
    pub valid: bool,
    pub email: String,
}

/// # Check Invitation
///
/// Validate an invitation code and return the associated email. Public
/// endpoint used by the signup page. Unknown and redeemed codes are both
/// answered with `NotFound`.
pub fn check_invitation(db: &ReferenceDb, code: String) -> (res: Result<CheckResponse, Error>)
    ensures
        res is Ok <==> (lookup(db@, code@) matches Some(inv) && !inv.used),
        res matches Ok(r) ==> r.valid && r.email@ == lookup(db@, code@).unwrap().email,
        res matches Err(e) ==> e is NotFound,
{
    let inv = match db.fetch_invitation(code.as_str()) {
        Ok(inv) => inv,
        Err(_) => return Err(Error::NotFound),
    };
    if inv.used {
        return Err(Error::NotFound);
    }
    Ok(CheckResponse { valid: true, email: inv.email })
}

/// Body of an invitation request.
#[derive(Debug)]
pub struct DataCreateInvitation {
    /// Email address the invitation is for
    pub email: String,
    /// Client vertical
    pub vertical: Option<String>,
    /// Intake form metadata, as JSON text
    pub metadata: Option<String>,
    /// Signup page to link to, in place of `SIGNUP_BASE`
    pub signup_base: Option<String>,
}

/// Answer of the invitation request.
#[derive(Debug)]
pub struct InvitationResponse {
    pub code: String,
    pub email: String,
    pub signup_url: String,
}

/// The signup link for a code: `{base}?code={code}`.
pub open spec fn signup_link(base: Seq<char>, code: Seq<char>) -> Seq<char> {
    base + "?code="@ + code
}

/// Builds the signup link for a code.
pub fn signup_url(base: &str, code: &str) -> (url: String)
    ensures
        url@ == signup_link(base@, code@),
{
    concat3(base, "?code=", code)
}

/// The signup page a request links to.
pub open spec fn signup_base_of(data_base: Option<Seq<char>>) -> Seq<char> {
    match data_base {
        Some(b) => b,
        None => SIGNUP_BASE@,
    }
}

/// The invitation a privileged user's request describes, before its code
/// and creation time are drawn.
pub open spec fn requested_invitation(inv: InvitationView, user: User, data: DataCreateInvitation) -> bool {
    &&& inv.email == data.email@
    &&& inv.created_by == user.id@
    &&& !inv.used
    &&& inv.used_by is None
    &&& inv.vertical == opt_view(data.vertical)
    &&& inv.metadata == opt_view(data.metadata)
}

/// The error a refused invitation insert answers with.
pub open spec fn is_insert_error(e: Error) -> bool {
    e matches Error::DatabaseError { operation, collection } && operation@ == "insert"@ && collection@ == "invitation"@
}

/// Stores a freshly issued invitation and answers with its signup link.
pub fn register_invitation(
    db: &mut ReferenceDb,
    invitation: Invitation,
    signup_base: Option<String>,
) -> (res: Result<InvitationResponse, Error>)
    ensures
        res is Ok <==> !has_code(old(db)@, invitation.code@),
        res is Ok ==> final(db)@ == old(db)@.push(invitation@),
        res matches Ok(r) ==> {
            &&& r.code@ == invitation.code@
            &&& r.email@ == invitation.email@
            &&& r.signup_url@ == signup_link(signup_base_of(opt_view(signup_base)), invitation.code@)
        },
        res matches Err(e) ==> final(db)@ == old(db)@ && is_insert_error(e),
{
    db.insert_invitation(&invitation)?;
    let url = match &signup_base {
        Some(b) => signup_url(b.as_str(), invitation.code.as_str()),
        None => signup_url(SIGNUP_BASE, invitation.code.as_str()),
    };
    Ok(InvitationResponse { code: invitation.code, email: invitation.email, signup_url: url })
}

/// # Create Invitation
///
/// Generate a single-use signup invitation for an email address. Requires
/// privileged access.
pub fn create_invitation(
    db: &mut ReferenceDb,
    user: &User,
    data: DataCreateInvitation,
) -> (res: Result<InvitationResponse, Error>)
    ensures
        !user.privileged ==> (res matches Err(e) && e is NotPrivileged && final(db)@ == old(db)@),
        res matches Ok(r) ==> {
            &&& user.privileged
            &&& is_invitation_code(r.code@)
            &&& r.email@ == data.email@
            &&& r.signup_url@ == signup_link(signup_base_of(opt_view(data.signup_base)), r.code@)
            &&& !has_code(old(db)@, r.code@)
            &&& final(db)@.len() == old(db)@.len() + 1
            &&& final(db)@.drop_last() == old(db)@
            &&& final(db)@.last().code == r.code@
            &&& requested_invitation(final(db)@.last(), *user, data)
            &&& crate::invitations::is_utc_millis_text(final(db)@.last().created_at)
        },
        user.privileged && res is Err ==> (res matches Err(e) && is_insert_error(e) && final(db)@ == old(db)@),
{
    if !user.privileged {
        return Err(Error::NotPrivileged);
    }
    let DataCreateInvitation { email, vertical, metadata, signup_base } = data;
    let invitation = Invitation::new(email, user.id.clone(), vertical, metadata);
    let res = register_invitation(db, invitation, signup_base);
    proof {
        if res is Ok {
            assert(final(db)@.drop_last() =~= old(db)@);
        }
    }
    res
}

/// Answer of the invitation removal.
#[derive(Debug)]
pub struct DeleteResponse {
    pub deleted: bool,
}

/// # Delete Invitation
///
/// Revoke an invitation by its code. Requires privileged access.
pub fn delete_invitation(db: &mut ReferenceDb, user: &User, code: String) -> (res: Result<DeleteResponse, Error>)
    ensures
        res is Ok <==> user.privileged && has_code(old(db)@, code@),
        res matches Ok(r) ==> r.deleted && final(db)@ == old(db)@.remove(index_of(old(db)@, code@)),
        res matches Err(e) ==> final(db)@ == old(db)@ && (if user.privileged { e is NotFound } else { e is NotPrivileged }),
{
    if !user.privileged {
        return Err(Error::NotPrivileged);
    }
    db.delete_invitation(code.as_str())?;
    Ok(DeleteResponse { deleted: true })
}

/// One invitation as listed to administrators.
#[derive(Debug)]
pub struct InvitationRecord {
    pub code: String,
    pub email: String,
    pub created_by: String,
    pub used: bool,
    pub used_by: Option<String>,
    /// Creation time as ISO 8601 text
    pub created_at: String,
    pub vertical: Option<String>,
    /// Intake form metadata, as JSON text
    pub metadata: Option<String>,
}

/// Whether a listed record shows exactly the invitation `inv`.
pub open spec fn record_shows(r: InvitationRecord, inv: InvitationView) -> bool {
    &&& r.code@ == inv.code
    &&& r.email@ == inv.email
    &&& r.created_by@ == inv.created_by
    &&& r.used == inv.used
    &&& opt_view(r.used_by) == inv.used_by
    &&& r.created_at@ == inv.created_at
    &&& opt_view(r.vertical) == inv.vertical
    &&& opt_view(r.metadata) == inv.metadata
}

/// The listed form of an invitation.
pub fn record_of(inv: Invitation) -> (r: InvitationRecord)
    ensures
        record_shows(r, inv@),
{
    InvitationRecord {
        code: inv.code,
        email: inv.email,
        created_by: inv.created_by,
        used: inv.used,
        used_by: inv.used_by,
        created_at: inv.created_at,
        vertical: inv.vertical,
        metadata: inv.metadata,
    }
}

/// # List Invitations
///
/// Returns all invitations, in the order they were created. Requires
/// privileged access.
pub fn list_invitations(db: &ReferenceDb, user: &User) -> (res: Result<Vec<InvitationRecord>, Error>)
    ensures
        res is Ok <==> user.privileged,
        res matches Ok(records) ==> {
            &&& records@.len() == db@.len()
            &&& forall|i: int| 0 <= i < db@.len() ==> record_shows(#[trigger] records@[i], db@[i])
        },
        res matches Err(e) ==> e is NotPrivileged,
{
    if !user.privileged {
        return Err(Error::NotPrivileged);
    }
    let all = match db.fetch_all_invitations() {
        Ok(all) => all,
        Err(e) => return Err(e),
    };
    let ghost views = all@.map_values(|inv: Invitation| inv@);
    let mut records: Vec<InvitationRecord> = Vec::new();
    let mut rest = all;
    let ghost total = rest@;
    let n = rest.len();
    let mut i: usize = 0;
    // Taking from the back keeps each step O(1); records are built reversed.
    while i < n
        invariant
            n == total.len(),
            i <= n,
            rest@ == total.subrange(0, n - i),
            records@.len() == i,
            forall|k: int| 0 <= k < i ==> record_shows(#[trigger] records@[k], total[n - 1 - k]@),
        decreases n - i,
    {
        let inv = rest.pop().unwrap();
        assert(inv == total[n - 1 - i]);
        records.push(record_of(inv));
        assert(rest@ =~= total.subrange(0, n - i - 1));
        i = i + 1;
    }
    let mut out: Vec<InvitationRecord> = Vec::new();
    let mut j: usize = 0;
    while j < n
        invariant
            n == total.len(),
            records@.len() == n - j,
            j <= n,
            out@.len() == j,
            forall|k: int| 0 <= k < n - j ==> record_shows(#[trigger] records@[k], total[n - 1 - k]@),
            forall|k: int| 0 <= k < j ==> record_shows(#[trigger] out@[k], total[k]@),
        decreases n - j,
    {
        let r = records.pop().unwrap();
        out.push(r);
        j = j + 1;
    }
    assert forall|i: int| 0 <= i < db@.len() implies record_shows(#[trigger] out@[i], db@[i]) by {
        assert(views[i] == total[i]@);
    }
    Ok(out)
}

/// A listed record carries each field of its invitation under the field of
/// the same name: code, email, creator, whether and by whom it was
/// redeemed, creation time, vertical and metadata.
pub proof fn lemma_record_fields(r: InvitationRecord, inv: InvitationView)
    requires
        record_shows(r, inv),
    ensures
        r.code@ == inv.code,
        r.email@ == inv.email,
        r.created_by@ == inv.created_by,
        r.used == inv.used,
        opt_view(r.used_by) == inv.used_by,
        r.created_at@ == inv.created_at,
        opt_view(r.vertical) == inv.vertical,
        opt_view(r.metadata) == inv.metadata,
{
}

/// An invitation created by a privileged user's request and then listed
/// shows the requested email under `email`, the requesting user under
/// `created_by`, no redemption, and the requested vertical and metadata.
pub proof fn lemma_created_invitation_lists_request(
    r: InvitationRecord,
    inv: InvitationView,
    user: User,
    data: DataCreateInvitation,
)
    requires
        requested_invitation(inv, user, data),
        record_shows(r, inv),
    ensures
        r.email@ == data.email@,
        r.created_by@ == user.id@,
        !r.used,
        r.used_by is None,
        opt_view(r.vertical) == opt_view(data.vertical),
        opt_view(r.metadata) == opt_view(data.metadata),
{
}

/// A signup link starts with the signup page, which is the request's own
/// page when it names one and `SIGNUP_BASE` otherwise, and ends with the
/// code, the two joined by `?code=`.
pub proof fn lemma_signup_link_parts(base: Option<Seq<char>>, code: Seq<char>)
    ensures
        base is Some ==> signup_base_of(base) == base.unwrap(),
        base is None ==> signup_base_of(base) == SIGNUP_BASE@,
        ({
            let b = signup_base_of(base);
            let link = signup_link(b, code);
            &&& link.len() == b.len() + "?code="@.len() + code.len()
            &&& link.subrange(0, b.len() as int) == b
            &&& link.subrange(b.len() as int, (b.len() + "?code="@.len()) as int) == "?code="@
            &&& link.subrange(link.len() - code.len(), link.len() as int) == code
        }),
{
    let b = signup_base_of(base);
    let link = signup_link(b, code);
    assert(link.subrange(0, b.len() as int) =~= b);
    assert(link.subrange(b.len() as int, (b.len() + "?code="@.len()) as int) =~= "?code="@);
    assert(link.subrange(link.len() - code.len(), link.len() as int) =~= code);
}

} // verus!

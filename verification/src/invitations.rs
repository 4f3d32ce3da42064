use vstd::prelude::*;

verus! {

/// Number of characters in an invitation code.
pub const CODE_LENGTH: usize = 8;

/// The characters an invitation code is drawn from: digits and letters,
/// leaving out those easily confused when read aloud or copied by hand
/// (`I`, `L`, `O`, `U` in both cases).
pub open spec fn code_alphabet() -> Seq<char> {
    seq![
        '0', '1', '2', '3', '4', '5', '6', '7', '8', '9', 'A', 'B', 'C', 'D', 'E', 'F', 'G', 'H',
        'J', 'K', 'M', 'N', 'P', 'Q', 'R', 'S', 'T', 'V', 'W', 'X', 'Y', 'Z', 'a', 'b', 'c', 'd',
        'e', 'f', 'g', 'h', 'j', 'k', 'm', 'n', 'p', 'q', 'r', 's', 't', 'v', 'w', 'x', 'y', 'z',
    ]
}

/// The code alphabet as an array.
pub fn alphabet() -> (a: [char; 54])
    ensures
        a@ == code_alphabet(),
{
    let a = [
        '0', '1', '2', '3', '4', '5', '6', '7', '8', '9', 'A', 'B', 'C', 'D', 'E', 'F', 'G', 'H',
        'J', 'K', 'M', 'N', 'P', 'Q', 'R', 'S', 'T', 'V', 'W', 'X', 'Y', 'Z', 'a', 'b', 'c', 'd',
        'e', 'f', 'g', 'h', 'j', 'k', 'm', 'n', 'p', 'q', 'r', 's', 't', 'v', 'w', 'x', 'y', 'z',
    ];
    assert(a@ =~= code_alphabet());
    a
}

/// A well-formed invitation code: `CODE_LENGTH` characters of the code alphabet.
pub open spec fn is_invitation_code(code: Seq<char>) -> bool {
    &&& code.len() == CODE_LENGTH
    &&& forall|i: int| 0 <= i < code.len() ==> code_alphabet().contains(#[trigger] code[i])
}

/// Registration invitation.
///
/// `created_at` holds the creation time as ISO 8601 text (UTC, millisecond
/// precision); `metadata` holds the intake form collected at invite time as
/// JSON text.
#[derive(Debug)]
pub struct Invitation {
    /// Unique invite code
    pub code: String,
    /// Email address this invitation was issued to
    pub email: String,
    /// ID of the privileged user who created this invitation
    pub created_by: String,
    /// Whether the invitation has been redeemed
    pub used: bool,
    /// ID of the user who redeemed this invitation
    pub used_by: Option<String>,
    /// When the invitation was created
    pub created_at: String,
    /// Client vertical (e.g. "author", "home_services")
    pub vertical: Option<String>,
    /// Intake form metadata collected at invite time
    pub metadata: Option<String>,
}

/// The contents of an invitation as mathematical values.
pub struct InvitationView {
    pub code: Seq<char>,
    pub email: Seq<char>,
    pub created_by: Seq<char>,
    pub used: bool,
    pub used_by: Option<Seq<char>>,
    pub created_at: Seq<char>,
    pub vertical: Option<Seq<char>>,
    pub metadata: Option<Seq<char>>,
}

/// The view of an optional string.
pub open spec fn opt_view(o: Option<String>) -> Option<Seq<char>> {
    match o {
        Some(s) => Some(s@),
        None => None,
    }
}

impl View for Invitation {
    type V = InvitationView;

    open spec fn view(&self) -> InvitationView {
        InvitationView {
            code: self.code@,
            email: self.email@,
            created_by: self.created_by@,
            used: self.used,
            used_by: opt_view(self.used_by),
            created_at: self.created_at@,
            vertical: opt_view(self.vertical),
            metadata: opt_view(self.metadata),
        }
    }
}

/// Copies an optional string.
pub fn clone_opt(o: &Option<String>) -> (res: Option<String>)
    ensures
        res == *o,
{
    match o {
        Some(s) => Some(s.clone()),
        None => None,
    }
}

impl Clone for Invitation {
    fn clone(&self) -> (res: Self)
        ensures
            res == *self,
    {
        Invitation {
            code: self.code.clone(),
            email: self.email.clone(),
            created_by: self.created_by.clone(),
            used: self.used,
            used_by: clone_opt(&self.used_by),
            created_at: self.created_at.clone(),
            vertical: clone_opt(&self.vertical),
            metadata: clone_opt(&self.metadata),
        }
    }
}

/// Draws a random identifier with `nanoid::format` from the operating
/// system's random source (`nanoid::rngs::default`).
///
/// Claimed of the outside function, as its source shows: every character of
/// the result is taken from `alphabet`, and characters are appended until the
/// result is `size` bytes long, which for an ASCII alphabet is `size`
/// characters. The function asserts that the alphabet has at most 255
/// characters and loops forever on an empty alphabet or a zero size; the
/// `requires` leaves those inputs out. Which characters are drawn is random
/// and is not stated.
#[verifier::external_body]
fn nanoid_format(alphabet: &[char], size: usize) -> (id: String)
    requires
        0 < alphabet@.len() <= 255,
        forall|i: int| 0 <= i < alphabet@.len() ==> (#[trigger] alphabet@[i] as u32) < 128,
        0 < size,
        8 * size <= usize::MAX,
    ensures
        id@.len() == size,
        forall|i: int| 0 <= i < id@.len() ==> alphabet@.contains(#[trigger] id@[i]),
{
    nanoid::format(nanoid::rngs::default, alphabet, size)
}

/// The shape of an ISO 8601 UTC time with milliseconds,
/// `YYYY-MM-DDTHH:MM:SS.sssZ`: its separators stand at their places.
pub open spec fn is_utc_millis_text(t: Seq<char>) -> bool {
    &&& t.len() == 24
    &&& t[4] == '-' && t[7] == '-' && t[10] == 'T'
    &&& t[13] == ':' && t[16] == ':' && t[19] == '.'
    &&& t[23] == 'Z'
}

/// The current time from `iso8601_timestamp::Timestamp::now_utc`, rendered
/// with the type's `Display` impl (ISO 8601, UTC, milliseconds).
///
/// Claimed, as the crate's source shows: `Display` fills the template
/// `+0000-00-00T00:00:00.000Z` and drops the leading sign for years from 0
/// on, which the current time (after 1970, as `now_utc` panics otherwise)
/// always is; so the text has the shape `YYYY-MM-DDTHH:MM:SS.sssZ`. Which
/// time it shows depends on the clock and is not stated.
#[verifier::external_body]
fn now_utc_text() -> (t: String)
    ensures
        is_utc_millis_text(t@),
{
    iso8601_timestamp::Timestamp::now_utc().to_string()
}

/// Generates a fresh random invitation code.
pub fn generate_code() -> (code: String)
    ensures
        is_invitation_code(code@),
{
    let a = alphabet();
    assert forall|i: int| 0 <= i < a@.len() implies (#[trigger] a@[i] as u32) < 128 by {
        assert(a@ == code_alphabet());
    }
    nanoid_format(a.as_slice(), CODE_LENGTH)
}

impl Invitation {
    /// Creates an unused invitation with a fresh random code, stamped with
    /// the current time.
    pub fn new(
        email: String,
        created_by: String,
        vertical: Option<String>,
        metadata: Option<String>,
    ) -> (res: Self)
        ensures
            is_invitation_code(res.code@),
            is_utc_millis_text(res.created_at@),
            res.email == email,
            res.created_by == created_by,
            !res.used,
            res.used_by is None,
            res.vertical == vertical,
            res.metadata == metadata,
    {
        let code = generate_code();
        let created_at = now_utc_text();
        Self::with_code(code, created_at, email, created_by, vertical, metadata)
    }

    /// Creates an unused invitation with the given code and creation time.
    pub fn with_code(
        code: String,
        created_at: String,
        email: String,
        created_by: String,
        vertical: Option<String>,
        metadata: Option<String>,
    ) -> (res: Self)
        ensures
            res == (Invitation {
                code,
                email,
                created_by,
                used: false,
                used_by: None,
                created_at,
                vertical,
                metadata,
            }),
    {
        Invitation { code, email, created_by, used: false, used_by: None, created_at, vertical, metadata }
    }
}

} // verus!

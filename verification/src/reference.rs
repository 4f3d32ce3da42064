use vstd::prelude::*;
use crate::error::Error;
use crate::greetings::Greeting;
use crate::invitations::{Invitation, InvitationView};
use crate::text::{owned, str_equal};

verus! {

/// Storage of registration invitations.
pub trait AbstractInvitations {
    /// Stores a new invitation.
    fn insert_invitation(&mut self, invitation: &Invitation) -> Result<(), Error>;

    /// The invitation with the given code.
    fn fetch_invitation(&self, code: &str) -> Result<Invitation, Error>;

    /// All stored invitations.
    fn fetch_all_invitations(&self) -> Result<Vec<Invitation>, Error>;

    /// The invitation redeemed by the given user.
    fn fetch_invitation_by_user(&self, user_id: &str) -> Result<Invitation, Error>;

    /// Marks an invitation as redeemed by the given user.
    fn mark_invitation_used(&mut self, code: &str, user_id: &str) -> Result<(), Error>;

    /// Removes an invitation.
    fn delete_invitation(&mut self, code: &str) -> Result<(), Error>;
}

/// Storage of onboarding greetings.
pub trait AbstractGreetings {
    /// Fetch the greeting for a given vertical, falling back to "default".
    fn fetch_greeting(&self, vertical: Option<&str>) -> Result<Greeting, Error>;
}

/// Whether some invitation in `s` has the code `code`.
pub open spec fn has_code(s: Seq<InvitationView>, code: Seq<char>) -> bool {
    exists|i: int| 0 <= i < s.len() && (#[trigger] s[i]).code == code
}

/// No two invitations in `s` share a code.
pub open spec fn codes_distinct(s: Seq<InvitationView>) -> bool {
    forall|i: int, j: int|
        0 <= i < s.len() && 0 <= j < s.len() && i != j ==> (#[trigger] s[i]).code != (#[trigger] s[j]).code
}

/// The position of the invitation with code `code` (meaningful when there is one).
pub open spec fn index_of(s: Seq<InvitationView>, code: Seq<char>) -> int {
    choose|i: int| 0 <= i < s.len() && (#[trigger] s[i]).code == code
}

/// The invitation with code `code`, if any.
pub open spec fn lookup(s: Seq<InvitationView>, code: Seq<char>) -> Option<InvitationView> {
    if has_code(s, code) {
        Some(s[index_of(s, code)])
    } else {
        None
    }
}

/// `v` after being redeemed by the user `user`.
pub open spec fn redeemed(v: InvitationView, user: Seq<char>) -> InvitationView {
    InvitationView { used: true, used_by: Some(user), ..v }
}

/// `s` with every invitation of code `code` redeemed by `user`.
pub open spec fn mark_used(s: Seq<InvitationView>, code: Seq<char>, user: Seq<char>) -> Seq<InvitationView> {
    Seq::new(s.len(), |k: int| if s[k].code == code { redeemed(s[k], user) } else { s[k] })
}

/// `v` handed back: unused, with no redeemer.
pub open spec fn unredeemed(v: InvitationView) -> InvitationView {
    InvitationView { used: false, used_by: None, ..v }
}

/// `s` with every invitation of code `code` handed back.
pub open spec fn mark_unused(s: Seq<InvitationView>, code: Seq<char>) -> Seq<InvitationView> {
    Seq::new(s.len(), |k: int| if s[k].code == code { unredeemed(s[k]) } else { s[k] })
}

/// Whether `user` redeemed some invitation of `s`.
pub open spec fn has_redeemer(s: Seq<InvitationView>, user: Seq<char>) -> bool {
    exists|i: int| 0 <= i < s.len() && (#[trigger] s[i]).used_by == Some(user)
}

/// `i` is the first position of `s` holding an invitation redeemed by `user`.
pub open spec fn is_first_redeemed_by(s: Seq<InvitationView>, user: Seq<char>, i: int) -> bool {
    &&& 0 <= i < s.len()
    &&& s[i].used_by == Some(user)
    &&& forall|j: int| 0 <= j < i ==> (#[trigger] s[j]).used_by != Some(user)
}

/// The in-memory reference database: the invitations collection, in the
/// order the invitations were inserted, with codes unique.
pub struct ReferenceDb {
    invitations: Vec<Invitation>,
}

impl View for ReferenceDb {
    type V = Seq<InvitationView>;

    closed spec fn view(&self) -> Seq<InvitationView> {
        self.invitations@.map_values(|inv: Invitation| inv@)
    }
}

impl ReferenceDb {
    /// The database's invariant: invitation codes are unique.
    #[verifier::type_invariant]
    spec fn codes_unique(&self) -> bool {
        codes_distinct(self@)
    }

    /// Invitation codes are unique; every database keeps this.
    pub open spec fn wf(&self) -> bool {
        codes_distinct(self@)
    }

    /// Empties the database and hands back its invitations.
    fn take_all(&mut self) -> (all: Vec<Invitation>)
        ensures
            all@.map_values(|inv: Invitation| inv@) == old(self)@,
            codes_distinct(old(self)@),
            final(self)@ == Seq::<InvitationView>::empty(),
    {
        proof { use_type_invariant(&*self); }
        let mut all: Vec<Invitation> = Vec::new();
        assert(all@.map_values(|inv: Invitation| inv@) =~= Seq::<InvitationView>::empty());
        std::mem::swap(&mut all, &mut self.invitations);
        assert(self@ =~= Seq::<InvitationView>::empty());
        all
    }

    /// An empty database.
    pub fn new() -> (db: Self)
        ensures
            db.wf(),
            db@ == Seq::<InvitationView>::empty(),
    {
        let db = ReferenceDb { invitations: Vec::new() };
        assert(db@ =~= Seq::<InvitationView>::empty());
        db
    }

    /// Number of stored invitations.
    pub fn len(&self) -> (n: usize)
        ensures
            n == self@.len(),
            self.wf(),
    {
        proof { use_type_invariant(self); }
        self.invitations.len()
    }

    /// Position of the invitation with the given code.
    fn find_code(&self, code: &str) -> (res: Option<usize>)
        ensures
            codes_distinct(self@),
            match res {
                Some(i) => i < self@.len() && self@[i as int].code == code@ && i == index_of(self@, code@),
                None => !has_code(self@, code@),
            },
    {
        proof { use_type_invariant(self); }
        let n = self.invitations.len();
        let mut i: usize = 0;
        while i < n
            invariant
                n == self.invitations@.len(),
                self@.len() == n,
                self.wf(),
                i <= n,
                forall|k: int| 0 <= k < i ==> (#[trigger] self@[k]).code != code@,
            decreases n - i,
        {
            if str_equal(self.invitations[i].code.as_str(), code) {
                assert(self@[i as int] == self.invitations@[i as int]@);
                let ghost j = index_of(self@, code@);
                assert(has_code(self@, code@)) by {
                    assert(self@[i as int].code == code@);
                }
                assert(self@[j].code == code@);
                return Some(i);
            }
            assert(self@[i as int] == self.invitations@[i as int]@);
            i = i + 1;
        }
        None
    }

    /// Hands the invitation with the given code back: it is marked unused,
    /// with no redeemer, so it can be redeemed again.
    pub fn release_invitation(&mut self, code: &str) -> (res: Result<(), Error>)
        ensures
            final(self).wf(),
            res is Ok <==> has_code(old(self)@, code@),
            res is Ok ==> final(self)@ == mark_unused(old(self)@, code@),
            res matches Err(e) ==> e is NotFound && final(self)@ == old(self)@,
    {
        match self.find_code(code) {
            Some(i) => {
                let ghost before = self@;
                let mut all = self.take_all();
                let mut inv = all[i].clone();
                inv.used = false;
                inv.used_by = None;
                all.set(i, inv);
                let ghost after = all@.map_values(|inv: Invitation| inv@);
                assert forall|k: int| 0 <= k < before.len() implies #[trigger] after[k] == mark_unused(before, code@)[k] by {
                    if k != i {
                        assert(before[k].code != code@);
                    }
                }
                assert(after =~= mark_unused(before, code@));
                proof { lemma_fetch_after_release(before, code@); }
                self.invitations = all;
                Ok(())
            },
            None => Err(Error::NotFound),
        }
    }
}

impl AbstractInvitations for ReferenceDb {
    /// Stores a new invitation; fails if its code is taken.
    fn insert_invitation(&mut self, invitation: &Invitation) -> (res: Result<(), Error>)
        ensures
            final(self).wf(),
            res is Ok <==> !has_code(old(self)@, invitation.code@),
            res is Ok ==> final(self)@ == old(self)@.push(invitation@),
            res matches Err(e) ==> {
                &&& final(self)@ == old(self)@
                &&& e matches Error::DatabaseError { operation, collection }
                &&& operation@ == "insert"@
                &&& collection@ == "invitation"@
            },
    {
        match self.find_code(invitation.code.as_str()) {
            Some(_) => Err(Error::DatabaseError { operation: owned("insert"), collection: owned("invitation") }),
            None => {
                let ghost before = self@;
                let mut all = self.take_all();
                all.push(invitation.clone());
                assert(all@.map_values(|inv: Invitation| inv@) =~= before.push(invitation@));
                self.invitations = all;
                Ok(())
            },
        }
    }

    /// The invitation with the given code.
    fn fetch_invitation(&self, code: &str) -> (res: Result<Invitation, Error>)
        ensures
            self.wf(),
            res is Ok <==> has_code(self@, code@),
            res matches Ok(inv) ==> lookup(self@, code@) == Some(inv@),
            res matches Err(e) ==> e is NotFound,
    {
        match self.find_code(code) {
            Some(i) => {
                assert(self@[i as int] == self.invitations@[i as int]@);
                Ok(self.invitations[i].clone())
            },
            None => Err(Error::NotFound),
        }
    }

    /// All stored invitations, in insertion order.
    fn fetch_all_invitations(&self) -> (res: Result<Vec<Invitation>, Error>)
        ensures
            res matches Ok(all) && all@.map_values(|inv: Invitation| inv@) == self@,
    {
        let n = self.invitations.len();
        let mut all: Vec<Invitation> = Vec::new();
        let mut i: usize = 0;
        while i < n
            invariant
                n == self.invitations@.len(),
                i <= n,
                all@.len() == i,
                forall|k: int| 0 <= k < i ==> #[trigger] all@[k] == self.invitations@[k],
            decreases n - i,
        {
            all.push(self.invitations[i].clone());
            i = i + 1;
        }
        assert(all@.map_values(|inv: Invitation| inv@) =~= self@);
        Ok(all)
    }

    /// The first invitation redeemed by the given user.
    fn fetch_invitation_by_user(&self, user_id: &str) -> (res: Result<Invitation, Error>)
        ensures
            res is Ok <==> has_redeemer(self@, user_id@),
            res matches Ok(inv) ==> exists|i: int| is_first_redeemed_by(self@, user_id@, i) && self@[i] == inv@,
            res matches Err(e) ==> e is NotFound,
    {
        let n = self.invitations.len();
        let mut i: usize = 0;
        while i < n
            invariant
                n == self.invitations@.len(),
                self@.len() == n,
                i <= n,
                forall|k: int| 0 <= k < i ==> (#[trigger] self@[k]).used_by != Some(user_id@),
            decreases n - i,
        {
            assert(self@[i as int] == self.invitations@[i as int]@);
            match &self.invitations[i].used_by {
                Some(u) => {
                    if str_equal(u.as_str(), user_id) {
                        assert(is_first_redeemed_by(self@, user_id@, i as int));
                        return Ok(self.invitations[i].clone());
                    }
                },
                None => {},
            }
            i = i + 1;
        }
        Err(Error::NotFound)
    }

    /// Marks the invitation with the given code as redeemed by `user_id`.
    fn mark_invitation_used(&mut self, code: &str, user_id: &str) -> (res: Result<(), Error>)
        ensures
            final(self).wf(),
            res is Ok <==> has_code(old(self)@, code@),
            res is Ok ==> final(self)@ == mark_used(old(self)@, code@, user_id@),
            res matches Err(e) ==> e is NotFound && final(self)@ == old(self)@,
    {
        match self.find_code(code) {
            Some(i) => {
                let ghost before = self@;
                let mut all = self.take_all();
                let mut inv = all[i].clone();
                inv.used = true;
                inv.used_by = Some(owned(user_id));
                all.set(i, inv);
                let ghost after = all@.map_values(|inv: Invitation| inv@);
                assert forall|k: int| 0 <= k < before.len() implies #[trigger] after[k] == mark_used(before, code@, user_id@)[k] by {
                    if k != i {
                        assert(before[k].code != code@);
                    }
                }
                assert(after =~= mark_used(before, code@, user_id@));
                proof { lemma_fetch_after_mark(before, code@, user_id@); }
                self.invitations = all;
                Ok(())
            },
            None => Err(Error::NotFound),
        }
    }

    /// Removes the invitation with the given code.
    fn delete_invitation(&mut self, code: &str) -> (res: Result<(), Error>)
        ensures
            final(self).wf(),
            res is Ok <==> has_code(old(self)@, code@),
            res is Ok ==> final(self)@ == old(self)@.remove(index_of(old(self)@, code@)),
            res matches Err(e) ==> e is NotFound && final(self)@ == old(self)@,
    {
        match self.find_code(code) {
            Some(i) => {
                let ghost before = self@;
                let mut all = self.take_all();
                let _removed = all.remove(i);
                assert(all@.map_values(|inv: Invitation| inv@) =~= before.remove(i as int));
                proof { lemma_fetch_after_delete(before, code@); }
                self.invitations = all;
                Ok(())
            },
            None => Err(Error::NotFound),
        }
    }

}

impl AbstractGreetings for ReferenceDb {
    /// The greeting for a vertical; the reference database knows a single
    /// default greeting and returns it whatever the vertical.
    fn fetch_greeting(&self, _vertical: Option<&str>) -> (res: Result<Greeting, Error>)
        ensures
            res matches Ok(g) && g.vertical@ == "default"@ && g.message@ == "Hey {username}! Welcome to your studio."@,
    {
        Ok(Greeting { vertical: owned("default"), message: owned("Hey {username}! Welcome to your studio.") })
    }
}

/// Storing an invitation under an unused code keeps codes unique, and
/// reading that code back gives the stored invitation.
pub proof fn lemma_fetch_after_insert(s: Seq<InvitationView>, v: InvitationView)
    requires
        codes_distinct(s),
        !has_code(s, v.code),
    ensures
        codes_distinct(s.push(v)),
        lookup(s.push(v), v.code) == Some(v),
{
    let t = s.push(v);
    assert(t[s.len() as int].code == v.code);
    assert(has_code(t, v.code));
    let j = index_of(t, v.code);
    if j != s.len() {
        assert(s[j].code == v.code);
    }
}

/// Storing an invitation leaves what every other code reads unchanged.
pub proof fn lemma_insert_keeps_other_codes(s: Seq<InvitationView>, v: InvitationView, c: Seq<char>)
    requires
        codes_distinct(s),
        !has_code(s, v.code),
        c != v.code,
    ensures
        lookup(s.push(v), c) == lookup(s, c),
{
    let t = s.push(v);
    if has_code(s, c) {
        let i = index_of(s, c);
        assert(t[i].code == c);
        assert(has_code(t, c));
        let j = index_of(t, c);
        assert(j < s.len());
        assert(t[j] == s[j]);
    } else {
        if has_code(t, c) {
            let j = index_of(t, c);
            assert(j < s.len());
            assert(s[j].code == c);
        }
    }
}

/// Redeeming an invitation keeps codes unique; reading its code back gives
/// it used and redeemed by the user, and the user is then known as the
/// redeemer of an invitation.
pub proof fn lemma_fetch_after_mark(s: Seq<InvitationView>, c: Seq<char>, u: Seq<char>)
    requires
        codes_distinct(s),
        has_code(s, c),
    ensures
        codes_distinct(mark_used(s, c, u)),
        lookup(mark_used(s, c, u), c) == Some(redeemed(lookup(s, c).unwrap(), u)),
        has_redeemer(mark_used(s, c, u), u),
{
    let t = mark_used(s, c, u);
    let i = index_of(s, c);
    assert(t[i].code == c);
    assert(has_code(t, c));
    let j = index_of(t, c);
    assert(s[j].code == c);
    assert(t[i].used_by == Some(u));
    assert forall|a: int, b: int| 0 <= a < t.len() && 0 <= b < t.len() && a != b implies (#[trigger] t[a]).code != (#[trigger] t[b]).code by {
        assert(t[a].code == s[a].code);
        assert(t[b].code == s[b].code);
    }
}

/// Handing an invitation back keeps codes unique, and reading its code back
/// gives it unused, with no redeemer.
pub proof fn lemma_fetch_after_release(s: Seq<InvitationView>, c: Seq<char>)
    requires
        codes_distinct(s),
        has_code(s, c),
    ensures
        codes_distinct(mark_unused(s, c)),
        lookup(mark_unused(s, c), c) == Some(unredeemed(lookup(s, c).unwrap())),
{
    let t = mark_unused(s, c);
    let i = index_of(s, c);
    assert(t[i].code == c);
    assert(has_code(t, c));
    let j = index_of(t, c);
    assert(s[j].code == c);
    assert forall|a: int, b: int| 0 <= a < t.len() && 0 <= b < t.len() && a != b implies (#[trigger] t[a]).code != (#[trigger] t[b]).code by {
        assert(t[a].code == s[a].code);
        assert(t[b].code == s[b].code);
    }
}

/// Handing back an invitation that was unused, with no redeemer, right
/// after redeeming it leaves the database as it was before.
pub proof fn lemma_release_undoes_mark(s: Seq<InvitationView>, c: Seq<char>, u: Seq<char>)
    requires
        codes_distinct(s),
        lookup(s, c) matches Some(v) && !v.used && v.used_by is None,
    ensures
        mark_unused(mark_used(s, c, u), c) == s,
{
    let i = index_of(s, c);
    let t = mark_unused(mark_used(s, c, u), c);
    assert forall|k: int| 0 <= k < s.len() implies #[trigger] t[k] == s[k] by {
        if s[k].code == c && k != i {
            assert(s[i].code == c);
        }
    }
    assert(t =~= s);
}

/// Redeeming one invitation leaves what every other code reads unchanged.
pub proof fn lemma_mark_keeps_other_codes(s: Seq<InvitationView>, c: Seq<char>, u: Seq<char>, d: Seq<char>)
    requires
        codes_distinct(s),
        d != c,
    ensures
        lookup(mark_used(s, c, u), d) == lookup(s, d),
{
    let t = mark_used(s, c, u);
    if has_code(s, d) {
        let i = index_of(s, d);
        assert(t[i].code == d);
        assert(has_code(t, d));
        let j = index_of(t, d);
        assert(s[j].code == d);
        assert(t[j] == s[j]);
    } else {
        if has_code(t, d) {
            let j = index_of(t, d);
            assert(s[j].code == t[j].code);
        }
    }
}

/// After an invitation is deleted its code reads nothing, and codes stay unique.
pub proof fn lemma_fetch_after_delete(s: Seq<InvitationView>, c: Seq<char>)
    requires
        codes_distinct(s),
        has_code(s, c),
    ensures
        codes_distinct(s.remove(index_of(s, c))),
        lookup(s.remove(index_of(s, c)), c) is None,
{
    let i = index_of(s, c);
    let t = s.remove(i);
    if has_code(t, c) {
        let j = index_of(t, c);
        if j < i {
            assert(t[j] == s[j]);
        } else {
            assert(t[j] == s[j + 1]);
        }
    }
    assert forall|a: int, b: int| 0 <= a < t.len() && 0 <= b < t.len() && a != b implies (#[trigger] t[a]).code != (#[trigger] t[b]).code by {
        let a2 = if a < i { a } else { a + 1 };
        let b2 = if b < i { b } else { b + 1 };
        assert(t[a] == s[a2]);
        assert(t[b] == s[b2]);
    }
}

/// Deleting one invitation leaves what every other code reads unchanged.
pub proof fn lemma_delete_keeps_other_codes(s: Seq<InvitationView>, c: Seq<char>, d: Seq<char>)
    requires
        codes_distinct(s),
        has_code(s, c),
        d != c,
    ensures
        lookup(s.remove(index_of(s, c)), d) == lookup(s, d),
{
    let i = index_of(s, c);
    let t = s.remove(i);
    if has_code(s, d) {
        let k = index_of(s, d);
        assert(k != i);
        let k2 = if k < i { k } else { k - 1 };
        assert(t[k2] == s[k]);
        assert(has_code(t, d));
        let j = index_of(t, d);
        let j2 = if j < i { j } else { j + 1 };
        assert(t[j] == s[j2]);
        assert(j2 == k);
    } else {
        if has_code(t, d) {
            let j = index_of(t, d);
            let j2 = if j < i { j } else { j + 1 };
            assert(t[j] == s[j2]);
        }
    }
}

/// Revoking an invitation right after storing it leaves the database as it
/// was before.
pub proof fn lemma_delete_undoes_insert(s: Seq<InvitationView>, v: InvitationView)
    requires
        codes_distinct(s),
        !has_code(s, v.code),
    ensures
        has_code(s.push(v), v.code),
        s.push(v).remove(index_of(s.push(v), v.code)) == s,
{
    let t = s.push(v);
    assert(t[s.len() as int].code == v.code);
    let j = index_of(t, v.code);
    if j != s.len() {
        assert(s[j].code == v.code);
    }
    assert(t.remove(j) =~= s);
}

/// Every invitation of `s` is marked used exactly when it names a redeemer.
pub open spec fn redemptions_consistent(s: Seq<InvitationView>) -> bool {
    forall|i: int| 0 <= i < s.len() ==> ((#[trigger] s[i]).used <==> s[i].used_by is Some)
}

/// Storing an invitation that is used exactly when it names a redeemer,
/// redeeming one, handing one back and deleting one all keep every
/// invitation used exactly when it names a redeemer.
pub proof fn lemma_redemptions_stay_consistent(s: Seq<InvitationView>, v: InvitationView, c: Seq<char>, u: Seq<char>)
    requires
        redemptions_consistent(s),
        v.used <==> v.used_by is Some,
    ensures
        redemptions_consistent(s.push(v)),
        redemptions_consistent(mark_used(s, c, u)),
        redemptions_consistent(mark_unused(s, c)),
        has_code(s, c) ==> redemptions_consistent(s.remove(index_of(s, c))),
{
    let t = s.push(v);
    assert forall|i: int| 0 <= i < t.len() implies ((#[trigger] t[i]).used <==> t[i].used_by is Some) by {
        if i < s.len() {
            assert(t[i] == s[i]);
        }
    }
    let m = mark_used(s, c, u);
    assert forall|i: int| 0 <= i < m.len() implies ((#[trigger] m[i]).used <==> m[i].used_by is Some) by {
        assert(s[i].used <==> s[i].used_by is Some);
    }
    let h = mark_unused(s, c);
    assert forall|i: int| 0 <= i < h.len() implies ((#[trigger] h[i]).used <==> h[i].used_by is Some) by {
        assert(s[i].used <==> s[i].used_by is Some);
    }
    if has_code(s, c) {
        let k = index_of(s, c);
        let r = s.remove(k);
        assert forall|i: int| 0 <= i < r.len() implies ((#[trigger] r[i]).used <==> r[i].used_by is Some) by {
            let i2 = if i < k { i } else { i + 1 };
            assert(r[i] == s[i2]);
            assert(s[i2].used <==> s[i2].used_by is Some);
        }
    }
}

/// A redeemed invitation stays redeemed: storing another invitation,
/// redeeming any invitation, or deleting another one leaves it used.
pub proof fn lemma_redeemed_stays_redeemed(s: Seq<InvitationView>, v: InvitationView, c: Seq<char>, u: Seq<char>, d: Seq<char>)
    requires
        codes_distinct(s),
        lookup(s, d) matches Some(x) && x.used,
    ensures
        lookup(mark_used(s, c, u), d) matches Some(x) && x.used,
        !has_code(s, v.code) ==> lookup(s.push(v), d) == lookup(s, d),
        has_code(s, c) && c != d ==> lookup(s.remove(index_of(s, c)), d) == lookup(s, d),
{
    if c == d {
        lemma_fetch_after_mark(s, c, u);
    } else {
        lemma_mark_keeps_other_codes(s, c, u, d);
    }
    if !has_code(s, v.code) {
        assert(v.code != d);
        lemma_insert_keeps_other_codes(s, v, d);
    }
    if has_code(s, c) && c != d {
        lemma_delete_keeps_other_codes(s, c, d);
    }
}

/// Redeeming an invitation, or handing it back, changes only whether and by
/// whom it was redeemed: its code, email, creator, creation time, vertical
/// and metadata read back as before.
pub proof fn lemma_redemption_changes_only_redemption(s: Seq<InvitationView>, c: Seq<char>, u: Seq<char>)
    requires
        codes_distinct(s),
        has_code(s, c),
    ensures
        lookup(mark_used(s, c, u), c) matches Some(w) && {
            let v = lookup(s, c).unwrap();
            &&& w.used && w.used_by == Some(u)
            &&& w.code == v.code && w.email == v.email && w.created_by == v.created_by
            &&& w.created_at == v.created_at && w.vertical == v.vertical && w.metadata == v.metadata
        },
        lookup(mark_unused(s, c), c) matches Some(w) && {
            let v = lookup(s, c).unwrap();
            &&& !w.used && w.used_by is None
            &&& w.code == v.code && w.email == v.email && w.created_by == v.created_by
            &&& w.created_at == v.created_at && w.vertical == v.vertical && w.metadata == v.metadata
        },
{
    lemma_fetch_after_mark(s, c, u);
    lemma_fetch_after_release(s, c);
}

} // verus!

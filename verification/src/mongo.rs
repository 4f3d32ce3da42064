use vstd::prelude::*;
use crate::error::Error;
use crate::invitations::{Invitation, InvitationView};
use crate::reference::{mark_used, redeemed};
use crate::text::owned;

verus! {

/// The invitations whose documents decoded, in the order they were read.
pub open spec fn decoded(docs: Seq<Option<Invitation>>) -> Seq<Invitation>
    decreases docs.len(),
{
    if docs.len() == 0 {
        Seq::empty()
    } else {
        let rest = decoded(docs.drop_last());
        match docs.last() {
            Some(inv) => rest.push(inv),
            None => rest,
        }
    }
}

/// Collects the invitations read from the `invitations` collection,
/// skipping documents that did not decode (`None`), in reading order.
pub fn collect_decoded(docs: Vec<Option<Invitation>>) -> (all: Vec<Invitation>)
    ensures
        all@ == decoded(docs@),
{
    let ghost total = docs@;
    let n = docs.len();
    let mut out: Vec<Invitation> = Vec::new();
    let mut i: usize = 0;
    while i < n
        invariant
            n == total.len(),
            docs@ == total,
            i <= n,
            out@ == decoded(total.take(i as int)),
        decreases n - i,
    {
        assert(total.take(i + 1).drop_last() =~= total.take(i as int));
        match &docs[i] {
            Some(inv) => out.push(inv.clone()),
            None => {},
        }
        i = i + 1;
    }
    assert(total.take(n as int) =~= total);
    out
}

/// The error a failed operation on the `invitations` collection turns into.
pub open spec fn is_invitations_error(e: Error, operation: Seq<char>) -> bool {
    e matches Error::DatabaseError { operation: op, collection } && op@ == operation && collection@ == "invitations"@
}

/// The answer to reading one invitation by its code: the invitation, or
/// `NotFound` when there is no such document; a failed read keeps its error.
pub fn found_invitation(read: Result<Option<Invitation>, Error>) -> (res: Result<Invitation, Error>)
    ensures
        match read {
            Ok(Some(inv)) => res == Ok::<Invitation, Error>(inv),
            Ok(None) => res matches Err(e) && e is NotFound,
            Err(e) => res == Err::<Invitation, Error>(e),
        },
{
    match read {
        Ok(Some(inv)) => Ok(inv),
        Ok(None) => Err(Error::NotFound),
        Err(e) => Err(e),
    }
}

/// The answer to redeeming an invitation with an update of the
/// `invitations` collection: an update that went through succeeds whether
/// or not a document had the code; a failed update is a database error.
pub fn update_outcome(update: Result<(), Error>) -> (res: Result<(), Error>)
    ensures
        update is Ok ==> res is Ok,
        update is Err ==> (res matches Err(e) && is_invitations_error(e, "update"@)),
{
    match update {
        Ok(()) => Ok(()),
        Err(_) => Err(Error::DatabaseError { operation: owned("update"), collection: owned("invitations") }),
    }
}

/// The answer to listing the `invitations` collection: the invitations whose
/// documents decoded, in reading order; a failed `find` is a database error.
pub fn listing_outcome(find: Result<Vec<Option<Invitation>>, Error>) -> (res: Result<Vec<Invitation>, Error>)
    ensures
        match find {
            Ok(docs) => res matches Ok(all) && all@ == decoded(docs@),
            Err(_) => res matches Err(e) && is_invitations_error(e, "find"@),
        },
{
    match find {
        Ok(docs) => Ok(collect_decoded(docs)),
        Err(_) => Err(Error::DatabaseError { operation: owned("find"), collection: owned("invitations") }),
    }
}

/// An update of the `invitations` collection: the document whose `_id` is
/// `code` gets `used` and `used_by` set to these values.
#[derive(Debug)]
pub struct RedemptionUpdate {
    /// `_id` of the document to change
    pub code: String,
    /// New value of `used`
    pub used: bool,
    /// New value of `used_by`
    pub used_by: String,
}

/// What an update does to the documents of a collection.
pub open spec fn update_effect(s: Seq<InvitationView>, u: RedemptionUpdate) -> Seq<InvitationView> {
    Seq::new(s.len(), |k: int| if s[k].code == u.code@ {
        InvitationView { used: u.used, used_by: Some(u.used_by@), ..s[k] }
    } else {
        s[k]
    })
}

/// The update that redeems the invitation `code` for the user `user_id`.
pub fn redemption_update(code: &str, user_id: &str) -> (u: RedemptionUpdate)
    ensures
        u.code@ == code@,
        u.used,
        u.used_by@ == user_id@,
{
    RedemptionUpdate { code: owned(code), used: true, used_by: owned(user_id) }
}

/// Redeeming through the collection update does to the invitations what the
/// reference database's redemption does.
pub proof fn lemma_update_redeems(s: Seq<InvitationView>, u: RedemptionUpdate)
    requires
        u.used,
    ensures
        update_effect(s, u) == mark_used(s, u.code@, u.used_by@),
{
    assert forall|k: int| 0 <= k < s.len() implies #[trigger] update_effect(s, u)[k] == mark_used(s, u.code@, u.used_by@)[k] by {
        if s[k].code == u.code@ {
            assert(redeemed(s[k], u.used_by@) == (InvitationView { used: u.used, used_by: Some(u.used_by@), ..s[k] }));
        }
    }
    assert(update_effect(s, u) =~= mark_used(s, u.code@, u.used_by@));
}

/// Listing keeps the documents that decoded, in reading order, and skips
/// the others: a single decoded document lists as itself, a single
/// undecodable one lists as nothing, and reading two runs of documents one
/// after the other lists the first run's invitations, then the second's.
pub proof fn lemma_listing_keeps_reading_order(a: Seq<Option<Invitation>>, b: Seq<Option<Invitation>>, x: Invitation)
    ensures
        decoded(seq![Some(x)]) == seq![x],
        decoded(seq![None::<Invitation>]) == Seq::<Invitation>::empty(),
        decoded(a + b) == decoded(a) + decoded(b),
    decreases b.len(),
{
    assert(seq![Some(x)].drop_last() =~= Seq::<Option<Invitation>>::empty());
    assert(seq![None::<Invitation>].drop_last() =~= Seq::<Option<Invitation>>::empty());
    assert(decoded(Seq::<Option<Invitation>>::empty()) == Seq::<Invitation>::empty());
    assert(Seq::<Invitation>::empty().push(x) =~= seq![x]);
    if b.len() == 0 {
        assert(a + b =~= a);
        assert(decoded(a) + decoded(b) =~= decoded(a));
    } else {
        lemma_listing_keeps_reading_order(a, b.drop_last(), x);
        assert((a + b).drop_last() =~= a + b.drop_last());
        assert((a + b).last() == b.last());
        match b.last() {
            Some(inv) => {
                assert(decoded(a) + decoded(b.drop_last()).push(inv) =~= (decoded(a) + decoded(b.drop_last())).push(inv));
            },
            None => {},
        }
    }
}

} // verus!

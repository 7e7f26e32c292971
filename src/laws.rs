use vstd::prelude::*;

use crate::dao::{email_taken, first_with_email, lemma_first_with_email_held, lists_exactly};
use crate::entity::AccountRecord;
use crate::models::{details_of, DetailsView};
use crate::password::password_matches;
use crate::service::{check_found, details_at, stored_hashed, with_password};

verus! {

/// A read by id from a faithful store answers the details stored under
/// that id, which depend on the records and the id alone: two reads with no
/// write in between give the same answer.
pub proof fn lemma_read_idempotent(
    m: Map<Seq<char>, AccountRecord>,
    id: Seq<char>,
    first: Option<DetailsView>,
    second: Option<DetailsView>,
)
    requires
        first == details_at(m, id),
        second == details_at(m, id),
    ensures
        first == second,
{
}

/// After an account is created, a read of its id shows its id, name and
/// email, and nothing of its password.
pub proof fn lemma_create_then_read(
    before: Map<Seq<char>, AccountRecord>,
    after: Map<Seq<char>, AccountRecord>,
    model: AccountRecord,
)
    requires
        stored_hashed(before, after, model),
    ensures
        details_at(after, model.id) == Some(
            DetailsView { id: model.id, name: model.name, email: model.email },
        ),
{
}

/// After an account is deleted, a read of its id finds nothing.
pub proof fn lemma_delete_then_read(before: Map<Seq<char>, AccountRecord>, id: Seq<char>)
    ensures
        details_at(before.remove(id), id) is None,
{
}

/// After an account is created whose email no record had, validation
/// over any listing of the records accepts that email with its password,
/// accepts another password exactly when the stored hash matches it, and
/// refuses an email that no record has.
pub proof fn lemma_validate_after_create(
    before: Map<Seq<char>, AccountRecord>,
    after: Map<Seq<char>, AccountRecord>,
    listing: Seq<AccountRecord>,
    model: AccountRecord,
    other_password: Seq<char>,
    missing_email: Seq<char>,
)
    requires
        stored_hashed(before, after, model),
        !email_taken(before, model.email),
        !email_taken(before, missing_email),
        missing_email != model.email,
        lists_exactly(after, listing),
    ensures
        check_found(first_with_email(listing, model.email), model.password) == Some(details_of(model)),
        check_found(first_with_email(listing, model.email), other_password) is Some
            <==> password_matches(other_password, after[model.id].password),
        check_found(first_with_email(listing, missing_email), model.password) is None,
{
    assert(after.contains_key(model.id) && after[model.id].email == model.email);
    lemma_first_with_email_held(after, listing, model.email);
    lemma_first_with_email_held(after, listing, missing_email);
    let r = first_with_email(listing, model.email)->0;
    if r.id != model.id {
        assert(before.contains_key(r.id) && before[r.id].email == model.email);
    }
    assert(r == after[model.id]);
    if email_taken(after, missing_email) {
        let id = choose|id: Seq<char>|
            #[trigger] after.contains_key(id) && after[id].email == missing_email;
        assert(before.contains_key(id));
    }
}

/// The details of a record do not depend on its password: a read shows
/// the same whatever password, plaintext or hash, the record holds.
pub proof fn lemma_details_hide_password(r: AccountRecord, password: Seq<char>)
    ensures
        details_of(with_password(r, password)) == details_of(r),
{
}

} // verus!

//! What holds of every request, proved from the contracts of the handler.

use crate::handler::{
    empty_identifier_reply, exchange, first_step, lookup_of, record_reply, CreatureRecordView,
    Failure, StepView, StoreOutcomeView,
};
use crate::json::{decimal, is_plain, lemma_escaped_plain, record_document};
use crate::path::{final_segment, lemma_final_segment_empty};
use crate::response::{json_response, ResponseView};
use vstd::prelude::*;

verus! {

/// A request whose path is empty or ends in a slash, and so has the empty
/// identifier, is answered with status 400 and the body
/// `{"error":"searched for empty pokemon"}`, whatever precedes that slash and
/// whatever the store would have said.
pub proof fn lemma_empty_identifier_is_rejected(path: Seq<char>, outcome: StoreOutcomeView)
    requires
        path.len() == 0 || path.last() == '/',
    ensures
        final_segment(path).len() == 0,
        first_step(path) == StepView::Reply(empty_identifier_reply()),
        exchange(path, outcome) == Ok::<ResponseView, Failure>(empty_identifier_reply()),
        empty_identifier_reply().status == 400,
        empty_identifier_reply().content_type == Some("application/json"@),
        empty_identifier_reply().body == "{\"error\":\"searched for empty pokemon\"}"@,
{
    lemma_final_segment_empty(path);
}

/// A request with a non-empty identifier asks the store for exactly that
/// identifier, and when the store holds its row the answer has status 200 and
/// the row's document as its body.
pub proof fn lemma_stored_identifier_is_served(path: Seq<char>, record: CreatureRecordView)
    requires
        final_segment(path).len() > 0,
    ensures
        first_step(path) == StepView::Lookup(lookup_of(final_segment(path))),
        exchange(path, StoreOutcomeView::Row(record)) == Ok::<ResponseView, Failure>(
            json_response(200, record_document(record.name, record.hp)),
        ),
{
    assert(record_reply(record) == json_response(200, record_document(record.name, record.hp)));
}

/// The document of a record whose name needs no escaping is the name between
/// quotes under `name`, then the hit points in decimal under `hp`.
pub proof fn lemma_record_document_of_plain_name(name: Seq<char>, hp: u16)
    requires
        forall|i: int| 0 <= i < name.len() ==> is_plain(#[trigger] name[i]),
    ensures
        record_document(name, hp) == "{\"name\":\""@ + name + "\",\"hp\":"@ + decimal(hp as nat)
            + "}"@,
{
    reveal_strlit("{\"name\":");
    reveal_strlit(",\"hp\":");
    reveal_strlit("{\"name\":\"");
    reveal_strlit("\",\"hp\":");
    lemma_escaped_plain(name);
    assert(record_document(name, hp) =~= "{\"name\":\""@ + name + "\",\"hp\":"@ + decimal(
        hp as nat,
    ) + "}"@);
}

/// A request with a non-empty identifier that the store has no row for ends in
/// a failure, never in a response.
pub proof fn lemma_missing_row_is_fatal(path: Seq<char>)
    requires
        final_segment(path).len() > 0,
    ensures
        exchange(path, StoreOutcomeView::QueryFailed) == Err::<ResponseView, Failure>(
            Failure::Query,
        ),
{
}

/// Asking twice for the same path against the same store ends the same way
/// both times: the end of a request depends on nothing else.
pub proof fn lemma_repeated_lookup_agrees(
    path: Seq<char>,
    outcome: StoreOutcomeView,
    first: Result<ResponseView, Failure>,
    second: Result<ResponseView, Failure>,
)
    requires
        first == exchange(path, outcome),
        second == exchange(path, outcome),
    ensures
        first == second,
        first matches Ok(a) ==> second matches Ok(b) && a.body == b.body,
{
}

} // verus!

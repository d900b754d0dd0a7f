//! The lookup handler as two decisions: what a request path asks for, and what
//! the store's answer becomes.

use crate::json::{
    error_body, error_document, is_plain, lemma_escaped_plain, record_body, record_document,
};
use crate::path::{final_segment, last_segment};
use crate::response::{bare_response, json_response, Response, ResponseView};
use vstd::prelude::*;

verus! {

/// The most connections the pool may hold open at once.
pub const MAX_CONNECTIONS: u32 = 5;

/// The statement of the point lookup, with its one parameter.
pub open spec fn lookup_statement() -> Seq<char> {
    "SELECT name, hp FROM pokemon WHERE slug = ?"@
}

/// The message sent when the identifier is empty.
pub open spec fn empty_identifier_message() -> Seq<char> {
    "searched for empty pokemon"@
}

/// One row of the store: a creature's name and its hit points.
#[derive(Debug, Clone, PartialEq, Eq)]
pub struct CreatureRecord {
    pub name: String,
    pub hp: u16,
}

/// What a `CreatureRecord` holds.
pub struct CreatureRecordView {
    pub name: Seq<char>,
    pub hp: u16,
}

impl View for CreatureRecord {
    type V = CreatureRecordView;

    open spec fn view(&self) -> CreatureRecordView {
        CreatureRecordView { name: self.name@, hp: self.hp }
    }
}

/// The one query a request may need: its statement, the identifier bound to its
/// parameter, and the cap on the pool that serves it.
#[derive(Debug, Clone, PartialEq, Eq)]
pub struct Query {
    pub statement: &'static str,
    pub slug: String,
    pub max_connections: u32,
}

/// What a `Query` holds.
pub struct QueryView {
    pub statement: Seq<char>,
    pub slug: Seq<char>,
    pub max_connections: u32,
}

impl View for Query {
    type V = QueryView;

    open spec fn view(&self) -> QueryView {
        QueryView {
            statement: self.statement@,
            slug: self.slug@,
            max_connections: self.max_connections,
        }
    }
}

/// What to do with a request: answer at once, or ask the store first.
#[derive(Debug, Clone, PartialEq, Eq)]
pub enum Step {
    Reply(Response),
    Lookup(Query),
}

/// What a `Step` holds.
pub enum StepView {
    Reply(ResponseView),
    Lookup(QueryView),
}

impl View for Step {
    type V = StepView;

    open spec fn view(&self) -> StepView {
        match self {
            Step::Reply(response) => StepView::Reply(response@),
            Step::Lookup(query) => StepView::Lookup(query@),
        }
    }
}

/// How the attempt to fetch the row ended.
#[derive(Debug, Clone, PartialEq, Eq)]
pub enum StoreOutcome {
    /// No connection string is configured.
    MissingConfiguration,
    /// The store could not be reached.
    Unreachable,
    /// The query failed: no row matched, or the driver or a column refused.
    QueryFailed,
    /// The row that matched.
    Row(CreatureRecord),
}

/// What a `StoreOutcome` holds.
pub enum StoreOutcomeView {
    MissingConfiguration,
    Unreachable,
    QueryFailed,
    Row(CreatureRecordView),
}

impl View for StoreOutcome {
    type V = StoreOutcomeView;

    open spec fn view(&self) -> StoreOutcomeView {
        match self {
            StoreOutcome::MissingConfiguration => StoreOutcomeView::MissingConfiguration,
            StoreOutcome::Unreachable => StoreOutcomeView::Unreachable,
            StoreOutcome::QueryFailed => StoreOutcomeView::QueryFailed,
            StoreOutcome::Row(record) => StoreOutcomeView::Row(record@),
        }
    }
}

/// Why a request ends without a response of its own.
#[derive(Debug, Clone, Copy, PartialEq, Eq, Structural)]
pub enum Failure {
    Configuration,
    Connectivity,
    Query,
}

/// The response to a request without any path segment.
pub open spec fn malformed_reply() -> ResponseView {
    bare_response(500)
}

/// The response to an empty identifier.
pub open spec fn empty_identifier_reply() -> ResponseView {
    json_response(400, "{\"error\":\"searched for empty pokemon\"}"@)
}

/// The response that carries `record`.
pub open spec fn record_reply(record: CreatureRecordView) -> ResponseView {
    json_response(200, record_document(record.name, record.hp))
}

/// The query that looks `slug` up.
pub open spec fn lookup_of(slug: Seq<char>) -> QueryView {
    QueryView { statement: lookup_statement(), slug, max_connections: MAX_CONNECTIONS }
}

/// The characters of `segment`, if there is one.
pub open spec fn segment_view(segment: Option<&str>) -> Option<Seq<char>> {
    match segment {
        Some(slug) => Some(slug@),
        None => None,
    }
}

/// The step that `segment`, the last segment of a path if it has any, calls
/// for.
pub open spec fn routed(segment: Option<Seq<char>>) -> StepView {
    match segment {
        None => StepView::Reply(malformed_reply()),
        Some(slug) => if slug.len() == 0 {
            StepView::Reply(empty_identifier_reply())
        } else {
            StepView::Lookup(lookup_of(slug))
        },
    }
}

/// The step that a request for `path` calls for.
pub open spec fn first_step(path: Seq<char>) -> StepView {
    routed(Some(final_segment(path)))
}

/// What the store's answer becomes: the response for a row, a failure for
/// everything else.
pub open spec fn settled(outcome: StoreOutcomeView) -> Result<ResponseView, Failure> {
    match outcome {
        StoreOutcomeView::MissingConfiguration => Err(Failure::Configuration),
        StoreOutcomeView::Unreachable => Err(Failure::Connectivity),
        StoreOutcomeView::QueryFailed => Err(Failure::Query),
        StoreOutcomeView::Row(record) => Ok(record_reply(record)),
    }
}

/// How a request for `path` ends when the store, if it is asked, answers with
/// `outcome`.
pub open spec fn exchange(path: Seq<char>, outcome: StoreOutcomeView) -> Result<
    ResponseView,
    Failure,
> {
    match first_step(path) {
        StepView::Reply(response) => Ok(response),
        StepView::Lookup(_) => settled(outcome),
    }
}

/// The end of a request, with its response taken by its view.
pub open spec fn ending(end: Result<Response, Failure>) -> Result<ResponseView, Failure> {
    match end {
        Ok(response) => Ok(response@),
        Err(failure) => Err(failure),
    }
}

/// The error document for the empty identifier is, character for character,
/// `{"error":"searched for empty pokemon"}`.
pub proof fn lemma_empty_identifier_document()
    ensures
        error_document(empty_identifier_message()) == "{\"error\":\"searched for empty pokemon\"}"@,
{
    reveal_strlit("searched for empty pokemon");
    reveal_strlit("{\"error\":");
    reveal_strlit("}");
    reveal_strlit("{\"error\":\"searched for empty pokemon\"}");
    let message = "searched for empty pokemon"@;
    assert forall|i: int| 0 <= i < message.len() implies is_plain(#[trigger] message[i]) by {}
    lemma_escaped_plain(message);
    assert(error_document(message) =~= "{\"error\":\"searched for empty pokemon\"}"@);
}

/// Returns the statement of the point lookup.
pub fn statement() -> (text: &'static str)
    ensures
        text@ == lookup_statement(),
{
    "SELECT name, hp FROM pokemon WHERE slug = ?"
}

/// Decides what `segment`, the last segment of a request's path if it has any,
/// calls for: the 500 response without one, the 400 response for an empty one,
/// and else the lookup of the segment.
pub fn route(segment: Option<&str>) -> (step: Step)
    ensures
        step@ == routed(segment_view(segment)),
{
    match segment {
        None => Step::Reply(Response::bare(500)),
        Some(slug) => {
            if slug.unicode_len() == 0 {
                proof {
                    lemma_empty_identifier_document();
                }
                Step::Reply(Response::json(400, error_body("searched for empty pokemon")))
            } else {
                Step::Lookup(
                    Query {
                        statement: statement(),
                        slug: String::from_str(slug),
                        max_connections: MAX_CONNECTIONS,
                    },
                )
            }
        },
    }
}

/// Decides what a request for `path` calls for, by the part of the path behind
/// its last slash.
pub fn begin(path: &str) -> (step: Step)
    ensures
        step@ == first_step(path@),
{
    route(Some(last_segment(path)))
}

/// Turns the store's answer into the end of the request: the 200 response with
/// the row's document, or the failure that the answer stands for.
pub fn conclude(outcome: StoreOutcome) -> (end: Result<Response, Failure>)
    ensures
        ending(end) == settled(outcome@),
{
    match outcome {
        StoreOutcome::MissingConfiguration => Err(Failure::Configuration),
        StoreOutcome::Unreachable => Err(Failure::Connectivity),
        StoreOutcome::QueryFailed => Err(Failure::Query),
        StoreOutcome::Row(record) => Ok(
            Response::json(200, record_body(record.name.as_str(), record.hp)),
        ),
    }
}

/// Handles one request for `path`: answers at once where the path calls for no
/// lookup, and else hands the query to `fetch`, once, and turns what it
/// returns into the end of the request. `fetch` is not called for an empty
/// identifier.
pub fn function_handler<F: FnOnce(Query) -> StoreOutcome>(path: &str, fetch: F) -> (end: Result<
    Response,
    Failure,
>)
    requires
        forall|query: Query|
            query@ == lookup_of(final_segment(path@)) ==> #[trigger] fetch.requires((query,)),
    ensures
        final_segment(path@).len() == 0 ==> ending(end) == Ok::<ResponseView, Failure>(
            empty_identifier_reply(),
        ),
        final_segment(path@).len() > 0 ==> exists|query: Query, outcome: StoreOutcome|
            query@ == lookup_of(final_segment(path@)) && #[trigger] fetch.ensures(
                (query,),
                outcome,
            ) && ending(end) == settled(outcome@),
{
    match begin(path) {
        Step::Reply(response) => Ok(response),
        Step::Lookup(query) => {
            let ghost asked = query;
            let outcome = fetch(query);
            let ghost answered = outcome;
            let end = conclude(outcome);
            proof {
                assert(fetch.ensures((asked,), answered) && ending(end) == settled(answered@));
            }
            end
        },
    }
}

} // verus!

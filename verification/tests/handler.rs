use pokemon_api::handler::{
    begin, conclude, function_handler, route, statement, CreatureRecord, Failure, Query, Step,
    StoreOutcome, MAX_CONNECTIONS,
};
use pokemon_api::response::Response;

fn bulbasaur() -> CreatureRecord {
    CreatureRecord { name: "Bulbasaur".to_string(), hp: 45 }
}

fn rejection() -> Response {
    Response {
        status: 400,
        content_type: Some("application/json".to_string()),
        body: "{\"error\":\"searched for empty pokemon\"}".to_string(),
    }
}

fn lookup(slug: &str) -> Step {
    Step::Lookup(Query {
        statement: "SELECT name, hp FROM pokemon WHERE slug = ?",
        slug: slug.to_string(),
        max_connections: 5,
    })
}

#[test]
fn accepts_apigw_request() {
    let step = begin("/pokemon/bulbasaur");
    assert_eq!(step, lookup("bulbasaur"));
    let response = conclude(StoreOutcome::Row(bulbasaur())).expect("failed to handle request");
    assert_eq!(response.body, "{\"name\":\"Bulbasaur\",\"hp\":45}".to_string());
}

#[test]
fn handles_empty_pokemon() {
    let step = begin("/pokemon/");
    match step {
        Step::Reply(response) => {
            assert_eq!(
                response.body,
                "{\"error\":\"searched for empty pokemon\"}".to_string()
            );
        }
        Step::Lookup(_) => panic!("failed to handle request"),
    }
}

#[test]
fn stored_creature_is_served_with_200() {
    assert_eq!(begin("/pokemon/bulbasaur"), lookup("bulbasaur"));
    let response = conclude(StoreOutcome::Row(bulbasaur())).unwrap();
    assert_eq!(response.status, 200);
    assert_eq!(response.content_type, Some("application/json".to_string()));
    assert_eq!(response.body, "{\"name\":\"Bulbasaur\",\"hp\":45}");
}

#[test]
fn trailing_slash_is_rejected_with_400() {
    assert_eq!(begin("/pokemon/"), Step::Reply(rejection()));
}

#[test]
fn missing_row_is_fatal() {
    assert_eq!(begin("/pokemon/missingno"), lookup("missingno"));
    assert_eq!(conclude(StoreOutcome::QueryFailed), Err(Failure::Query));
}

#[test]
fn empty_identifier_is_rejected_after_any_prefix() {
    for path in ["", "/", "//", "/pokemon/", "/a/b/c/", "/pokemon/bulbasaur/", "pokemon/"] {
        assert_eq!(begin(path), Step::Reply(rejection()), "path {:?}", path);
    }
}

#[test]
fn empty_identifier_opens_no_lookup() {
    assert!(matches!(begin("/pokemon/"), Step::Reply(_)));
    assert!(matches!(route(Some("")), Step::Reply(_)));
}

#[test]
fn identifier_is_the_part_behind_the_last_slash() {
    assert_eq!(begin("/a/b/charmander"), lookup("charmander"));
    assert_eq!(begin("pikachu"), lookup("pikachu"));
    assert_eq!(begin("/pokemon//mew"), lookup("mew"));
    assert_eq!(begin("/pok\u{e9}mon/flab\u{e9}b\u{e9}"), lookup("flab\u{e9}b\u{e9}"));
}

#[test]
fn route_without_segment_is_a_bare_500() {
    assert_eq!(
        route(None),
        Step::Reply(Response { status: 500, content_type: None, body: String::new() })
    );
}

#[test]
fn route_of_a_segment() {
    assert_eq!(route(Some("")), Step::Reply(rejection()));
    assert_eq!(route(Some("eevee")), lookup("eevee"));
    assert_eq!(route(Some(" ")), lookup(" "));
}

#[test]
fn every_store_failure_is_fatal() {
    assert_eq!(conclude(StoreOutcome::MissingConfiguration), Err(Failure::Configuration));
    assert_eq!(conclude(StoreOutcome::Unreachable), Err(Failure::Connectivity));
    assert_eq!(conclude(StoreOutcome::QueryFailed), Err(Failure::Query));
}

#[test]
fn row_is_serialised_name_then_hp() {
    let row = CreatureRecord { name: "Mr. \"Mime\"".to_string(), hp: 0 };
    let response = conclude(StoreOutcome::Row(row)).unwrap();
    assert_eq!(response.status, 200);
    assert_eq!(response.body, "{\"name\":\"Mr. \\\"Mime\\\"\",\"hp\":0}");
    let row = CreatureRecord { name: String::new(), hp: 65535 };
    assert_eq!(conclude(StoreOutcome::Row(row)).unwrap().body, "{\"name\":\"\",\"hp\":65535}");
}

#[test]
fn repeated_lookup_gives_the_same_body() {
    let first = (begin("/pokemon/bulbasaur"), conclude(StoreOutcome::Row(bulbasaur())));
    let second = (begin("/pokemon/bulbasaur"), conclude(StoreOutcome::Row(bulbasaur())));
    assert_eq!(first, second);
    assert_eq!(first.1.unwrap().body, second.1.unwrap().body);
    assert_eq!(begin("/pokemon/"), begin("/pokemon/"));
}

#[test]
fn lookup_is_capped_and_parameterised() {
    assert_eq!(MAX_CONNECTIONS, 5);
    assert_eq!(statement(), "SELECT name, hp FROM pokemon WHERE slug = ?");
    assert_eq!(statement().matches('?').count(), 1);
}

fn store(query: Query) -> StoreOutcome {
    assert_eq!(query.statement, "SELECT name, hp FROM pokemon WHERE slug = ?");
    assert_eq!(query.max_connections, 5);
    match query.slug.as_str() {
        "bulbasaur" => StoreOutcome::Row(bulbasaur()),
        "offline" => StoreOutcome::Unreachable,
        "unset" => StoreOutcome::MissingConfiguration,
        _ => StoreOutcome::QueryFailed,
    }
}

#[test]
fn function_handler_serves_a_stored_row() {
    let response = function_handler("/pokemon/bulbasaur", store).unwrap();
    assert_eq!(response.status, 200);
    assert_eq!(response.content_type, Some("application/json".to_string()));
    assert_eq!(response.body, "{\"name\":\"Bulbasaur\",\"hp\":45}");
}

#[test]
fn function_handler_rejects_the_empty_identifier_without_a_lookup() {
    let mut asked = false;
    let end = function_handler("/pokemon/", |_query: Query| {
        asked = true;
        StoreOutcome::Row(bulbasaur())
    });
    assert_eq!(end, Ok(rejection()));
    assert!(!asked);
}

#[test]
fn function_handler_fails_on_a_missing_row() {
    assert_eq!(function_handler("/pokemon/missingno", store), Err(Failure::Query));
}

#[test]
fn function_handler_passes_store_failures_on() {
    assert_eq!(function_handler("/pokemon/offline", store), Err(Failure::Connectivity));
    assert_eq!(function_handler("/pokemon/unset", store), Err(Failure::Configuration));
}

#[test]
fn function_handler_asks_once_for_the_last_segment() {
    let mut asked: Vec<String> = Vec::new();
    let end = function_handler("/a/b/ditto", |query: Query| {
        asked.push(query.slug);
        StoreOutcome::QueryFailed
    });
    assert_eq!(end, Err(Failure::Query));
    assert_eq!(asked, vec!["ditto".to_string()]);
}

#[test]
fn function_handler_twice_gives_the_same_body() {
    let first = function_handler("/pokemon/bulbasaur", store);
    let second = function_handler("/pokemon/bulbasaur", store);
    assert_eq!(first, second);
    assert_eq!(first.unwrap().body, second.unwrap().body);
}

use nba_rs::err::NBAError;
use nba_rs::json::JsonValue;
use nba_rs::scrape::{endpoint_url, locate, table_index};
use nba_rs::stats::StatType;

fn s(x: &str) -> JsonValue {
    JsonValue::Str(x.to_owned())
}

fn obj(pairs: Vec<(&str, JsonValue)>) -> JsonValue {
    JsonValue::Object(pairs.into_iter().map(|(k, v)| (k.to_owned(), v)).collect())
}

fn table(headers: Vec<JsonValue>, rows: Vec<JsonValue>) -> JsonValue {
    obj(vec![("headers", JsonValue::Array(headers)), ("rowSet", JsonValue::Array(rows))])
}

#[test]
fn locate_missing_result_sets() {
    let doc = obj(vec![("somethingElse", JsonValue::Null)]);
    let r = locate(&doc, &StatType::PlayByPlay);
    assert_eq!(r.err(), Some(NBAError::MissingField("resultSets".to_owned())));
}

#[test]
fn locate_result_sets_not_a_list() {
    let doc = obj(vec![("resultSets", s("not a list"))]);
    let r = locate(&doc, &StatType::PlayByPlay);
    assert_eq!(r.err(), Some(NBAError::MissingField("resultSets".to_owned())));
}

#[test]
fn locate_document_not_an_object() {
    let doc = JsonValue::Array(vec![]);
    let r = locate(&doc, &StatType::PlayByPlay);
    assert_eq!(r.err(), Some(NBAError::MissingField("resultSets".to_owned())));
}

#[test]
fn locate_missing_headers() {
    let doc = obj(vec![(
        "resultSets",
        JsonValue::Array(vec![obj(vec![("rowSet", JsonValue::Array(vec![]))])]),
    )]);
    let r = locate(&doc, &StatType::PlayByPlay);
    assert_eq!(r.err(), Some(NBAError::MissingField("headers".to_owned())));
}

#[test]
fn locate_headers_not_a_list() {
    let doc = obj(vec![(
        "resultSets",
        JsonValue::Array(vec![obj(vec![
            ("headers", s("oops")),
            ("rowSet", JsonValue::Array(vec![])),
        ])]),
    )]);
    let r = locate(&doc, &StatType::PlayByPlay);
    assert_eq!(r.err(), Some(NBAError::MissingField("headers".to_owned())));
}

#[test]
fn locate_missing_row_set() {
    let doc = obj(vec![(
        "resultSets",
        JsonValue::Array(vec![obj(vec![("headers", JsonValue::Array(vec![s("GAME_ID")]))])]),
    )]);
    let r = locate(&doc, &StatType::PlayByPlay);
    assert_eq!(r.err(), Some(NBAError::MissingField("rowSet".to_owned())));
}

#[test]
fn locate_table_index_out_of_range() {
    // The eastern-conference table sits at position 4; a single-table
    // response cannot hold it.
    let doc = obj(vec![("resultSets", JsonValue::Array(vec![table(vec![], vec![])]))]);
    let r = locate(&doc, &StatType::EastConfStandings);
    assert_eq!(r.err(), Some(NBAError::ShapeError));
}

#[test]
fn locate_table_not_an_object() {
    let doc = obj(vec![("resultSets", JsonValue::Array(vec![s("not a table")]))]);
    let r = locate(&doc, &StatType::PlayByPlay);
    assert_eq!(r.err(), Some(NBAError::ShapeError));
}

#[test]
fn locate_selects_the_kinds_table() {
    let filler = table(vec![s("OTHER")], vec![]);
    let east = table(vec![s("TEAM_ID")], vec![JsonValue::Array(vec![s("1610612739")])]);
    let doc = obj(vec![(
        "resultSets",
        JsonValue::Array(vec![
            table(vec![s("FIRST")], vec![]),
            filler,
            table(vec![], vec![]),
            table(vec![], vec![]),
            east,
        ]),
    )]);
    let t = locate(&doc, &StatType::EastConfStandings).unwrap();
    assert_eq!(t.headers.len(), 1);
    assert_eq!(t.headers[0], JsonValue::Str("TEAM_ID".to_owned()));
    assert_eq!(t.rows.len(), 1);

    let t0 = locate(&doc, &StatType::PlayByPlay).unwrap();
    assert_eq!(t0.headers[0], JsonValue::Str("FIRST".to_owned()));
}

#[test]
fn registry_table_indices() {
    assert_eq!(table_index(&StatType::PlayByPlay), 0);
    assert_eq!(table_index(&StatType::GameHeader), 0);
    assert_eq!(table_index(&StatType::EastConfStandings), 4);
    assert_eq!(table_index(&StatType::WestConfStandings), 5);
    assert_eq!(table_index(&StatType::TeamRoster), 0);
}

#[test]
fn registry_endpoints() {
    assert_eq!(endpoint_url(&StatType::PlayByPlay), "http://stats.nba.com/stats/playbyplay");
    assert_eq!(endpoint_url(&StatType::GameHeader), "http://stats.nba.com/stats/scoreboard");
    assert_eq!(
        endpoint_url(&StatType::EastConfStandings),
        "http://stats.nba.com/stats/scoreboard"
    );
    assert_eq!(
        endpoint_url(&StatType::WestConfStandings),
        "http://stats.nba.com/stats/scoreboard"
    );
    assert_eq!(endpoint_url(&StatType::TeamRoster), "http://stats.nba.com/stats/commonteamroster");
}

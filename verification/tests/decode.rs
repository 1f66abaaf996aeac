use nba_rs::err::NBAError;
use nba_rs::json::{FloatBits, JsonValue};
use nba_rs::parse::{find_idx, parse_eastconfstandings, parse_gameheader, parse_playbyplay, parse_teamroster};
use nba_rs::queries::{validate, Query};
use nba_rs::scrape::decode_response;
use nba_rs::stats::{Stat, StatType};

fn s(x: &str) -> JsonValue {
    JsonValue::Str(x.to_owned())
}

fn headers_of(names: &[&str]) -> Vec<JsonValue> {
    names.iter().map(|n| s(n)).collect()
}

fn nulls(n: usize) -> Vec<JsonValue> {
    (0..n).map(|_| JsonValue::Null).collect()
}

fn roster_headers() -> Vec<JsonValue> {
    headers_of(&[
        "TeamID",
        "SEASON",
        "LeagueID",
        "PLAYER",
        "NUM",
        "POSITION",
        "HEIGHT",
        "WEIGHT",
        "BIRTH_DATE",
        "AGE",
        "EXP",
        "SCHOOL",
        "PLAYER_ID",
    ])
}

fn playbyplay_headers() -> Vec<JsonValue> {
    headers_of(&[
        "GAME_ID",
        "EVENTNUM",
        "EVENTMSGTYPE",
        "EVENTMSGACTIONTYPE",
        "PERIOD",
        "WCTIMESTRING",
        "PCTIMESTRING",
        "HOMEDESCRIPTION",
        "NEUTRALDESCRIPTION",
        "VISITORDESCRIPTION",
        "SCORE",
        "SCOREMARGIN",
    ])
}

#[test]
fn test_find_idx() {
    let headers = roster_headers();
    let idx = find_idx(&headers, "GAME_ID");
    assert!(idx.is_err());
    let idx = find_idx(&headers, "TeamID");
    assert!(idx.is_ok());
}

#[test]
fn resolution_is_order_independent() {
    let h1 = headers_of(&["TeamID", "SEASON", "PLAYER"]);
    assert_eq!(find_idx(&h1, "PLAYER"), Ok(2));
    let h2 = headers_of(&["PLAYER", "TeamID", "SEASON"]);
    assert_eq!(find_idx(&h2, "PLAYER"), Ok(0));
    let h3 = headers_of(&["SEASON", "PLAYER", "TeamID"]);
    assert_eq!(find_idx(&h3, "PLAYER"), Ok(1));
}

#[test]
fn resolution_missing_column() {
    let headers = roster_headers();
    assert_eq!(
        find_idx(&headers, "GAME_ID"),
        Err(NBAError::HeaderMissingError("GAME_ID".to_owned()))
    );
}

#[test]
fn playbyplay_roundtrip() {
    // One row whose GAME_ID, EVENTNUM and PERIOD cells carry values and whose
    // other cells are null: the decoded record carries exactly those fields.
    let headers = playbyplay_headers();
    let row = JsonValue::Array(vec![
        JsonValue::UInt(41400106),
        JsonValue::UInt(12),
        JsonValue::Null,
        JsonValue::Null,
        JsonValue::UInt(1),
        JsonValue::Null,
        JsonValue::Null,
        JsonValue::Null,
        JsonValue::Null,
        JsonValue::Null,
        JsonValue::Null,
        JsonValue::Null,
    ]);
    let stats = parse_playbyplay(&headers, &vec![row]).unwrap();
    assert_eq!(stats.len(), 1);
    match &stats[0] {
        Stat::PlayByPlay { game_id, eventnum, period, eventmsgtype, wctimestring, score, .. } => {
            assert_eq!(*game_id, Some(41400106));
            assert_eq!(*eventnum, Some(12));
            assert_eq!(*period, Some(1));
            assert_eq!(*eventmsgtype, None);
            assert_eq!(*wctimestring, None);
            assert_eq!(*score, None);
        },
        other => panic!("wrong record kind: {:?}", other),
    }
}

#[test]
fn playbyplay_missing_column_aborts() {
    // Column resolution failure aborts the whole decode; no partial output.
    let headers = headers_of(&["GAME_ID", "EVENTNUM", "PERIOD"]);
    let r = parse_playbyplay(&headers, &vec![]);
    assert_eq!(r, Err(NBAError::HeaderMissingError("EVENTMSGTYPE".to_owned())));
}

#[test]
fn null_cell_yields_absent_field() {
    let headers = roster_headers();
    let mut cells = nulls(13);
    cells[3] = s("John Doe");
    let stats = parse_teamroster(&headers, &vec![JsonValue::Array(cells)]).unwrap();
    match &stats[0] {
        Stat::TeamRoster { player, school, age, team_id, .. } => {
            assert_eq!(*player, Some("John Doe".to_owned()));
            assert_eq!(*school, None);
            assert_eq!(*age, None);
            assert_eq!(*team_id, None);
        },
        other => panic!("wrong record kind: {:?}", other),
    }
}

#[test]
fn incompatible_cell_yields_absent_field() {
    let headers = roster_headers();
    let mut cells = nulls(13);
    // AGE expects a number; a string cell decodes to an absent field.
    cells[9] = s("not a number");
    // PLAYER expects a string; a numeric cell decodes to an absent field.
    cells[3] = JsonValue::UInt(7);
    let stats = parse_teamroster(&headers, &vec![JsonValue::Array(cells)]).unwrap();
    match &stats[0] {
        Stat::TeamRoster { player, age, .. } => {
            assert_eq!(*player, None);
            assert_eq!(*age, None);
        },
        other => panic!("wrong record kind: {:?}", other),
    }
}

#[test]
fn decoding_twice_is_identical() {
    let headers = roster_headers();
    let mut cells = nulls(13);
    cells[0] = s("1610612739");
    cells[1] = s("2015-16");
    cells[3] = s("John Doe");
    cells[9] = JsonValue::UInt(27);
    let rows = vec![JsonValue::Array(cells)];
    let first = parse_teamroster(&headers, &rows);
    let second = parse_teamroster(&headers, &rows);
    assert_eq!(first, second);
}

#[test]
fn short_row_is_a_shape_fault() {
    let headers = playbyplay_headers();
    let row = JsonValue::Array(vec![JsonValue::UInt(1)]);
    let r = parse_playbyplay(&headers, &vec![row]);
    assert_eq!(r, Err(NBAError::ShapeError));
}

#[test]
fn non_list_row_is_a_shape_fault() {
    let headers = roster_headers();
    let r = parse_teamroster(&headers, &vec![s("not a row")]);
    assert_eq!(r, Err(NBAError::ShapeError));
}

#[test]
fn standings_float_cell_is_copied_bit_for_bit() {
    let headers = headers_of(&[
        "TEAM_ID",
        "LEAGUE_ID",
        "SEASON_ID",
        "STANDINGSDATE",
        "CONFERENCE",
        "TEAM",
        "G",
        "W",
        "L",
        "W_PCT",
        "HOME_RECORD",
        "ROAD_RECORD",
    ]);
    let w_pct: f64 = 0.512;
    let mut cells = nulls(12);
    cells[5] = s("Cavaliers");
    cells[6] = JsonValue::UInt(53);
    cells[7] = JsonValue::UInt(33);
    cells[8] = JsonValue::UInt(20);
    cells[9] = JsonValue::Float(FloatBits { bits: w_pct.to_bits() });
    let stats = parse_eastconfstandings(&headers, &vec![JsonValue::Array(cells)]).unwrap();
    match &stats[0] {
        Stat::EastConfStandings { team, g, wins, losses, w_pct: got, .. } => {
            assert_eq!(*team, Some("Cavaliers".to_owned()));
            assert_eq!(*g, Some(53));
            assert_eq!(*wins, Some(33));
            assert_eq!(*losses, Some(20));
            let bits = got.expect("a float cell must decode").bits;
            assert_eq!(f64::from_bits(bits), w_pct);
        },
        other => panic!("wrong record kind: {:?}", other),
    }
}

#[test]
fn end_to_end_teamroster() {
    // A valid roster query, then a fixture response decoded through the real
    // JSON parser: one record, the four populated columns present, every
    // other schema field absent.
    let payload = Query::TeamRosterQuery {
        teamid: "1610612739".to_owned(),
        season: "2015-16".to_owned(),
    };
    assert_eq!(validate(&payload), Ok(()));

    let body = "{\"resultSets\": [{\"headers\": [\"TeamID\", \"SEASON\", \"LeagueID\", \"PLAYER\", \"NUM\", \"POSITION\", \"HEIGHT\", \"WEIGHT\", \"BIRTH_DATE\", \"AGE\", \"EXP\", \"SCHOOL\", \"PLAYER_ID\"], \"rowSet\": [[\"1610612739\", \"2015-16\", null, \"John Doe\", null, null, null, null, null, null, null, null, \"201939\"]]}]}";
    let stats = decode_response(&StatType::TeamRoster, body).unwrap();
    assert_eq!(stats.len(), 1);
    match &stats[0] {
        Stat::TeamRoster {
            team_id,
            season,
            league_id,
            player,
            num,
            position,
            height,
            weight,
            birth_date,
            age,
            exp,
            school,
            player_id,
        } => {
            assert_eq!(*team_id, Some("1610612739".to_owned()));
            assert_eq!(*season, Some("2015-16".to_owned()));
            assert_eq!(*player, Some("John Doe".to_owned()));
            assert_eq!(*player_id, Some("201939".to_owned()));
            assert_eq!(*league_id, None);
            assert_eq!(*num, None);
            assert_eq!(*position, None);
            assert_eq!(*height, None);
            assert_eq!(*weight, None);
            assert_eq!(*birth_date, None);
            assert_eq!(*age, None);
            assert_eq!(*exp, None);
            assert_eq!(*school, None);
        },
        other => panic!("wrong record kind: {:?}", other),
    }
}

#[test]
fn decode_response_parses_numbers() {
    // The response decoder must really parse the body: numeric JSON cells
    // come back as typed fields, not as the body text.
    let body = "{\"resultSets\": [{\"headers\": [\"GAME_ID\", \"EVENTNUM\", \"EVENTMSGTYPE\", \"EVENTMSGACTIONTYPE\", \"PERIOD\", \"WCTIMESTRING\", \"PCTIMESTRING\", \"HOMEDESCRIPTION\", \"NEUTRALDESCRIPTION\", \"VISITORDESCRIPTION\", \"SCORE\", \"SCOREMARGIN\"], \"rowSet\": [[41400106, 12, 1, 0, 1, \"8:12 PM\", \"11:21\", null, null, null, null, null]]}]}";
    let stats = decode_response(&StatType::PlayByPlay, body).unwrap();
    assert_eq!(stats.len(), 1);
    match &stats[0] {
        Stat::PlayByPlay { game_id, eventnum, period, wctimestring, homedescription, .. } => {
            assert_eq!(*game_id, Some(41400106));
            assert_eq!(*eventnum, Some(12));
            assert_eq!(*period, Some(1));
            assert_eq!(*wctimestring, Some("8:12 PM".to_owned()));
            assert_eq!(*homedescription, None);
        },
        other => panic!("wrong record kind: {:?}", other),
    }
}

#[test]
fn malformed_body_is_a_shape_fault() {
    let r = decode_response(&StatType::PlayByPlay, "not json at all");
    assert_eq!(r, Err(NBAError::ShapeError));
}

#[test]
fn error_descriptions() {
    assert_eq!(
        NBAError::TransportError("connection reset".to_owned()).describe(),
        "the transport failed"
    );
    assert_eq!(
        NBAError::ShapeError.describe(),
        "the response violates its shape invariants"
    );
}

#[test]
fn gameheader_decode() {
    let headers = headers_of(&[
        "GAMEDATE_EST",
        "GAME_SEQUENCE",
        "GAME_ID",
        "GAME_STATUS_ID",
        "GAME_STATUS_TEXT",
        "GAMECODE",
        "HOME_TEAM_ID",
        "VISITOR_TEAM_ID",
        "SEASON",
        "LIVE_PERIOD",
        "LIVE_PC_TIME",
        "NATL_TV_BROADCASTER_ABBREVIATION",
        "LIVE_PERIOD_TIME_BCAST",
        "WH_STATUS",
    ]);
    let mut cells = nulls(14);
    cells[0] = s("2015-02-21T00:00:00");
    cells[1] = JsonValue::UInt(2);
    cells[2] = s("0021400817");
    cells[3] = JsonValue::UInt(3);
    cells[8] = JsonValue::UInt(2014);
    let stats = parse_gameheader(&headers, &vec![JsonValue::Array(cells)]).unwrap();
    assert_eq!(stats.len(), 1);
    match &stats[0] {
        Stat::GameHeader { gamedate_est, game_sequence, game_id, game_status_id, season, gamecode, .. } => {
            assert_eq!(*gamedate_est, Some("2015-02-21T00:00:00".to_owned()));
            assert_eq!(*game_sequence, Some(2));
            assert_eq!(*game_id, Some("0021400817".to_owned()));
            assert_eq!(*game_status_id, Some(3));
            assert_eq!(*season, Some(2014));
            assert_eq!(*gamecode, None);
        },
        other => panic!("wrong record kind: {:?}", other),
    }
}

#[test]
fn westconfstandings_decode_through_response() {
    // The western-conference table sits at position 5 of the response; the
    // decoder must pick it and not the five tables before it.
    let body = "{\"resultSets\": [{}, {}, {}, {}, {}, {\"headers\": [\"TEAM_ID\", \"LEAGUE_ID\", \"SEASON_ID\", \"STANDINGSDATE\", \"CONFERENCE\", \"TEAM\", \"G\", \"W\", \"L\", \"W_PCT\", \"HOME_RECORD\", \"ROAD_RECORD\"], \"rowSet\": [[null, null, null, null, \"West\", \"Warriors\", 55, 46, 9, 0.836, \"25-2\", \"21-7\"]]}]}";
    let stats = decode_response(&StatType::WestConfStandings, body).unwrap();
    assert_eq!(stats.len(), 1);
    match &stats[0] {
        Stat::WestConfStandings { conference, team, g, wins, losses, w_pct, home_record, .. } => {
            assert_eq!(*conference, Some("West".to_owned()));
            assert_eq!(*team, Some("Warriors".to_owned()));
            assert_eq!(*g, Some(55));
            assert_eq!(*wins, Some(46));
            assert_eq!(*losses, Some(9));
            assert_eq!(f64::from_bits(w_pct.expect("float cell").bits), 0.836);
            assert_eq!(*home_record, Some("25-2".to_owned()));
        },
        other => panic!("wrong record kind: {:?}", other),
    }
}

use nba_rs::err::NBAError;
use nba_rs::queries::{query_params, validate, Query};

fn pbp(gameid: &str, startperiod: &str, endperiod: &str) -> Query {
    Query::PlayByPlayQuery {
        gameid: gameid.to_owned(),
        startperiod: startperiod.to_owned(),
        endperiod: endperiod.to_owned(),
    }
}

fn gh(leagueid: &str, gamedate: &str, dayoffset: &str) -> Query {
    Query::GameHeaderQuery {
        leagueid: leagueid.to_owned(),
        gamedate: gamedate.to_owned(),
        dayoffset: dayoffset.to_owned(),
    }
}

fn roster(season: &str, teamid: &str) -> Query {
    Query::TeamRosterQuery { season: season.to_owned(), teamid: teamid.to_owned() }
}

#[test]
fn validate_playbyplay_ok() {
    assert_eq!(validate(&pbp("0041400106", "0", "14")), Ok(()));
    assert_eq!(validate(&pbp("1234567890", "9", "10")), Ok(()));
}

#[test]
fn validate_playbyplay_bad_gameid() {
    assert_eq!(
        validate(&pbp("041400106", "0", "14")),
        Err(NBAError::ValidationError("gameid".to_owned()))
    );
    assert_eq!(
        validate(&pbp("0041x00106", "0", "14")),
        Err(NBAError::ValidationError("gameid".to_owned()))
    );
    assert_eq!(
        validate(&pbp("00414001066", "0", "14")),
        Err(NBAError::ValidationError("gameid".to_owned()))
    );
}

#[test]
fn validate_playbyplay_bad_periods() {
    assert_eq!(
        validate(&pbp("0041400106", "15", "14")),
        Err(NBAError::ValidationError("startperiod".to_owned()))
    );
    assert_eq!(
        validate(&pbp("0041400106", "0", "25")),
        Err(NBAError::ValidationError("endperiod".to_owned()))
    );
    assert_eq!(
        validate(&pbp("0041400106", "", "0")),
        Err(NBAError::ValidationError("startperiod".to_owned()))
    );
    assert_eq!(validate(&pbp("0041400106", "14", "14")), Ok(()));
    assert_eq!(validate(&pbp("0041400106", "10", "10")), Ok(()));
}

#[test]
fn validate_gameheader_ok() {
    assert_eq!(validate(&gh("00", "02/21/2015", "0")), Ok(()));
    assert_eq!(validate(&gh("01", "31/12/2015", "99")), Ok(()));
}

#[test]
fn validate_gameheader_bad_fields() {
    assert_eq!(
        validate(&gh("02", "02/21/2015", "0")),
        Err(NBAError::ValidationError("leagueid".to_owned()))
    );
    assert_eq!(
        validate(&gh("00", "2/21/2015", "0")),
        Err(NBAError::ValidationError("gamedate".to_owned()))
    );
    assert_eq!(
        validate(&gh("00", "02-21-2015", "0")),
        Err(NBAError::ValidationError("gamedate".to_owned()))
    );
    assert_eq!(
        validate(&gh("00", "02/21/2015", "100")),
        Err(NBAError::ValidationError("dayoffset".to_owned()))
    );
    assert_eq!(
        validate(&gh("00", "02/21/2015", "x")),
        Err(NBAError::ValidationError("dayoffset".to_owned()))
    );
}

#[test]
fn validate_conf_standings() {
    let east = Query::EastConfStandingsQuery {
        leagueid: "00".to_owned(),
        gamedate: "02/21/2015".to_owned(),
        dayoffset: "0".to_owned(),
    };
    assert_eq!(validate(&east), Ok(()));
    let west = Query::WestConfStandingsQuery {
        leagueid: "10".to_owned(),
        gamedate: "02/21/2015".to_owned(),
        dayoffset: "0".to_owned(),
    };
    assert_eq!(validate(&west), Err(NBAError::ValidationError("leagueid".to_owned())));
}

#[test]
fn validate_teamroster() {
    assert_eq!(validate(&roster("2015-16", "1610612739")), Ok(()));
    assert_eq!(
        validate(&roster("2015-1f6", "1610612739")),
        Err(NBAError::ValidationError("season".to_owned()))
    );
    assert_eq!(
        validate(&roster("2015-16", "161061273")),
        Err(NBAError::ValidationError("teamid".to_owned()))
    );
}

#[test]
fn query_params_pairs() {
    let q = pbp("0041400106", "0", "14");
    let ps = query_params(&q);
    assert_eq!(
        ps,
        vec![
            ("gameId".to_owned(), "0041400106".to_owned()),
            ("startPeriod".to_owned(), "0".to_owned()),
            ("endPeriod".to_owned(), "14".to_owned()),
        ]
    );
    let q = roster("2015-16", "1610612739");
    let ps = query_params(&q);
    assert_eq!(
        ps,
        vec![
            ("season".to_owned(), "2015-16".to_owned()),
            ("teamId".to_owned(), "1610612739".to_owned()),
        ]
    );
}

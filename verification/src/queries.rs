use vstd::prelude::*;
use vstd::string::StrSliceExecFns;

use crate::err::{ErrV, NBAError};

verus! {

/// A request to the statistics service: one variant per query kind, holding
/// that kind's named string parameters. Parameters are untyped text until
/// [`validate`] has checked them against the kind's patterns.
#[derive(Debug)]
pub enum Query {
    PlayByPlayQuery { gameid: String, startperiod: String, endperiod: String },
    GameHeaderQuery { leagueid: String, gamedate: String, dayoffset: String },
    EastConfStandingsQuery { leagueid: String, gamedate: String, dayoffset: String },
    WestConfStandingsQuery { leagueid: String, gamedate: String, dayoffset: String },
    TeamRosterQuery { season: String, teamid: String },
}

pub open spec fn is_digit(c: char) -> bool {
    '0' <= c && c <= '9'
}

pub open spec fn all_digits(s: Seq<char>) -> bool {
    forall|i: int| 0 <= i < s.len() ==> is_digit(s[i])
}

/// A game identifier: exactly ten digits.
pub open spec fn valid_game_id(s: Seq<char>) -> bool {
    s.len() == 10 && all_digits(s)
}

/// A period bound: a single digit, or `10` through `14`.
pub open spec fn valid_period(s: Seq<char>) -> bool {
    ||| (s.len() == 1 && is_digit(s[0]))
    ||| (s.len() == 2 && s[0] == '1' && '0' <= s[1] && s[1] <= '4')
}

/// A league identifier: `00` or `01`.
pub open spec fn valid_league_id(s: Seq<char>) -> bool {
    s.len() == 2 && s[0] == '0' && (s[1] == '0' || s[1] == '1')
}

/// A game date: two digits, a slash, two digits, a slash, four digits.
pub open spec fn valid_game_date(s: Seq<char>) -> bool {
    &&& s.len() == 10
    &&& is_digit(s[0])
    &&& is_digit(s[1])
    &&& s[2] == '/'
    &&& is_digit(s[3])
    &&& is_digit(s[4])
    &&& s[5] == '/'
    &&& is_digit(s[6])
    &&& is_digit(s[7])
    &&& is_digit(s[8])
    &&& is_digit(s[9])
}

/// A day offset: one or two digits.
pub open spec fn valid_day_offset(s: Seq<char>) -> bool {
    (s.len() == 1 || s.len() == 2) && all_digits(s)
}

/// A season: four digits, a dash, two digits.
pub open spec fn valid_season(s: Seq<char>) -> bool {
    &&& s.len() == 7
    &&& is_digit(s[0])
    &&& is_digit(s[1])
    &&& is_digit(s[2])
    &&& is_digit(s[3])
    &&& s[4] == '-'
    &&& is_digit(s[5])
    &&& is_digit(s[6])
}

/// A team identifier: exactly ten digits.
pub open spec fn valid_team_id(s: Seq<char>) -> bool {
    s.len() == 10 && all_digits(s)
}

/// Every parameter of the query matches its kind's pattern.
pub open spec fn query_valid(q: Query) -> bool {
    match q {
        Query::PlayByPlayQuery { gameid, startperiod, endperiod } => {
            &&& valid_game_id(gameid@)
            &&& valid_period(startperiod@)
            &&& valid_period(endperiod@)
        },
        Query::GameHeaderQuery { leagueid, gamedate, dayoffset }
        | Query::EastConfStandingsQuery { leagueid, gamedate, dayoffset }
        | Query::WestConfStandingsQuery { leagueid, gamedate, dayoffset } => {
            &&& valid_league_id(leagueid@)
            &&& valid_game_date(gamedate@)
            &&& valid_day_offset(dayoffset@)
        },
        Query::TeamRosterQuery { season, teamid } => {
            &&& valid_season(season@)
            &&& valid_team_id(teamid@)
        },
    }
}

/// What [`validate`] returns: `Ok` when every parameter matches its pattern,
/// else a `Validation` error naming the first parameter (in the kind's field
/// order) that does not.
pub open spec fn spec_validate(q: Query) -> Result<(), ErrV> {
    match q {
        Query::PlayByPlayQuery { gameid, startperiod, endperiod } => {
            if !valid_game_id(gameid@) {
                Err(ErrV::Validation("gameid"@))
            } else if !valid_period(startperiod@) {
                Err(ErrV::Validation("startperiod"@))
            } else if !valid_period(endperiod@) {
                Err(ErrV::Validation("endperiod"@))
            } else {
                Ok(())
            }
        },
        Query::GameHeaderQuery { leagueid, gamedate, dayoffset }
        | Query::EastConfStandingsQuery { leagueid, gamedate, dayoffset }
        | Query::WestConfStandingsQuery { leagueid, gamedate, dayoffset } => {
            if !valid_league_id(leagueid@) {
                Err(ErrV::Validation("leagueid"@))
            } else if !valid_game_date(gamedate@) {
                Err(ErrV::Validation("gamedate"@))
            } else if !valid_day_offset(dayoffset@) {
                Err(ErrV::Validation("dayoffset"@))
            } else {
                Ok(())
            }
        },
        Query::TeamRosterQuery { season, teamid } => {
            if !valid_season(season@) {
                Err(ErrV::Validation("season"@))
            } else if !valid_team_id(teamid@) {
                Err(ErrV::Validation("teamid"@))
            } else {
                Ok(())
            }
        },
    }
}

/// The view of [`validate`]'s result.
pub open spec fn unit_result_view(r: Result<(), NBAError>) -> Result<(), ErrV> {
    match r {
        Ok(_) => Ok(()),
        Err(e) => Err(e@),
    }
}

fn digit(c: char) -> (r: bool)
    ensures
        r == is_digit(c),
{
    '0' <= c && c <= '9'
}

fn check_all_digits(s: &str) -> (r: bool)
    ensures
        r == all_digits(s@),
{
    let n = s.unicode_len();
    let mut i: usize = 0;
    while i < n
        invariant
            n == s@.len(),
            i <= n,
            forall|j: int| 0 <= j < i ==> is_digit(s@[j]),
        decreases n - i,
    {
        if !digit(s.get_char(i)) {
            return false;
        }
        i += 1;
    }
    true
}

fn check_game_id(s: &str) -> (r: bool)
    ensures
        r == valid_game_id(s@),
{
    s.unicode_len() == 10 && check_all_digits(s)
}

fn check_period(s: &str) -> (r: bool)
    ensures
        r == valid_period(s@),
{
    let n = s.unicode_len();
    if n == 1 {
        digit(s.get_char(0))
    } else if n == 2 {
        let c1 = s.get_char(1);
        s.get_char(0) == '1' && '0' <= c1 && c1 <= '4'
    } else {
        false
    }
}

fn check_league_id(s: &str) -> (r: bool)
    ensures
        r == valid_league_id(s@),
{
    if s.unicode_len() != 2 {
        return false;
    }
    let c1 = s.get_char(1);
    s.get_char(0) == '0' && (c1 == '0' || c1 == '1')
}

fn check_game_date(s: &str) -> (r: bool)
    ensures
        r == valid_game_date(s@),
{
    if s.unicode_len() != 10 {
        return false;
    }
    digit(s.get_char(0)) && digit(s.get_char(1)) && s.get_char(2) == '/' && digit(s.get_char(3))
        && digit(s.get_char(4)) && s.get_char(5) == '/' && digit(s.get_char(6)) && digit(
        s.get_char(7),
    ) && digit(s.get_char(8)) && digit(s.get_char(9))
}

fn check_day_offset(s: &str) -> (r: bool)
    ensures
        r == valid_day_offset(s@),
{
    let n = s.unicode_len();
    (n == 1 || n == 2) && check_all_digits(s)
}

fn check_season(s: &str) -> (r: bool)
    ensures
        r == valid_season(s@),
{
    if s.unicode_len() != 7 {
        return false;
    }
    digit(s.get_char(0)) && digit(s.get_char(1)) && digit(s.get_char(2)) && digit(s.get_char(3))
        && s.get_char(4) == '-' && digit(s.get_char(5)) && digit(s.get_char(6))
}

fn check_team_id(s: &str) -> (r: bool)
    ensures
        r == valid_team_id(s@),
{
    s.unicode_len() == 10 && check_all_digits(s)
}

/// Checks every parameter of the query against its kind's pattern, before any
/// network call. Pure: succeeds exactly on valid queries and otherwise names
/// the first offending parameter, never terminating the process.
pub fn validate(payload: &Query) -> (r: Result<(), NBAError>)
    ensures
        unit_result_view(r) == spec_validate(*payload),
        r is Ok <==> query_valid(*payload),
{
    match payload {
        Query::PlayByPlayQuery { gameid, startperiod, endperiod } => {
            if !check_game_id(gameid.as_str()) {
                Err(NBAError::ValidationError("gameid".to_owned()))
            } else if !check_period(startperiod.as_str()) {
                Err(NBAError::ValidationError("startperiod".to_owned()))
            } else if !check_period(endperiod.as_str()) {
                Err(NBAError::ValidationError("endperiod".to_owned()))
            } else {
                Ok(())
            }
        },
        Query::GameHeaderQuery { leagueid, gamedate, dayoffset }
        | Query::EastConfStandingsQuery { leagueid, gamedate, dayoffset }
        | Query::WestConfStandingsQuery { leagueid, gamedate, dayoffset } => {
            if !check_league_id(leagueid.as_str()) {
                Err(NBAError::ValidationError("leagueid".to_owned()))
            } else if !check_game_date(gamedate.as_str()) {
                Err(NBAError::ValidationError("gamedate".to_owned()))
            } else if !check_day_offset(dayoffset.as_str()) {
                Err(NBAError::ValidationError("dayoffset".to_owned()))
            } else {
                Ok(())
            }
        },
        Query::TeamRosterQuery { season, teamid } => {
            if !check_season(season.as_str()) {
                Err(NBAError::ValidationError("season".to_owned()))
            } else if !check_team_id(teamid.as_str()) {
                Err(NBAError::ValidationError("teamid".to_owned()))
            } else {
                Ok(())
            }
        },
    }
}

/// The URL query parameters a query contributes to its GET request, in order.
pub open spec fn spec_query_params(q: Query) -> Seq<(Seq<char>, Seq<char>)> {
    match q {
        Query::PlayByPlayQuery { gameid, startperiod, endperiod } => seq![
            ("gameId"@, gameid@),
            ("startPeriod"@, startperiod@),
            ("endPeriod"@, endperiod@),
        ],
        Query::GameHeaderQuery { leagueid, gamedate, dayoffset }
        | Query::EastConfStandingsQuery { leagueid, gamedate, dayoffset }
        | Query::WestConfStandingsQuery { leagueid, gamedate, dayoffset } => seq![
            ("leagueId"@, leagueid@),
            ("gameDate"@, gamedate@),
            ("dayOffset"@, dayoffset@),
        ],
        Query::TeamRosterQuery { season, teamid } => seq![
            ("season"@, season@),
            ("teamId"@, teamid@),
        ],
    }
}

/// The views of a parameter list.
pub open spec fn params_view(ps: Seq<(String, String)>) -> Seq<(Seq<char>, Seq<char>)> {
    ps.map_values(|p: (String, String)| (p.0@, p.1@))
}

/// GET-encodes the query: each field becomes one URL query parameter, named
/// and ordered per [`spec_query_params`]. The transport appends these pairs
/// to the kind's endpoint URL.
pub fn query_params(payload: &Query) -> (r: Vec<(String, String)>)
    ensures
        params_view(r@) == spec_query_params(*payload),
{
    let mut out: Vec<(String, String)> = Vec::new();
    match payload {
        Query::PlayByPlayQuery { gameid, startperiod, endperiod } => {
            out.push(("gameId".to_owned(), gameid.clone()));
            out.push(("startPeriod".to_owned(), startperiod.clone()));
            out.push(("endPeriod".to_owned(), endperiod.clone()));
        },
        Query::GameHeaderQuery { leagueid, gamedate, dayoffset }
        | Query::EastConfStandingsQuery { leagueid, gamedate, dayoffset }
        | Query::WestConfStandingsQuery { leagueid, gamedate, dayoffset } => {
            out.push(("leagueId".to_owned(), leagueid.clone()));
            out.push(("gameDate".to_owned(), gamedate.clone()));
            out.push(("dayOffset".to_owned(), dayoffset.clone()));
        },
        Query::TeamRosterQuery { season, teamid } => {
            out.push(("season".to_owned(), season.clone()));
            out.push(("teamId".to_owned(), teamid.clone()));
        },
    }
    proof {
        assert(params_view(out@) =~= spec_query_params(*payload));
    }
    out
}

} // verus!

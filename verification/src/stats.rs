use vstd::prelude::*;

use crate::json::{view_opt_str, FloatBits};

verus! {

/// The logical category of a request: selects the endpoint, the index of the
/// result table within the response, and the record schema.
#[derive(Clone, Copy, Debug, PartialEq, Eq, Structural)]
pub enum StatType {
    PlayByPlay,
    GameHeader,
    EastConfStandings,
    WestConfStandings,
    TeamRoster,
}

/// One decoded record, one variant per query kind. Every field is optional:
/// a cell that is null or of an incompatible runtime type decodes to an
/// absent field, never to an error.
#[allow(inconsistent_fields)]
#[derive(Debug, PartialEq)]
pub enum Stat {
    PlayByPlay {
        game_id: Option<i64>,
        eventnum: Option<u64>,
        eventmsgtype: Option<u64>,
        eventmsgactiontype: Option<u64>,
        period: Option<u64>,
        wctimestring: Option<String>,
        pctimestring: Option<String>,
        homedescription: Option<String>,
        neutraldescription: Option<String>,
        visitordescription: Option<String>,
        score: Option<u64>,
        scoremargin: Option<u64>,
    },
    GameHeader {
        gamedate_est: Option<String>,
        game_sequence: Option<u64>,
        game_id: Option<String>,
        game_status_id: Option<u64>,
        game_status_text: Option<String>,
        gamecode: Option<String>,
        home_team_id: Option<String>,
        visitor_team_id: Option<String>,
        season: Option<u64>,
        live_period: Option<u64>,
        live_pc_time: Option<u64>,
        natl_tv_broadcaster_abbreviation: Option<String>,
        live_period_time_bcast: Option<String>,
        wh_status: Option<u64>,
    },
    EastConfStandings {
        team_id: Option<String>,
        league_id: Option<String>,
        season_id: Option<String>,
        standings_date: Option<String>,
        conference: Option<String>,
        team: Option<String>,
        g: Option<u64>,
        wins: Option<u64>,
        losses: Option<u64>,
        w_pct: Option<FloatBits>,
        home_record: Option<String>,
        road_record: Option<String>,
    },
    WestConfStandings {
        team_id: Option<String>,
        league_id: Option<String>,
        season_id: Option<String>,
        standings_date: Option<String>,
        conference: Option<String>,
        team: Option<String>,
        g: Option<u64>,
        wins: Option<u64>,
        losses: Option<u64>,
        w_pct: Option<FloatBits>,
        home_record: Option<String>,
        road_record: Option<String>,
    },
    TeamRoster {
        team_id: Option<String>,
        season: Option<String>,
        league_id: Option<String>,
        player: Option<String>,
        num: Option<String>,
        position: Option<String>,
        height: Option<String>,
        weight: Option<String>,
        birth_date: Option<String>,
        age: Option<u64>,
        exp: Option<String>,
        school: Option<String>,
        player_id: Option<String>,
    },
}

/// Spec-level image of a [`Stat`]: string fields become character sequences,
/// so two records with equal views are field-for-field identical.
#[allow(inconsistent_fields)]
pub enum StatV {
    PlayByPlay {
        game_id: Option<i64>,
        eventnum: Option<u64>,
        eventmsgtype: Option<u64>,
        eventmsgactiontype: Option<u64>,
        period: Option<u64>,
        wctimestring: Option<Seq<char>>,
        pctimestring: Option<Seq<char>>,
        homedescription: Option<Seq<char>>,
        neutraldescription: Option<Seq<char>>,
        visitordescription: Option<Seq<char>>,
        score: Option<u64>,
        scoremargin: Option<u64>,
    },
    GameHeader {
        gamedate_est: Option<Seq<char>>,
        game_sequence: Option<u64>,
        game_id: Option<Seq<char>>,
        game_status_id: Option<u64>,
        game_status_text: Option<Seq<char>>,
        gamecode: Option<Seq<char>>,
        home_team_id: Option<Seq<char>>,
        visitor_team_id: Option<Seq<char>>,
        season: Option<u64>,
        live_period: Option<u64>,
        live_pc_time: Option<u64>,
        natl_tv_broadcaster_abbreviation: Option<Seq<char>>,
        live_period_time_bcast: Option<Seq<char>>,
        wh_status: Option<u64>,
    },
    EastConfStandings {
        team_id: Option<Seq<char>>,
        league_id: Option<Seq<char>>,
        season_id: Option<Seq<char>>,
        standings_date: Option<Seq<char>>,
        conference: Option<Seq<char>>,
        team: Option<Seq<char>>,
        g: Option<u64>,
        wins: Option<u64>,
        losses: Option<u64>,
        w_pct: Option<FloatBits>,
        home_record: Option<Seq<char>>,
        road_record: Option<Seq<char>>,
    },
    WestConfStandings {
        team_id: Option<Seq<char>>,
        league_id: Option<Seq<char>>,
        season_id: Option<Seq<char>>,
        standings_date: Option<Seq<char>>,
        conference: Option<Seq<char>>,
        team: Option<Seq<char>>,
        g: Option<u64>,
        wins: Option<u64>,
        losses: Option<u64>,
        w_pct: Option<FloatBits>,
        home_record: Option<Seq<char>>,
        road_record: Option<Seq<char>>,
    },
    TeamRoster {
        team_id: Option<Seq<char>>,
        season: Option<Seq<char>>,
        league_id: Option<Seq<char>>,
        player: Option<Seq<char>>,
        num: Option<Seq<char>>,
        position: Option<Seq<char>>,
        height: Option<Seq<char>>,
        weight: Option<Seq<char>>,
        birth_date: Option<Seq<char>>,
        age: Option<u64>,
        exp: Option<Seq<char>>,
        school: Option<Seq<char>>,
        player_id: Option<Seq<char>>,
    },
}

impl View for Stat {
    type V = StatV;

    open spec fn view(&self) -> StatV {
        match self {
            Stat::PlayByPlay {
                game_id,
                eventnum,
                eventmsgtype,
                eventmsgactiontype,
                period,
                wctimestring,
                pctimestring,
                homedescription,
                neutraldescription,
                visitordescription,
                score,
                scoremargin,
            } => StatV::PlayByPlay {
                game_id: *game_id,
                eventnum: *eventnum,
                eventmsgtype: *eventmsgtype,
                eventmsgactiontype: *eventmsgactiontype,
                period: *period,
                wctimestring: view_opt_str(*wctimestring),
                pctimestring: view_opt_str(*pctimestring),
                homedescription: view_opt_str(*homedescription),
                neutraldescription: view_opt_str(*neutraldescription),
                visitordescription: view_opt_str(*visitordescription),
                score: *score,
                scoremargin: *scoremargin,
            },
            Stat::GameHeader {
                gamedate_est,
                game_sequence,
                game_id,
                game_status_id,
                game_status_text,
                gamecode,
                home_team_id,
                visitor_team_id,
                season,
                live_period,
                live_pc_time,
                natl_tv_broadcaster_abbreviation,
                live_period_time_bcast,
                wh_status,
            } => StatV::GameHeader {
                gamedate_est: view_opt_str(*gamedate_est),
                game_sequence: *game_sequence,
                game_id: view_opt_str(*game_id),
                game_status_id: *game_status_id,
                game_status_text: view_opt_str(*game_status_text),
                gamecode: view_opt_str(*gamecode),
                home_team_id: view_opt_str(*home_team_id),
                visitor_team_id: view_opt_str(*visitor_team_id),
                season: *season,
                live_period: *live_period,
                live_pc_time: *live_pc_time,
                natl_tv_broadcaster_abbreviation: view_opt_str(*natl_tv_broadcaster_abbreviation),
                live_period_time_bcast: view_opt_str(*live_period_time_bcast),
                wh_status: *wh_status,
            },
            Stat::EastConfStandings {
                team_id,
                league_id,
                season_id,
                standings_date,
                conference,
                team,
                g,
                wins,
                losses,
                w_pct,
                home_record,
                road_record,
            } => StatV::EastConfStandings {
                team_id: view_opt_str(*team_id),
                league_id: view_opt_str(*league_id),
                season_id: view_opt_str(*season_id),
                standings_date: view_opt_str(*standings_date),
                conference: view_opt_str(*conference),
                team: view_opt_str(*team),
                g: *g,
                wins: *wins,
                losses: *losses,
                w_pct: *w_pct,
                home_record: view_opt_str(*home_record),
                road_record: view_opt_str(*road_record),
            },
            Stat::WestConfStandings {
                team_id,
                league_id,
                season_id,
                standings_date,
                conference,
                team,
                g,
                wins,
                losses,
                w_pct,
                home_record,
                road_record,
            } => StatV::WestConfStandings {
                team_id: view_opt_str(*team_id),
                league_id: view_opt_str(*league_id),
                season_id: view_opt_str(*season_id),
                standings_date: view_opt_str(*standings_date),
                conference: view_opt_str(*conference),
                team: view_opt_str(*team),
                g: *g,
                wins: *wins,
                losses: *losses,
                w_pct: *w_pct,
                home_record: view_opt_str(*home_record),
                road_record: view_opt_str(*road_record),
            },
            Stat::TeamRoster {
                team_id,
                season,
                league_id,
                player,
                num,
                position,
                height,
                weight,
                birth_date,
                age,
                exp,
                school,
                player_id,
            } => StatV::TeamRoster {
                team_id: view_opt_str(*team_id),
                season: view_opt_str(*season),
                league_id: view_opt_str(*league_id),
                player: view_opt_str(*player),
                num: view_opt_str(*num),
                position: view_opt_str(*position),
                height: view_opt_str(*height),
                weight: view_opt_str(*weight),
                birth_date: view_opt_str(*birth_date),
                age: *age,
                exp: view_opt_str(*exp),
                school: view_opt_str(*school),
                player_id: view_opt_str(*player_id),
            },
        }
    }
}

/// The views of a decoded record sequence, in order.
pub open spec fn stats_view(v: Seq<Stat>) -> Seq<StatV> {
    v.map_values(|s: Stat| s@)
}

} // verus!

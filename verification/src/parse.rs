use vstd::prelude::*;

use crate::err::{ErrV, NBAError};
use crate::json::{cell_float, cell_i64, cell_str, cell_u64, str_eq, JsonValue};
use crate::stats::{stats_view, Stat, StatType, StatV};

verus! {

/// The header cell is the string `name`.
pub open spec fn header_matches(v: JsonValue, name: Seq<char>) -> bool {
    v matches JsonValue::Str(s) && s@ == name
}

/// The position of column `name` within `h`: the first header cell that is
/// the string `name`, if any.
pub open spec fn find_idx_spec(h: Seq<JsonValue>, name: Seq<char>) -> Option<int>
    decreases h.len(),
{
    if h.len() == 0 {
        None
    } else if header_matches(h[0], name) {
        Some(0)
    } else {
        match find_idx_spec(h.drop_first(), name) {
            Some(i) => Some(i + 1),
            None => None,
        }
    }
}

/// Column `name` resolves within `h`.
pub open spec fn has_col(h: Seq<JsonValue>, name: Seq<char>) -> bool {
    find_idx_spec(h, name) is Some
}

/// The resolved position of column `name`, negative when it does not resolve.
pub open spec fn idx_in(h: Seq<JsonValue>, name: Seq<char>) -> int {
    match find_idx_spec(h, name) {
        Some(i) => i,
        None => -1,
    }
}

/// The cell of `cells` standing at column `name`'s resolved position.
pub open spec fn cell_at(h: Seq<JsonValue>, cells: Seq<JsonValue>, name: Seq<char>) -> JsonValue {
    cells[idx_in(h, name)]
}

/// What `find_idx_spec` yields: the first matching position, or nothing when
/// no header cell matches.
pub proof fn lemma_find_idx_spec(h: Seq<JsonValue>, name: Seq<char>)
    ensures
        match find_idx_spec(h, name) {
            Some(i) => 0 <= i < h.len() && header_matches(h[i], name) && (forall|j: int|
                0 <= j < i ==> !header_matches(h[j], name)),
            None => forall|j: int| 0 <= j < h.len() ==> !header_matches(h[j], name),
        },
    decreases h.len(),
{
    if h.len() > 0 && !header_matches(h[0], name) {
        lemma_find_idx_spec(h.drop_first(), name);
        match find_idx_spec(h.drop_first(), name) {
            Some(i) => {
                assert(h.drop_first()[i] == h[i + 1]);
                assert forall|j: int| 0 <= j < i + 1 implies !header_matches(h[j], name) by {
                    if j > 0 {
                        assert(h.drop_first()[j - 1] == h[j]);
                        assert(!header_matches(h.drop_first()[j - 1], name));
                    }
                }
            },
            None => {
                assert forall|j: int| 0 <= j < h.len() implies !header_matches(h[j], name) by {
                    if j > 0 {
                        assert(h.drop_first()[j - 1] == h[j]);
                        assert(!header_matches(h.drop_first()[j - 1], name));
                    }
                }
            },
        }
    }
}

/// A match at `i` with none before it resolves to `i`.
pub proof fn lemma_find_idx_first(h: Seq<JsonValue>, name: Seq<char>, i: int)
    requires
        0 <= i < h.len(),
        header_matches(h[i], name),
        forall|j: int| 0 <= j < i ==> !header_matches(h[j], name),
    ensures
        find_idx_spec(h, name) == Some(i),
    decreases i,
{
    if i > 0 {
        assert(!header_matches(h[0], name));
        lemma_find_idx_first(h.drop_first(), name, i - 1);
        assert(h.drop_first()[i - 1] == h[i]);
        assert(forall|j: int| 0 <= j < i - 1 ==> h.drop_first()[j] == h[j + 1]);
    }
}

/// Without a match nothing resolves.
pub proof fn lemma_find_idx_absent(h: Seq<JsonValue>, name: Seq<char>)
    requires
        forall|j: int| 0 <= j < h.len() ==> !header_matches(h[j], name),
    ensures
        find_idx_spec(h, name) is None,
    decreases h.len(),
{
    if h.len() > 0 {
        assert(forall|j: int| 0 <= j < h.len() - 1 ==> h.drop_first()[j] == h[j + 1]);
        lemma_find_idx_absent(h.drop_first(), name);
    }
}

/// Column resolution is injective: two column names that resolve to the same
/// position within the same headers are the same name.
pub proof fn lemma_resolution_injective(h: Seq<JsonValue>, n1: Seq<char>, n2: Seq<char>)
    requires
        find_idx_spec(h, n1) is Some,
        find_idx_spec(h, n1) == find_idx_spec(h, n2),
    ensures
        n1 == n2,
{
    lemma_find_idx_spec(h, n1);
    lemma_find_idx_spec(h, n2);
}

/// Column resolution is order-independent: a uniquely named column resolves
/// to its own position, whatever the other columns are or how they are
/// ordered around it.
pub proof fn lemma_resolution_position(h: Seq<JsonValue>, name: Seq<char>, i: int)
    requires
        0 <= i < h.len(),
        header_matches(h[i], name),
        forall|j: int| 0 <= j < h.len() && j != i ==> !header_matches(h[j], name),
    ensures
        find_idx_spec(h, name) == Some(i),
{
    lemma_find_idx_first(h, name, i);
}

/// Resolves column `elem` within the header list: the position of the first
/// header cell that is the string `elem`, or `HeaderMissingError(elem)` when
/// no header cell matches.
pub fn find_idx(ls: &Vec<JsonValue>, elem: &str) -> (r: Result<usize, NBAError>)
    ensures
        match r {
            Ok(i) => find_idx_spec(ls@, elem@) == Some(i as int),
            Err(e) => find_idx_spec(ls@, elem@) is None && e@ == ErrV::HeaderMissing(elem@),
        },
{
    let mut i: usize = 0;
    while i < ls.len()
        invariant
            i <= ls@.len(),
            forall|j: int| 0 <= j < i ==> !header_matches(ls@[j], elem@),
        decreases ls@.len() - i,
    {
        match &ls[i] {
            JsonValue::Str(s) => {
                if str_eq(s.as_str(), elem) {
                    proof {
                        lemma_find_idx_first(ls@, elem@, i as int);
                    }
                    return Ok(i);
                }
            },
            _ => {},
        }
        i += 1;
    }
    proof {
        lemma_find_idx_absent(ls@, elem@);
    }
    Err(NBAError::HeaderMissingError(elem.to_owned()))
}

/// The view of a decoder's result.
pub open spec fn parse_result_view(r: Result<Vec<Stat>, NBAError>) -> Result<Seq<StatV>, ErrV> {
    match r {
        Ok(v) => Ok(stats_view(v@)),
        Err(e) => Err(e@),
    }
}

/// A null cell yields an absent field under every coercion — it is no error.
/// (A row's acceptance depends only on its length, never on what a cell
/// holds, so a null cell can fail no decode.)
pub proof fn lemma_null_cell_absent()
    ensures
        cell_i64(JsonValue::Null) is None,
        cell_u64(JsonValue::Null) is None,
        cell_float(JsonValue::Null) is None,
        cell_str(JsonValue::Null) is None,
{
}

/// The row is a list long enough for every resolved play-by-play column.
pub open spec fn playbyplay_row_ok(h: Seq<JsonValue>, row: JsonValue) -> bool {
    row matches JsonValue::Array(cells) && {
        &&& idx_in(h, "GAME_ID"@) < cells@.len()
        &&& idx_in(h, "EVENTNUM"@) < cells@.len()
        &&& idx_in(h, "EVENTMSGTYPE"@) < cells@.len()
        &&& idx_in(h, "EVENTMSGACTIONTYPE"@) < cells@.len()
        &&& idx_in(h, "PERIOD"@) < cells@.len()
        &&& idx_in(h, "WCTIMESTRING"@) < cells@.len()
        &&& idx_in(h, "PCTIMESTRING"@) < cells@.len()
        &&& idx_in(h, "HOMEDESCRIPTION"@) < cells@.len()
        &&& idx_in(h, "NEUTRALDESCRIPTION"@) < cells@.len()
        &&& idx_in(h, "VISITORDESCRIPTION"@) < cells@.len()
        &&& idx_in(h, "SCORE"@) < cells@.len()
        &&& idx_in(h, "SCOREMARGIN"@) < cells@.len()
    }
}

/// The record one play-by-play row decodes to: each schema column's cell,
/// read at its resolved position and coerced to the field's type.
pub open spec fn spec_row_playbyplay(h: Seq<JsonValue>, row: JsonValue) -> StatV {
    let cells = row->Array_0@;
    StatV::PlayByPlay {
        game_id: cell_i64(cell_at(h, cells, "GAME_ID"@)),
        eventnum: cell_u64(cell_at(h, cells, "EVENTNUM"@)),
        eventmsgtype: cell_u64(cell_at(h, cells, "EVENTMSGTYPE"@)),
        eventmsgactiontype: cell_u64(cell_at(h, cells, "EVENTMSGACTIONTYPE"@)),
        period: cell_u64(cell_at(h, cells, "PERIOD"@)),
        wctimestring: cell_str(cell_at(h, cells, "WCTIMESTRING"@)),
        pctimestring: cell_str(cell_at(h, cells, "PCTIMESTRING"@)),
        homedescription: cell_str(cell_at(h, cells, "HOMEDESCRIPTION"@)),
        neutraldescription: cell_str(cell_at(h, cells, "NEUTRALDESCRIPTION"@)),
        visitordescription: cell_str(cell_at(h, cells, "VISITORDESCRIPTION"@)),
        score: cell_u64(cell_at(h, cells, "SCORE"@)),
        scoremargin: cell_u64(cell_at(h, cells, "SCOREMARGIN"@)),
    }
}

/// What decoding a play-by-play table yields: the first schema column that
/// does not resolve aborts the decode; a row that is not a list, or too short
/// for a resolved column, is a shape fault; otherwise one record per row, in
/// row order.
pub open spec fn spec_parse_playbyplay(h: Seq<JsonValue>, rows: Seq<JsonValue>) -> Result<
    Seq<StatV>,
    ErrV,
> {
    if !has_col(h, "GAME_ID"@) {
        Err(ErrV::HeaderMissing("GAME_ID"@))
    } else if !has_col(h, "EVENTNUM"@) {
        Err(ErrV::HeaderMissing("EVENTNUM"@))
    } else if !has_col(h, "EVENTMSGTYPE"@) {
        Err(ErrV::HeaderMissing("EVENTMSGTYPE"@))
    } else if !has_col(h, "EVENTMSGACTIONTYPE"@) {
        Err(ErrV::HeaderMissing("EVENTMSGACTIONTYPE"@))
    } else if !has_col(h, "PERIOD"@) {
        Err(ErrV::HeaderMissing("PERIOD"@))
    } else if !has_col(h, "WCTIMESTRING"@) {
        Err(ErrV::HeaderMissing("WCTIMESTRING"@))
    } else if !has_col(h, "PCTIMESTRING"@) {
        Err(ErrV::HeaderMissing("PCTIMESTRING"@))
    } else if !has_col(h, "HOMEDESCRIPTION"@) {
        Err(ErrV::HeaderMissing("HOMEDESCRIPTION"@))
    } else if !has_col(h, "NEUTRALDESCRIPTION"@) {
        Err(ErrV::HeaderMissing("NEUTRALDESCRIPTION"@))
    } else if !has_col(h, "VISITORDESCRIPTION"@) {
        Err(ErrV::HeaderMissing("VISITORDESCRIPTION"@))
    } else if !has_col(h, "SCORE"@) {
        Err(ErrV::HeaderMissing("SCORE"@))
    } else if !has_col(h, "SCOREMARGIN"@) {
        Err(ErrV::HeaderMissing("SCOREMARGIN"@))
    } else if exists|i: int| 0 <= i < rows.len() && !playbyplay_row_ok(h, rows[i]) {
        Err(ErrV::Shape)
    } else {
        Ok(Seq::new(rows.len(), |i: int| spec_row_playbyplay(h, rows[i])))
    }
}

/// Decodes a play-by-play result table, per [`spec_parse_playbyplay`].
pub fn parse_playbyplay(headers: &Vec<JsonValue>, rows: &Vec<JsonValue>) -> (r: Result<
    Vec<Stat>,
    NBAError,
>)
    ensures
        parse_result_view(r) == spec_parse_playbyplay(headers@, rows@),
{
    let game_id_idx = match find_idx(headers, "GAME_ID") {
        Ok(i) => i,
        Err(e) => return Err(e),
    };
    let eventnum_idx = match find_idx(headers, "EVENTNUM") {
        Ok(i) => i,
        Err(e) => return Err(e),
    };
    let eventmsgtype_idx = match find_idx(headers, "EVENTMSGTYPE") {
        Ok(i) => i,
        Err(e) => return Err(e),
    };
    let eventmsgactiontype_idx = match find_idx(headers, "EVENTMSGACTIONTYPE") {
        Ok(i) => i,
        Err(e) => return Err(e),
    };
    let period_idx = match find_idx(headers, "PERIOD") {
        Ok(i) => i,
        Err(e) => return Err(e),
    };
    let wctimestring_idx = match find_idx(headers, "WCTIMESTRING") {
        Ok(i) => i,
        Err(e) => return Err(e),
    };
    let pctimestring_idx = match find_idx(headers, "PCTIMESTRING") {
        Ok(i) => i,
        Err(e) => return Err(e),
    };
    let homedescription_idx = match find_idx(headers, "HOMEDESCRIPTION") {
        Ok(i) => i,
        Err(e) => return Err(e),
    };
    let neutraldescription_idx = match find_idx(headers, "NEUTRALDESCRIPTION") {
        Ok(i) => i,
        Err(e) => return Err(e),
    };
    let visitordescription_idx = match find_idx(headers, "VISITORDESCRIPTION") {
        Ok(i) => i,
        Err(e) => return Err(e),
    };
    let score_idx = match find_idx(headers, "SCORE") {
        Ok(i) => i,
        Err(e) => return Err(e),
    };
    let scoremargin_idx = match find_idx(headers, "SCOREMARGIN") {
        Ok(i) => i,
        Err(e) => return Err(e),
    };
    let mut out: Vec<Stat> = Vec::new();
    let mut i: usize = 0;
    while i < rows.len()
        invariant
            i <= rows@.len(),
            find_idx_spec(headers@, "GAME_ID"@) == Some(game_id_idx as int),
            find_idx_spec(headers@, "EVENTNUM"@) == Some(eventnum_idx as int),
            find_idx_spec(headers@, "EVENTMSGTYPE"@) == Some(eventmsgtype_idx as int),
            find_idx_spec(headers@, "EVENTMSGACTIONTYPE"@) == Some(eventmsgactiontype_idx as int),
            find_idx_spec(headers@, "PERIOD"@) == Some(period_idx as int),
            find_idx_spec(headers@, "WCTIMESTRING"@) == Some(wctimestring_idx as int),
            find_idx_spec(headers@, "PCTIMESTRING"@) == Some(pctimestring_idx as int),
            find_idx_spec(headers@, "HOMEDESCRIPTION"@) == Some(homedescription_idx as int),
            find_idx_spec(headers@, "NEUTRALDESCRIPTION"@) == Some(neutraldescription_idx as int),
            find_idx_spec(headers@, "VISITORDESCRIPTION"@) == Some(visitordescription_idx as int),
            find_idx_spec(headers@, "SCORE"@) == Some(score_idx as int),
            find_idx_spec(headers@, "SCOREMARGIN"@) == Some(scoremargin_idx as int),
            out@.len() == i,
            forall|k: int| 0 <= k < i ==> playbyplay_row_ok(headers@, rows@[k]),
            forall|k: int| 0 <= k < i ==> out@[k]@ == spec_row_playbyplay(headers@, rows@[k]),
        decreases rows@.len() - i,
    {
        match rows[i].as_array() {
            Some(cells) => {
                if game_id_idx >= cells.len() || eventnum_idx >= cells.len() || eventmsgtype_idx
                    >= cells.len() || eventmsgactiontype_idx >= cells.len() || period_idx
                    >= cells.len() || wctimestring_idx >= cells.len() || pctimestring_idx
                    >= cells.len() || homedescription_idx >= cells.len() || neutraldescription_idx
                    >= cells.len() || visitordescription_idx >= cells.len() || score_idx
                    >= cells.len() || scoremargin_idx >= cells.len() {
                    proof {
                        assert(!playbyplay_row_ok(headers@, rows@[i as int]));
                    }
                    return Err(NBAError::ShapeError);
                }
                let feat = Stat::PlayByPlay {
                    game_id: cells[game_id_idx].as_i64(),
                    eventnum: cells[eventnum_idx].as_u64(),
                    eventmsgtype: cells[eventmsgtype_idx].as_u64(),
                    eventmsgactiontype: cells[eventmsgactiontype_idx].as_u64(),
                    period: cells[period_idx].as_u64(),
                    wctimestring: cells[wctimestring_idx].as_string(),
                    pctimestring: cells[pctimestring_idx].as_string(),
                    homedescription: cells[homedescription_idx].as_string(),
                    neutraldescription: cells[neutraldescription_idx].as_string(),
                    visitordescription: cells[visitordescription_idx].as_string(),
                    score: cells[score_idx].as_u64(),
                    scoremargin: cells[scoremargin_idx].as_u64(),
                };
                proof {
                    assert(rows@[i as int]->Array_0 == *cells);
                    assert(playbyplay_row_ok(headers@, rows@[i as int]));
                    assert(feat@ == spec_row_playbyplay(headers@, rows@[i as int]));
                }
                out.push(feat);
            },
            None => {
                proof {
                    assert(!playbyplay_row_ok(headers@, rows@[i as int]));
                }
                return Err(NBAError::ShapeError);
            },
        }
        i += 1;
    }
    proof {
        assert(stats_view(out@) =~= Seq::new(
            rows@.len(),
            |k: int| spec_row_playbyplay(headers@, rows@[k]),
        ));
    }
    Ok(out)
}

} // verus!

verus! {

/// The row is a list long enough for every resolved game-header column.
pub open spec fn gameheader_row_ok(h: Seq<JsonValue>, row: JsonValue) -> bool {
    row matches JsonValue::Array(cells) && {
        &&& idx_in(h, "GAMEDATE_EST"@) < cells@.len()
        &&& idx_in(h, "GAME_SEQUENCE"@) < cells@.len()
        &&& idx_in(h, "GAME_ID"@) < cells@.len()
        &&& idx_in(h, "GAME_STATUS_ID"@) < cells@.len()
        &&& idx_in(h, "GAME_STATUS_TEXT"@) < cells@.len()
        &&& idx_in(h, "GAMECODE"@) < cells@.len()
        &&& idx_in(h, "HOME_TEAM_ID"@) < cells@.len()
        &&& idx_in(h, "VISITOR_TEAM_ID"@) < cells@.len()
        &&& idx_in(h, "SEASON"@) < cells@.len()
        &&& idx_in(h, "LIVE_PERIOD"@) < cells@.len()
        &&& idx_in(h, "LIVE_PC_TIME"@) < cells@.len()
        &&& idx_in(h, "NATL_TV_BROADCASTER_ABBREVIATION"@) < cells@.len()
        &&& idx_in(h, "LIVE_PERIOD_TIME_BCAST"@) < cells@.len()
        &&& idx_in(h, "WH_STATUS"@) < cells@.len()
    }
}

/// The record one game-header row decodes to.
pub open spec fn spec_row_gameheader(h: Seq<JsonValue>, row: JsonValue) -> StatV {
    let cells = row->Array_0@;
    StatV::GameHeader {
        gamedate_est: cell_str(cell_at(h, cells, "GAMEDATE_EST"@)),
        game_sequence: cell_u64(cell_at(h, cells, "GAME_SEQUENCE"@)),
        game_id: cell_str(cell_at(h, cells, "GAME_ID"@)),
        game_status_id: cell_u64(cell_at(h, cells, "GAME_STATUS_ID"@)),
        game_status_text: cell_str(cell_at(h, cells, "GAME_STATUS_TEXT"@)),
        gamecode: cell_str(cell_at(h, cells, "GAMECODE"@)),
        home_team_id: cell_str(cell_at(h, cells, "HOME_TEAM_ID"@)),
        visitor_team_id: cell_str(cell_at(h, cells, "VISITOR_TEAM_ID"@)),
        season: cell_u64(cell_at(h, cells, "SEASON"@)),
        live_period: cell_u64(cell_at(h, cells, "LIVE_PERIOD"@)),
        live_pc_time: cell_u64(cell_at(h, cells, "LIVE_PC_TIME"@)),
        natl_tv_broadcaster_abbreviation: cell_str(
            cell_at(h, cells, "NATL_TV_BROADCASTER_ABBREVIATION"@),
        ),
        live_period_time_bcast: cell_str(cell_at(h, cells, "LIVE_PERIOD_TIME_BCAST"@)),
        wh_status: cell_u64(cell_at(h, cells, "WH_STATUS"@)),
    }
}

/// What decoding a game-header table yields, in the manner of
/// [`spec_parse_playbyplay`].
pub open spec fn spec_parse_gameheader(h: Seq<JsonValue>, rows: Seq<JsonValue>) -> Result<
    Seq<StatV>,
    ErrV,
> {
    if !has_col(h, "GAMEDATE_EST"@) {
        Err(ErrV::HeaderMissing("GAMEDATE_EST"@))
    } else if !has_col(h, "GAME_SEQUENCE"@) {
        Err(ErrV::HeaderMissing("GAME_SEQUENCE"@))
    } else if !has_col(h, "GAME_ID"@) {
        Err(ErrV::HeaderMissing("GAME_ID"@))
    } else if !has_col(h, "GAME_STATUS_ID"@) {
        Err(ErrV::HeaderMissing("GAME_STATUS_ID"@))
    } else if !has_col(h, "GAME_STATUS_TEXT"@) {
        Err(ErrV::HeaderMissing("GAME_STATUS_TEXT"@))
    } else if !has_col(h, "GAMECODE"@) {
        Err(ErrV::HeaderMissing("GAMECODE"@))
    } else if !has_col(h, "HOME_TEAM_ID"@) {
        Err(ErrV::HeaderMissing("HOME_TEAM_ID"@))
    } else if !has_col(h, "VISITOR_TEAM_ID"@) {
        Err(ErrV::HeaderMissing("VISITOR_TEAM_ID"@))
    } else if !has_col(h, "SEASON"@) {
        Err(ErrV::HeaderMissing("SEASON"@))
    } else if !has_col(h, "LIVE_PERIOD"@) {
        Err(ErrV::HeaderMissing("LIVE_PERIOD"@))
    } else if !has_col(h, "LIVE_PC_TIME"@) {
        Err(ErrV::HeaderMissing("LIVE_PC_TIME"@))
    } else if !has_col(h, "NATL_TV_BROADCASTER_ABBREVIATION"@) {
        Err(ErrV::HeaderMissing("NATL_TV_BROADCASTER_ABBREVIATION"@))
    } else if !has_col(h, "LIVE_PERIOD_TIME_BCAST"@) {
        Err(ErrV::HeaderMissing("LIVE_PERIOD_TIME_BCAST"@))
    } else if !has_col(h, "WH_STATUS"@) {
        Err(ErrV::HeaderMissing("WH_STATUS"@))
    } else if exists|i: int| 0 <= i < rows.len() && !gameheader_row_ok(h, rows[i]) {
        Err(ErrV::Shape)
    } else {
        Ok(Seq::new(rows.len(), |i: int| spec_row_gameheader(h, rows[i])))
    }
}

/// Decodes a game-header result table, per [`spec_parse_gameheader`].
pub fn parse_gameheader(headers: &Vec<JsonValue>, rows: &Vec<JsonValue>) -> (r: Result<
    Vec<Stat>,
    NBAError,
>)
    ensures
        parse_result_view(r) == spec_parse_gameheader(headers@, rows@),
{
    let gamedate_est_idx = match find_idx(headers, "GAMEDATE_EST") {
        Ok(i) => i,
        Err(e) => return Err(e),
    };
    let game_sequence_idx = match find_idx(headers, "GAME_SEQUENCE") {
        Ok(i) => i,
        Err(e) => return Err(e),
    };
    let game_id_idx = match find_idx(headers, "GAME_ID") {
        Ok(i) => i,
        Err(e) => return Err(e),
    };
    let game_status_id_idx = match find_idx(headers, "GAME_STATUS_ID") {
        Ok(i) => i,
        Err(e) => return Err(e),
    };
    let game_status_text_idx = match find_idx(headers, "GAME_STATUS_TEXT") {
        Ok(i) => i,
        Err(e) => return Err(e),
    };
    let gamecode_idx = match find_idx(headers, "GAMECODE") {
        Ok(i) => i,
        Err(e) => return Err(e),
    };
    let home_team_id_idx = match find_idx(headers, "HOME_TEAM_ID") {
        Ok(i) => i,
        Err(e) => return Err(e),
    };
    let visitor_team_id_idx = match find_idx(headers, "VISITOR_TEAM_ID") {
        Ok(i) => i,
        Err(e) => return Err(e),
    };
    let season_idx = match find_idx(headers, "SEASON") {
        Ok(i) => i,
        Err(e) => return Err(e),
    };
    let live_period_idx = match find_idx(headers, "LIVE_PERIOD") {
        Ok(i) => i,
        Err(e) => return Err(e),
    };
    let live_pc_time_idx = match find_idx(headers, "LIVE_PC_TIME") {
        Ok(i) => i,
        Err(e) => return Err(e),
    };
    let natl_tv_broadcaster_abbreviation_idx = match find_idx(
        headers,
        "NATL_TV_BROADCASTER_ABBREVIATION",
    ) {
        Ok(i) => i,
        Err(e) => return Err(e),
    };
    let live_period_time_bcast_idx = match find_idx(headers, "LIVE_PERIOD_TIME_BCAST") {
        Ok(i) => i,
        Err(e) => return Err(e),
    };
    let wh_status_idx = match find_idx(headers, "WH_STATUS") {
        Ok(i) => i,
        Err(e) => return Err(e),
    };
    let mut out: Vec<Stat> = Vec::new();
    let mut i: usize = 0;
    while i < rows.len()
        invariant
            i <= rows@.len(),
            find_idx_spec(headers@, "GAMEDATE_EST"@) == Some(gamedate_est_idx as int),
            find_idx_spec(headers@, "GAME_SEQUENCE"@) == Some(game_sequence_idx as int),
            find_idx_spec(headers@, "GAME_ID"@) == Some(game_id_idx as int),
            find_idx_spec(headers@, "GAME_STATUS_ID"@) == Some(game_status_id_idx as int),
            find_idx_spec(headers@, "GAME_STATUS_TEXT"@) == Some(game_status_text_idx as int),
            find_idx_spec(headers@, "GAMECODE"@) == Some(gamecode_idx as int),
            find_idx_spec(headers@, "HOME_TEAM_ID"@) == Some(home_team_id_idx as int),
            find_idx_spec(headers@, "VISITOR_TEAM_ID"@) == Some(visitor_team_id_idx as int),
            find_idx_spec(headers@, "SEASON"@) == Some(season_idx as int),
            find_idx_spec(headers@, "LIVE_PERIOD"@) == Some(live_period_idx as int),
            find_idx_spec(headers@, "LIVE_PC_TIME"@) == Some(live_pc_time_idx as int),
            find_idx_spec(headers@, "NATL_TV_BROADCASTER_ABBREVIATION"@) == Some(
                natl_tv_broadcaster_abbreviation_idx as int,
            ),
            find_idx_spec(headers@, "LIVE_PERIOD_TIME_BCAST"@) == Some(
                live_period_time_bcast_idx as int,
            ),
            find_idx_spec(headers@, "WH_STATUS"@) == Some(wh_status_idx as int),
            out@.len() == i,
            forall|k: int| 0 <= k < i ==> gameheader_row_ok(headers@, rows@[k]),
            forall|k: int| 0 <= k < i ==> out@[k]@ == spec_row_gameheader(headers@, rows@[k]),
        decreases rows@.len() - i,
    {
        match rows[i].as_array() {
            Some(cells) => {
                if gamedate_est_idx >= cells.len() || game_sequence_idx >= cells.len()
                    || game_id_idx >= cells.len() || game_status_id_idx >= cells.len()
                    || game_status_text_idx >= cells.len() || gamecode_idx >= cells.len()
                    || home_team_id_idx >= cells.len() || visitor_team_id_idx >= cells.len()
                    || season_idx >= cells.len() || live_period_idx >= cells.len()
                    || live_pc_time_idx >= cells.len() || natl_tv_broadcaster_abbreviation_idx
                    >= cells.len() || live_period_time_bcast_idx >= cells.len() || wh_status_idx
                    >= cells.len() {
                    proof {
                        assert(!gameheader_row_ok(headers@, rows@[i as int]));
                    }
                    return Err(NBAError::ShapeError);
                }
                let feat = Stat::GameHeader {
                    gamedate_est: cells[gamedate_est_idx].as_string(),
                    game_sequence: cells[game_sequence_idx].as_u64(),
                    game_id: cells[game_id_idx].as_string(),
                    game_status_id: cells[game_status_id_idx].as_u64(),
                    game_status_text: cells[game_status_text_idx].as_string(),
                    gamecode: cells[gamecode_idx].as_string(),
                    home_team_id: cells[home_team_id_idx].as_string(),
                    visitor_team_id: cells[visitor_team_id_idx].as_string(),
                    season: cells[season_idx].as_u64(),
                    live_period: cells[live_period_idx].as_u64(),
                    live_pc_time: cells[live_pc_time_idx].as_u64(),
                    natl_tv_broadcaster_abbreviation:
                        cells[natl_tv_broadcaster_abbreviation_idx].as_string(),
                    live_period_time_bcast: cells[live_period_time_bcast_idx].as_string(),
                    wh_status: cells[wh_status_idx].as_u64(),
                };
                proof {
                    assert(rows@[i as int]->Array_0 == *cells);
                    assert(gameheader_row_ok(headers@, rows@[i as int]));
                    assert(feat@ == spec_row_gameheader(headers@, rows@[i as int]));
                }
                out.push(feat);
            },
            None => {
                proof {
                    assert(!gameheader_row_ok(headers@, rows@[i as int]));
                }
                return Err(NBAError::ShapeError);
            },
        }
        i += 1;
    }
    proof {
        assert(stats_view(out@) =~= Seq::new(
            rows@.len(),
            |k: int| spec_row_gameheader(headers@, rows@[k]),
        ));
    }
    Ok(out)
}

} // verus!

verus! {

/// The row is a list long enough for every resolved standings column.
pub open spec fn standings_row_ok(h: Seq<JsonValue>, row: JsonValue) -> bool {
    row matches JsonValue::Array(cells) && {
        &&& idx_in(h, "TEAM_ID"@) < cells@.len()
        &&& idx_in(h, "LEAGUE_ID"@) < cells@.len()
        &&& idx_in(h, "SEASON_ID"@) < cells@.len()
        &&& idx_in(h, "STANDINGSDATE"@) < cells@.len()
        &&& idx_in(h, "CONFERENCE"@) < cells@.len()
        &&& idx_in(h, "TEAM"@) < cells@.len()
        &&& idx_in(h, "G"@) < cells@.len()
        &&& idx_in(h, "W"@) < cells@.len()
        &&& idx_in(h, "L"@) < cells@.len()
        &&& idx_in(h, "W_PCT"@) < cells@.len()
        &&& idx_in(h, "HOME_RECORD"@) < cells@.len()
        &&& idx_in(h, "ROAD_RECORD"@) < cells@.len()
    }
}

/// The record one eastern-conference standings row decodes to.
pub open spec fn spec_row_eastconfstandings(h: Seq<JsonValue>, row: JsonValue) -> StatV {
    let cells = row->Array_0@;
    StatV::EastConfStandings {
        team_id: cell_str(cell_at(h, cells, "TEAM_ID"@)),
        league_id: cell_str(cell_at(h, cells, "LEAGUE_ID"@)),
        season_id: cell_str(cell_at(h, cells, "SEASON_ID"@)),
        standings_date: cell_str(cell_at(h, cells, "STANDINGSDATE"@)),
        conference: cell_str(cell_at(h, cells, "CONFERENCE"@)),
        team: cell_str(cell_at(h, cells, "TEAM"@)),
        g: cell_u64(cell_at(h, cells, "G"@)),
        wins: cell_u64(cell_at(h, cells, "W"@)),
        losses: cell_u64(cell_at(h, cells, "L"@)),
        w_pct: cell_float(cell_at(h, cells, "W_PCT"@)),
        home_record: cell_str(cell_at(h, cells, "HOME_RECORD"@)),
        road_record: cell_str(cell_at(h, cells, "ROAD_RECORD"@)),
    }
}

/// The record one western-conference standings row decodes to.
pub open spec fn spec_row_westconfstandings(h: Seq<JsonValue>, row: JsonValue) -> StatV {
    let cells = row->Array_0@;
    StatV::WestConfStandings {
        team_id: cell_str(cell_at(h, cells, "TEAM_ID"@)),
        league_id: cell_str(cell_at(h, cells, "LEAGUE_ID"@)),
        season_id: cell_str(cell_at(h, cells, "SEASON_ID"@)),
        standings_date: cell_str(cell_at(h, cells, "STANDINGSDATE"@)),
        conference: cell_str(cell_at(h, cells, "CONFERENCE"@)),
        team: cell_str(cell_at(h, cells, "TEAM"@)),
        g: cell_u64(cell_at(h, cells, "G"@)),
        wins: cell_u64(cell_at(h, cells, "W"@)),
        losses: cell_u64(cell_at(h, cells, "L"@)),
        w_pct: cell_float(cell_at(h, cells, "W_PCT"@)),
        home_record: cell_str(cell_at(h, cells, "HOME_RECORD"@)),
        road_record: cell_str(cell_at(h, cells, "ROAD_RECORD"@)),
    }
}

/// The first standings column that does not resolve, if any.
pub open spec fn standings_missing_col(h: Seq<JsonValue>) -> Option<Seq<char>> {
    if !has_col(h, "TEAM_ID"@) {
        Some("TEAM_ID"@)
    } else if !has_col(h, "LEAGUE_ID"@) {
        Some("LEAGUE_ID"@)
    } else if !has_col(h, "SEASON_ID"@) {
        Some("SEASON_ID"@)
    } else if !has_col(h, "STANDINGSDATE"@) {
        Some("STANDINGSDATE"@)
    } else if !has_col(h, "CONFERENCE"@) {
        Some("CONFERENCE"@)
    } else if !has_col(h, "TEAM"@) {
        Some("TEAM"@)
    } else if !has_col(h, "G"@) {
        Some("G"@)
    } else if !has_col(h, "W"@) {
        Some("W"@)
    } else if !has_col(h, "L"@) {
        Some("L"@)
    } else if !has_col(h, "W_PCT"@) {
        Some("W_PCT"@)
    } else if !has_col(h, "HOME_RECORD"@) {
        Some("HOME_RECORD"@)
    } else if !has_col(h, "ROAD_RECORD"@) {
        Some("ROAD_RECORD"@)
    } else {
        None
    }
}

/// What decoding an eastern-conference standings table yields, in the manner
/// of [`spec_parse_playbyplay`].
pub open spec fn spec_parse_eastconfstandings(h: Seq<JsonValue>, rows: Seq<JsonValue>) -> Result<
    Seq<StatV>,
    ErrV,
> {
    match standings_missing_col(h) {
        Some(name) => Err(ErrV::HeaderMissing(name)),
        None => if exists|i: int| 0 <= i < rows.len() && !standings_row_ok(h, rows[i]) {
            Err(ErrV::Shape)
        } else {
            Ok(Seq::new(rows.len(), |i: int| spec_row_eastconfstandings(h, rows[i])))
        },
    }
}

/// What decoding a western-conference standings table yields, in the manner
/// of [`spec_parse_playbyplay`].
pub open spec fn spec_parse_westconfstandings(h: Seq<JsonValue>, rows: Seq<JsonValue>) -> Result<
    Seq<StatV>,
    ErrV,
> {
    match standings_missing_col(h) {
        Some(name) => Err(ErrV::HeaderMissing(name)),
        None => if exists|i: int| 0 <= i < rows.len() && !standings_row_ok(h, rows[i]) {
            Err(ErrV::Shape)
        } else {
            Ok(Seq::new(rows.len(), |i: int| spec_row_westconfstandings(h, rows[i])))
        },
    }
}

/// The twelve standings column positions, resolved in schema order.
struct StandingsIdx {
    team_id: usize,
    league_id: usize,
    season_id: usize,
    standings_date: usize,
    conference: usize,
    team: usize,
    g: usize,
    wins: usize,
    losses: usize,
    w_pct: usize,
    home_record: usize,
    road_record: usize,
}

impl StandingsIdx {
    /// Every position is the one its column resolves to within `h`.
    spec fn resolves(self, h: Seq<JsonValue>) -> bool {
        &&& find_idx_spec(h, "TEAM_ID"@) == Some(self.team_id as int)
        &&& find_idx_spec(h, "LEAGUE_ID"@) == Some(self.league_id as int)
        &&& find_idx_spec(h, "SEASON_ID"@) == Some(self.season_id as int)
        &&& find_idx_spec(h, "STANDINGSDATE"@) == Some(self.standings_date as int)
        &&& find_idx_spec(h, "CONFERENCE"@) == Some(self.conference as int)
        &&& find_idx_spec(h, "TEAM"@) == Some(self.team as int)
        &&& find_idx_spec(h, "G"@) == Some(self.g as int)
        &&& find_idx_spec(h, "W"@) == Some(self.wins as int)
        &&& find_idx_spec(h, "L"@) == Some(self.losses as int)
        &&& find_idx_spec(h, "W_PCT"@) == Some(self.w_pct as int)
        &&& find_idx_spec(h, "HOME_RECORD"@) == Some(self.home_record as int)
        &&& find_idx_spec(h, "ROAD_RECORD"@) == Some(self.road_record as int)
    }

    /// Resolves the standings schema against the headers, failing with the
    /// first missing column, per [`standings_missing_col`].
    fn resolve(headers: &Vec<JsonValue>) -> (r: Result<StandingsIdx, NBAError>)
        ensures
            match r {
                Ok(idx) => standings_missing_col(headers@) is None && idx.resolves(headers@),
                Err(e) => {
                    &&& standings_missing_col(headers@) matches Some(name)
                    &&& e@ == ErrV::HeaderMissing(name)
                },
            },
    {
        let team_id = match find_idx(headers, "TEAM_ID") {
            Ok(i) => i,
            Err(e) => return Err(e),
        };
        let league_id = match find_idx(headers, "LEAGUE_ID") {
            Ok(i) => i,
            Err(e) => return Err(e),
        };
        let season_id = match find_idx(headers, "SEASON_ID") {
            Ok(i) => i,
            Err(e) => return Err(e),
        };
        let standings_date = match find_idx(headers, "STANDINGSDATE") {
            Ok(i) => i,
            Err(e) => return Err(e),
        };
        let conference = match find_idx(headers, "CONFERENCE") {
            Ok(i) => i,
            Err(e) => return Err(e),
        };
        let team = match find_idx(headers, "TEAM") {
            Ok(i) => i,
            Err(e) => return Err(e),
        };
        let g = match find_idx(headers, "G") {
            Ok(i) => i,
            Err(e) => return Err(e),
        };
        let wins = match find_idx(headers, "W") {
            Ok(i) => i,
            Err(e) => return Err(e),
        };
        let losses = match find_idx(headers, "L") {
            Ok(i) => i,
            Err(e) => return Err(e),
        };
        let w_pct = match find_idx(headers, "W_PCT") {
            Ok(i) => i,
            Err(e) => return Err(e),
        };
        let home_record = match find_idx(headers, "HOME_RECORD") {
            Ok(i) => i,
            Err(e) => return Err(e),
        };
        let road_record = match find_idx(headers, "ROAD_RECORD") {
            Ok(i) => i,
            Err(e) => return Err(e),
        };
        Ok(
            StandingsIdx {
                team_id,
                league_id,
                season_id,
                standings_date,
                conference,
                team,
                g,
                wins,
                losses,
                w_pct,
                home_record,
                road_record,
            },
        )
    }

    /// The row is a list long enough for every resolved position.
    fn row_fits(&self, cells: &Vec<JsonValue>) -> (r: bool)
        ensures
            r == {
                &&& self.team_id < cells@.len()
                &&& self.league_id < cells@.len()
                &&& self.season_id < cells@.len()
                &&& self.standings_date < cells@.len()
                &&& self.conference < cells@.len()
                &&& self.team < cells@.len()
                &&& self.g < cells@.len()
                &&& self.wins < cells@.len()
                &&& self.losses < cells@.len()
                &&& self.w_pct < cells@.len()
                &&& self.home_record < cells@.len()
                &&& self.road_record < cells@.len()
            },
    {
        let n = cells.len();
        self.team_id < n && self.league_id < n && self.season_id < n && self.standings_date < n
            && self.conference < n && self.team < n && self.g < n && self.wins < n && self.losses
            < n && self.w_pct < n && self.home_record < n && self.road_record < n
    }
}

/// Decodes an eastern-conference standings table, per
/// [`spec_parse_eastconfstandings`].
pub fn parse_eastconfstandings(headers: &Vec<JsonValue>, rows: &Vec<JsonValue>) -> (r: Result<
    Vec<Stat>,
    NBAError,
>)
    ensures
        parse_result_view(r) == spec_parse_eastconfstandings(headers@, rows@),
{
    let idx = match StandingsIdx::resolve(headers) {
        Ok(idx) => idx,
        Err(e) => return Err(e),
    };
    let mut out: Vec<Stat> = Vec::new();
    let mut i: usize = 0;
    while i < rows.len()
        invariant
            i <= rows@.len(),
            idx.resolves(headers@),
            standings_missing_col(headers@) is None,
            out@.len() == i,
            forall|k: int| 0 <= k < i ==> standings_row_ok(headers@, rows@[k]),
            forall|k: int| 0 <= k < i ==> out@[k]@ == spec_row_eastconfstandings(
                headers@,
                rows@[k],
            ),
        decreases rows@.len() - i,
    {
        match rows[i].as_array() {
            Some(cells) => {
                if !idx.row_fits(cells) {
                    proof {
                        assert(!standings_row_ok(headers@, rows@[i as int]));
                    }
                    return Err(NBAError::ShapeError);
                }
                let feat = Stat::EastConfStandings {
                    team_id: cells[idx.team_id].as_string(),
                    league_id: cells[idx.league_id].as_string(),
                    season_id: cells[idx.season_id].as_string(),
                    standings_date: cells[idx.standings_date].as_string(),
                    conference: cells[idx.conference].as_string(),
                    team: cells[idx.team].as_string(),
                    g: cells[idx.g].as_u64(),
                    wins: cells[idx.wins].as_u64(),
                    losses: cells[idx.losses].as_u64(),
                    w_pct: cells[idx.w_pct].as_float(),
                    home_record: cells[idx.home_record].as_string(),
                    road_record: cells[idx.road_record].as_string(),
                };
                proof {
                    assert(rows@[i as int]->Array_0 == *cells);
                    assert(standings_row_ok(headers@, rows@[i as int]));
                    assert(feat@ == spec_row_eastconfstandings(headers@, rows@[i as int]));
                }
                out.push(feat);
            },
            None => {
                proof {
                    assert(!standings_row_ok(headers@, rows@[i as int]));
                }
                return Err(NBAError::ShapeError);
            },
        }
        i += 1;
    }
    proof {
        assert(stats_view(out@) =~= Seq::new(
            rows@.len(),
            |k: int| spec_row_eastconfstandings(headers@, rows@[k]),
        ));
    }
    Ok(out)
}

/// Decodes a western-conference standings table, per
/// [`spec_parse_westconfstandings`].
pub fn parse_westconfstandings(headers: &Vec<JsonValue>, rows: &Vec<JsonValue>) -> (r: Result<
    Vec<Stat>,
    NBAError,
>)
    ensures
        parse_result_view(r) == spec_parse_westconfstandings(headers@, rows@),
{
    let idx = match StandingsIdx::resolve(headers) {
        Ok(idx) => idx,
        Err(e) => return Err(e),
    };
    let mut out: Vec<Stat> = Vec::new();
    let mut i: usize = 0;
    while i < rows.len()
        invariant
            i <= rows@.len(),
            idx.resolves(headers@),
            standings_missing_col(headers@) is None,
            out@.len() == i,
            forall|k: int| 0 <= k < i ==> standings_row_ok(headers@, rows@[k]),
            forall|k: int| 0 <= k < i ==> out@[k]@ == spec_row_westconfstandings(
                headers@,
                rows@[k],
            ),
        decreases rows@.len() - i,
    {
        match rows[i].as_array() {
            Some(cells) => {
                if !idx.row_fits(cells) {
                    proof {
                        assert(!standings_row_ok(headers@, rows@[i as int]));
                    }
                    return Err(NBAError::ShapeError);
                }
                let feat = Stat::WestConfStandings {
                    team_id: cells[idx.team_id].as_string(),
                    league_id: cells[idx.league_id].as_string(),
                    season_id: cells[idx.season_id].as_string(),
                    standings_date: cells[idx.standings_date].as_string(),
                    conference: cells[idx.conference].as_string(),
                    team: cells[idx.team].as_string(),
                    g: cells[idx.g].as_u64(),
                    wins: cells[idx.wins].as_u64(),
                    losses: cells[idx.losses].as_u64(),
                    w_pct: cells[idx.w_pct].as_float(),
                    home_record: cells[idx.home_record].as_string(),
                    road_record: cells[idx.road_record].as_string(),
                };
                proof {
                    assert(rows@[i as int]->Array_0 == *cells);
                    assert(standings_row_ok(headers@, rows@[i as int]));
                    assert(feat@ == spec_row_westconfstandings(headers@, rows@[i as int]));
                }
                out.push(feat);
            },
            None => {
                proof {
                    assert(!standings_row_ok(headers@, rows@[i as int]));
                }
                return Err(NBAError::ShapeError);
            },
        }
        i += 1;
    }
    proof {
        assert(stats_view(out@) =~= Seq::new(
            rows@.len(),
            |k: int| spec_row_westconfstandings(headers@, rows@[k]),
        ));
    }
    Ok(out)
}

} // verus!

verus! {

/// The row is a list long enough for every resolved roster column.
pub open spec fn teamroster_row_ok(h: Seq<JsonValue>, row: JsonValue) -> bool {
    row matches JsonValue::Array(cells) && {
        &&& idx_in(h, "TeamID"@) < cells@.len()
        &&& idx_in(h, "SEASON"@) < cells@.len()
        &&& idx_in(h, "LeagueID"@) < cells@.len()
        &&& idx_in(h, "PLAYER"@) < cells@.len()
        &&& idx_in(h, "NUM"@) < cells@.len()
        &&& idx_in(h, "POSITION"@) < cells@.len()
        &&& idx_in(h, "HEIGHT"@) < cells@.len()
        &&& idx_in(h, "WEIGHT"@) < cells@.len()
        &&& idx_in(h, "BIRTH_DATE"@) < cells@.len()
        &&& idx_in(h, "AGE"@) < cells@.len()
        &&& idx_in(h, "EXP"@) < cells@.len()
        &&& idx_in(h, "SCHOOL"@) < cells@.len()
        &&& idx_in(h, "PLAYER_ID"@) < cells@.len()
    }
}

/// The record one roster row decodes to.
pub open spec fn spec_row_teamroster(h: Seq<JsonValue>, row: JsonValue) -> StatV {
    let cells = row->Array_0@;
    StatV::TeamRoster {
        team_id: cell_str(cell_at(h, cells, "TeamID"@)),
        season: cell_str(cell_at(h, cells, "SEASON"@)),
        league_id: cell_str(cell_at(h, cells, "LeagueID"@)),
        player: cell_str(cell_at(h, cells, "PLAYER"@)),
        num: cell_str(cell_at(h, cells, "NUM"@)),
        position: cell_str(cell_at(h, cells, "POSITION"@)),
        height: cell_str(cell_at(h, cells, "HEIGHT"@)),
        weight: cell_str(cell_at(h, cells, "WEIGHT"@)),
        birth_date: cell_str(cell_at(h, cells, "BIRTH_DATE"@)),
        age: cell_u64(cell_at(h, cells, "AGE"@)),
        exp: cell_str(cell_at(h, cells, "EXP"@)),
        school: cell_str(cell_at(h, cells, "SCHOOL"@)),
        player_id: cell_str(cell_at(h, cells, "PLAYER_ID"@)),
    }
}

/// What decoding a roster table yields, in the manner of
/// [`spec_parse_playbyplay`].
pub open spec fn spec_parse_teamroster(h: Seq<JsonValue>, rows: Seq<JsonValue>) -> Result<
    Seq<StatV>,
    ErrV,
> {
    if !has_col(h, "TeamID"@) {
        Err(ErrV::HeaderMissing("TeamID"@))
    } else if !has_col(h, "SEASON"@) {
        Err(ErrV::HeaderMissing("SEASON"@))
    } else if !has_col(h, "LeagueID"@) {
        Err(ErrV::HeaderMissing("LeagueID"@))
    } else if !has_col(h, "PLAYER"@) {
        Err(ErrV::HeaderMissing("PLAYER"@))
    } else if !has_col(h, "NUM"@) {
        Err(ErrV::HeaderMissing("NUM"@))
    } else if !has_col(h, "POSITION"@) {
        Err(ErrV::HeaderMissing("POSITION"@))
    } else if !has_col(h, "HEIGHT"@) {
        Err(ErrV::HeaderMissing("HEIGHT"@))
    } else if !has_col(h, "WEIGHT"@) {
        Err(ErrV::HeaderMissing("WEIGHT"@))
    } else if !has_col(h, "BIRTH_DATE"@) {
        Err(ErrV::HeaderMissing("BIRTH_DATE"@))
    } else if !has_col(h, "AGE"@) {
        Err(ErrV::HeaderMissing("AGE"@))
    } else if !has_col(h, "EXP"@) {
        Err(ErrV::HeaderMissing("EXP"@))
    } else if !has_col(h, "SCHOOL"@) {
        Err(ErrV::HeaderMissing("SCHOOL"@))
    } else if !has_col(h, "PLAYER_ID"@) {
        Err(ErrV::HeaderMissing("PLAYER_ID"@))
    } else if exists|i: int| 0 <= i < rows.len() && !teamroster_row_ok(h, rows[i]) {
        Err(ErrV::Shape)
    } else {
        Ok(Seq::new(rows.len(), |i: int| spec_row_teamroster(h, rows[i])))
    }
}

/// Decodes a roster result table, per [`spec_parse_teamroster`].
pub fn parse_teamroster(headers: &Vec<JsonValue>, rows: &Vec<JsonValue>) -> (r: Result<
    Vec<Stat>,
    NBAError,
>)
    ensures
        parse_result_view(r) == spec_parse_teamroster(headers@, rows@),
{
    let team_id_idx = match find_idx(headers, "TeamID") {
        Ok(i) => i,
        Err(e) => return Err(e),
    };
    let season_idx = match find_idx(headers, "SEASON") {
        Ok(i) => i,
        Err(e) => return Err(e),
    };
    let league_id_idx = match find_idx(headers, "LeagueID") {
        Ok(i) => i,
        Err(e) => return Err(e),
    };
    let player_idx = match find_idx(headers, "PLAYER") {
        Ok(i) => i,
        Err(e) => return Err(e),
    };
    let num_idx = match find_idx(headers, "NUM") {
        Ok(i) => i,
        Err(e) => return Err(e),
    };
    let position_idx = match find_idx(headers, "POSITION") {
        Ok(i) => i,
        Err(e) => return Err(e),
    };
    let height_idx = match find_idx(headers, "HEIGHT") {
        Ok(i) => i,
        Err(e) => return Err(e),
    };
    let weight_idx = match find_idx(headers, "WEIGHT") {
        Ok(i) => i,
        Err(e) => return Err(e),
    };
    let birth_date_idx = match find_idx(headers, "BIRTH_DATE") {
        Ok(i) => i,
        Err(e) => return Err(e),
    };
    let age_idx = match find_idx(headers, "AGE") {
        Ok(i) => i,
        Err(e) => return Err(e),
    };
    let exp_idx = match find_idx(headers, "EXP") {
        Ok(i) => i,
        Err(e) => return Err(e),
    };
    let school_idx = match find_idx(headers, "SCHOOL") {
        Ok(i) => i,
        Err(e) => return Err(e),
    };
    let player_id_idx = match find_idx(headers, "PLAYER_ID") {
        Ok(i) => i,
        Err(e) => return Err(e),
    };
    let mut out: Vec<Stat> = Vec::new();
    let mut i: usize = 0;
    while i < rows.len()
        invariant
            i <= rows@.len(),
            find_idx_spec(headers@, "TeamID"@) == Some(team_id_idx as int),
            find_idx_spec(headers@, "SEASON"@) == Some(season_idx as int),
            find_idx_spec(headers@, "LeagueID"@) == Some(league_id_idx as int),
            find_idx_spec(headers@, "PLAYER"@) == Some(player_idx as int),
            find_idx_spec(headers@, "NUM"@) == Some(num_idx as int),
            find_idx_spec(headers@, "POSITION"@) == Some(position_idx as int),
            find_idx_spec(headers@, "HEIGHT"@) == Some(height_idx as int),
            find_idx_spec(headers@, "WEIGHT"@) == Some(weight_idx as int),
            find_idx_spec(headers@, "BIRTH_DATE"@) == Some(birth_date_idx as int),
            find_idx_spec(headers@, "AGE"@) == Some(age_idx as int),
            find_idx_spec(headers@, "EXP"@) == Some(exp_idx as int),
            find_idx_spec(headers@, "SCHOOL"@) == Some(school_idx as int),
            find_idx_spec(headers@, "PLAYER_ID"@) == Some(player_id_idx as int),
            out@.len() == i,
            forall|k: int| 0 <= k < i ==> teamroster_row_ok(headers@, rows@[k]),
            forall|k: int| 0 <= k < i ==> out@[k]@ == spec_row_teamroster(headers@, rows@[k]),
        decreases rows@.len() - i,
    {
        match rows[i].as_array() {
            Some(cells) => {
                if team_id_idx >= cells.len() || season_idx >= cells.len() || league_id_idx
                    >= cells.len() || player_idx >= cells.len() || num_idx >= cells.len()
                    || position_idx >= cells.len() || height_idx >= cells.len() || weight_idx
                    >= cells.len() || birth_date_idx >= cells.len() || age_idx >= cells.len()
                    || exp_idx >= cells.len() || school_idx >= cells.len() || player_id_idx
                    >= cells.len() {
                    proof {
                        assert(!teamroster_row_ok(headers@, rows@[i as int]));
                    }
                    return Err(NBAError::ShapeError);
                }
                let feat = Stat::TeamRoster {
                    team_id: cells[team_id_idx].as_string(),
                    season: cells[season_idx].as_string(),
                    league_id: cells[league_id_idx].as_string(),
                    player: cells[player_idx].as_string(),
                    num: cells[num_idx].as_string(),
                    position: cells[position_idx].as_string(),
                    height: cells[height_idx].as_string(),
                    weight: cells[weight_idx].as_string(),
                    birth_date: cells[birth_date_idx].as_string(),
                    age: cells[age_idx].as_u64(),
                    exp: cells[exp_idx].as_string(),
                    school: cells[school_idx].as_string(),
                    player_id: cells[player_id_idx].as_string(),
                };
                proof {
                    assert(rows@[i as int]->Array_0 == *cells);
                    assert(teamroster_row_ok(headers@, rows@[i as int]));
                    assert(feat@ == spec_row_teamroster(headers@, rows@[i as int]));
                }
                out.push(feat);
            },
            None => {
                proof {
                    assert(!teamroster_row_ok(headers@, rows@[i as int]));
                }
                return Err(NBAError::ShapeError);
            },
        }
        i += 1;
    }
    proof {
        assert(stats_view(out@) =~= Seq::new(
            rows@.len(),
            |k: int| spec_row_teamroster(headers@, rows@[k]),
        ));
    }
    Ok(out)
}

/// At the record level: a roster row whose cell at a resolved column's
/// position is null decodes to a record with that field absent. The same
/// holds of every column of every kind, each field being the coercion of the
/// cell at its resolved position.
pub proof fn lemma_null_cell_absent_in_record(h: Seq<JsonValue>, row: JsonValue)
    requires
        row is Array,
        cell_at(h, row->Array_0@, "SCHOOL"@) == JsonValue::Null,
    ensures
        spec_row_teamroster(h, row) matches StatV::TeamRoster { school, .. } && school is None,
{
}

/// What decoding a (kind, table) pair yields: the kind's schema applied to
/// the table's headers and rows.
pub open spec fn spec_decode(kind: StatType, h: Seq<JsonValue>, rows: Seq<JsonValue>) -> Result<
    Seq<StatV>,
    ErrV,
> {
    match kind {
        StatType::PlayByPlay => spec_parse_playbyplay(h, rows),
        StatType::GameHeader => spec_parse_gameheader(h, rows),
        StatType::EastConfStandings => spec_parse_eastconfstandings(h, rows),
        StatType::WestConfStandings => spec_parse_westconfstandings(h, rows),
        StatType::TeamRoster => spec_parse_teamroster(h, rows),
    }
}

/// Decoding is a function of the kind and the table alone: the same pair
/// decodes twice to field-for-field identical record sequences.
pub proof fn lemma_decode_idempotent(
    kind: StatType,
    h1: Seq<JsonValue>,
    rows1: Seq<JsonValue>,
    h2: Seq<JsonValue>,
    rows2: Seq<JsonValue>,
)
    requires
        h1 == h2,
        rows1 == rows2,
    ensures
        spec_decode(kind, h1, rows1) == spec_decode(kind, h2, rows2),
{
}

} // verus!

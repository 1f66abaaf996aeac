use vstd::prelude::*;

use crate::err::{ErrV, NBAError};
use crate::json::{json_get, json_of, parse_json, JsonValue};
use crate::parse::{
    parse_eastconfstandings, parse_gameheader, parse_playbyplay, parse_result_view,
    parse_teamroster, parse_westconfstandings, spec_decode,
};
use crate::stats::{Stat, StatType, StatV};

verus! {

/// The zero-based position, within the response's list of result tables, of
/// the table that holds this kind's records. This mapping and
/// [`spec_endpoint_url`] make up the schema registry, exhaustive over the
/// query kinds.
pub open spec fn spec_table_index(kind: StatType) -> int {
    match kind {
        StatType::PlayByPlay => 0,
        StatType::GameHeader => 0,
        StatType::EastConfStandings => 4,
        StatType::WestConfStandings => 5,
        StatType::TeamRoster => 0,
    }
}

/// The result-table position for `kind`, per [`spec_table_index`].
pub fn table_index(kind: &StatType) -> (r: usize)
    ensures
        r as int == spec_table_index(*kind),
{
    match kind {
        StatType::PlayByPlay => 0,
        StatType::GameHeader => 0,
        StatType::EastConfStandings => 4,
        StatType::WestConfStandings => 5,
        StatType::TeamRoster => 0,
    }
}

/// The endpoint each kind's GET request goes to.
pub open spec fn spec_endpoint_url(kind: StatType) -> Seq<char> {
    match kind {
        StatType::PlayByPlay => "http://stats.nba.com/stats/playbyplay"@,
        StatType::GameHeader => "http://stats.nba.com/stats/scoreboard"@,
        StatType::EastConfStandings => "http://stats.nba.com/stats/scoreboard"@,
        StatType::WestConfStandings => "http://stats.nba.com/stats/scoreboard"@,
        StatType::TeamRoster => "http://stats.nba.com/stats/commonteamroster"@,
    }
}

/// The endpoint URL for `kind`, per [`spec_endpoint_url`].
pub fn endpoint_url(kind: &StatType) -> (r: &'static str)
    ensures
        r@ == spec_endpoint_url(*kind),
{
    match kind {
        StatType::PlayByPlay => "http://stats.nba.com/stats/playbyplay",
        StatType::GameHeader => "http://stats.nba.com/stats/scoreboard",
        StatType::EastConfStandings => "http://stats.nba.com/stats/scoreboard",
        StatType::WestConfStandings => "http://stats.nba.com/stats/scoreboard",
        StatType::TeamRoster => "http://stats.nba.com/stats/commonteamroster",
    }
}

/// The fixed `Referer` header value every request carries.
pub fn referer() -> (r: &'static str)
    ensures
        r@ == "http://stats.nba.com"@,
{
    "http://stats.nba.com"
}

/// The fixed `User-Agent` header value every request carries.
pub fn user_agent() -> (r: &'static str)
    ensures
        r@ == "Mozilla/5.0 (compatible; nba-rs)"@,
{
    "Mozilla/5.0 (compatible; nba-rs)"
}

/// One result table of a response, as the locator hands it to the decoder:
/// the ordered column names and the ordered rows, both borrowed from the
/// document and still untyped. Cell types are the decoder's business.
pub struct RawResultTable<'a> {
    pub headers: &'a Vec<JsonValue>,
    pub rows: &'a Vec<JsonValue>,
}

/// What locating `kind`'s result table within a response document yields.
///
/// The document's `resultSets` field must hold a list (else
/// `MissingField("resultSets")`); the entry at the kind's table position must
/// exist and be an object (else a shape fault); that object's `headers` and
/// `rowSet` fields must hold lists (else the corresponding `MissingField`).
pub open spec fn spec_locate(doc: JsonValue, kind: StatType) -> Result<
    (Seq<JsonValue>, Seq<JsonValue>),
    ErrV,
> {
    match json_get(doc, "resultSets"@) {
        Some(rs) => match rs {
            JsonValue::Array(tables) => {
                let k = spec_table_index(kind);
                if k >= tables@.len() {
                    Err(ErrV::Shape)
                } else {
                    match tables@[k] {
                        JsonValue::Object(_) => match json_get(tables@[k], "headers"@) {
                            Some(JsonValue::Array(hs)) => match json_get(tables@[k], "rowSet"@) {
                                Some(JsonValue::Array(rws)) => Ok((hs@, rws@)),
                                _ => Err(ErrV::MissingField("rowSet"@)),
                            },
                            _ => Err(ErrV::MissingField("headers"@)),
                        },
                        _ => Err(ErrV::Shape),
                    }
                }
            },
            _ => Err(ErrV::MissingField("resultSets"@)),
        },
        None => Err(ErrV::MissingField("resultSets"@)),
    }
}

/// Locates `kind`'s result table within the response document, per
/// [`spec_locate`]. No cell is validated here.
pub fn locate<'a>(doc: &'a JsonValue, kind: &StatType) -> (r: Result<
    RawResultTable<'a>,
    NBAError,
>)
    ensures
        match r {
            Ok(t) => spec_locate(*doc, *kind) == Ok::<(Seq<JsonValue>, Seq<JsonValue>), ErrV>(
                (t.headers@, t.rows@),
            ),
            Err(e) => spec_locate(*doc, *kind) == Err::<(Seq<JsonValue>, Seq<JsonValue>), ErrV>(
                e@,
            ),
        },
{
    let rs = match doc.get("resultSets") {
        Some(v) => v,
        None => return Err(NBAError::MissingField("resultSets".to_owned())),
    };
    let tables = match rs.as_array() {
        Some(a) => a,
        None => return Err(NBAError::MissingField("resultSets".to_owned())),
    };
    let k = table_index(kind);
    if k >= tables.len() {
        return Err(NBAError::ShapeError);
    }
    let tbl = &tables[k];
    match tbl {
        JsonValue::Object(_) => {},
        _ => return Err(NBAError::ShapeError),
    }
    let hv = match tbl.get("headers") {
        Some(v) => v,
        None => return Err(NBAError::MissingField("headers".to_owned())),
    };
    let hs = match hv.as_array() {
        Some(a) => a,
        None => return Err(NBAError::MissingField("headers".to_owned())),
    };
    let rv = match tbl.get("rowSet") {
        Some(v) => v,
        None => return Err(NBAError::MissingField("rowSet".to_owned())),
    };
    let rws = match rv.as_array() {
        Some(a) => a,
        None => return Err(NBAError::MissingField("rowSet".to_owned())),
    };
    Ok(RawResultTable { headers: hs, rows: rws })
}

/// Decodes a located result table for `kind`: resolves the kind's schema
/// columns against the headers and maps every row to its record, per
/// [`spec_decode`].
pub fn decode<'a>(kind: &StatType, table: &RawResultTable<'a>) -> (r: Result<Vec<Stat>, NBAError>)
    ensures
        parse_result_view(r) == spec_decode(*kind, table.headers@, table.rows@),
{
    match kind {
        StatType::PlayByPlay => parse_playbyplay(table.headers, table.rows),
        StatType::GameHeader => parse_gameheader(table.headers, table.rows),
        StatType::EastConfStandings => parse_eastconfstandings(table.headers, table.rows),
        StatType::WestConfStandings => parse_westconfstandings(table.headers, table.rows),
        StatType::TeamRoster => parse_teamroster(table.headers, table.rows),
    }
}

/// What decoding a whole response document yields for `kind`: the located
/// table's rows, decoded.
pub open spec fn spec_decode_response(kind: StatType, doc: JsonValue) -> Result<Seq<StatV>, ErrV> {
    match spec_locate(doc, kind) {
        Ok(t) => spec_decode(kind, t.0, t.1),
        Err(e) => Err(e),
    }
}

/// Decodes a complete response body for `kind`: parses the body as JSON
/// (a body that is no JSON document is a shape fault), locates the kind's
/// result table, and decodes its rows in order.
pub fn decode_response(kind: &StatType, body: &str) -> (r: Result<Vec<Stat>, NBAError>)
    ensures
        parse_result_view(r) == match json_of(body@) {
            Some(doc) => spec_decode_response(*kind, doc),
            None => Err(ErrV::Shape),
        },
{
    let doc = match parse_json(body) {
        Ok(d) => d,
        Err(e) => return Err(e),
    };
    let table = match locate(&doc, kind) {
        Ok(t) => t,
        Err(e) => return Err(e),
    };
    decode(kind, &table)
}

} // verus!

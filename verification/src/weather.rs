use vstd::prelude::*;
use crate::error::RelayError;
use crate::jsonio::json_as_string;
use crate::jsonio::json_get;
use crate::jsonio::json_member_of;
use crate::jsonio::json_num_text_of;
use crate::jsonio::json_number_text;
use crate::jsonio::json_text_of;
use crate::position::Position;
use crate::render::number_text_chars;
use crate::timestamp::parse_timestamp;
use crate::timestamp::ts_epoch;
use crate::timestamp::ts_wf;

verus! {

/// The normalized record sent to the ingestion endpoint: the observation
/// from the provider's payload, joined with the location it was fetched
/// for. The three measurements are carried as the decimal text serde_json
/// renders for the numbers the payload holds.
#[derive(Clone, Debug, PartialEq, Eq)]
pub struct WeatherData {
    pub timestamp: i64,
    pub temperature: String,
    pub pressure: String,
    pub wind_speed: String,
    pub position: Position,
}

/// The three measurement texts are the decimal texts of JSON numbers, as
/// every record the transform builds has them.
pub open spec fn measurements_wf(w: WeatherData) -> bool {
    &&& number_text_chars(w.temperature@)
    &&& number_text_chars(w.pressure@)
    &&& number_text_chars(w.wind_speed@)
}

/// Exactly the field sets that yield a record: the timestamp text is
/// present and well formed, and the three measurements are present.
pub open spec fn fields_complete(
    ts: Option<String>,
    tp: Option<String>,
    pr: Option<String>,
    ws: Option<String>,
) -> bool {
    &&& ts is Some
    &&& ts_wf(ts->0@)
    &&& tp is Some
    &&& pr is Some
    &&& ws is Some
}

/// The observation node of a payload: the member at the fixed path
/// `data.current.weather`.
pub open spec fn weather_node(json: serde_json::Value) -> Option<serde_json::Value> {
    match json_member_of(json, "data"@) {
        Some(d) => match json_member_of(d, "current"@) {
            Some(c) => json_member_of(c, "weather"@),
            None => None,
        },
        None => None,
    }
}

/// The timestamp text of a payload: the string under `ts` in the
/// observation node.
pub open spec fn payload_ts(json: serde_json::Value) -> Option<Seq<char>> {
    match weather_node(json) {
        Some(w) => match json_member_of(w, "ts"@) {
            Some(t) => json_text_of(t),
            None => None,
        },
        None => None,
    }
}

/// A measurement text of a payload: the decimal text of the number under
/// the given key in the observation node.
pub open spec fn payload_num(json: serde_json::Value, key: Seq<char>) -> Option<Seq<char>> {
    match weather_node(json) {
        Some(w) => match json_member_of(w, key) {
            Some(n) => json_num_text_of(n),
            None => None,
        },
        None => None,
    }
}

/// Exactly the payloads the transform accepts: the path and the four
/// fields are present, each of the right JSON type, and the timestamp text
/// is well formed.
pub open spec fn payload_complete(json: serde_json::Value) -> bool {
    &&& payload_ts(json) is Some
    &&& ts_wf(payload_ts(json)->0)
    &&& payload_num(json, "tp"@) is Some
    &&& payload_num(json, "pr"@) is Some
    &&& payload_num(json, "ws"@) is Some
}

impl WeatherData {
    /// Builds the record from the pieces extracted from the payload: the
    /// timestamp text and the three measurement texts, each `None` when the
    /// payload lacks it or it has the wrong JSON type. Succeeds exactly on
    /// complete field sets; the timestamp text is resolved to whole seconds
    /// since the Unix epoch, everything else is carried unchanged.
    pub fn from_fields(
        ts: Option<String>,
        tp: Option<String>,
        pr: Option<String>,
        ws: Option<String>,
        position: Position,
    ) -> (r: Result<WeatherData, RelayError>)
        ensures
            fields_complete(ts, tp, pr, ws) ==> {
                &&& r is Ok
                &&& r->Ok_0.timestamp == ts_epoch(ts->0@) as i64
                &&& r->Ok_0.temperature@ == tp->0@
                &&& r->Ok_0.pressure@ == pr->0@
                &&& r->Ok_0.wind_speed@ == ws->0@
                &&& r->Ok_0.position == position
            },
            !fields_complete(ts, tp, pr, ws) ==> r == Err::<WeatherData, RelayError>(
                RelayError::Parse,
            ),
    {
        let ts = match ts {
            Some(t) => t,
            None => {
                return Err(RelayError::Parse);
            },
        };
        let timestamp = match parse_timestamp(ts.as_str()) {
            Some(t) => t,
            None => {
                return Err(RelayError::Parse);
            },
        };
        let (temperature, pressure, wind_speed) = match (tp, pr, ws) {
            (Some(tp), Some(pr), Some(ws)) => (tp, pr, ws),
            _ => {
                return Err(RelayError::Parse);
            },
        };
        Ok(WeatherData { timestamp, temperature, pressure, wind_speed, position })
    }

    /// Transforms a parsed success payload into the record. The observation
    /// sits at the fixed path `data.current.weather`, with the timestamp
    /// text under `ts` and the measurements under `tp`, `pr` and `ws`.
    /// Succeeds exactly on complete payloads, with every field of the
    /// record pinned to the payload's fields; a missing step, a missing
    /// field, a wrong JSON type or malformed timestamp text is a `Parse`
    /// failure.
    pub fn from_json(json: &serde_json::Value, position: Position) -> (r: Result<
        WeatherData,
        RelayError,
    >)
        ensures
            payload_complete(*json) ==> {
                &&& r is Ok
                &&& r->Ok_0.timestamp == ts_epoch(payload_ts(*json)->0) as i64
                &&& r->Ok_0.temperature@ == payload_num(*json, "tp"@)->0
                &&& r->Ok_0.pressure@ == payload_num(*json, "pr"@)->0
                &&& r->Ok_0.wind_speed@ == payload_num(*json, "ws"@)->0
                &&& r->Ok_0.position == position
            },
            !payload_complete(*json) ==> r == Err::<WeatherData, RelayError>(RelayError::Parse),
            r is Ok ==> measurements_wf(r->Ok_0),
    {
        let weather = match json_get(json, "data") {
            Some(v) => v,
            None => {
                return Err(RelayError::Parse);
            },
        };
        let weather = match json_get(weather, "current") {
            Some(v) => v,
            None => {
                return Err(RelayError::Parse);
            },
        };
        let weather = match json_get(weather, "weather") {
            Some(v) => v,
            None => {
                return Err(RelayError::Parse);
            },
        };
        let ts = match json_get(weather, "ts") {
            Some(v) => json_as_string(v),
            None => None,
        };
        let tp = match json_get(weather, "tp") {
            Some(v) => json_number_text(v),
            None => None,
        };
        let pr = match json_get(weather, "pr") {
            Some(v) => json_number_text(v),
            None => None,
        };
        let ws = match json_get(weather, "ws") {
            Some(v) => json_number_text(v),
            None => None,
        };
        proof {
            assert(weather_node(*json) is Some && *weather == weather_node(*json)->0);
            assert(ts is Some <==> payload_ts(*json) is Some);
            assert(ts is Some ==> ts->0@ == payload_ts(*json)->0);
            assert(tp is Some <==> payload_num(*json, "tp"@) is Some);
            assert(pr is Some <==> payload_num(*json, "pr"@) is Some);
            assert(ws is Some <==> payload_num(*json, "ws"@) is Some);
        }
        WeatherData::from_fields(ts, tp, pr, ws, position)
    }
}

} // verus!

//! A small weather-relay library: it resolves a location from environment
//! values, classifies the weather provider's HTTP response, extracts and
//! normalizes the observation into a record, and renders that record as the
//! JSON body sent to the local ingestion endpoint.

mod api;
mod decode;
mod error;
mod jsonio;
mod position;
mod render;
mod timestamp;
mod weather;

pub use api::handle_response;
pub use api::weather_url;
pub use decode::all_digits;
pub use decode::digit_seq_val;
pub use decode::find_from;
pub use decode::lemma_record_json_lossless;
pub use decode::lemma_record_json_round_trip;
pub use decode::member;
pub use decode::parse_int;
pub use decode::parse_record_json;
pub use decode::split_at_first;
pub use decode::string_member;
pub use decode::strip_lit;
pub use decode::unescape_prefix;
pub use error::EnvKey;
pub use error::RelayError;
pub use jsonio::is_json_text;
pub use jsonio::json_member_of;
pub use jsonio::json_num_text_of;
pub use jsonio::json_text_of;
pub use jsonio::json_value_of;
pub use position::Position;
pub use render::comma_free;
pub use render::dec_digits;
pub use render::dec_i64;
pub use render::escape_json;
pub use render::i64_to_dec;
pub use render::json_escaped;
pub use render::number_text_chars;
pub use render::record_json;
pub use timestamp::parse_timestamp;
pub use timestamp::ts_epoch;
pub use timestamp::ts_wf;
pub use weather::WeatherData;
pub use weather::fields_complete;
pub use weather::measurements_wf;
pub use weather::payload_complete;
pub use weather::payload_num;
pub use weather::payload_ts;
pub use weather::weather_node;

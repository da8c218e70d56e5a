use vstd::prelude::*;
use crate::error::RelayError;
use crate::jsonio::is_json_text;
use crate::jsonio::json_from_str;
use crate::jsonio::json_value_of;
use crate::position::Position;

verus! {

// The provider's base query and the ingestion endpoint, as the driver uses
// them. The query carries city, state, country and the provider key as
// parameters, spliced in verbatim.

pub open spec fn weather_url_text(
    city: Seq<char>,
    state: Seq<char>,
    country: Seq<char>,
    key: Seq<char>,
) -> Seq<char> {
    "http://api.airvisual.com/v2/city?city="@ + city + "&state="@ + state + "&country="@ + country
        + "&key="@ + key
}

/// The GET URL for the current weather at the given position, under the
/// given provider key.
pub fn weather_url(position: &Position, key: &str) -> (r: String)
    ensures
        r@ == weather_url_text(position.city@, position.state@, position.country@, key@),
{
    let mut url = String::new();
    url.append("http://api.airvisual.com/v2/city?city=");
    url.append(position.city.as_str());
    url.append("&state=");
    url.append(position.state.as_str());
    url.append("&country=");
    url.append(position.country.as_str());
    url.append("&key=");
    url.append(key);
    proof {
        assert(url@ =~= weather_url_text(
            position.city@,
            position.state@,
            position.country@,
            key@,
        ));
    }
    url
}

/// Classifies the provider's response and parses a success body. Status 200
/// with a JSON body yields the value that body parses to; 200 with a body
/// serde_json rejects is recorded as the synthetic code 500; 429 is the
/// provider's rate limit; any other status is reported verbatim.
pub fn handle_response(status: u16, body: &str) -> (r: Result<serde_json::Value, RelayError>)
    ensures
        status == 429 ==> r == Err::<serde_json::Value, RelayError>(RelayError::Response(429)),
        status != 200 && status != 429 ==> r == Err::<serde_json::Value, RelayError>(
            RelayError::Response(status),
        ),
        status == 200 && is_json_text(body@) ==> r == Ok::<serde_json::Value, RelayError>(
            json_value_of(body@),
        ),
        status == 200 && !is_json_text(body@) ==> r == Err::<serde_json::Value, RelayError>(
            RelayError::Response(500),
        ),
    {
    if status == 429 {
        return Err(RelayError::Response(429));
    }
    if status != 200 {
        return Err(RelayError::Response(status));
    }
    match json_from_str(body) {
        Ok(json) => Ok(json),
        Err(_) => Err(RelayError::Response(500)),
    }
}

} // verus!

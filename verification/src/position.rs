use vstd::prelude::*;
use crate::error::EnvKey;
use crate::error::RelayError;

verus! {

/// The city/state/country triple that identifies where weather is queried.
/// Built once at startup from the hosting environment and never changed.
#[derive(Clone, Debug, PartialEq, Eq)]
pub struct Position {
    pub city: String,
    pub state: String,
    pub country: String,
}

impl Position {
    /// Resolves the location descriptor from the values of the three
    /// environment variables, each given as `Some` text when the variable is
    /// set and `None` when it is absent. The first absent variable, in the
    /// order city, state, country, decides which `Config` error is reported.
    pub fn from_env_values(
        city: Option<String>,
        state: Option<String>,
        country: Option<String>,
    ) -> (r: Result<Position, RelayError>)
        ensures
            city is None ==> r == Err::<Position, RelayError>(RelayError::Config(EnvKey::City)),
            city is Some && state is None ==> r == Err::<Position, RelayError>(
                RelayError::Config(EnvKey::State),
            ),
            city is Some && state is Some && country is None ==> r == Err::<Position, RelayError>(
                RelayError::Config(EnvKey::Country),
            ),
            city is Some && state is Some && country is Some ==> {
                &&& r is Ok
                &&& r->Ok_0.city@ == city->0@
                &&& r->Ok_0.state@ == state->0@
                &&& r->Ok_0.country@ == country->0@
            },
    {
        let city = match city {
            Some(c) => c,
            None => {
                return Err(RelayError::Config(EnvKey::City));
            },
        };
        let state = match state {
            Some(s) => s,
            None => {
                return Err(RelayError::Config(EnvKey::State));
            },
        };
        let country = match country {
            Some(c) => c,
            None => {
                return Err(RelayError::Config(EnvKey::Country));
            },
        };
        Ok(Position { city, state, country })
    }
}

} // verus!

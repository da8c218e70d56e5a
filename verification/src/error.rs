use vstd::prelude::*;

verus! {

/// The three environment variables that locate the reading.
#[derive(Clone, Copy, Debug, PartialEq, Eq, Structural)]
pub enum EnvKey {
    City,
    State,
    Country,
}

impl EnvKey {
    /// The name of the environment variable, as the hosting environment sets it.
    pub fn name(&self) -> (r: &'static str)
        ensures
            r@ == self.spec_name(),
    {
        proof {
            reveal_strlit("CITY");
            reveal_strlit("STATE");
            reveal_strlit("COUNTRY");
        }
        match self {
            EnvKey::City => "CITY",
            EnvKey::State => "STATE",
            EnvKey::Country => "COUNTRY",
        }
    }

    pub open spec fn spec_name(self) -> Seq<char> {
        match self {
            EnvKey::City => "CITY"@,
            EnvKey::State => "STATE"@,
            EnvKey::Country => "COUNTRY"@,
        }
    }
}

/// Every way a run can fail. Each stage is fatal: the driver aborts on the
/// first error it sees.
#[derive(Clone, Copy, Debug, PartialEq, Eq, Structural)]
pub enum RelayError {
    /// A required environment variable is absent; carries which one.
    Config(EnvKey),
    /// Transport-level failure on an outbound call.
    Network,
    /// Non-success HTTP status from the weather provider, or the synthetic
    /// code 500 recorded when a success body is not valid JSON.
    Response(u16),
    /// The success payload lacks an expected field or its timestamp text is
    /// not in the expected format.
    Parse,
}

} // verus!

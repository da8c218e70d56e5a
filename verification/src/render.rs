use vstd::prelude::*;
use crate::weather::WeatherData;

verus! {

// Rendering of the outbound record as the JSON body POSTed to the
// ingestion endpoint: an object with the four observation fields and the
// nested position object, in fixed member order.

pub open spec fn digit_char(d: nat) -> char {
    ((d + 48) as u8) as char
}

/// The decimal digits of `n`, most significant first.
pub open spec fn dec_digits(n: nat) -> Seq<char>
    decreases n,
{
    if n < 10 {
        seq![digit_char(n)]
    } else {
        dec_digits(n / 10).push(digit_char(n % 10))
    }
}

/// The decimal rendering of `n`, with a leading minus sign when negative.
pub open spec fn dec_i64(n: int) -> Seq<char> {
    if n < 0 {
        seq!['-'] + dec_digits((-n) as nat)
    } else {
        dec_digits(n as nat)
    }
}

pub open spec fn esc_char(c: char) -> Seq<char> {
    if c == '"' || c == '\\' {
        seq!['\\', c]
    } else {
        seq![c]
    }
}

/// The text with every quote and backslash escaped, as a JSON string
/// member carries it.
pub open spec fn json_escaped(s: Seq<char>) -> Seq<char>
    decreases s.len(),
{
    if s.len() == 0 {
        Seq::empty()
    } else {
        json_escaped(s.drop_last()) + esc_char(s.last())
    }
}

/// The full JSON body for a record.
pub open spec fn record_json(w: WeatherData) -> Seq<char> {
    "{\"timestamp\":"@ + dec_i64(w.timestamp as int) + ",\"temperature\":"@ + w.temperature@
        + ",\"pressure\":"@ + w.pressure@ + ",\"wind_speed\":"@ + w.wind_speed@
        + ",\"position\":{\"city\":\""@ + json_escaped(w.position.city@) + "\",\"state\":\""@
        + json_escaped(w.position.state@) + "\",\"country\":\""@ + json_escaped(
        w.position.country@,
    ) + "\"}}"@
}

/// No character of the text is a comma. The decimal texts of JSON numbers
/// are comma-free, so a rendered record can be cut apart at its commas.
pub open spec fn comma_free(s: Seq<char>) -> bool {
    forall|i: int| 0 <= i < s.len() ==> s[i] != ','
}

/// The characters the decimal text of a JSON number can carry: digits, a
/// sign, a decimal point or an exponent mark. Such a text is nonempty and
/// holds no comma, quote or backslash, so splicing it unquoted into the
/// body keeps the body's shape.
pub open spec fn number_text_chars(s: Seq<char>) -> bool {
    &&& s.len() >= 1
    &&& forall|i: int|
        0 <= i < s.len() ==> (48 <= (#[trigger] s[i]) as u32 <= 57 || s[i] == '-' || s[i] == '+'
            || s[i] == '.' || s[i] == 'e' || s[i] == 'E')
}

/// Relies on String::push: appends the one character.
#[verifier::external_body]
fn push_char(s: &mut String, c: char)
    ensures
        final (s)@ == old(s)@.push(c),
{
    s.push(c);
}

fn u64_to_dec(n: u64) -> (s: String)
    ensures
        s@ == dec_digits(n as nat),
    decreases n,
{
    if n < 10 {
        let mut s = String::new();
        push_char(&mut s, (48 + n as u8) as char);
        proof {
            assert(s@ =~= dec_digits(n as nat));
        }
        s
    } else {
        let mut s = u64_to_dec(n / 10);
        push_char(&mut s, (48 + (n % 10) as u8) as char);
        s
    }
}

/// Renders `n` in decimal.
pub fn i64_to_dec(n: i64) -> (s: String)
    ensures
        s@ == dec_i64(n as int),
{
    if n >= 0 {
        u64_to_dec(n as u64)
    } else {
        let mag: u64 = if n == i64::MIN {
            9223372036854775808u64
        } else {
            (-n) as u64
        };
        let mut s = String::new();
        push_char(&mut s, '-');
        let d = u64_to_dec(mag);
        s.append(d.as_str());
        proof {
            assert(s@ =~= dec_i64(n as int));
        }
        s
    }
}

/// Escapes the text for use inside a JSON string literal.
pub fn escape_json(s: &str) -> (out: String)
    ensures
        out@ == json_escaped(s@),
{
    let len = s.unicode_len();
    let mut out = String::new();
    let mut i: usize = 0;
    while i < len
        invariant
            i <= len,
            len == s@.len(),
            out@ == json_escaped(s@.take(i as int)),
        decreases len - i,
    {
        let c = s.get_char(i);
        if c == '"' || c == '\\' {
            push_char(&mut out, '\\');
            push_char(&mut out, c);
        } else {
            push_char(&mut out, c);
        }
        proof {
            assert(s@.take(i + 1).drop_last() =~= s@.take(i as int));
            assert(out@ =~= json_escaped(s@.take(i + 1)));
        }
        i = i + 1;
    }
    proof {
        assert(s@.take(len as int) =~= s@);
    }
    out
}

impl WeatherData {
    /// Serializes the record as the ingestion endpoint's JSON body.
    pub fn to_json(&self) -> (out: String)
        ensures
            out@ == record_json(*self),
    {
        let mut out = String::new();
        out.append("{\"timestamp\":");
        let ts = i64_to_dec(self.timestamp);
        out.append(ts.as_str());
        out.append(",\"temperature\":");
        out.append(self.temperature.as_str());
        out.append(",\"pressure\":");
        out.append(self.pressure.as_str());
        out.append(",\"wind_speed\":");
        out.append(self.wind_speed.as_str());
        out.append(",\"position\":{\"city\":\"");
        let city = escape_json(self.position.city.as_str());
        out.append(city.as_str());
        out.append("\",\"state\":\"");
        let state = escape_json(self.position.state.as_str());
        out.append(state.as_str());
        out.append("\",\"country\":\"");
        let country = escape_json(self.position.country.as_str());
        out.append(country.as_str());
        out.append("\"}}");
        proof {
            assert(out@ =~= record_json(*self));
        }
        out
    }
}

pub(crate) proof fn lemma_dec_digits_chars(n: nat)
    ensures
        dec_digits(n).len() >= 1,
        forall|i: int|
            0 <= i < dec_digits(n).len() ==> 48 <= (#[trigger] dec_digits(n)[i]) as u32 <= 57,
    decreases n,
{
    if n < 10 {
        assert(dec_digits(n)[0] as u32 == n + 48);
    } else {
        lemma_dec_digits_chars(n / 10);
        assert(digit_char(n % 10) as u32 == n % 10 + 48);
    }
}

pub(crate) proof fn lemma_dec_i64_chars(n: int)
    ensures
        dec_i64(n).len() >= 1,
        forall|i: int|
            0 <= i < dec_i64(n).len() ==> ((#[trigger] dec_i64(n)[i]) == '-' || 48 <= dec_i64(
                n,
            )[i] as u32 <= 57),
        comma_free(dec_i64(n)),
{
    if n < 0 {
        lemma_dec_digits_chars((-n) as nat);
    } else {
        lemma_dec_digits_chars(n as nat);
    }
    assert('-' as u32 == 45);
    assert(',' as u32 == 44);
}

} // verus!

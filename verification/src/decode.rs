use vstd::prelude::*;
use crate::render::comma_free;
use crate::render::dec_digits;
use crate::render::dec_i64;
use crate::render::digit_char;
use crate::render::json_escaped;

use crate::render::record_json;
use crate::weather::WeatherData;
use crate::weather::measurements_wf;

verus! {

// The mathematical reading of a rendered record body, and the proof that it
// inverts the rendering: serializing a record and parsing the body back
// yields the record field for field. The parse is stated over the body text
// alone, so it pins down what any correct reader of the body recovers.

/// First position at or after `i` holding `c`.
pub open spec fn find_from(s: Seq<char>, i: int, c: char) -> Option<int>
    decreases s.len() - i,
{
    if i < 0 || i >= s.len() {
        None
    } else if s[i] == c {
        Some(i)
    } else {
        find_from(s, i + 1, c)
    }
}

/// The tail after a required opening text, or `None` when the text does not
/// open with it.
pub open spec fn strip_lit(s: Seq<char>, p: Seq<char>) -> Option<Seq<char>> {
    if p.len() <= s.len() && s.take(p.len() as int) == p {
        Some(s.skip(p.len() as int))
    } else {
        None
    }
}

/// The number a text of decimal digits names, most significant first.
pub open spec fn digit_seq_val(s: Seq<char>) -> int
    decreases s.len(),
{
    if s.len() == 0 {
        0
    } else {
        10 * digit_seq_val(s.drop_last()) + (s.last() as u32 - 48)
    }
}

pub open spec fn all_digits(s: Seq<char>) -> bool {
    forall|i: int| 0 <= i < s.len() ==> 48 <= (#[trigger] s[i]) as u32 <= 57
}

/// The integer a signed decimal text names, or `None` when the text is not
/// a sign followed by at least one digit.
pub open spec fn parse_int(s: Seq<char>) -> Option<int> {
    if s.len() >= 1 && s[0] == '-' {
        if s.len() >= 2 && all_digits(s.skip(1)) {
            Some(-digit_seq_val(s.skip(1)))
        } else {
            None
        }
    } else if s.len() >= 1 && all_digits(s) {
        Some(digit_seq_val(s))
    } else {
        None
    }
}

/// Splits the text at the first `c`: the part before it and the tail that
/// starts with it.
pub open spec fn split_at_first(s: Seq<char>, c: char) -> Option<(Seq<char>, Seq<char>)> {
    match find_from(s, 0, c) {
        Some(j) => Some((s.take(j), s.skip(j))),
        None => None,
    }
}

/// One member of the body: past the member's opening text, the piece up to
/// (not including) the first `c`, and the tail from that `c` on.
pub open spec fn member(prev: Option<(Seq<char>, Seq<char>)>, lit: Seq<char>, c: char) -> Option<
    (Seq<char>, Seq<char>),
> {
    match prev {
        Some((piece, tail)) => match strip_lit(tail, lit) {
            Some(t) => split_at_first(t, c),
            None => None,
        },
        None => None,
    }
}

/// Reads a JSON string member from the front: the decoded text up to the
/// member's closing quote, and the tail from that quote on. An escape may
/// carry a quote or a backslash; anything else after a backslash, or a
/// missing closing quote, rejects the text.
pub open spec fn unescape_prefix(s: Seq<char>) -> Option<(Seq<char>, Seq<char>)>
    decreases s.len(),
{
    if s.len() == 0 {
        None
    } else if s[0] == '"' {
        Some((Seq::<char>::empty(), s))
    } else if s[0] == '\\' {
        if s.len() >= 2 && (s[1] == '"' || s[1] == '\\') {
            match unescape_prefix(s.skip(2)) {
                Some(p) => Some((seq![s[1]] + p.0, p.1)),
                None => None,
            }
        } else {
            None
        }
    } else {
        match unescape_prefix(s.skip(1)) {
            Some(p) => Some((seq![s[0]] + p.0, p.1)),
            None => None,
        }
    }
}

/// A string member of the body: past the member's opening text, the
/// decoded string, and the tail from its closing quote on.
pub open spec fn string_member(prev: Option<(Seq<char>, Seq<char>)>, lit: Seq<char>) -> Option<
    (Seq<char>, Seq<char>),
> {
    match prev {
        Some((piece, tail)) => match strip_lit(tail, lit) {
            Some(t) => unescape_prefix(t),
            None => None,
        },
        None => None,
    }
}

/// Reads a rendered record body back: the timestamp, the three measurement
/// texts, and the three location texts with their escapes decoded, in the
/// body's fixed member order. `None` when the text is not a rendered
/// record.
pub open spec fn parse_record_json(s: Seq<char>) -> Option<
    (int, Seq<char>, Seq<char>, Seq<char>, Seq<char>, Seq<char>, Seq<char>),
> {
    let c1 = member(Some((Seq::<char>::empty(), s)), "{\"timestamp\":"@, ',');
    let c2 = member(c1, ",\"temperature\":"@, ',');
    let c3 = member(c2, ",\"pressure\":"@, ',');
    let c4 = member(c3, ",\"wind_speed\":"@, ',');
    let c5 = string_member(c4, ",\"position\":{\"city\":\""@);
    let c6 = string_member(c5, "\",\"state\":\""@);
    let c7 = string_member(c6, "\",\"country\":\""@);
    if c1 is Some && c2 is Some && c3 is Some && c4 is Some && c5 is Some && c6 is Some && c7
        is Some {
        let ts = parse_int((c1->0).0);
        let closed = strip_lit((c7->0).1, "\"}}"@);
        if ts is Some && closed is Some && (closed->0).len() == 0 {
            Some(
                (ts->0, (c2->0).0, (c3->0).0, (c4->0).0, (c5->0).0, (c6->0).0, (c7->0).0),
            )
        } else {
            None
        }
    } else {
        None
    }
}

proof fn lemma_find_from_hits(s: Seq<char>, i: int, c: char, k: int)
    requires
        0 <= i <= k < s.len(),
        s[k] == c,
        forall|j: int| i <= j < k ==> s[j] != c,
    ensures
        find_from(s, i, c) == Some(k),
    decreases k - i,
{
    if i < k {
        lemma_find_from_hits(s, i + 1, c, k);
    }
}

proof fn lemma_val_of_dec_digits(n: nat)
    ensures
        digit_seq_val(dec_digits(n)) == n,
    decreases n,
{
    if n < 10 {
        assert(digit_seq_val(Seq::<char>::empty()) == 0);
        assert(dec_digits(n).drop_last() =~= Seq::<char>::empty());
        assert(digit_char(n) as u32 == n + 48);
    } else {
        lemma_val_of_dec_digits(n / 10);
        assert(dec_digits(n).drop_last() =~= dec_digits(n / 10));
        assert(digit_char(n % 10) as u32 == n % 10 + 48);
    }
}

/// One step of the round-trip argument: a tail of the shape
/// `lit + piece + rest`, with `c` absent from the piece and opening `rest`,
/// is cut exactly at the piece.
proof fn lemma_member_exact(
    prev: Option<(Seq<char>, Seq<char>)>,
    lit: Seq<char>,
    c: char,
    piece: Seq<char>,
    rest: Seq<char>,
)
    requires
        prev is Some,
        (prev->0).1 == lit + piece + rest,
        forall|i: int| 0 <= i < piece.len() ==> piece[i] != c,
        rest.len() > 0 && rest[0] == c,
    ensures
        member(prev, lit, c) == Some((piece, rest)),
{
    let tail = (prev->0).1;
    assert(tail.take(lit.len() as int) =~= lit);
    let t = tail.skip(lit.len() as int);
    assert(t =~= piece + rest);
    lemma_find_from_hits(t, 0, c, piece.len() as int);
    assert(t.take(piece.len() as int) =~= piece);
    assert(t.skip(piece.len() as int) =~= rest);
}

proof fn lemma_json_escaped_first(s: Seq<char>)
    requires
        s.len() > 0,
    ensures
        json_escaped(s) == crate::render::esc_char(s[0]) + json_escaped(s.skip(1)),
    decreases s.len(),
{
    if s.len() == 1 {
        assert(s.drop_last() =~= Seq::<char>::empty());
        assert(s.skip(1) =~= Seq::<char>::empty());
        assert(json_escaped(s) =~= crate::render::esc_char(s[0]) + json_escaped(s.skip(1)));
    } else {
        lemma_json_escaped_first(s.drop_last());
        assert(s.drop_last()[0] == s[0]);
        assert(s.skip(1).drop_last() =~= s.drop_last().skip(1));
        assert(s.skip(1).last() == s.last());
        assert(json_escaped(s.skip(1)) == json_escaped(s.skip(1).drop_last()) + crate::render::esc_char(
            s.skip(1).last(),
        ));
        assert(json_escaped(s) =~= crate::render::esc_char(s[0]) + json_escaped(s.skip(1)));
    }
}

/// Decoding undoes escaping: an escaped text followed by its closing quote
/// reads back as the text itself, whatever characters it holds.
proof fn lemma_unescape_of_escaped(s: Seq<char>, rest: Seq<char>)
    requires
        rest.len() > 0,
        rest[0] == '"',
    ensures
        unescape_prefix(json_escaped(s) + rest) == Some((s, rest)),
    decreases s.len(),
{
    let t = json_escaped(s) + rest;
    if s.len() == 0 {
        assert(t =~= rest);
    } else {
        lemma_json_escaped_first(s);
        lemma_unescape_of_escaped(s.skip(1), rest);
        if s[0] == '"' || s[0] == '\\' {
            assert(t[0] == '\\' && t[1] == s[0]);
            assert(t.skip(2) =~= json_escaped(s.skip(1)) + rest);
            assert(seq![s[0]] + s.skip(1) =~= s);
        } else {
            assert(t[0] == s[0]);
            assert(t.skip(1) =~= json_escaped(s.skip(1)) + rest);
            assert(seq![s[0]] + s.skip(1) =~= s);
        }
    }
}

/// One string step of the round-trip argument: a tail of the shape
/// `lit + escaped piece + rest`, with `rest` opening at the closing quote,
/// decodes exactly to the piece.
proof fn lemma_string_member_exact(
    prev: Option<(Seq<char>, Seq<char>)>,
    lit: Seq<char>,
    piece: Seq<char>,
    rest: Seq<char>,
)
    requires
        prev is Some,
        (prev->0).1 == lit + json_escaped(piece) + rest,
        rest.len() > 0 && rest[0] == '"',
    ensures
        string_member(prev, lit) == Some((piece, rest)),
{
    let tail = (prev->0).1;
    assert(tail.take(lit.len() as int) =~= lit);
    let t = tail.skip(lit.len() as int);
    assert(t =~= json_escaped(piece) + rest);
    lemma_unescape_of_escaped(piece, rest);
}

proof fn lemma_parse_int_of_dec(n: int)
    ensures
        parse_int(dec_i64(n)) == Some(n),
{
    crate::render::lemma_dec_digits_chars(if n < 0 {
        (-n) as nat
    } else {
        n as nat
    });
    assert('-' as u32 == 45);
    if n < 0 {
        lemma_val_of_dec_digits((-n) as nat);
        assert(dec_i64(n)[0] == '-');
        assert(dec_i64(n).skip(1) =~= dec_digits((-n) as nat));
    } else {
        lemma_val_of_dec_digits(n as nat);
        assert(48 <= dec_i64(n)[0] as u32 <= 57);
    }
}

/// Round trip: parsing the rendered body of a record recovers the record
/// field for field. The location strings are arbitrary; the measurement
/// texts are the decimal texts of JSON numbers, as every record the
/// transform builds has them.
#[verifier::rlimit(100)]
pub proof fn lemma_record_json_round_trip(w: WeatherData)
    requires
        measurements_wf(w),
    ensures
        parse_record_json(record_json(w)) == Some(
            (
                w.timestamp as int,
                w.temperature@,
                w.pressure@,
                w.wind_speed@,
                w.position.city@,
                w.position.state@,
                w.position.country@,
            ),
        ),
{
    reveal_strlit(",\"temperature\":");
    reveal_strlit(",\"pressure\":");
    reveal_strlit(",\"wind_speed\":");
    reveal_strlit(",\"position\":{\"city\":\"");
    reveal_strlit("\",\"state\":\"");
    reveal_strlit("\",\"country\":\"");
    reveal_strlit("\"}}");
    let p0 = "{\"timestamp\":"@;
    let l1 = ",\"temperature\":"@;
    let l2 = ",\"pressure\":"@;
    let l3 = ",\"wind_speed\":"@;
    let l4 = ",\"position\":{\"city\":\""@;
    let l5 = "\",\"state\":\""@;
    let l6 = "\",\"country\":\""@;
    let l7 = "\"}}"@;
    let body = record_json(w);
    let dec = dec_i64(w.timestamp as int);
    crate::render::lemma_dec_i64_chars(w.timestamp as int);
    assert(',' as u32 == 44);
    assert(comma_free(w.temperature@));
    assert(comma_free(w.pressure@));
    assert(comma_free(w.wind_speed@));
    let rest7 = l7;
    let rest6 = l6 + json_escaped(w.position.country@) + rest7;
    let rest5 = l5 + json_escaped(w.position.state@) + rest6;
    let rest4 = l4 + json_escaped(w.position.city@) + rest5;
    let rest3 = l3 + w.wind_speed@ + rest4;
    let rest2 = l2 + w.pressure@ + rest3;
    let rest1 = l1 + w.temperature@ + rest2;
    assert(body =~= p0 + dec + rest1);
    let start = Some((Seq::<char>::empty(), body));
    lemma_member_exact(start, p0, ',', dec, rest1);
    lemma_member_exact(member(start, p0, ','), l1, ',', w.temperature@, rest2);
    lemma_member_exact(
        member(member(start, p0, ','), l1, ','),
        l2,
        ',',
        w.pressure@,
        rest3,
    );
    let c3 = member(member(member(start, p0, ','), l1, ','), l2, ',');
    lemma_member_exact(c3, l3, ',', w.wind_speed@, rest4);
    lemma_string_member_exact(member(c3, l3, ','), l4, w.position.city@, rest5);
    lemma_string_member_exact(
        string_member(member(c3, l3, ','), l4),
        l5,
        w.position.state@,
        rest6,
    );
    let c6 = string_member(string_member(member(c3, l3, ','), l4), l5);
    lemma_string_member_exact(c6, l6, w.position.country@, rest7);
    assert(l7.take(l7.len() as int) =~= l7);
    assert(l7.skip(l7.len() as int) =~= Seq::<char>::empty());
    lemma_parse_int_of_dec(w.timestamp as int);
}

/// Rendering loses nothing: two records with measurement texts of JSON
/// numbers render to the same body only when they agree field for field.
pub proof fn lemma_record_json_lossless(a: WeatherData, b: WeatherData)
    requires
        measurements_wf(a),
        measurements_wf(b),
        record_json(a) == record_json(b),
    ensures
        a.timestamp == b.timestamp,
        a.temperature@ == b.temperature@,
        a.pressure@ == b.pressure@,
        a.wind_speed@ == b.wind_speed@,
        a.position.city@ == b.position.city@,
        a.position.state@ == b.position.state@,
        a.position.country@ == b.position.country@,
{
    lemma_record_json_round_trip(a);
    lemma_record_json_round_trip(b);
}

} // verus!

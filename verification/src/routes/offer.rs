use vstd::prelude::*;
use vstd::string::StringExecFns;
use vstd::utf8::{decode_utf8, valid_utf8};
use webrtc::peer_connection::sdp::session_description::RTCSessionDescription;

verus! {

/// The session description type of `webrtc`, carried through opaquely.
#[verifier::external_type_specification]
#[verifier::external_body]
pub struct ExRTCSessionDescription(RTCSessionDescription);

/// The error type of `serde_json`, carried through opaquely.
#[verifier::external_type_specification]
#[verifier::external_body]
pub struct ExSerdeJsonError(serde_json::Error);

/// `String::from_utf8`: its documentation promises a string exactly when
/// the bytes are valid UTF-8, holding the characters they encode.
#[verifier::external_body]
fn string_from_utf8(bytes: Vec<u8>) -> (text: Option<String>)
    ensures
        text is Some <==> valid_utf8(bytes@),
        text matches Some(t) ==> t@ == decode_utf8(bytes@),
{
    String::from_utf8(bytes).ok()
}

/// The digits that `serde_json` writes in a `\u00XX` escape.
pub open spec fn hex_digit(n: int) -> char {
    seq!['0', '1', '2', '3', '4', '5', '6', '7', '8', '9', 'a', 'b', 'c', 'd', 'e', 'f'][n]
}

/// How `serde_json` writes one character inside a string literal: quote and
/// backslash are escaped with a backslash; backspace, tab, line feed, form
/// feed and carriage return by their short escapes; the other characters
/// below U+0020 as `\u00XX` in lower-case hex; every other character as
/// itself.
pub open spec fn json_escape(c: char) -> Seq<char> {
    if c == '"' {
        seq!['\\', '"']
    } else if c == '\\' {
        seq!['\\', '\\']
    } else if c == '\u{8}' {
        seq!['\\', 'b']
    } else if c == '\t' {
        seq!['\\', 't']
    } else if c == '\n' {
        seq!['\\', 'n']
    } else if c == '\u{c}' {
        seq!['\\', 'f']
    } else if c == '\r' {
        seq!['\\', 'r']
    } else if (c as u32) < 0x20 {
        seq!['\\', 'u', '0', '0', hex_digit((c as u32) as int / 16), hex_digit((c as u32) as int % 16)]
    } else {
        seq![c]
    }
}

/// The characters of `s`, each written as `json_escape` says.
pub open spec fn json_escaped(s: Seq<char>) -> Seq<char>
    decreases s.len(),
{
    if s.len() == 0 {
        Seq::empty()
    } else {
        json_escaped(s.drop_last()) + json_escape(s.last())
    }
}

/// The JSON string literal that `serde_json` writes for `s`: its characters
/// escaped, between double quotes.
pub open spec fn json_string(s: Seq<char>) -> Seq<char> {
    seq!['"'] + json_escaped(s) + seq!['"']
}

/// `serde_json::to_string` on a `str`. Its source writes a quote, each run
/// of characters that need no escape as it is, each other byte by its
/// escape from the `ESCAPE` table (`json_escape`), and a closing quote.
/// Writing into the vector that `to_string` uses has no way to fail (the
/// only errors are those of the writer), so the result is always `Ok`.
#[verifier::external_body]
fn to_json_string(s: &str) -> (quoted: Result<String, serde_json::Error>)
    ensures
        quoted is Ok,
        quoted matches Ok(q) ==> q@ == json_string(s@),
{
    serde_json::to_string(s)
}

/// Whether a `webrtc` session description is of type offer (its
/// `sdp_type` field is `RTCSdpType::Offer`).
pub uninterp spec fn description_is_offer(description: RTCSessionDescription) -> bool;

/// The text of the `sdp` field of a `webrtc` session description.
pub uninterp spec fn description_sdp(description: RTCSessionDescription) -> Seq<char>;

/// `serde_json::from_str::<RTCSessionDescription>`. The description type
/// derives `Deserialize`: its member `type` is read into `sdp_type`, where
/// `"offer"` is `Offer`, its member `sdp` into the `sdp` string, and its
/// parsed form is skipped. So the JSON offer object of a text (members
/// `sdp`, holding that text as `serde_json` writes a string, and `type`,
/// holding `"offer"`) is read as an offer whose SDP is that text; on other
/// input nothing is stated.
#[verifier::external_body]
fn session_description_from_json(json: &str) -> (parsed: Result<RTCSessionDescription, serde_json::Error>)
    ensures
        parsed is Err ==> forall|sdp: Seq<char>| #[trigger] offer_json_text(sdp) != json@,
        parsed matches Ok(d) ==> forall|sdp: Seq<char>|
            #[trigger] offer_json_text(sdp) == json@ ==> description_is_offer(d) && description_sdp(d) == sdp,
{
    serde_json::from_str::<RTCSessionDescription>(json)
}

/// The offer SDP in a request body: the body as UTF-8 text, or nothing when
/// it is not valid UTF-8.
pub fn decode_offer_body(body: Vec<u8>) -> (sdp: Option<String>)
    ensures
        sdp is Some <==> valid_utf8(body@),
        sdp matches Some(s) ==> s@ == decode_utf8(body@),
{
    string_from_utf8(body)
}

/// The JSON object that describes `sdp` as an SDP offer: the members `sdp`
/// and `type`, in that order, as `serde_json` writes an object.
pub open spec fn offer_json_text(sdp: Seq<char>) -> Seq<char> {
    "{\"sdp\":"@ + json_string(sdp) + ",\"type\":\"offer\"}"@
}

/// Writes the JSON description of the offer `sdp`.
pub fn offer_json(sdp: &str) -> (json: String)
    ensures
        json@ == offer_json_text(sdp@),
{
    let mut json = String::from_str("{\"sdp\":");
    match to_json_string(sdp) {
        Ok(quoted) => {
            json.append(quoted.as_str());
        },
        Err(_) => {},
    }
    json.append(",\"type\":\"offer\"}");
    json
}

/// The remote session description for the offer `sdp`, read back from its
/// JSON description: always there, of type offer, with `sdp` as its SDP.
pub fn remote_offer(sdp: &str) -> (description: Option<RTCSessionDescription>)
    ensures
        description is Some,
        description matches Some(d) ==> description_is_offer(d) && description_sdp(d) == sdp@,
{
    let json = offer_json(sdp);
    match session_description_from_json(json.as_str()) {
        Ok(description) => Some(description),
        Err(_) => None,
    }
}

/// Distinct digits are written distinctly.
proof fn lemma_hex_digit_injective(a: int, b: int)
    requires
        0 <= a < 16,
        0 <= b < 16,
        hex_digit(a) == hex_digit(b),
    ensures
        a == b,
{
    let digits = seq!['0', '1', '2', '3', '4', '5', '6', '7', '8', '9', 'a', 'b', 'c', 'd', 'e', 'f'];
    assert(hex_digit(a) == digits[a]);
    assert(hex_digit(b) == digits[b]);
    assert(forall|i: int, j: int| 0 <= i < 16 && 0 <= j < 16 && i != j ==> digits[i] != digits[j]) by {
        assert forall|i: int, j: int| 0 <= i < 16 && 0 <= j < 16 && i != j implies digits[i] != digits[j] by {
            assert(digits[i] as u32 == if i < 10 { 48 + i } else { 87 + i }) by {
                if i == 0 {} else if i == 1 {} else if i == 2 {} else if i == 3 {} else if i == 4 {}
                else if i == 5 {} else if i == 6 {} else if i == 7 {} else if i == 8 {} else if i == 9 {}
                else if i == 10 {} else if i == 11 {} else if i == 12 {} else if i == 13 {} else if i == 14 {}
                else {}
            }
            assert(digits[j] as u32 == if j < 10 { 48 + j } else { 87 + j }) by {
                if j == 0 {} else if j == 1 {} else if j == 2 {} else if j == 3 {} else if j == 4 {}
                else if j == 5 {} else if j == 6 {} else if j == 7 {} else if j == 8 {} else if j == 9 {}
                else if j == 10 {} else if j == 11 {} else if j == 12 {} else if j == 13 {} else if j == 14 {}
                else {}
            }
        }
    }
}

/// The first character of an escape tells whether it is an escape: only
/// an escaped character is written starting with a backslash.
proof fn lemma_escape_shape(c: char)
    ensures
        json_escape(c).len() >= 1,
        json_escape(c)[0] == '\\' ==> json_escape(c).len() >= 2,
        json_escape(c)[0] != '\\' ==> json_escape(c) == seq![c],
        json_escape(c)[0] == '\\' && json_escape(c)[1] == 'u' ==> json_escape(c).len() == 6 && (c as u32) < 0x20,
{
}

/// Two escapes that begin two equal texts are the escapes of the same
/// character.
proof fn lemma_escape_prefix(c1: char, c2: char, rest1: Seq<char>, rest2: Seq<char>)
    requires
        json_escape(c1) + rest1 == json_escape(c2) + rest2,
    ensures
        c1 == c2,
        rest1 == rest2,
{
    let e1 = json_escape(c1);
    let e2 = json_escape(c2);
    let t = e1 + rest1;
    lemma_escape_shape(c1);
    lemma_escape_shape(c2);
    assert(t[0] == e1[0]);
    assert((e2 + rest2)[0] == e2[0]);
    if e1[0] != '\\' {
        assert(e2[0] != '\\');
        assert(c1 == e1[0]);
        assert(c2 == e2[0]);
    } else {
        assert(t[1] == e1[1]);
        assert((e2 + rest2)[1] == e2[1]);
        if e1[1] == 'u' {
            assert(t[4] == e1[4] && t[5] == e1[5]);
            assert((e2 + rest2)[4] == e2[4] && (e2 + rest2)[5] == e2[5]);
            let n1 = (c1 as u32) as int;
            let n2 = (c2 as u32) as int;
            lemma_hex_digit_injective(n1 / 16, n2 / 16);
            lemma_hex_digit_injective(n1 % 16, n2 % 16);
            assert(n1 == n2);
        }
    }
    assert(c1 == c2);
    assert(rest1 =~= t.skip(e1.len() as int));
    assert(rest2 =~= (e2 + rest2).skip(e2.len() as int));
}

/// The escaped text of a nonempty text begins with the escape of its first
/// character.
proof fn lemma_escaped_front(s: Seq<char>)
    requires
        s.len() > 0,
    ensures
        json_escaped(s) == json_escape(s[0]) + json_escaped(s.drop_first()),
    decreases s.len(),
{
    if s.len() == 1 {
        assert(s.drop_last() =~= Seq::<char>::empty());
        assert(s.drop_first() =~= Seq::<char>::empty());
        assert(json_escaped(s) =~= json_escape(s[0]) + json_escaped(s.drop_first()));
    } else {
        lemma_escaped_front(s.drop_last());
        assert(s.drop_last().drop_first() =~= s.drop_first().drop_last());
        assert(s.drop_first().last() == s.last());
        assert(json_escaped(s) =~= json_escape(s[0]) + json_escaped(s.drop_first()));
    }
}

/// Distinct texts are escaped distinctly.
pub proof fn json_escaped_is_injective(s1: Seq<char>, s2: Seq<char>)
    requires
        json_escaped(s1) == json_escaped(s2),
    ensures
        s1 == s2,
    decreases s1.len(),
{
    if s1.len() == 0 {
        if s2.len() > 0 {
            lemma_escaped_front(s2);
            lemma_escape_shape(s2[0]);
        }
        assert(s1 =~= s2);
    } else {
        lemma_escaped_front(s1);
        lemma_escape_shape(s1[0]);
        if s2.len() == 0 {
            assert(json_escaped(s2).len() == 0);
            assert(json_escaped(s1).len() >= 1);
        } else {
            lemma_escaped_front(s2);
            lemma_escape_prefix(s1[0], s2[0], json_escaped(s1.drop_first()), json_escaped(s2.drop_first()));
            json_escaped_is_injective(s1.drop_first(), s2.drop_first());
            assert(s1.len() == s2.len());
            assert forall|i: int| 0 <= i < s1.len() implies s1[i] == s2[i] by {
                if i > 0 {
                    assert(s1[i] == s1.drop_first()[i - 1]);
                    assert(s2[i] == s2.drop_first()[i - 1]);
                }
            }
            assert(s1 =~= s2);
        }
    }
}

/// Distinct texts are written as distinct JSON string literals.
pub proof fn json_string_is_injective(s1: Seq<char>, s2: Seq<char>)
    requires
        json_string(s1) == json_string(s2),
    ensures
        s1 == s2,
{
    let j = json_string(s1);
    assert(json_escaped(s1) =~= j.subrange(1, j.len() - 1));
    assert(json_escaped(s2) =~= json_string(s2).subrange(1, json_string(s2).len() - 1));
    json_escaped_is_injective(s1, s2);
}

/// The offer object carries the whole offer: the JSON descriptions of two
/// offers are the same text only when the offers are.
pub proof fn offer_json_text_is_injective(sdp1: Seq<char>, sdp2: Seq<char>)
    requires
        offer_json_text(sdp1) == offer_json_text(sdp2),
    ensures
        sdp1 == sdp2,
{
    let head = "{\"sdp\":"@;
    let tail = ",\"type\":\"offer\"}"@;
    let t = offer_json_text(sdp1);
    let n1 = json_string(sdp1).len();
    let n2 = json_string(sdp2).len();
    assert(t.len() == head.len() + n1 + tail.len());
    assert(offer_json_text(sdp2).len() == head.len() + n2 + tail.len());
    assert(json_string(sdp1) =~= t.subrange(head.len() as int, head.len() + n1 as int));
    assert(json_string(sdp2) =~= offer_json_text(sdp2).subrange(head.len() as int, head.len() + n2 as int));
    json_string_is_injective(sdp1, sdp2);
}

} // verus!

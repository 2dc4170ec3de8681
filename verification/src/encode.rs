//! Wire encoding of the outbound generation request.
//!
//! The remote endpoint takes a JSON object whose field names follow a
//! fixed external casing convention (`systemInstruction`, `contents`,
//! `safetySettings`, `generationConfig` with `stopSequences`,
//! `temperature`, `maxOutputTokens`, `topP`, `topK`). The encoder here
//! produces that object character by character, with full JSON string
//! escaping, so the exact bytes on the wire are pinned by the
//! specification. The endpoint URL is the fixed base address with the API
//! key as its only query parameter.

use vstd::prelude::*;

use crate::prompt::{GenerationRequest, GenerationRequestView, SafetySettingView};
use crate::transcript::{Role, Turn, TurnView};

verus! {

/// The decimal digit `d` (0 to 9) as a one-character sequence.
pub open spec fn dec_digit_str(d: int) -> Seq<char> {
    if d == 0 {
        "0"@
    } else if d == 1 {
        "1"@
    } else if d == 2 {
        "2"@
    } else if d == 3 {
        "3"@
    } else if d == 4 {
        "4"@
    } else if d == 5 {
        "5"@
    } else if d == 6 {
        "6"@
    } else if d == 7 {
        "7"@
    } else if d == 8 {
        "8"@
    } else if d == 9 {
        "9"@
    } else {
        Seq::<char>::empty()
    }
}

/// The lower-case hexadecimal digit `d` (0 to 15) as a one-character
/// sequence.
pub open spec fn hex_digit_str(d: int) -> Seq<char> {
    if d < 10 {
        dec_digit_str(d)
    } else if d == 10 {
        "a"@
    } else if d == 11 {
        "b"@
    } else if d == 12 {
        "c"@
    } else if d == 13 {
        "d"@
    } else if d == 14 {
        "e"@
    } else if d == 15 {
        "f"@
    } else {
        Seq::<char>::empty()
    }
}

/// The decimal rendering of a non-negative integer, without sign or
/// leading zeros (zero itself renders as "0").
pub open spec fn dec_of(n: int) -> Seq<char>
    decreases n,
{
    if n < 10 {
        dec_digit_str(n)
    } else {
        dec_of(n / 10) + dec_digit_str(n % 10)
    }
}

/// The decimal rendering of a value held in tenths: the integer part,
/// a dot, and the single fractional digit (10 renders as "1.0").
pub open spec fn dec_tenths(t: int) -> Seq<char> {
    dec_of(t / 10) + "."@ + dec_digit_str(t % 10)
}

/// How one character appears inside a JSON string: quote, backslash and
/// control characters are escaped, every other character stands as
/// itself.
pub open spec fn escape_char(c: char) -> Seq<char> {
    if c == '"' {
        "\\\""@
    } else if c == '\\' {
        "\\\\"@
    } else if c == '\n' {
        "\\n"@
    } else if c == '\r' {
        "\\r"@
    } else if c == '\t' {
        "\\t"@
    } else if (c as u32) < 32 {
        "\\u00"@ + hex_digit_str((c as u32) as int / 16) + hex_digit_str((c as u32) as int % 16)
    } else {
        seq![c]
    }
}

/// The body of a JSON string holding the text `s`: every character
/// escaped as JSON requires.
pub open spec fn json_escape(s: Seq<char>) -> Seq<char>
    decreases s.len(),
{
    if s.len() == 0 {
        Seq::<char>::empty()
    } else {
        json_escape(s.drop_last()) + escape_char(s.last())
    }
}

/// A complete JSON string: opening quote, escaped text, closing quote.
pub open spec fn quoted(s: Seq<char>) -> Seq<char> {
    "\""@ + json_escape(s) + "\""@
}

/// The wire name of a role.
pub open spec fn role_json(r: Role) -> Seq<char> {
    match r {
        Role::User => "\"user\""@,
        Role::Model => "\"model\""@,
    }
}

/// One history entry on the wire: a single text part and the role name.
pub open spec fn encode_turn(t: TurnView) -> Seq<char> {
    "{\"parts\":[{\"text\":"@ + quoted(t.text) + "}],\"role\":"@ + role_json(t.role) + "}"@
}

/// The history entries on the wire, in order, separated by commas.
pub open spec fn encode_turns(ts: Seq<TurnView>) -> Seq<char>
    decreases ts.len(),
{
    if ts.len() == 0 {
        Seq::<char>::empty()
    } else if ts.len() == 1 {
        encode_turn(ts[0])
    } else {
        encode_turns(ts.drop_last()) + ","@ + encode_turn(ts.last())
    }
}

/// One safety entry on the wire.
pub open spec fn encode_safety_setting(s: SafetySettingView) -> Seq<char> {
    "{\"category\":"@ + quoted(s.category) + ",\"threshold\":"@ + quoted(s.threshold) + "}"@
}

/// The safety entries on the wire, in order, separated by commas.
pub open spec fn encode_safety_settings(ss: Seq<SafetySettingView>) -> Seq<char>
    decreases ss.len(),
{
    if ss.len() == 0 {
        Seq::<char>::empty()
    } else if ss.len() == 1 {
        encode_safety_setting(ss[0])
    } else {
        encode_safety_settings(ss.drop_last()) + ","@ + encode_safety_setting(ss.last())
    }
}

/// A list of JSON strings on the wire, in order, separated by commas.
pub open spec fn encode_string_list(ss: Seq<Seq<char>>) -> Seq<char>
    decreases ss.len(),
{
    if ss.len() == 0 {
        Seq::<char>::empty()
    } else if ss.len() == 1 {
        quoted(ss[0])
    } else {
        encode_string_list(ss.drop_last()) + ","@ + quoted(ss.last())
    }
}

/// The complete request body on the wire: system instructions, history,
/// safety policy and generation parameters under their fixed external
/// field names.
pub open spec fn encode_request(r: GenerationRequestView) -> Seq<char> {
    "{\"systemInstruction\":{\"parts\":[{\"text\":"@ + quoted(r.system_instructions)
        + "}]},\"contents\":["@ + encode_turns(r.history) + "],\"safetySettings\":["@
        + encode_safety_settings(r.safety_settings)
        + "],\"generationConfig\":{\"stopSequences\":["@ + encode_string_list(
        r.generation_config.stop_sequences,
    ) + "],\"temperature\":"@ + dec_tenths(r.generation_config.temperature_tenths as int)
        + ",\"maxOutputTokens\":"@ + dec_of(r.generation_config.max_output_tokens as int)
        + ",\"topP\":"@ + dec_tenths(r.generation_config.top_p_tenths as int) + ",\"topK\":"@
        + dec_of(r.generation_config.top_k as int) + "}}"@
}

/// The fixed endpoint address, up to and including the key parameter.
pub open spec fn endpoint_base() -> Seq<char> {
    "https://generativelanguage.googleapis.com/v1beta/models/gemini-2.0-flash:generateContent?key="@
}

/// The decimal digit `d` as a string slice.
fn dec_digit(d: u32) -> (s: &'static str)
    requires
        d < 10,
    ensures
        s@ == dec_digit_str(d as int),
{
    match d {
        0 => "0",
        1 => "1",
        2 => "2",
        3 => "3",
        4 => "4",
        5 => "5",
        6 => "6",
        7 => "7",
        8 => "8",
        _ => "9",
    }
}

/// The lower-case hexadecimal digit `d` as a string slice.
fn hex_digit(d: u32) -> (s: &'static str)
    requires
        d < 16,
    ensures
        s@ == hex_digit_str(d as int),
{
    if d < 10 {
        dec_digit(d)
    } else {
        match d {
            10 => "a",
            11 => "b",
            12 => "c",
            13 => "d",
            14 => "e",
            _ => "f",
        }
    }
}

/// Renders `n` in decimal.
pub fn dec_u32(n: u32) -> (out: String)
    ensures
        out@ == dec_of(n as int),
    decreases n,
{
    if n < 10 {
        String::from_str(dec_digit(n))
    } else {
        let mut out = dec_u32(n / 10);
        out.append(dec_digit(n % 10));
        out
    }
}

/// Renders a value held in tenths, such as "1.0" for 10.
pub fn dec_tenths_u32(t: u32) -> (out: String)
    ensures
        out@ == dec_tenths(t as int),
{
    let mut out = dec_u32(t / 10);
    out.append(".");
    out.append(dec_digit(t % 10));
    out
}

/// Escapes `s` for use inside a JSON string.
pub fn json_escape_str(s: &str) -> (out: String)
    ensures
        out@ == json_escape(s@),
{
    let n = s.unicode_len();
    let mut out = String::new();
    let mut i: usize = 0;
    while i < n
        invariant
            i <= n,
            n == s@.len(),
            out@ =~= json_escape(s@.subrange(0, i as int)),
        decreases n - i,
    {
        proof {
            assert(s@.subrange(0, i + 1 as int).drop_last() =~= s@.subrange(0, i as int));
            assert(s@.subrange(0, i + 1 as int).last() == s@[i as int]);
        }
        let c = s.get_char(i);
        if c == '"' {
            out.append("\\\"");
        } else if c == '\\' {
            out.append("\\\\");
        } else if c == '\n' {
            out.append("\\n");
        } else if c == '\r' {
            out.append("\\r");
        } else if c == '\t' {
            out.append("\\t");
        } else if (c as u32) < 32 {
            out.append("\\u00");
            out.append(hex_digit((c as u32) / 16));
            out.append(hex_digit((c as u32) % 16));
        } else {
            let piece = s.substring_char(i, i + 1);
            proof {
                assert(piece@ =~= seq![s@[i as int]]);
            }
            out.append(piece);
        }
        proof {
            assert(out@ =~= json_escape(s@.subrange(0, i + 1 as int)));
        }
        i = i + 1;
    }
    proof {
        assert(s@.subrange(0, n as int) =~= s@);
    }
    out
}

/// Wraps `s`, escaped, in quotes.
pub fn quote_str(s: &str) -> (out: String)
    ensures
        out@ == quoted(s@),
{
    let mut out = String::from_str("\"");
    let body = json_escape_str(s);
    out.append(body.as_str());
    out.append("\"");
    out
}

/// Encodes one history entry.
fn encode_turn_json(t: &Turn) -> (out: String)
    ensures
        out@ == encode_turn(t@),
{
    let mut out = String::from_str("{\"parts\":[{\"text\":");
    let text = quote_str(t.text.as_str());
    out.append(text.as_str());
    out.append("}],\"role\":");
    match t.role {
        Role::User => out.append("\"user\""),
        Role::Model => out.append("\"model\""),
    }
    out.append("}");
    out
}

/// Encodes the history entries, comma-separated.
fn encode_turns_json(ts: &Vec<Turn>) -> (out: String)
    ensures
        out@ == encode_turns(ts.deep_view()),
{
    let mut out = String::new();
    let mut j: usize = 0;
    while j < ts.len()
        invariant
            j <= ts.len(),
            out@ =~= encode_turns(ts.deep_view().subrange(0, j as int)),
        decreases ts.len() - j,
    {
        let ghost seen = ts.deep_view().subrange(0, j as int);
        proof {
            assert(ts.deep_view().subrange(0, j + 1 as int).drop_last() =~~= seen);
            assert(ts.deep_view().subrange(0, j + 1 as int).last() == ts.deep_view()[j as int]);
            assert(ts.deep_view().subrange(0, j + 1 as int)[0] == ts.deep_view()[0]);
        }
        if j > 0 {
            out.append(",");
        }
        let piece = encode_turn_json(&ts[j]);
        out.append(piece.as_str());
        proof {
            assert(out@ =~= encode_turns(ts.deep_view().subrange(0, j + 1 as int)));
        }
        j = j + 1;
    }
    proof {
        assert(ts.deep_view().subrange(0, ts.len() as int) =~~= ts.deep_view());
    }
    out
}

/// Encodes the safety entries, comma-separated.
fn encode_safety_json(ss: &Vec<crate::prompt::SafetySetting>) -> (out: String)
    ensures
        out@ == encode_safety_settings(ss.deep_view()),
{
    let mut out = String::new();
    let mut j: usize = 0;
    while j < ss.len()
        invariant
            j <= ss.len(),
            out@ =~= encode_safety_settings(ss.deep_view().subrange(0, j as int)),
        decreases ss.len() - j,
    {
        proof {
            assert(ss.deep_view().subrange(0, j + 1 as int).drop_last() =~~= ss.deep_view()
                .subrange(0, j as int));
            assert(ss.deep_view().subrange(0, j + 1 as int).last() == ss.deep_view()[j as int]);
            assert(ss.deep_view().subrange(0, j + 1 as int)[0] == ss.deep_view()[0]);
        }
        if j > 0 {
            out.append(",");
        }
        let mut piece = String::from_str("{\"category\":");
        let category = quote_str(ss[j].category.as_str());
        piece.append(category.as_str());
        piece.append(",\"threshold\":");
        let threshold = quote_str(ss[j].threshold.as_str());
        piece.append(threshold.as_str());
        piece.append("}");
        proof {
            assert(piece@ =~= encode_safety_setting(ss.deep_view()[j as int]));
        }
        out.append(piece.as_str());
        proof {
            assert(out@ =~= encode_safety_settings(ss.deep_view().subrange(0, j + 1 as int)));
        }
        j = j + 1;
    }
    proof {
        assert(ss.deep_view().subrange(0, ss.len() as int) =~~= ss.deep_view());
    }
    out
}

/// Encodes a list of strings, quoted and comma-separated.
fn encode_string_list_json(ss: &Vec<String>) -> (out: String)
    ensures
        out@ == encode_string_list(ss.deep_view()),
{
    let mut out = String::new();
    let mut j: usize = 0;
    while j < ss.len()
        invariant
            j <= ss.len(),
            out@ =~= encode_string_list(ss.deep_view().subrange(0, j as int)),
        decreases ss.len() - j,
    {
        proof {
            assert(ss.deep_view().subrange(0, j + 1 as int).drop_last() =~~= ss.deep_view()
                .subrange(0, j as int));
            assert(ss.deep_view().subrange(0, j + 1 as int).last() == ss.deep_view()[j as int]);
            assert(ss.deep_view().subrange(0, j + 1 as int)[0] == ss.deep_view()[0]);
        }
        if j > 0 {
            out.append(",");
        }
        let piece = quote_str(ss[j].as_str());
        out.append(piece.as_str());
        proof {
            assert(out@ =~= encode_string_list(ss.deep_view().subrange(0, j + 1 as int)));
        }
        j = j + 1;
    }
    proof {
        assert(ss.deep_view().subrange(0, ss.len() as int) =~~= ss.deep_view());
    }
    out
}

/// Encodes the complete request body exactly as the wire contract
/// requires.
pub fn encode_request_json(r: &GenerationRequest) -> (out: String)
    ensures
        out@ == encode_request(r@),
{
    let mut out = String::from_str("{\"systemInstruction\":{\"parts\":[{\"text\":");
    let sys = quote_str(r.system_instructions.as_str());
    out.append(sys.as_str());
    out.append("}]},\"contents\":[");
    let turns = encode_turns_json(&r.history);
    out.append(turns.as_str());
    out.append("],\"safetySettings\":[");
    let safety = encode_safety_json(&r.safety_settings);
    out.append(safety.as_str());
    out.append("],\"generationConfig\":{\"stopSequences\":[");
    let stops = encode_string_list_json(&r.generation_config.stop_sequences);
    out.append(stops.as_str());
    out.append("],\"temperature\":");
    let temperature = dec_tenths_u32(r.generation_config.temperature_tenths);
    out.append(temperature.as_str());
    out.append(",\"maxOutputTokens\":");
    let max_tokens = dec_u32(r.generation_config.max_output_tokens);
    out.append(max_tokens.as_str());
    out.append(",\"topP\":");
    let top_p = dec_tenths_u32(r.generation_config.top_p_tenths);
    out.append(top_p.as_str());
    out.append(",\"topK\":");
    let top_k = dec_u32(r.generation_config.top_k);
    out.append(top_k.as_str());
    out.append("}}");
    proof {
        assert(out@ =~= encode_request(r@));
    }
    out
}

/// The address the request is sent to: the fixed endpoint with the API
/// key as its only query parameter.
pub fn endpoint_url(api_key: &str) -> (u: String)
    ensures
        u@ == endpoint_base() + api_key@,
{
    let mut u = String::from_str(
        "https://generativelanguage.googleapis.com/v1beta/models/gemini-2.0-flash:generateContent?key=",
    );
    u.append(api_key);
    u
}

} // verus!

//! glassout integration for the display side: reading a screen's free-form
//! settings and turning them into the engine's panel viewer URL
//! (`<engine>/panel/<id>?fps=..&fit=..&debug=1`, or a verbatim viewer path).
use crate::json::{JsonModel, JsonNumber, JsonValue, Settings, lookup};
use crate::text::{
    chars_of, decimal, hex_digit, hex_upper, lemma_parse_decimal, parse_u64, parse_u64_str, push_char, push_decimal, push_str,
    trim, trim_end_char, trimmed, trimmed_end_char,
};
use vstd::prelude::*;
use vstd::utf8::encode_utf8;

verus! {

/// A setting as a trimmed, non-empty string.
pub open spec fn spec_setting_str(settings: Seq<(Seq<char>, JsonModel)>, key: Seq<char>) -> Option<
    Seq<char>,
> {
    match lookup(settings, key) {
        Some(JsonModel::Text(s)) => if trim(s).len() > 0 {
            Some(trim(s))
        } else {
            None
        },
        _ => None,
    }
}

/// A setting as an unsigned number: a non-negative JSON integer, or a
/// string that parses as one once trimmed.
pub open spec fn spec_setting_number(settings: Seq<(Seq<char>, JsonModel)>, key: Seq<char>) -> Option<
    u64,
> {
    match lookup(settings, key) {
        Some(JsonModel::Number(JsonNumber::PosInt(n))) => Some(n),
        Some(JsonModel::Number(JsonNumber::NegInt(i))) => if i >= 0 {
            Some(i as u64)
        } else {
            None
        },
        Some(JsonModel::Text(s)) => parse_u64(trim(s)),
        _ => None,
    }
}

/// A setting read as a flag: JSON `true`, or exactly the string `"true"`.
pub open spec fn spec_setting_bool(settings: Seq<(Seq<char>, JsonModel)>, key: Seq<char>) -> bool {
    match lookup(settings, key) {
        Some(JsonModel::Bool(b)) => b,
        Some(JsonModel::Text(s)) => s == "true"@,
        _ => false,
    }
}

/// Whether `s` equals the literal `lit`.
pub fn text_is(s: &String, lit: &str) -> (r: bool)
    ensures
        r == (s@ == lit@),
{
    *s == lit.to_owned()
}

/// A setting as a trimmed, non-empty string.
pub fn setting_str(settings: &Settings, key: &str) -> (r: Option<String>)
    ensures
        match r {
            Some(s) => spec_setting_str(settings@, key@) == Some(s@),
            None => spec_setting_str(settings@, key@) is None,
        },
{
    match settings.get(key) {
        Some(JsonValue::Text(s)) => {
            let t = trimmed(s.as_str());
            if t.as_str().is_empty() {
                None
            } else {
                Some(t)
            }
        },
        _ => None,
    }
}

/// A setting as an unsigned number (JSON number or numeric string).
pub fn setting_number(settings: &Settings, key: &str) -> (r: Option<u64>)
    ensures
        r == spec_setting_number(settings@, key@),
{
    match settings.get(key) {
        Some(JsonValue::Number(JsonNumber::PosInt(n))) => Some(*n),
        Some(JsonValue::Number(JsonNumber::NegInt(i))) => if *i >= 0 {
            Some(*i as u64)
        } else {
            None
        },
        Some(JsonValue::Text(s)) => {
            let t = trimmed(s.as_str());
            parse_u64_str(t.as_str())
        },
        _ => None,
    }
}

/// A setting read as a flag.
pub fn setting_bool(settings: &Settings, key: &str) -> (r: bool)
    ensures
        r == spec_setting_bool(settings@, key@),
{
    match settings.get(key) {
        Some(JsonValue::Bool(b)) => *b,
        Some(JsonValue::Text(s)) => text_is(s, "true"),
        _ => false,
    }
}

/// The bytes a panel id may keep as they are in a path segment: ASCII
/// letters and digits, `-`, `_`, `.` and `~`.
pub open spec fn is_unreserved(b: u8) -> bool {
    (65u8 <= b && b <= 90u8) || (97u8 <= b && b <= 122u8) || (48u8 <= b && b <= 57u8) || b == 45u8
        || b == 95u8 || b == 46u8 || b == 126u8
}

/// Percent-encoding of one byte: itself if unreserved, else `%XX` in
/// upper-case hex.
pub open spec fn encode_byte(b: u8) -> Seq<char> {
    if is_unreserved(b) {
        seq![(b as u32) as char]
    } else {
        seq!['%', hex_upper((b / 16) as nat), hex_upper((b % 16) as nat)]
    }
}

/// Percent-encoding of a byte string, byte by byte.
pub open spec fn encode_bytes(bytes: Seq<u8>) -> Seq<char>
    decreases bytes.len(),
{
    if bytes.len() == 0 {
        seq![]
    } else {
        encode_bytes(bytes.drop_last()) + encode_byte(bytes.last())
    }
}

/// Path-segment encoding of `s`: its UTF-8 bytes, percent-encoded.
pub open spec fn spec_encode_segment(s: Seq<char>) -> Seq<char> {
    encode_bytes(encode_utf8(s))
}

/// Minimal path-segment encoding: unreserved bytes pass, every other byte
/// of the UTF-8 encoding becomes `%XX`.
pub fn encode_segment(s: &str) -> (r: String)
    ensures
        r@ == spec_encode_segment(s@),
{
    let bytes = s.as_bytes();
    let mut out = String::new();
    let mut i: usize = 0;
    while i < bytes.len()
        invariant
            i <= bytes@.len(),
            bytes@ == encode_utf8(s@),
            out@ == encode_bytes(bytes@.take(i as int)),
        decreases bytes@.len() - i,
    {
        let b = bytes[i];
        let ghost before = out@;
        if (65u8 <= b && b <= 90u8) || (97u8 <= b && b <= 122u8) || (48u8 <= b && b <= 57u8) || b
            == 45u8 || b == 95u8 || b == 46u8 || b == 126u8 {
            push_char(&mut out, b as char);
        } else {
            push_char(&mut out, '%');
            push_char(&mut out, hex_digit(b / 16));
            push_char(&mut out, hex_digit(b % 16));
        }
        proof {
            assert(bytes@.take(i + 1).drop_last() =~= bytes@.take(i as int));
            assert(out@ =~= before + encode_byte(b));
        }
        i = i + 1;
    }
    assert(bytes@.take(i as int) =~= bytes@);
    out
}

/// A character that path-segment encoding keeps as it is.
pub open spec fn is_unreserved_char(c: char) -> bool {
    ('A' <= c && c <= 'Z') || ('a' <= c && c <= 'z') || ('0' <= c && c <= '9') || c == '-' || c
        == '_' || c == '.' || c == '~'
}

proof fn lemma_encode_safe_prefix(s: Seq<char>, b: Seq<u8>, k: int)
    requires
        0 <= k <= s.len(),
        b.len() == s.len(),
        forall|i: int| 0 <= i < s.len() ==> is_unreserved_char(#[trigger] s[i]),
        forall|i: int| 0 <= i < s.len() ==> #[trigger] b[i] == s[i] as u8,
    ensures
        encode_bytes(b.take(k)) == s.take(k),
    decreases k,
{
    if k > 0 {
        lemma_encode_safe_prefix(s, b, k - 1);
        assert(b.take(k).drop_last() =~= b.take(k - 1));
        let c = s[k - 1];
        assert(is_unreserved_char(c));
        assert(b.take(k).last() == c as u8);
        assert(((c as u8) as u32) as char == c);
        assert(s.take(k) =~= s.take(k - 1) + seq![c]);
    } else {
        assert(b.take(0) =~= Seq::<u8>::empty());
        assert(s.take(0) =~= Seq::<char>::empty());
    }
}

/// Panel ids that are already URL-safe (ASCII letters, digits, `-`, `_`,
/// `.`, `~`, such as `PFD_Captain`) pass through path-segment encoding
/// unchanged.
pub proof fn law_url_safe_ids_unchanged(s: Seq<char>)
    requires
        forall|i: int| 0 <= i < s.len() ==> is_unreserved_char(#[trigger] s[i]),
    ensures
        spec_encode_segment(s) == s,
{
    assert(vstd::utf8::is_ascii_chars(s));
    vstd::utf8::is_ascii_chars_encode_utf8(s);
    let b = encode_utf8(s);
    lemma_encode_safe_prefix(s, b, s.len() as int);
    assert(b.take(s.len() as int) =~= b);
    assert(s.take(s.len() as int) =~= s);
}

/// An upper-case hexadecimal digit.
pub open spec fn is_hex_upper_char(c: char) -> bool {
    ('0' <= c && c <= '9') || ('A' <= c && c <= 'F')
}

/// The value of a hexadecimal digit (either case); 0 for any other char.
pub open spec fn hex_value(c: char) -> nat {
    if '0' <= c && c <= '9' {
        ((c as u32) - ('0' as u32)) as nat
    } else if 'A' <= c && c <= 'F' {
        ((c as u32) - ('A' as u32) + 10) as nat
    } else if 'a' <= c && c <= 'f' {
        ((c as u32) - ('a' as u32) + 10) as nat
    } else {
        0
    }
}

/// Percent-decoding: `%XY` becomes the byte `0xXY`, any other character
/// the byte of its code.
pub open spec fn percent_decode(s: Seq<char>) -> Seq<u8>
    decreases s.len(),
{
    if s.len() == 0 {
        seq![]
    } else if s[0] == '%' && s.len() >= 3 {
        seq![(hex_value(s[1]) * 16 + hex_value(s[2])) as u8] + percent_decode(
            s.subrange(3, s.len() as int),
        )
    } else {
        seq![(s[0] as u32) as u8] + percent_decode(s.drop_first())
    }
}

proof fn lemma_encode_bytes_front(x: u8, rest: Seq<u8>)
    ensures
        encode_bytes(seq![x] + rest) == encode_byte(x) + encode_bytes(rest),
    decreases rest.len(),
{
    if rest.len() == 0 {
        assert(seq![x] + rest =~= seq![x]);
        assert(seq![x].drop_last() =~= Seq::<u8>::empty());
        assert(encode_bytes(seq![x]) == encode_bytes(Seq::<u8>::empty()) + encode_byte(x));
        assert(Seq::<char>::empty() + encode_byte(x) =~= encode_byte(x));
        assert(encode_byte(x) + encode_bytes(rest) =~= encode_byte(x));
    } else {
        lemma_encode_bytes_front(x, rest.drop_last());
        let whole = seq![x] + rest;
        assert(whole.drop_last() =~= seq![x] + rest.drop_last());
        assert(whole.last() == rest.last());
        assert(encode_bytes(whole) == encode_bytes(whole.drop_last()) + encode_byte(whole.last()));
        assert(encode_bytes(rest) == encode_bytes(rest.drop_last()) + encode_byte(rest.last()));
        assert(encode_byte(x) + encode_bytes(rest) =~= encode_byte(x) + encode_bytes(
            rest.drop_last(),
        ) + encode_byte(rest.last()));
    }
}

proof fn lemma_hex_roundtrip(d: nat)
    requires
        d < 16,
    ensures
        hex_value(hex_upper(d)) == d,
        is_hex_upper_char(hex_upper(d)),
{
}

/// Percent-decoding the encoding of a byte string gives the bytes back.
pub proof fn law_percent_decode_encode(b: Seq<u8>)
    ensures
        percent_decode(encode_bytes(b)) == b,
    decreases b.len(),
{
    if b.len() > 0 {
        let x = b[0];
        let rest = b.drop_first();
        assert(b =~= seq![x] + rest);
        lemma_encode_bytes_front(x, rest);
        law_percent_decode_encode(rest);
        let enc = encode_byte(x) + encode_bytes(rest);
        if is_unreserved(x) {
            assert(enc[0] == (x as u32) as char);
            assert(enc[0] != '%');
            assert(enc.drop_first() =~= encode_bytes(rest));
            assert(percent_decode(enc) =~= seq![x] + rest);
        } else {
            lemma_hex_roundtrip((x / 16) as nat);
            lemma_hex_roundtrip((x % 16) as nat);
            assert(enc[0] == '%');
            assert(enc.subrange(3, enc.len() as int) =~= encode_bytes(rest));
            assert(percent_decode(enc) =~= seq![x] + rest);
        }
    } else {
        assert(encode_bytes(b) =~= Seq::<char>::empty());
        assert(b =~= Seq::<u8>::empty());
    }
}

/// Percent-decoding an encoded segment, then reading the bytes as UTF-8,
/// gives back the original text.
pub proof fn law_segment_decodes_back(s: Seq<char>)
    ensures
        vstd::utf8::decode_utf8(percent_decode(spec_encode_segment(s))) == s,
{
    law_percent_decode_encode(encode_utf8(s));
    vstd::utf8::encode_utf8_decode_utf8(s);
}

/// An encoded segment holds only unreserved characters, `%` and upper-case
/// hex digits; in particular no space, `/`, `?` or `#`.
pub proof fn law_encoded_chars_are_safe(b: Seq<u8>)
    ensures
        forall|i: int|
            0 <= i < encode_bytes(b).len() ==> {
                let c = #[trigger] encode_bytes(b)[i];
                &&& is_unreserved_char(c) || c == '%' || is_hex_upper_char(c)
                &&& c != ' ' && c != '/' && c != '?' && c != '#'
            },
    decreases b.len(),
{
    if b.len() > 0 {
        law_encoded_chars_are_safe(b.drop_last());
        let x = b.last();
        let prev = encode_bytes(b.drop_last());
        lemma_hex_roundtrip((x / 16) as nat);
        lemma_hex_roundtrip((x % 16) as nat);
        assert forall|i: int| 0 <= i < encode_bytes(b).len() implies {
            let c = #[trigger] encode_bytes(b)[i];
            &&& is_unreserved_char(c) || c == '%' || is_hex_upper_char(c)
            &&& c != ' ' && c != '/' && c != '?' && c != '#'
        } by {
            if i < prev.len() {
                assert(encode_bytes(b)[i] == prev[i]);
            } else {
                assert(encode_bytes(b)[i] == encode_byte(x)[i - prev.len()]);
            }
        }
    }
}

proof fn lemma_encode_bytes_len(b: Seq<u8>)
    ensures
        encode_bytes(b).len() >= b.len(),
        encode_bytes(b).len() == b.len() ==> forall|i: int| 0 <= i < b.len() ==> is_unreserved(#[trigger] b[i]),
    decreases b.len(),
{
    if b.len() > 0 {
        lemma_encode_bytes_len(b.drop_last());
        assert forall|i: int| 0 <= i < b.len() && encode_bytes(b).len() == b.len() implies is_unreserved(
            #[trigger] b[i],
        ) by {
            if i < b.len() - 1 {
                assert(b[i] == b.drop_last()[i]);
            }
        }
    }
}

proof fn lemma_encode_utf8_len(s: Seq<char>)
    ensures
        encode_utf8(s).len() >= s.len(),
    decreases s.len(),
{
    if s.len() > 0 {
        lemma_encode_utf8_len(s.drop_first());
    }
}

proof fn lemma_unreserved_byte_char(x: u8)
    requires
        is_unreserved(x),
    ensures
        is_unreserved_char((x as u32) as char),
{
}

proof fn lemma_encode_unreserved_bytes(b: Seq<u8>)
    requires
        forall|i: int| 0 <= i < b.len() ==> is_unreserved(#[trigger] b[i]),
    ensures
        encode_bytes(b).len() == b.len(),
        forall|i: int| 0 <= i < b.len() ==> #[trigger] encode_bytes(b)[i] == (b[i] as u32) as char,
    decreases b.len(),
{
    if b.len() > 0 {
        assert forall|i: int| 0 <= i < b.len() - 1 implies is_unreserved(#[trigger] b.drop_last()[i]) by {
            assert(b.drop_last()[i] == b[i]);
        }
        lemma_encode_unreserved_bytes(b.drop_last());
        assert(is_unreserved(b[b.len() - 1]));
        assert forall|i: int| 0 <= i < b.len() implies #[trigger] encode_bytes(b)[i] == (b[i] as u32) as char by {
            if i < b.len() - 1 {
                assert(b.drop_last()[i] == b[i]);
            }
        }
    }
}

/// Encoding leaves a panel id unchanged exactly when every character is an
/// unreserved one (ASCII letter, digit, `-`, `_`, `.`, `~`).
pub proof fn law_unchanged_iff_url_safe(s: Seq<char>)
    ensures
        spec_encode_segment(s) == s <==> forall|i: int| 0 <= i < s.len() ==> is_unreserved_char(#[trigger] s[i]),
{
    if forall|i: int| 0 <= i < s.len() ==> is_unreserved_char(#[trigger] s[i]) {
        law_url_safe_ids_unchanged(s);
    }
    if spec_encode_segment(s) == s {
        let b = encode_utf8(s);
        lemma_encode_bytes_len(b);
        lemma_encode_utf8_len(s);
        assert(b.len() == s.len());
        lemma_encode_unreserved_bytes(b);
        assert forall|i: int| 0 <= i < s.len() implies is_unreserved_char(#[trigger] s[i]) by {
            assert(is_unreserved(b[i]));
            assert(encode_bytes(b)[i] == s[i]);
            lemma_unreserved_byte_char(b[i]);
        }
    }
}

/// `items` joined by `sep`.
pub open spec fn join(items: Seq<Seq<char>>, sep: Seq<char>) -> Seq<char>
    decreases items.len(),
{
    if items.len() == 0 {
        seq![]
    } else if items.len() == 1 {
        items[0]
    } else {
        join(items.drop_last(), sep) + sep + items.last()
    }
}

/// The query parameters of a panel URL, in order: `fps`, `fit` (omitted
/// when it is the engine default `contain`), `debug`.
pub open spec fn query_items(settings: Seq<(Seq<char>, JsonModel)>) -> Seq<Seq<char>> {
    let fps: Seq<Seq<char>> = match spec_setting_number(settings, "targetFps"@) {
        Some(n) => seq!["fps="@ + decimal(n as nat)],
        None => seq![],
    };
    let fit: Seq<Seq<char>> = match spec_setting_str(settings, "fit"@) {
        Some(f) => if f != "contain"@ {
            seq!["fit="@ + f]
        } else {
            seq![]
        },
        None => seq![],
    };
    let debug: Seq<Seq<char>> = if spec_setting_bool(settings, "debug"@) {
        seq!["debug=1"@]
    } else {
        seq![]
    };
    fps + fit + debug
}

/// `?` followed by the parameters joined by `&`, or nothing when there are
/// none.
pub open spec fn query_suffix(items: Seq<Seq<char>>) -> Seq<char> {
    if items.len() == 0 {
        seq![]
    } else {
        "?"@ + join(items, "&"@)
    }
}

/// The viewer URL for a screen's settings: `None` when the engine URL is
/// missing, or when neither a viewer path nor a panel id is set.
pub open spec fn spec_view_url(settings: Seq<(Seq<char>, JsonModel)>) -> Option<Seq<char>> {
    match spec_setting_str(settings, "engineUrl"@) {
        None => None,
        Some(engine) => {
            let base = trim_end_char(engine, '/');
            match spec_setting_str(settings, "path"@) {
                Some(path) => Some(
                    base + (if path[0] == '/' {
                        seq![]
                    } else {
                        seq!['/']
                    }) + path,
                ),
                None => match spec_setting_str(settings, "panelId"@) {
                    None => None,
                    Some(panel) => Some(
                        base + "/panel/"@ + spec_encode_segment(panel) + query_suffix(
                            query_items(settings),
                        ),
                    ),
                },
            }
        },
    }
}

/// A viewer URL, when there is one, is on the configured engine: it starts
/// with the engine URL (trimmed, without trailing slashes) followed by `/`.
pub proof fn law_url_on_engine(settings: Seq<(Seq<char>, JsonModel)>)
    requires
        spec_view_url(settings) is Some,
    ensures
        ({
            let base = trim_end_char(spec_setting_str(settings, "engineUrl"@)->0, '/');
            let url = spec_view_url(settings)->0;
            &&& url.len() > base.len()
            &&& url.subrange(0, base.len() as int) == base
            &&& url[base.len() as int] == '/'
        }),
{
    let base = trim_end_char(spec_setting_str(settings, "engineUrl"@)->0, '/');
    let url = spec_view_url(settings)->0;
    match spec_setting_str(settings, "path"@) {
        Some(path) => {
            assert(url.subrange(0, base.len() as int) =~= base);
        },
        None => {
            let panel = spec_setting_str(settings, "panelId"@)->0;
            reveal_strlit("/panel/");
            assert(url == base + ("/panel/"@ + spec_encode_segment(panel) + query_suffix(
                query_items(settings),
            )));
            assert(url.subrange(0, base.len() as int) =~= base);
        },
    }
}

/// `entries` without any entry under `key`.
pub open spec fn without_key(entries: Seq<(Seq<char>, JsonModel)>, key: Seq<char>) -> Seq<
    (Seq<char>, JsonModel),
>
    decreases entries.len(),
{
    if entries.len() == 0 {
        seq![]
    } else if entries[0].0 == key {
        without_key(entries.drop_first(), key)
    } else {
        seq![entries[0]] + without_key(entries.drop_first(), key)
    }
}

/// Taking out `key` hides it and leaves every other key's value alone.
pub proof fn lemma_lookup_without(entries: Seq<(Seq<char>, JsonModel)>, key: Seq<char>, k: Seq<char>)
    ensures
        lookup(without_key(entries, key), k) == (if k == key {
            None
        } else {
            lookup(entries, k)
        }),
    decreases entries.len(),
{
    if entries.len() > 0 {
        lemma_lookup_without(entries.drop_first(), key, k);
        if entries[0].0 != key {
            let rest = without_key(entries.drop_first(), key);
            assert((seq![entries[0]] + rest).drop_first() =~= rest);
        }
    }
}

/// Whether the `debug` setting turns the latency overlay on: JSON `true`,
/// or exactly the string `"true"`.
pub open spec fn debug_requested(settings: Seq<(Seq<char>, JsonModel)>) -> bool {
    match lookup(settings, "debug"@) {
        Some(JsonModel::Bool(true)) => true,
        Some(JsonModel::Text(t)) => t == "true"@,
        _ => false,
    }
}

/// `items` with one more item, joined: the old join, the separator, the item.
pub proof fn lemma_join_push(items: Seq<Seq<char>>, sep: Seq<char>, x: Seq<char>)
    requires
        items.len() > 0,
    ensures
        join(items.push(x), sep) == join(items, sep) + sep + x,
{
    assert(items.push(x).drop_last() =~= items);
}

/// Taking `key` out of the settings leaves every setting the viewer URL
/// reads under another key as it was.
proof fn lemma_other_keys_kept(settings: Seq<(Seq<char>, JsonModel)>, key: Seq<char>)
    ensures
        key != "engineUrl"@ ==> lookup(without_key(settings, key), "engineUrl"@) == lookup(settings, "engineUrl"@),
        key != "path"@ ==> lookup(without_key(settings, key), "path"@) == lookup(settings, "path"@),
        key != "panelId"@ ==> lookup(without_key(settings, key), "panelId"@) == lookup(settings, "panelId"@),
        key != "targetFps"@ ==> lookup(without_key(settings, key), "targetFps"@) == lookup(settings, "targetFps"@),
        key != "fit"@ ==> lookup(without_key(settings, key), "fit"@) == lookup(settings, "fit"@),
        key != "debug"@ ==> lookup(without_key(settings, key), "debug"@) == lookup(settings, "debug"@),
        lookup(without_key(settings, key), key) is None,
{
    lemma_lookup_without(settings, key, "engineUrl"@);
    lemma_lookup_without(settings, key, "path"@);
    lemma_lookup_without(settings, key, "panelId"@);
    lemma_lookup_without(settings, key, "targetFps"@);
    lemma_lookup_without(settings, key, "fit"@);
    lemma_lookup_without(settings, key, "debug"@);
    lemma_lookup_without(settings, key, key);
}

/// The `debug` setting only ever adds `debug=1` to a panel URL. Unless it is
/// JSON `true` or the string `"true"` (for instance `false`), the URL is the
/// one built with no `debug` setting at all. When it is, the panel URL is
/// that one followed by `?debug=1` or `&debug=1`.
pub proof fn law_debug_only_when_requested(settings: Seq<(Seq<char>, JsonModel)>)
    ensures
        !debug_requested(settings) ==> spec_view_url(settings) == spec_view_url(
            without_key(settings, "debug"@),
        ),
        debug_requested(settings) && lookup(settings, "path"@) is None && spec_view_url(settings) is Some
            ==> ({
            let u = spec_view_url(settings)->0;
            let p = spec_view_url(without_key(settings, "debug"@))->0;
            &&& spec_view_url(without_key(settings, "debug"@)) is Some
            &&& u.len() == p.len() + 8
            &&& u.subrange(0, p.len() as int) == p
            &&& (u[p.len() as int] == '?' || u[p.len() as int] == '&')
            &&& u.subrange(p.len() as int + 1, u.len() as int) == "debug=1"@
        }),
{
    let plain = without_key(settings, "debug"@);
    reveal_strlit("debug");
    reveal_strlit("engineUrl");
    reveal_strlit("path");
    reveal_strlit("panelId");
    reveal_strlit("targetFps");
    reveal_strlit("fit");
    assert("engineUrl"@.len() != "debug"@.len());
    assert("path"@.len() != "debug"@.len());
    assert("panelId"@.len() != "debug"@.len());
    assert("targetFps"@.len() != "debug"@.len());
    assert("fit"@.len() != "debug"@.len());
    lemma_other_keys_kept(settings, "debug"@);
    assert(spec_setting_str(plain, "engineUrl"@) == spec_setting_str(settings, "engineUrl"@));
    assert(spec_setting_str(plain, "path"@) == spec_setting_str(settings, "path"@));
    assert(spec_setting_str(plain, "panelId"@) == spec_setting_str(settings, "panelId"@));
    assert(spec_setting_str(plain, "fit"@) == spec_setting_str(settings, "fit"@));
    assert(spec_setting_number(plain, "targetFps"@) == spec_setting_number(settings, "targetFps"@));
    assert(!spec_setting_bool(plain, "debug"@));
    assert(spec_setting_bool(settings, "debug"@) == debug_requested(settings));
    let qp = query_items(plain);
    if !debug_requested(settings) {
        assert(query_items(settings) =~= qp);
    } else {
        assert(query_items(settings) =~= qp.push("debug=1"@));
        if lookup(settings, "path"@) is None && spec_view_url(settings) is Some {
            reveal_strlit("debug=1");
            reveal_strlit("?");
            reveal_strlit("&");
            let engine = spec_setting_str(settings, "engineUrl"@)->0;
            let panel = spec_setting_str(settings, "panelId"@)->0;
            let pre = trim_end_char(engine, '/') + "/panel/"@ + spec_encode_segment(panel);
            let u = spec_view_url(settings)->0;
            let p = spec_view_url(plain)->0;
            assert(p == pre + query_suffix(qp));
            assert(u == pre + query_suffix(qp.push("debug=1"@)));
            if qp.len() == 0 {
                assert(join(qp.push("debug=1"@), "&"@) == "debug=1"@);
                assert(u =~= p + "?"@ + "debug=1"@);
            } else {
                lemma_join_push(qp, "&"@, "debug=1"@);
                assert(u =~= p + "&"@ + "debug=1"@);
            }
            assert(u.subrange(0, p.len() as int) =~= p);
            assert(u.subrange(p.len() as int + 1, u.len() as int) =~= "debug=1"@);
        }
    }
}

/// The engine's default fit is not spelled out: a `fit` setting of
/// `contain` (or blank, or not a string) gives the URL built with no `fit`
/// setting at all.
pub proof fn law_default_fit_left_out(settings: Seq<(Seq<char>, JsonModel)>)
    requires
        match lookup(settings, "fit"@) {
            Some(JsonModel::Text(f)) => trim(f) == "contain"@ || trim(f).len() == 0,
            _ => true,
        },
    ensures
        spec_view_url(settings) == spec_view_url(without_key(settings, "fit"@)),
{
    let plain = without_key(settings, "fit"@);
    reveal_strlit("debug");
    reveal_strlit("engineUrl");
    reveal_strlit("path");
    reveal_strlit("panelId");
    reveal_strlit("targetFps");
    reveal_strlit("fit");
    assert("engineUrl"@.len() != "fit"@.len());
    assert("path"@.len() != "fit"@.len());
    assert("panelId"@.len() != "fit"@.len());
    assert("targetFps"@.len() != "fit"@.len());
    assert("debug"@.len() != "fit"@.len());
    lemma_other_keys_kept(settings, "fit"@);
    assert(spec_setting_str(plain, "engineUrl"@) == spec_setting_str(settings, "engineUrl"@));
    assert(spec_setting_str(plain, "path"@) == spec_setting_str(settings, "path"@));
    assert(spec_setting_str(plain, "panelId"@) == spec_setting_str(settings, "panelId"@));
    assert(spec_setting_number(plain, "targetFps"@) == spec_setting_number(settings, "targetFps"@));
    assert(spec_setting_bool(plain, "debug"@) == spec_setting_bool(settings, "debug"@));
    assert(spec_setting_str(plain, "fit"@) is None);
    assert(query_items(settings) =~= query_items(plain));
}

/// A viewer path overrides the panel: when `path` is set, the URL does not
/// depend on the panel id, frame rate, fit or debug settings.
pub proof fn law_path_overrides_panel(settings: Seq<(Seq<char>, JsonModel)>)
    requires
        spec_setting_str(settings, "path"@) is Some,
    ensures
        spec_view_url(settings) == spec_view_url(
            without_key(
                without_key(without_key(without_key(settings, "panelId"@), "targetFps"@), "fit"@),
                "debug"@,
            ),
        ),
{
    reveal_strlit("debug");
    reveal_strlit("engineUrl");
    reveal_strlit("path");
    reveal_strlit("panelId");
    reveal_strlit("targetFps");
    reveal_strlit("fit");
    let s1 = without_key(settings, "panelId"@);
    let s2 = without_key(s1, "targetFps"@);
    let s3 = without_key(s2, "fit"@);
    let s4 = without_key(s3, "debug"@);
    assert("engineUrl"@.len() != "panelId"@.len() && "path"@.len() != "panelId"@.len());
    assert("path"@.len() != "targetFps"@.len());
    assert("engineUrl"@.len() != "fit"@.len() && "path"@.len() != "fit"@.len());
    assert("engineUrl"@.len() != "debug"@.len() && "path"@.len() != "debug"@.len());
    assert("engineUrl"@[0] != "targetFps"@[0]);
    assert("engineUrl"@ != "targetFps"@);
    lemma_other_keys_kept(settings, "panelId"@);
    lemma_other_keys_kept(s1, "targetFps"@);
    lemma_other_keys_kept(s2, "fit"@);
    lemma_other_keys_kept(s3, "debug"@);
    assert(lookup(s4, "engineUrl"@) == lookup(settings, "engineUrl"@));
    assert(lookup(s4, "path"@) == lookup(settings, "path"@));
}

/// Joining a list that starts with `a`: `a`, then the separator and the
/// rest when there is a rest.
pub proof fn lemma_join_first(a: Seq<char>, rest: Seq<Seq<char>>, sep: Seq<char>)
    ensures
        join(seq![a] + rest, sep) == (if rest.len() == 0 {
            a
        } else {
            a + sep + join(rest, sep)
        }),
    decreases rest.len(),
{
    let all = seq![a] + rest;
    if rest.len() == 0 {
        assert(all.len() == 1 && all[0] == a);
    } else if rest.len() == 1 {
        assert(all.drop_last() =~= seq![a]);
        assert(join(seq![a], sep) == a);
        assert(all.last() == rest[0]);
        assert(join(rest, sep) == rest[0]);
    } else {
        lemma_join_first(a, rest.drop_last(), sep);
        assert(all.drop_last() =~= seq![a] + rest.drop_last());
        assert(all.last() == rest.last());
        assert(join(rest, sep) == join(rest.drop_last(), sep) + sep + rest.last());
        assert(join(all, sep) =~= a + sep + join(rest, sep));
    }
}

/// The frame rate a panel URL asks for is the screen's `targetFps`: when it
/// reads as a number `n`, the URL goes on right after the panel with
/// `?fps=` and digits that read back as `n`, then either ends or goes on
/// with `&`.
pub proof fn law_fps_parameter(settings: Seq<(Seq<char>, JsonModel)>, n: u64)
    requires
        spec_setting_str(settings, "path"@) is None,
        spec_view_url(settings) is Some,
        match lookup(settings, "targetFps"@) {
            Some(JsonModel::Number(JsonNumber::PosInt(m))) => m == n,
            Some(JsonModel::Text(t)) => parse_u64(trim(t)) == Some(n),
            _ => false,
        },
    ensures
        ({
            let url = spec_view_url(settings)->0;
            let pre = trim_end_char(spec_setting_str(settings, "engineUrl"@)->0, '/') + "/panel/"@
                + spec_encode_segment(spec_setting_str(settings, "panelId"@)->0);
            exists|digits: Seq<char>, rest: Seq<char>|
                {
                    &&& url == pre + "?fps="@ + digits + rest
                    &&& parse_u64(digits) == Some(n)
                    &&& (rest.len() == 0 || rest[0] == '&')
                }
        }),
{
    reveal_strlit("fps=");
    reveal_strlit("?fps=");
    reveal_strlit("?");
    reveal_strlit("&");
    let url = spec_view_url(settings)->0;
    let pre = trim_end_char(spec_setting_str(settings, "engineUrl"@)->0, '/') + "/panel/"@
        + spec_encode_segment(spec_setting_str(settings, "panelId"@)->0);
    let items = query_items(settings);
    let digits = decimal(n as nat);
    lemma_parse_decimal(n);
    assert(spec_setting_number(settings, "targetFps"@) == Some(n));
    let others = items.drop_first();
    assert(items =~= seq!["fps="@ + digits] + others);
    lemma_join_first("fps="@ + digits, others, "&"@);
    let rest = if others.len() == 0 {
        Seq::<char>::empty()
    } else {
        "&"@ + join(others, "&"@)
    };
    assert(url == pre + query_suffix(items));
    assert(url =~= pre + "?fps="@ + digits + rest);
}

/// `items` joined by `sep`, as a `String`.
pub fn join_strings(items: &Vec<String>, sep: &str) -> (r: String)
    ensures
        r@ == join(items@.map_values(|s: String| s@), sep@),
{
    let ghost views = items@.map_values(|s: String| s@);
    let mut out = String::new();
    let mut i: usize = 0;
    while i < items.len()
        invariant
            i <= items@.len(),
            views == items@.map_values(|s: String| s@),
            out@ == join(views.take(i as int), sep@),
        decreases items@.len() - i,
    {
        if i > 0 {
            push_str(&mut out, sep);
        }
        push_str(&mut out, items[i].as_str());
        proof {
            assert(views.take(i + 1).drop_last() =~= views.take(i as int));
            if i == 0 {
                assert(views.take(0) =~= Seq::<Seq<char>>::empty());
            }
        }
        i = i + 1;
    }
    assert(views.take(i as int) =~= views);
    out
}

/// Builds the glassout viewer URL a screen should navigate to from its
/// settings (`engineUrl`, `panelId`, `fit`, `targetFps`, `debug`, `path`);
/// `None` when they are incomplete.
pub fn build_view_url(settings: &Settings) -> (r: Option<String>)
    ensures
        match r {
            Some(u) => spec_view_url(settings@) == Some(u@),
            None => spec_view_url(settings@) is None,
        },
{
    let engine = match setting_str(settings, "engineUrl") {
        Some(e) => e,
        None => return None,
    };
    let base = trimmed_end_char(engine.as_str(), '/');
    if let Some(path) = setting_str(settings, "path") {
        let pv = chars_of(path.as_str());
        let mut url = base;
        if pv[0] != '/' {
            push_char(&mut url, '/');
        }
        push_str(&mut url, path.as_str());
        proof {
            if pv@[0] != '/' {
                assert(url@ =~= trim_end_char(engine@, '/') + seq!['/'] + path@);
            } else {
                assert(url@ =~= trim_end_char(engine@, '/') + Seq::<char>::empty() + path@);
            }
        }
        return Some(url);
    }
    let panel = match setting_str(settings, "panelId") {
        Some(p) => p,
        None => return None,
    };
    let panel_enc = encode_segment(panel.as_str());
    let mut query: Vec<String> = Vec::new();
    let ghost fps_items: Seq<Seq<char>>;
    if let Some(fps) = setting_number(settings, "targetFps") {
        let mut item = String::new();
        push_str(&mut item, "fps=");
        push_decimal(&mut item, fps);
        query.push(item);
        proof {
            fps_items = seq!["fps="@ + decimal(fps as nat)];
        }
    } else {
        proof {
            fps_items = seq![];
        }
    }
    let ghost fit_items: Seq<Seq<char>>;
    if let Some(fit) = setting_str(settings, "fit") {
        if !text_is(&fit, "contain") {
            let mut item = String::new();
            push_str(&mut item, "fit=");
            push_str(&mut item, fit.as_str());
            query.push(item);
            proof {
                fit_items = seq!["fit="@ + fit@];
            }
        } else {
            proof {
                fit_items = seq![];
            }
        }
    } else {
        proof {
            fit_items = seq![];
        }
    }
    let ghost debug_items: Seq<Seq<char>>;
    if setting_bool(settings, "debug") {
        let mut item = String::new();
        push_str(&mut item, "debug=1");
        query.push(item);
        proof {
            debug_items = seq!["debug=1"@];
        }
    } else {
        proof {
            debug_items = seq![];
        }
    }
    assert(query@.map_values(|s: String| s@) =~= fps_items + fit_items + debug_items);
    let mut url = base;
    push_str(&mut url, "/panel/");
    push_str(&mut url, panel_enc.as_str());
    if query.len() > 0 {
        push_char(&mut url, '?');
        let joined = join_strings(&query, "&");
        push_str(&mut url, joined.as_str());
    }
    proof {
        let items = query_items(settings@);
        assert(items == fps_items + fit_items + debug_items);
        if query.len() > 0 {
            reveal_strlit("?");
            assert(url@ =~= trim_end_char(engine@, '/') + "/panel/"@ + spec_encode_segment(panel@)
                + ("?"@ + join(items, "&"@)));
        } else {
            assert(url@ =~= trim_end_char(engine@, '/') + "/panel/"@ + spec_encode_segment(panel@)
                + Seq::<char>::empty());
        }
    }
    Some(url)
}

} // verus!

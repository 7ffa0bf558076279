//! The JSON wire payload exchanged with the vault tool: camelCase fields,
//! in the order the tool's own model declares them.
//!
//! The writer is specified character by character, so a payload's exact text
//! is pinned by the item it encodes.

use vstd::prelude::*;

use crate::model::{
    opt_view, CreateRequest, CreateRequestView, LoginRecord, LoginRecordView, UriMatch,
    UriMatchView, VaultItem, VaultItemView,
};

verus! {

use vstd::string::StrSliceExecFns;
use vstd::string::StringExecFns;

/// The character for one value below sixteen, as decimal or lower-case hex.
pub open spec fn nibble_char(d: nat) -> char {
    if d == 0 {
        '0'
    } else if d == 1 {
        '1'
    } else if d == 2 {
        '2'
    } else if d == 3 {
        '3'
    } else if d == 4 {
        '4'
    } else if d == 5 {
        '5'
    } else if d == 6 {
        '6'
    } else if d == 7 {
        '7'
    } else if d == 8 {
        '8'
    } else if d == 9 {
        '9'
    } else if d == 10 {
        'a'
    } else if d == 11 {
        'b'
    } else if d == 12 {
        'c'
    } else if d == 13 {
        'd'
    } else if d == 14 {
        'e'
    } else {
        'f'
    }
}

/// The decimal digits of a number, most significant first.
pub open spec fn spec_digits(n: nat) -> Seq<char>
    decreases n,
{
    if n < 10 {
        seq![nibble_char(n)]
    } else {
        spec_digits(n / 10) + seq![nibble_char(n % 10)]
    }
}

/// How one character stands inside a JSON string literal: quote, backslash
/// and the common control characters by their short escapes, other control
/// characters by a four-digit escape, everything else by itself.
pub open spec fn escape_char(c: char) -> Seq<char> {
    if c == '"' {
        seq!['\\', '"']
    } else if c == '\\' {
        seq!['\\', '\\']
    } else if c == '\n' {
        seq!['\\', 'n']
    } else if c == '\r' {
        seq!['\\', 'r']
    } else if c == '\t' {
        seq!['\\', 't']
    } else if (c as u32) < 32 {
        seq![
            '\\',
            'u',
            '0',
            '0',
            nibble_char(((c as u32) / 16) as nat),
            nibble_char(((c as u32) % 16) as nat),
        ]
    } else {
        seq![c]
    }
}

/// A text with each character escaped for a JSON string literal.
pub open spec fn escape_string(s: Seq<char>) -> Seq<char>
    decreases s.len(),
{
    if s.len() == 0 {
        Seq::empty()
    } else {
        escape_string(s.drop_last()) + escape_char(s.last())
    }
}

/// A JSON string literal.
pub open spec fn json_string(s: Seq<char>) -> Seq<char> {
    seq!['"'] + escape_string(s) + seq!['"']
}

/// A JSON number for an unsigned value.
pub open spec fn json_u32(n: u32) -> Seq<char> {
    spec_digits(n as nat)
}

/// A JSON number or `null`.
pub open spec fn json_opt_u32(o: Option<u32>) -> Seq<char> {
    match o {
        Some(n) => json_u32(n),
        None => "null"@,
    }
}

/// A JSON string literal or `null`.
pub open spec fn json_opt_string(o: Option<Seq<char>>) -> Seq<char> {
    match o {
        Some(s) => json_string(s),
        None => "null"@,
    }
}

/// One URI object: `{"match":..,"uri":".."}`.
pub open spec fn json_uri(u: UriMatchView) -> Seq<char> {
    "{\"match\":"@ + json_opt_u32(u.match_rule) + ",\"uri\":"@ + json_string(u.uri) + "}"@
}

/// The comma-joined elements of the URI array.
pub open spec fn json_uris_body(us: Seq<UriMatchView>) -> Seq<char>
    decreases us.len(),
{
    if us.len() == 0 {
        Seq::empty()
    } else if us.len() == 1 {
        json_uri(us[0])
    } else {
        json_uris_body(us.drop_last()) + ","@ + json_uri(us.last())
    }
}

/// One login object: `{"username":..,"password":"..","uris":[..]}`.
pub open spec fn json_login(l: LoginRecordView) -> Seq<char> {
    "{\"username\":"@ + json_opt_string(l.username) + ",\"password\":"@ + json_string(l.password)
        + ",\"uris\":["@ + json_uris_body(l.uris) + "]}"@
}

/// One listed item: `{"id":"..","type":..,"name":"..","login":{..}}`.
pub open spec fn json_item(v: VaultItemView) -> Seq<char> {
    "{\"id\":"@ + json_string(v.id) + ",\"type\":"@ + json_u32(v.kind) + ",\"name\":"@
        + json_string(v.name) + ",\"login\":"@ + json_login(v.login) + "}"@
}

/// One create request: `{"name":"..","login":{..},"type":..}`.
pub open spec fn json_create_request(c: CreateRequestView) -> Seq<char> {
    "{\"name\":"@ + json_string(c.name) + ",\"login\":"@ + json_login(c.login) + ",\"type\":"@
        + json_u32(c.kind) + "}"@
}

/// The value of one decimal or lower-case hex digit character.
pub open spec fn nibble_val(c: char) -> Option<nat> {
    if c == '0' {
        Some(0 as nat)
    } else if c == '1' {
        Some(1 as nat)
    } else if c == '2' {
        Some(2 as nat)
    } else if c == '3' {
        Some(3 as nat)
    } else if c == '4' {
        Some(4 as nat)
    } else if c == '5' {
        Some(5 as nat)
    } else if c == '6' {
        Some(6 as nat)
    } else if c == '7' {
        Some(7 as nat)
    } else if c == '8' {
        Some(8 as nat)
    } else if c == '9' {
        Some(9 as nat)
    } else if c == 'a' {
        Some(10 as nat)
    } else if c == 'b' {
        Some(11 as nat)
    } else if c == 'c' {
        Some(12 as nat)
    } else if c == 'd' {
        Some(13 as nat)
    } else if c == 'e' {
        Some(14 as nat)
    } else if c == 'f' {
        Some(15 as nat)
    } else {
        None
    }
}

/// The numeric code of a character.
pub open spec fn char_code(c: char) -> u32 {
    c as u32
}

/// Prepends a character to a decoded tail, when there is one.
pub open spec fn cons_char(c: char, rest: Option<Seq<char>>) -> Option<Seq<char>> {
    match rest {
        Some(t) => Some(seq![c] + t),
        None => None,
    }
}

/// Undoes [`escape_string`]: reads a JSON string literal's body back into
/// its characters, refusing a stray quote or an escape this library never
/// writes.
pub open spec fn unescape_string(s: Seq<char>) -> Option<Seq<char>>
    decreases s.len(),
{
    if s.len() == 0 {
        Some(Seq::empty())
    } else if s[0] == '\\' {
        if s.len() < 2 {
            None
        } else if s[1] == '"' {
            cons_char('"', unescape_string(s.skip(2)))
        } else if s[1] == '\\' {
            cons_char('\\', unescape_string(s.skip(2)))
        } else if s[1] == 'n' {
            cons_char('\n', unescape_string(s.skip(2)))
        } else if s[1] == 'r' {
            cons_char('\r', unescape_string(s.skip(2)))
        } else if s[1] == 't' {
            cons_char('\t', unescape_string(s.skip(2)))
        } else if s[1] == 'u' {
            if s.len() >= 6 && s[2] == '0' && s[3] == '0' && nibble_val(s[4]) is Some
                && nibble_val(s[5]) is Some {
                let v = nibble_val(s[4]).unwrap() * 16 + nibble_val(s[5]).unwrap();
                if exists|c: char| char_code(c) == v {
                    cons_char(choose|c: char| char_code(c) == v, unescape_string(s.skip(6)))
                } else {
                    None
                }
            } else {
                None
            }
        } else {
            None
        }
    } else if s[0] == '"' {
        None
    } else {
        cons_char(s[0], unescape_string(s.skip(1)))
    }
}

/// [`escape_string`] also peels from the front.
proof fn lemma_escape_front(s: Seq<char>)
    requires
        s.len() > 0,
    ensures
        escape_string(s) == escape_char(s[0]) + escape_string(s.drop_first()),
    decreases s.len(),
{
    if s.len() == 1 {
        assert(s.drop_last() =~= Seq::<char>::empty());
        assert(s.drop_first() =~= Seq::<char>::empty());
        assert(escape_string(s) =~= escape_char(s[0]) + escape_string(s.drop_first()));
    } else {
        lemma_escape_front(s.drop_last());
        assert(s.drop_last().drop_first() =~= s.drop_first().drop_last());
        assert(s.drop_first().last() == s.last());
        assert(escape_string(s) =~= escape_char(s[0]) + escape_string(s.drop_first()));
    }
}

/// A digit character reads back as its value.
proof fn lemma_nibble_round_trip(d: nat)
    requires
        d < 16,
    ensures
        nibble_val(nibble_char(d)) == Some(d),
{
}

/// Escaping loses nothing: reading an escaped text back yields exactly the
/// original characters. With [`lemma_json_string_round_trip`] this is the
/// string layer of the wire round trip.
pub proof fn lemma_escape_round_trip(s: Seq<char>)
    ensures
        unescape_string(escape_string(s)) == Some(s),
    decreases s.len(),
{
    if s.len() == 0 {
        assert(escape_string(s).len() == 0);
    } else {
        let c = s[0];
        let rest = s.drop_first();
        lemma_escape_front(s);
        lemma_escape_round_trip(rest);
        let t = escape_string(s);
        let e = escape_char(c);
        assert(t.skip(e.len() as int) =~= escape_string(rest));
        if c == '"' || c == '\\' || c == '\n' || c == '\r' || c == '\t' {
            assert(unescape_string(t) == cons_char(c, unescape_string(t.skip(2))));
            assert(seq![c] + rest =~= s);
        } else if (c as u32) < 32 {
            let code = c as u32;
            let hi = (code / 16) as nat;
            let lo = (code % 16) as nat;
            lemma_nibble_round_trip(hi);
            lemma_nibble_round_trip(lo);
            assert(hi * 16 + lo == code);
            assert(escape_char(c) =~= seq![
                '\\',
                'u',
                '0',
                '0',
                nibble_char(hi),
                nibble_char(lo),
            ]);
            assert(t[4] == nibble_char(hi));
            assert(t[5] == nibble_char(lo));
            let v = nibble_val(t[4]).unwrap() * 16 + nibble_val(t[5]).unwrap();
            assert(v == hi * 16 + lo);
            assert(char_code(c) == v);
            let picked = choose|w: char| char_code(w) == v;
            assert(char_code(picked) == v);
            vstd::utf8::char_u32_cast(picked, picked as u32);
            vstd::utf8::char_u32_cast(c, c as u32);
            assert(picked == c);
            assert(unescape_string(t) == cons_char(c, unescape_string(t.skip(6))));
            assert(seq![c] + rest =~= s);
        } else {
            assert(t[0] == c && c != '\\' && c != '"');
            assert(t.skip(1) =~= escape_string(rest));
            assert(unescape_string(t) == cons_char(c, unescape_string(t.skip(1))));
            assert(seq![c] + rest =~= s);
        }
    }
}

/// Reading the body of a written JSON string literal — the text between its
/// quotes — yields exactly the characters that were encoded.
pub proof fn lemma_json_string_round_trip(s: Seq<char>)
    ensures
        json_string(s).len() >= 2,
        json_string(s)[0] == '"',
        json_string(s).last() == '"',
        unescape_string(json_string(s).subrange(1, json_string(s).len() - 1)) == Some(s),
{
    assert(json_string(s).subrange(1, json_string(s).len() - 1) =~= escape_string(s));
    lemma_escape_round_trip(s);
}

/// Whether a text is one or more decimal digits.
pub open spec fn all_decimal_digits(s: Seq<char>) -> bool {
    &&& s.len() > 0
    &&& forall|k: int|
        0 <= k < s.len() ==> ((#[trigger] nibble_val(s[k])) matches Some(d) && d < 10)
}

/// The number a decimal digit text stands for.
pub open spec fn digits_val(s: Seq<char>) -> nat
    decreases s.len(),
{
    if s.len() == 0 {
        0
    } else {
        digits_val(s.drop_last()) * 10 + match nibble_val(s.last()) {
            Some(d) => d,
            None => 0,
        }
    }
}

/// A written number reads back as its value: the number layer of the wire
/// round trip.
pub proof fn lemma_digits_round_trip(n: nat)
    ensures
        all_decimal_digits(spec_digits(n)),
        digits_val(spec_digits(n)) == n,
    decreases n,
{
    if n < 10 {
        lemma_nibble_round_trip(n);
        assert(spec_digits(n).drop_last() =~= Seq::<char>::empty());
        assert(digits_val(Seq::<char>::empty()) == 0);
        assert(digits_val(spec_digits(n)) == n);
    } else {
        lemma_digits_round_trip(n / 10);
        lemma_nibble_round_trip(n % 10);
        assert(spec_digits(n).drop_last() =~= spec_digits(n / 10));
        assert(spec_digits(n).last() == nibble_char(n % 10));
        assert(digits_val(spec_digits(n)) == digits_val(spec_digits(n / 10)) * 10 + n % 10);
        assert((n / 10) * 10 + n % 10 == n) by (nonlinear_arith);
        assert(forall|k: int|
            0 <= k < spec_digits(n / 10).len() ==> spec_digits(n)[k] == spec_digits(n / 10)[k]);
    }
}

/// The one-character text for a value below sixteen.
fn nibble_str(d: u32) -> (r: &'static str)
    requires
        d < 16,
    ensures
        r@ == seq![nibble_char(d as nat)],
{
    proof {
        reveal_strlit("0");
        reveal_strlit("1");
        reveal_strlit("2");
        reveal_strlit("3");
        reveal_strlit("4");
        reveal_strlit("5");
        reveal_strlit("6");
        reveal_strlit("7");
        reveal_strlit("8");
        reveal_strlit("9");
        reveal_strlit("a");
        reveal_strlit("b");
        reveal_strlit("c");
        reveal_strlit("d");
        reveal_strlit("e");
        reveal_strlit("f");
    }
    let r: &'static str = if d == 0 {
        "0"
    } else if d == 1 {
        "1"
    } else if d == 2 {
        "2"
    } else if d == 3 {
        "3"
    } else if d == 4 {
        "4"
    } else if d == 5 {
        "5"
    } else if d == 6 {
        "6"
    } else if d == 7 {
        "7"
    } else if d == 8 {
        "8"
    } else if d == 9 {
        "9"
    } else if d == 10 {
        "a"
    } else if d == 11 {
        "b"
    } else if d == 12 {
        "c"
    } else if d == 13 {
        "d"
    } else if d == 14 {
        "e"
    } else {
        "f"
    };
    proof {
        assert(r@ =~= seq![nibble_char(d as nat)]);
    }
    r
}

/// The decimal text of a number.
pub fn u32_digits(n: u32) -> (r: String)
    ensures
        r@ == spec_digits(n as nat),
    decreases n,
{
    if n < 10 {
        nibble_str(n).to_owned()
    } else {
        let rest = u32_digits(n / 10);
        rest.concat(nibble_str(n % 10))
    }
}

/// Appends the escaped form of `s` to `out`.
fn append_escaped(out: &mut String, s: &str)
    ensures
        final(out)@ == old(out)@ + escape_string(s@),
{
    let len = s.unicode_len();
    let ghost start = out@;
    let mut i: usize = 0;
    proof {
        assert(start + escape_string(s@.take(0)) =~= start);
    }
    while i < len
        invariant
            len == s@.len(),
            i <= len,
            out@ == start + escape_string(s@.take(i as int)),
        decreases len - i,
    {
        let c = s.get_char(i);
        proof {
            assert(s@.take(i + 1).drop_last() =~= s@.take(i as int));
            assert(s@.take(i + 1).last() == s@[i as int]);
        }
        if c == '"' {
            out.append("\\\"");
            proof {
                reveal_strlit("\\\"");
                assert("\\\""@ =~= escape_char(c));
            }
        } else if c == '\\' {
            out.append("\\\\");
            proof {
                reveal_strlit("\\\\");
                assert("\\\\"@ =~= escape_char(c));
            }
        } else if c == '\n' {
            out.append("\\n");
            proof {
                reveal_strlit("\\n");
                assert("\\n"@ =~= escape_char(c));
            }
        } else if c == '\r' {
            out.append("\\r");
            proof {
                reveal_strlit("\\r");
                assert("\\r"@ =~= escape_char(c));
            }
        } else if c == '\t' {
            out.append("\\t");
            proof {
                reveal_strlit("\\t");
                assert("\\t"@ =~= escape_char(c));
            }
        } else if (c as u32) < 32 {
            let code: u32 = c as u32;
            out.append("\\u00");
            out.append(nibble_str(code / 16));
            out.append(nibble_str(code % 16));
            proof {
                reveal_strlit("\\u00");
                assert("\\u00"@ + seq![nibble_char((code / 16) as nat)] + seq![
                    nibble_char((code % 16) as nat),
                ] =~= escape_char(c));
            }
        } else {
            let piece = s.substring_char(i, i + 1);
            out.append(piece);
            proof {
                assert(piece@ =~= seq![s@[i as int]]);
                assert(piece@ =~= escape_char(c));
            }
        }
        proof {
            assert(out@ =~= start + escape_string(s@.take(i + 1)));
        }
        i = i + 1;
    }
    proof {
        assert(s@.take(len as int) =~= s@);
    }
}

/// Appends the JSON string literal for `s` to `out`.
fn append_json_string(out: &mut String, s: &str)
    ensures
        final(out)@ == old(out)@ + json_string(s@),
{
    out.append("\"");
    append_escaped(out, s);
    out.append("\"");
    proof {
        reveal_strlit("\"");
        assert(out@ =~= old(out)@ + json_string(s@));
    }
}

/// Appends a JSON string literal or `null`.
fn append_json_opt_string(out: &mut String, s: &Option<String>)
    ensures
        final(out)@ == old(out)@ + json_opt_string(opt_view(*s)),
{
    match s {
        Some(v) => append_json_string(out, v.as_str()),
        None => out.append("null"),
    }
}

/// Appends a JSON number or `null`.
fn append_json_opt_u32(out: &mut String, n: &Option<u32>)
    ensures
        final(out)@ == old(out)@ + json_opt_u32(*n),
{
    match n {
        Some(v) => {
            let d = u32_digits(*v);
            out.append(d.as_str());
        },
        None => out.append("null"),
    }
}

/// Appends one URI object.
fn append_json_uri(out: &mut String, u: &UriMatch)
    ensures
        final(out)@ == old(out)@ + json_uri(u@),
{
    out.append("{\"match\":");
    append_json_opt_u32(out, &u.match_rule);
    out.append(",\"uri\":");
    append_json_string(out, u.uri.as_str());
    out.append("}");
    proof {
        assert(out@ =~= old(out)@ + json_uri(u@));
    }
}

/// Appends one login object.
fn append_json_login(out: &mut String, l: &LoginRecord)
    ensures
        final(out)@ == old(out)@ + json_login(l@),
{
    out.append("{\"username\":");
    append_json_opt_string(out, &l.username);
    out.append(",\"password\":");
    append_json_string(out, l.password.as_str());
    out.append(",\"uris\":[");
    let ghost us = l@.uris;
    let ghost before = out@;
    let mut i: usize = 0;
    proof {
        assert(us.len() == l.uris@.len());
        assert(before + json_uris_body(us.take(0)) =~= before);
    }
    while i < l.uris.len()
        invariant
            us == l@.uris,
            us.len() == l.uris@.len(),
            forall|k: int| 0 <= k < us.len() ==> us[k] == l.uris@[k]@,
            i <= l.uris@.len(),
            out@ == before + json_uris_body(us.take(i as int)),
        decreases l.uris@.len() - i,
    {
        if i > 0 {
            out.append(",");
            proof {
                reveal_strlit(",");
            }
        }
        append_json_uri(out, &l.uris[i]);
        proof {
            assert(us.take(i + 1).drop_last() =~= us.take(i as int));
            assert(us.take(i + 1).last() == us[i as int]);
            if i == 0 {
                assert(us.take(1).len() == 1);
                assert(out@ =~= before + json_uris_body(us.take(1)));
            } else {
                assert(","@ =~= seq![',']);
                assert(out@ =~= before + json_uris_body(us.take(i + 1)));
            }
        }
        i = i + 1;
    }
    proof {
        assert(us.take(us.len() as int) =~= us);
    }
    out.append("]}");
    proof {
        assert(out@ =~= old(out)@ + json_login(l@));
    }
}

/// The JSON payload that edits an existing item: the item, listed fields in
/// listing order.
pub fn encode_item(v: &VaultItem) -> (r: String)
    ensures
        r@ == json_item(v@),
{
    let mut out = String::new();
    out.append("{\"id\":");
    append_json_string(&mut out, v.id.as_str());
    out.append(",\"type\":");
    let d = u32_digits(v.kind);
    out.append(d.as_str());
    out.append(",\"name\":");
    append_json_string(&mut out, v.name.as_str());
    out.append(",\"login\":");
    append_json_login(&mut out, &v.login);
    out.append("}");
    proof {
        assert(out@ =~= json_item(v@));
    }
    out
}

/// The JSON payload that creates a new item.
pub fn encode_create_request(c: &CreateRequest) -> (r: String)
    ensures
        r@ == json_create_request(c@),
{
    let mut out = String::new();
    out.append("{\"name\":");
    append_json_string(&mut out, c.name.as_str());
    out.append(",\"login\":");
    append_json_login(&mut out, &c.login);
    out.append(",\"type\":");
    let d = u32_digits(c.kind);
    out.append(d.as_str());
    out.append("}");
    proof {
        assert(out@ =~= json_create_request(c@));
    }
    out
}

} // verus!

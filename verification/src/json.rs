//! The JSON envelopes every response carries, built and proved character by
//! character: decimal rendering of integers, string escaping, the row
//! object, the row array, and the `{success, data|message}` wrappers.

use vstd::prelude::*;
use crate::user::{User, UserView, users_view};

verus! {

/// The decimal digit for a value below ten.
pub open spec fn spec_digit_char(d: nat) -> char {
    if d == 0 {
        '0'
    } else if d == 1 {
        '1'
    } else if d == 2 {
        '2'
    } else if d == 3 {
        '3'
    } else if d == 4 {
        '4'
    } else if d == 5 {
        '5'
    } else if d == 6 {
        '6'
    } else if d == 7 {
        '7'
    } else if d == 8 {
        '8'
    } else {
        '9'
    }
}

/// The decimal rendering of a natural number, without leading zeros.
pub open spec fn spec_dec_rep(n: nat) -> Seq<char>
    decreases n,
{
    if n < 10 {
        seq![spec_digit_char(n)]
    } else {
        spec_dec_rep(n / 10).push(spec_digit_char(n % 10))
    }
}

/// The decimal rendering of an integer: a minus sign before the magnitude
/// when negative.
pub open spec fn spec_int_rep(i: int) -> Seq<char> {
    if i < 0 {
        seq!['-'] + spec_dec_rep((-i) as nat)
    } else {
        spec_dec_rep(i as nat)
    }
}

/// The lower-case hexadecimal digit for a value below sixteen.
pub open spec fn spec_hex_char(d: nat) -> char {
    if d < 10 {
        spec_digit_char(d)
    } else if d == 10 {
        'a'
    } else if d == 11 {
        'b'
    } else if d == 12 {
        'c'
    } else if d == 13 {
        'd'
    } else if d == 14 {
        'e'
    } else {
        'f'
    }
}

/// The JSON escape of one character: quote and backslash get a backslash,
/// the named control characters get their short escapes, the remaining
/// control characters get a `\u00..` escape, and every other character
/// stands for itself.
pub open spec fn spec_escape_char(c: char) -> Seq<char> {
    if c == '"' {
        seq!['\\', '"']
    } else if c == '\\' {
        seq!['\\', '\\']
    } else if c == '\u{8}' {
        seq!['\\', 'b']
    } else if c == '\t' {
        seq!['\\', 't']
    } else if c == '\n' {
        seq!['\\', 'n']
    } else if c == '\u{c}' {
        seq!['\\', 'f']
    } else if c == '\r' {
        seq!['\\', 'r']
    } else if (c as u32) < 0x20 {
        seq!['\\', 'u', '0', '0', spec_hex_char(((c as u32) / 16) as nat), spec_hex_char(
            ((c as u32) % 16) as nat,
        )]
    } else {
        seq![c]
    }
}

/// The JSON escape of a whole string body.
pub open spec fn spec_escaped(s: Seq<char>) -> Seq<char>
    decreases s.len(),
{
    if s.len() == 0 {
        Seq::<char>::empty()
    } else {
        spec_escaped(s.drop_last()) + spec_escape_char(s.last())
    }
}

/// A JSON string literal: the escaped body between double quotes.
pub open spec fn spec_json_string(s: Seq<char>) -> Seq<char> {
    "\""@ + spec_escaped(s) + "\""@
}

/// A nullable integer field: the number, or `null`.
pub open spec fn spec_age_json(a: Option<int>) -> Seq<char> {
    match a {
        Option::Some(v) => spec_int_rep(v),
        Option::None => "null"@,
    }
}

/// The JSON object for one stored row.
pub open spec fn spec_user_json(u: UserView) -> Seq<char> {
    "{\"user_id\":"@ + spec_int_rep(u.user_id) + ",\"name\":"@ + spec_json_string(u.name)
        + ",\"age\":"@ + spec_age_json(u.age) + "}"@
}

/// The comma-separated row objects of a JSON array, without the brackets.
pub open spec fn spec_users_items(rows: Seq<UserView>) -> Seq<char>
    decreases rows.len(),
{
    if rows.len() == 0 {
        Seq::<char>::empty()
    } else if rows.len() == 1 {
        spec_user_json(rows[0])
    } else {
        spec_users_items(rows.drop_last()) + ","@ + spec_user_json(rows.last())
    }
}

/// The JSON array of row objects.
pub open spec fn spec_users_array(rows: Seq<UserView>) -> Seq<char> {
    "["@ + spec_users_items(rows) + "]"@
}

/// The success envelope around a list of rows.
pub open spec fn spec_list_envelope(rows: Seq<UserView>) -> Seq<char> {
    "{\"success\":true,\"data\":"@ + spec_users_array(rows) + "}"@
}

/// The success envelope around one row.
pub open spec fn spec_user_envelope(u: UserView) -> Seq<char> {
    "{\"success\":true,\"data\":"@ + spec_user_json(u) + "}"@
}

/// The success envelope around a freshly assigned id.
pub open spec fn spec_created_envelope(id: int) -> Seq<char> {
    "{\"success\":true,\"data\":{\"user_id\":"@ + spec_int_rep(id) + "}}"@
}

/// The bare success envelope.
pub open spec fn spec_success_envelope() -> Seq<char> {
    "{\"success\":true}"@
}

/// The failure envelope around an error message.
pub open spec fn spec_error_envelope(msg: Seq<char>) -> Seq<char> {
    "{\"success\":false,\"message\":"@ + spec_json_string(msg) + "}"@
}

/// One decimal digit as a string slice.
fn digit_str(d: u32) -> (r: &'static str)
    requires
        d < 10,
    ensures
        r@ == seq![spec_digit_char(d as nat)],
{
    let r: &'static str = if d == 0 {
        "0"
    } else if d == 1 {
        "1"
    } else if d == 2 {
        "2"
    } else if d == 3 {
        "3"
    } else if d == 4 {
        "4"
    } else if d == 5 {
        "5"
    } else if d == 6 {
        "6"
    } else if d == 7 {
        "7"
    } else if d == 8 {
        "8"
    } else {
        "9"
    };
    proof {
        reveal_strlit("0");
        reveal_strlit("1");
        reveal_strlit("2");
        reveal_strlit("3");
        reveal_strlit("4");
        reveal_strlit("5");
        reveal_strlit("6");
        reveal_strlit("7");
        reveal_strlit("8");
        reveal_strlit("9");
        assert(r@ =~= seq![spec_digit_char(d as nat)]);
    }
    r
}

/// One lower-case hexadecimal digit as a string slice.
fn hex_str(d: u32) -> (r: &'static str)
    requires
        d < 16,
    ensures
        r@ == seq![spec_hex_char(d as nat)],
{
    if d < 10 {
        digit_str(d)
    } else {
        let r: &'static str = if d == 10 {
            "a"
        } else if d == 11 {
            "b"
        } else if d == 12 {
            "c"
        } else if d == 13 {
            "d"
        } else if d == 14 {
            "e"
        } else {
            "f"
        };
        proof {
            reveal_strlit("a");
            reveal_strlit("b");
            reveal_strlit("c");
            reveal_strlit("d");
            reveal_strlit("e");
            reveal_strlit("f");
            assert(r@ =~= seq![spec_hex_char(d as nat)]);
        }
        r
    }
}

/// Renders a non-negative number in decimal.
pub fn u32_to_string(n: u32) -> (r: String)
    ensures
        r@ == spec_dec_rep(n as nat),
    decreases n,
{
    if n < 10 {
        digit_str(n).to_owned()
    } else {
        let mut s = u32_to_string(n / 10);
        s.append(digit_str(n % 10));
        proof {
            assert(s@ =~= spec_dec_rep(n as nat));
        }
        s
    }
}

/// Renders an integer in decimal, with a minus sign when negative.
pub fn i32_to_string(n: i32) -> (r: String)
    ensures
        r@ == spec_int_rep(n as int),
{
    if n >= 0 {
        u32_to_string(n as u32)
    } else {
        let mag: u32 = (-(n as i64)) as u32;
        let mut s: String = "-".to_owned();
        let m = u32_to_string(mag);
        s.append(m.as_str());
        proof {
            reveal_strlit("-");
            assert(s@ =~= spec_int_rep(n as int));
        }
        s
    }
}

/// Escapes a string body for inclusion in a JSON string literal.
pub fn json_escape(s: &str) -> (r: String)
    ensures
        r@ == spec_escaped(s@),
{
    let len = s.unicode_len();
    let mut out = String::new();
    let mut i: usize = 0;
    while i < len
        invariant
            len == s@.len(),
            i <= len,
            out@ == spec_escaped(s@.take(i as int)),
        decreases len - i,
    {
        let c = s.get_char(i);
        if c == '"' {
            out.append("\\\"");
        } else if c == '\\' {
            out.append("\\\\");
        } else if c == '\u{8}' {
            out.append("\\b");
        } else if c == '\t' {
            out.append("\\t");
        } else if c == '\n' {
            out.append("\\n");
        } else if c == '\u{c}' {
            out.append("\\f");
        } else if c == '\r' {
            out.append("\\r");
        } else if (c as u32) < 0x20 {
            out.append("\\u00");
            out.append(hex_str((c as u32) / 16));
            out.append(hex_str((c as u32) % 16));
        } else {
            out.append(s.substring_char(i, i + 1));
        }
        proof {
            reveal_strlit("\\\"");
            reveal_strlit("\\\\");
            reveal_strlit("\\b");
            reveal_strlit("\\t");
            reveal_strlit("\\n");
            reveal_strlit("\\f");
            reveal_strlit("\\r");
            reveal_strlit("\\u00");
            assert(s@.take(i + 1 as int).drop_last() =~= s@.take(i as int));
            assert(s@.take(i + 1 as int).last() == c);
            assert(s@.subrange(i as int, i + 1 as int) =~= seq![c]);
            assert(out@ =~= spec_escaped(s@.take(i + 1 as int)));
        }
        i = i + 1;
    }
    proof {
        assert(s@.take(len as int) =~= s@);
    }
    out
}

/// Renders a JSON string literal: the escaped body between double quotes.
pub fn json_string(s: &str) -> (r: String)
    ensures
        r@ == spec_json_string(s@),
{
    let mut out: String = "\"".to_owned();
    let body = json_escape(s);
    out.append(body.as_str());
    out.append("\"");
    out
}

/// Renders a nullable integer field: the number, or `null`.
pub fn age_json(a: &Option<i32>) -> (r: String)
    ensures
        r@ == spec_age_json(crate::user::opt_int_view(*a)),
{
    match a {
        Option::Some(v) => i32_to_string(*v),
        Option::None => "null".to_owned(),
    }
}

/// Renders the JSON object for one stored row.
pub fn user_json(u: &User) -> (r: String)
    ensures
        r@ == spec_user_json(u@),
{
    let mut out: String = "{\"user_id\":".to_owned();
    let id = i32_to_string(u.user_id);
    out.append(id.as_str());
    out.append(",\"name\":");
    let name = json_string(u.name.as_str());
    out.append(name.as_str());
    out.append(",\"age\":");
    let age = age_json(&u.age);
    out.append(age.as_str());
    out.append("}");
    out
}

/// Renders the JSON array of row objects.
pub fn users_array(rows: &Vec<User>) -> (r: String)
    ensures
        r@ == spec_users_array(users_view(rows@)),
{
    let mut out: String = "[".to_owned();
    let mut i: usize = 0;
    while i < rows.len()
        invariant
            i <= rows@.len(),
            out@ == "["@ + spec_users_items(users_view(rows@).take(i as int)),
        decreases rows@.len() - i,
    {
        if i > 0 {
            out.append(",");
        }
        let uj = user_json(&rows[i]);
        out.append(uj.as_str());
        proof {
            let vs = users_view(rows@);
            assert(vs.take(i + 1 as int).drop_last() =~= vs.take(i as int));
            assert(vs.take(i + 1 as int).last() == vs[i as int]);
            assert(vs[i as int] == rows@[i as int]@);
            assert(out@ =~= "["@ + spec_users_items(vs.take(i + 1 as int)));
        }
        i = i + 1;
    }
    out.append("]");
    proof {
        assert(users_view(rows@).take(rows@.len() as int) =~= users_view(rows@));
        assert(out@ =~= spec_users_array(users_view(rows@)));
    }
    out
}

/// Renders the success envelope around a list of rows.
pub fn list_envelope(rows: &Vec<User>) -> (r: String)
    ensures
        r@ == spec_list_envelope(users_view(rows@)),
{
    let mut out: String = "{\"success\":true,\"data\":".to_owned();
    let arr = users_array(rows);
    out.append(arr.as_str());
    out.append("}");
    out
}

/// Renders the success envelope around one row.
pub fn user_envelope(u: &User) -> (r: String)
    ensures
        r@ == spec_user_envelope(u@),
{
    let mut out: String = "{\"success\":true,\"data\":".to_owned();
    let uj = user_json(u);
    out.append(uj.as_str());
    out.append("}");
    out
}

/// Renders the success envelope around a freshly assigned id.
pub fn created_envelope(id: i32) -> (r: String)
    ensures
        r@ == spec_created_envelope(id as int),
{
    let mut out: String = "{\"success\":true,\"data\":{\"user_id\":".to_owned();
    let n = i32_to_string(id);
    out.append(n.as_str());
    out.append("}}");
    out
}

/// Renders the bare success envelope.
pub fn success_envelope() -> (r: String)
    ensures
        r@ == spec_success_envelope(),
{
    "{\"success\":true}".to_owned()
}

/// Renders the failure envelope around an error message.
pub fn error_envelope(msg: &str) -> (r: String)
    ensures
        r@ == spec_error_envelope(msg@),
{
    let mut out: String = "{\"success\":false,\"message\":".to_owned();
    let m = json_string(msg);
    out.append(m.as_str());
    out.append("}");
    out
}

} // verus!

//! The JSON text of an access token's claims: `{"exp":…,"iat":…,"email":…,"id":…}`,
//! numbers in decimal, the e-mail as a JSON string, the id as a hyphenated UUID.
use vstd::prelude::*;
use vstd::string::{StrSliceExecFns, StringExecFns};
use crate::ids::{hex_digit, push_char, uuid_hyphenated, uuid_text};

verus! {

/// The decimal digit `d` (below 10).
pub open spec fn digit(d: nat) -> char {
    (48 + d) as char
}

/// The decimal text of `n`, without leading zeros.
pub open spec fn decimal(n: nat) -> Seq<char>
    decreases n,
{
    if n < 10 {
        seq![digit(n)]
    } else {
        decimal(n / 10).push(digit(n % 10))
    }
}

/// How a character stands inside a JSON string: `"` and `\` behind a backslash,
/// the control characters with a short escape or as `\u00XX` (lowercase hex),
/// every other character as itself.
pub open spec fn json_escape(c: char) -> Seq<char> {
    if c == '"' {
        seq!['\\', '"']
    } else if c == '\\' {
        seq!['\\', '\\']
    } else if c == '\u{8}' {
        seq!['\\', 'b']
    } else if c == '\t' {
        seq!['\\', 't']
    } else if c == '\n' {
        seq!['\\', 'n']
    } else if c == '\u{c}' {
        seq!['\\', 'f']
    } else if c == '\r' {
        seq!['\\', 'r']
    } else if (c as u32) < 32 {
        seq![
            '\\',
            'u',
            '0',
            '0',
            hex_digit(((c as u32) / 16) as u8),
            hex_digit(((c as u32) % 16) as u8),
        ]
    } else {
        seq![c]
    }
}

/// The characters of `s`, each as it stands inside a JSON string.
pub open spec fn json_escaped(s: Seq<char>) -> Seq<char>
    decreases s.len(),
{
    if s.len() == 0 {
        Seq::empty()
    } else {
        json_escaped(s.drop_last()) + json_escape(s.last())
    }
}

/// `s` as a JSON string.
pub open spec fn json_string(s: Seq<char>) -> Seq<char> {
    seq!['"'] + json_escaped(s) + seq!['"']
}

/// The JSON text of the claims (expiry, issue time, e-mail, id).
pub open spec fn claims_text(exp: usize, iat: usize, email: Seq<char>, id: u128) -> Seq<char> {
    "{\"exp\":"@ + decimal(exp as nat) + ",\"iat\":"@ + decimal(iat as nat) + ",\"email\":"@
        + json_string(email) + ",\"id\":\""@ + uuid_hyphenated(id) + "\"}"@
}

/// Whether `text` is the JSON text of some claims, as `claims_text` writes it.
pub open spec fn is_claims_text(text: Seq<char>) -> bool {
    exists|exp: usize, iat: usize, email: Seq<char>, id: u128|
        #[trigger] claims_text(exp, iat, email, id) == text
}

fn push_decimal(s: &mut String, n: usize)
    ensures
        final(s)@ == old(s)@ + decimal(n as nat),
    decreases n,
{
    if n >= 10 {
        push_decimal(s, n / 10);
    }
    let d = (n % 10) as u8;
    push_char(s, (48u8 + d) as char);
}

fn hex_char_of(v: u32) -> (c: char)
    requires
        v < 16,
    ensures
        c == hex_digit(v as u8),
{
    let b = v as u8;
    if b < 10 {
        (48 + b) as char
    } else {
        (87 + b) as char
    }
}

fn push_json_escape(s: &mut String, c: char)
    ensures
        final(s)@ == old(s)@ + json_escape(c),
{
    let v = c as u32;
    if c == '"' {
        push_char(s, '\\');
        push_char(s, '"');
    } else if c == '\\' {
        push_char(s, '\\');
        push_char(s, '\\');
    } else if c == '\u{8}' {
        push_char(s, '\\');
        push_char(s, 'b');
    } else if c == '\t' {
        push_char(s, '\\');
        push_char(s, 't');
    } else if c == '\n' {
        push_char(s, '\\');
        push_char(s, 'n');
    } else if c == '\u{c}' {
        push_char(s, '\\');
        push_char(s, 'f');
    } else if c == '\r' {
        push_char(s, '\\');
        push_char(s, 'r');
    } else if v < 32 {
        push_char(s, '\\');
        push_char(s, 'u');
        push_char(s, '0');
        push_char(s, '0');
        push_char(s, hex_char_of(v / 16));
        push_char(s, hex_char_of(v % 16));
    } else {
        push_char(s, c);
    }
}

fn push_json_string(s: &mut String, text: &str)
    ensures
        final(s)@ == old(s)@ + json_string(text@),
{
    let ghost start = s@;
    push_char(s, '"');
    let n = text.unicode_len();
    let mut i: usize = 0;
    while i < n
        invariant
            n == text@.len(),
            i <= n,
            s@ == start + seq!['"'] + json_escaped(text@.take(i as int)),
        decreases n - i,
    {
        let c = text.get_char(i);
        push_json_escape(s, c);
        assert(text@.take(i + 1).drop_last() =~= text@.take(i as int));
        i = i + 1;
    }
    assert(text@.take(n as int) =~= text@);
    push_char(s, '"');
    assert(s@ =~= start + json_string(text@));
}

/// Whether `c` is whitespace around a JSON value.
pub open spec fn is_json_whitespace(c: char) -> bool {
    c == ' ' || c == '\t' || c == '\n' || c == '\r'
}

/// `s` without its leading JSON whitespace.
pub open spec fn trim_start(s: Seq<char>) -> Seq<char>
    decreases s.len(),
{
    if s.len() > 0 && is_json_whitespace(s[0]) {
        trim_start(s.drop_first())
    } else {
        s
    }
}

/// `s` without its trailing JSON whitespace.
pub open spec fn trim_end(s: Seq<char>) -> Seq<char>
    decreases s.len(),
{
    if s.len() > 0 && is_json_whitespace(s.last()) {
        trim_end(s.drop_last())
    } else {
        s
    }
}

/// `s` without the JSON whitespace around it.
pub open spec fn json_trim(s: Seq<char>) -> Seq<char> {
    trim_end(trim_start(s))
}

/// The claims text has no whitespace around it: it starts with `{` and ends with `}`.
pub proof fn claims_text_is_trimmed(exp: usize, iat: usize, email: Seq<char>, id: u128)
    ensures
        json_trim(claims_text(exp, iat, email, id)) == claims_text(exp, iat, email, id),
{
    let t = claims_text(exp, iat, email, id);
    reveal_strlit("{\"exp\":");
    reveal_strlit("\"}");
    let first = "{\"exp\":"@;
    let rest = decimal(exp as nat) + ",\"iat\":"@ + decimal(iat as nat) + ",\"email\":"@
        + json_string(email) + ",\"id\":\""@ + uuid_hyphenated(id);
    assert(t =~= first + rest + "\"}"@);
    assert(t[0] == '{');
    assert(t.last() == '}');
    assert(trim_start(t) == t);
    assert(trim_end(t) == t);
}

/// Renders the claims (expiry, issue time, e-mail, id) as their JSON text.
pub fn render_claims(exp: usize, iat: usize, email: &String, id: u128) -> (s: String)
    ensures
        s@ == claims_text(exp, iat, email@, id),
{
    let mut s = String::new();
    s.append("{\"exp\":");
    push_decimal(&mut s, exp);
    s.append(",\"iat\":");
    push_decimal(&mut s, iat);
    s.append(",\"email\":");
    push_json_string(&mut s, email.as_str());
    s.append(",\"id\":\"");
    let u = uuid_text(id);
    s.append(u.as_str());
    s.append("\"}");
    s
}

} // verus!

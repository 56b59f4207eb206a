//! The wire form of `ApiError`: a fixed JSON object. Serialization omits
//! the `code` and `help` keys entirely when the root context supplied
//! neither, and flattens the history into an array of plain strings.

use vstd::prelude::*;

use crate::api::{frames, ApiError, ApiErrorV, ErrorFrame};
use crate::text::push_char;

verus! {

/// The lowercase hexadecimal digit for `n` (`n < 16`).
pub open spec fn hex_digit(n: nat) -> char {
    if n < 10 {
        (48 + n) as char
    } else {
        (87 + n) as char
    }
}

/// How one character is written inside a JSON string: quotes and
/// backslashes get a backslash escape, control characters a `\u00..`
/// escape, every other character stands for itself.
pub open spec fn escape_char(c: char) -> Seq<char> {
    if c == '"' {
        seq!['\\', '"']
    } else if c == '\\' {
        seq!['\\', '\\']
    } else if (c as nat) < 32 {
        seq!['\\', 'u', '0', '0', hex_digit((c as nat) / 16), hex_digit((c as nat) % 16)]
    } else {
        seq![c]
    }
}

/// A string's characters written inside a JSON string literal.
pub open spec fn escape_str(s: Seq<char>) -> Seq<char>
    decreases s.len(),
{
    if s.len() == 0 {
        Seq::empty()
    } else {
        escape_char(s[0]) + escape_str(s.drop_first())
    }
}

proof fn lemma_escape_str_push(s: Seq<char>, c: char)
    ensures
        escape_str(s.push(c)) == escape_str(s) + escape_char(c),
    decreases s.len(),
{
    if s.len() == 0 {
        assert(s.push(c).drop_first() =~= Seq::<char>::empty());
        assert(s.push(c)[0] == c);
        assert(escape_str(s.push(c)) == escape_char(c) + escape_str(s.push(c).drop_first()));
        assert(escape_str(s.push(c)) =~= escape_str(s) + escape_char(c));
    } else {
        assert(s.push(c).drop_first() =~= s.drop_first().push(c));
        assert(s.push(c)[0] == s[0]);
        lemma_escape_str_push(s.drop_first(), c);
        assert(escape_str(s.push(c)) =~= escape_str(s) + escape_char(c));
    }
}

/// A full JSON string literal: quotes around the escaped characters.
pub open spec fn quoted(s: Seq<char>) -> Seq<char> {
    seq!['"'] + escape_str(s) + seq!['"']
}

/// The members of the history array: string literals separated by commas.
pub open spec fn json_strings(h: Seq<Seq<char>>) -> Seq<char>
    decreases h.len(),
{
    if h.len() == 0 {
        Seq::empty()
    } else if h.len() == 1 {
        quoted(h[0])
    } else {
        quoted(h[0]) + seq![','] + json_strings(h.drop_first())
    }
}

proof fn lemma_json_strings_push(h: Seq<Seq<char>>, x: Seq<char>)
    ensures
        json_strings(h.push(x)) == (if h.len() == 0 {
            quoted(x)
        } else {
            json_strings(h) + seq![','] + quoted(x)
        }),
    decreases h.len(),
{
    if h.len() == 0 {
        assert(h.push(x)[0] == x);
        assert(json_strings(h.push(x)) == quoted(x));
    } else if h.len() == 1 {
        assert(h.push(x)[0] == h[0]);
        assert(h.push(x).drop_first() =~= h.drop_first().push(x));
        lemma_json_strings_push(h.drop_first(), x);
        assert(h.drop_first().len() == 0);
        assert(json_strings(h.push(x)) =~= json_strings(h) + seq![','] + quoted(x));
    } else {
        assert(h.push(x)[0] == h[0]);
        assert(h.push(x).drop_first() =~= h.drop_first().push(x));
        lemma_json_strings_push(h.drop_first(), x);
        assert(json_strings(h.push(x)) =~= json_strings(h) + seq![','] + quoted(x));
    }
}

/// The serialized form of an `ApiError`: one JSON object whose `code` and
/// `help` keys are omitted entirely (not null) when absent, and whose
/// history is an array of the plain message strings.
pub open spec fn json_of(a: ApiErrorV) -> Seq<char> {
    "{\"git_hash\":\""@ + escape_str(a.git_hash) + "\",\"docs_url\":\""@ + escape_str(a.docs_url)
        + "\",\"correlation_id\":\""@ + escape_str(a.correlation_id) + "\",\"title\":\""@
        + escape_str(a.title) + "\""@ + (match a.code {
        Some(c) => ",\"code\":\""@ + escape_str(c) + "\""@,
        None => Seq::<char>::empty(),
    }) + (match a.help {
        Some(hp) => ",\"help\":\""@ + escape_str(hp) + "\""@,
        None => Seq::<char>::empty(),
    }) + ",\"history\":["@ + json_strings(a.history) + "]}"@
}

pub(crate) fn hex_digit_exec(v: u32) -> (c: char)
    requires
        v < 16,
    ensures
        c == hex_digit(v as nat),
{
    if v < 10 {
        (48u8 + v as u8) as char
    } else {
        (87u8 + v as u8) as char
    }
}

fn append_escaped(out: &mut String, s: &str)
    ensures
        final(out)@ == old(out)@ + escape_str(s@),
{
    let n = s.unicode_len();
    let mut i: usize = 0;
    while i < n
        invariant
            0 <= i <= n,
            n == s@.len(),
            out@ == old(out)@ + escape_str(s@.take(i as int)),
        decreases n - i,
    {
        let c = s.get_char(i);
        proof {
            lemma_escape_str_push(s@.take(i as int), c);
            assert(s@.take(i + 1) =~= s@.take(i as int).push(c));
        }
        if c == '"' {
            out.append("\\\"");
            proof {
                reveal_strlit("\\\"");
                assert("\\\""@ =~= escape_char(c));
            }
        } else if c == '\\' {
            out.append("\\\\");
            proof {
                reveal_strlit("\\\\");
                assert("\\\\"@ =~= escape_char(c));
            }
        } else if (c as u32) < 32 {
            out.append("\\u00");
            let v: u32 = c as u32;
            push_char(out, hex_digit_exec(v / 16));
            push_char(out, hex_digit_exec(v % 16));
            proof {
                reveal_strlit("\\u00");
                assert("\\u00"@.push(hex_digit((v / 16) as nat)).push(
                    hex_digit((v % 16) as nat),
                ) =~= escape_char(c));
            }
        } else {
            push_char(out, c);
            proof {
                assert(Seq::<char>::empty().push(c) =~= escape_char(c));
            }
        }
        proof {
            assert(out@ =~= old(out)@ + escape_str(s@.take(i + 1)));
        }
        i = i + 1;
    }
    proof {
        assert(s@.take(n as int) =~= s@);
    }
}

impl ApiError {
    /// Serialize this record to its wire form. The `code` and `help` keys
    /// are omitted entirely when the record carries neither; the history is
    /// written as a flat array of the message strings alone.
    pub fn to_json(&self) -> (r: String)
        ensures
            r@ == json_of(self@),
    {
        let mut out = String::new();
        out.append("{\"git_hash\":\"");
        append_escaped(&mut out, self.git_hash.as_str());
        out.append("\",\"docs_url\":\"");
        append_escaped(&mut out, self.docs_url.as_str());
        out.append("\",\"correlation_id\":\"");
        append_escaped(&mut out, self.correlation_id.as_str());
        out.append("\",\"title\":\"");
        append_escaped(&mut out, self.title.as_str());
        out.append("\"");
        match &self.code {
            Some(c) => {
                out.append(",\"code\":\"");
                append_escaped(&mut out, c.as_str());
                out.append("\"");
            },
            None => {},
        }
        match &self.help {
            Some(hp) => {
                out.append(",\"help\":\"");
                append_escaped(&mut out, hp.as_str());
                out.append("\"");
            },
            None => {},
        }
        out.append(",\"history\":[");
        let ghost base = out@;
        let mut k: usize = 0;
        while k < self.history.len()
            invariant
                0 <= k <= self.history.len(),
                out@ == base + json_strings(frames(self.history@).take(k as int)),
            decreases self.history.len() - k,
        {
            let ghost hv = frames(self.history@);
            if k > 0 {
                out.append(",");
            }
            out.append("\"");
            append_escaped(&mut out, self.history[k].message.as_str());
            out.append("\"");
            proof {
                reveal_strlit(",");
                reveal_strlit("\"");
                assert(hv.take(k + 1) =~= hv.take(k as int).push(hv[k as int]));
                lemma_json_strings_push(hv.take(k as int), hv[k as int]);
                assert(hv[k as int] == self.history@[k as int]@);
                assert(out@ =~= base + json_strings(hv.take(k + 1)));
            }
            k = k + 1;
        }
        out.append("]}");
        proof {
            assert(frames(self.history@).take(self.history@.len() as int) =~= frames(
                self.history@,
            ));
            assert(out@ =~= json_of(self@));
        }
        out
    }
}

/// Whether `c` is a lowercase hexadecimal digit.
pub open spec fn is_hex_lower(c: char) -> bool {
    ('0' <= c && c <= '9') || ('a' <= c && c <= 'f')
}

/// The value of a lowercase hexadecimal digit.
pub open spec fn hex_val(c: char) -> nat {
    if '0' <= c && c <= '9' {
        (c as int - 48) as nat
    } else {
        (c as int - 87) as nat
    }
}

proof fn lemma_hex_digit_round(n: nat)
    requires
        n < 16,
    ensures
        is_hex_lower(hex_digit(n)),
        hex_val(hex_digit(n)) == n,
{
}

/// Prepend one decoded character to a string-parse result.
pub open spec fn prepend_parsed(c: char, r: Option<(Seq<char>, Seq<char>)>) -> Option<
    (Seq<char>, Seq<char>),
> {
    match r {
        Some(p) => Some((seq![c] + p.0, p.1)),
        None => None,
    }
}

/// Parse the body of a JSON string literal (the opening quote already
/// consumed): the decoded content and what follows the closing quote.
/// Exactly the escapes that `escape_char` emits are accepted.
pub open spec fn parse_jstring(s: Seq<char>) -> Option<(Seq<char>, Seq<char>)>
    decreases s.len(),
{
    if s.len() == 0 {
        None
    } else if s[0] == '"' {
        Some((Seq::empty(), s.drop_first()))
    } else if s[0] == '\\' {
        if s.len() < 2 {
            None
        } else if s[1] == '"' {
            prepend_parsed('"', parse_jstring(s.skip(2)))
        } else if s[1] == '\\' {
            prepend_parsed('\\', parse_jstring(s.skip(2)))
        } else if s[1] == 'u' {
            if s.len() >= 6 && s[2] == '0' && s[3] == '0' && is_hex_lower(s[4]) && is_hex_lower(
                s[5],
            ) && hex_val(s[4]) * 16 + hex_val(s[5]) < 32 {
                prepend_parsed(
                    ((hex_val(s[4]) * 16 + hex_val(s[5])) as char),
                    parse_jstring(s.skip(6)),
                )
            } else {
                None
            }
        } else {
            None
        }
    } else if (s[0] as nat) < 32 {
        None
    } else {
        prepend_parsed(s[0], parse_jstring(s.drop_first()))
    }
}

proof fn lemma_parse_jstring_shrinks(s: Seq<char>)
    ensures
        parse_jstring(s) matches Some(p) ==> p.1.len() < s.len(),
    decreases s.len(),
{
    if s.len() == 0 {
    } else if s[0] == '"' {
    } else if s[0] == '\\' {
        if s.len() >= 2 && (s[1] == '"' || s[1] == '\\') {
            lemma_parse_jstring_shrinks(s.skip(2));
        } else if s.len() >= 6 && s[1] == 'u' {
            lemma_parse_jstring_shrinks(s.skip(6));
        }
    } else {
        lemma_parse_jstring_shrinks(s.drop_first());
    }
}

/// Round trip of one string literal: parsing an escaped content followed by
/// the closing quote recovers the content and the remainder exactly.
proof fn lemma_parse_escaped(content: Seq<char>, rest: Seq<char>)
    ensures
        parse_jstring(escape_str(content) + seq!['"'] + rest) == Some((content, rest)),
    decreases content.len(),
{
    let s = escape_str(content) + seq!['"'] + rest;
    if content.len() == 0 {
        assert(s =~= seq!['"'] + rest);
        assert(s[0] == '"');
        assert(s.drop_first() =~= rest);
    } else {
        let c = content[0];
        let tail = escape_str(content.drop_first()) + seq!['"'] + rest;
        lemma_parse_escaped(content.drop_first(), rest);
        assert(escape_str(content) == escape_char(c) + escape_str(content.drop_first()));
        assert(s =~= escape_char(c) + tail);
        if c == '"' {
            assert(s[0] == '\\' && s[1] == '"');
            assert(s.skip(2) =~= tail);
            assert(seq![c] + content.drop_first() =~= content);
        } else if c == '\\' {
            assert(s[0] == '\\' && s[1] == '\\');
            assert(s.skip(2) =~= tail);
            assert(seq![c] + content.drop_first() =~= content);
        } else if (c as nat) < 32 {
            let hi = hex_digit((c as nat) / 16);
            let lo = hex_digit((c as nat) % 16);
            lemma_hex_digit_round((c as nat) / 16);
            lemma_hex_digit_round((c as nat) % 16);
            assert(s[0] == '\\' && s[1] == 'u' && s[2] == '0' && s[3] == '0' && s[4] == hi
                && s[5] == lo);
            assert(hex_val(s[4]) * 16 + hex_val(s[5]) == c as nat);
            let u: u32 = c as u32;
            vstd::utf8::char_u32_cast(c, u);
            assert(hex_val(s[4]) * 16 + hex_val(s[5]) == u as nat);
            assert(((hex_val(s[4]) * 16 + hex_val(s[5])) as char) == (u as char));
            assert(((hex_val(s[4]) * 16 + hex_val(s[5])) as char) == c);
            assert(s.skip(6) =~= tail);
            assert(seq![c] + content.drop_first() =~= content);
        } else {
            assert(s[0] == c);
            assert(s.drop_first() =~= tail);
            assert(seq![c] + content.drop_first() =~= content);
        }
    }
}

/// Parse a fixed literal prefix; the remainder follows it.
pub open spec fn parse_lit(s: Seq<char>, lit: Seq<char>) -> Option<Seq<char>> {
    if lit.len() <= s.len() && s.take(lit.len() as int) == lit {
        Some(s.skip(lit.len() as int))
    } else {
        None
    }
}

proof fn lemma_parse_lit_match(lit: Seq<char>, rest: Seq<char>)
    ensures
        parse_lit(lit + rest, lit) == Some(rest),
{
    assert((lit + rest).take(lit.len() as int) =~= lit);
    assert((lit + rest).skip(lit.len() as int) =~= rest);
}

/// Parse one or more history entries followed by the closing bracket.
pub open spec fn parse_items(s: Seq<char>) -> Option<(Seq<Seq<char>>, Seq<char>)>
    decreases s.len(),
    via parse_items_decreases
{
    if s.len() == 0 || s[0] != '"' {
        None
    } else {
        match parse_jstring(s.drop_first()) {
            None => None,
            Some(p) => {
                if p.1.len() > 0 && p.1[0] == ',' {
                    match parse_items(p.1.drop_first()) {
                        None => None,
                        Some(q) => Some((seq![p.0] + q.0, q.1)),
                    }
                } else if p.1.len() > 0 && p.1[0] == ']' {
                    Some((seq![p.0], p.1.drop_first()))
                } else {
                    None
                }
            },
        }
    }
}

#[via_fn]
proof fn parse_items_decreases(s: Seq<char>) {
    if s.len() > 0 && s[0] == '"' {
        lemma_parse_jstring_shrinks(s.drop_first());
    }
}

/// Parse the members of the history array, the opening bracket already
/// consumed: either the closing bracket at once, or one or more entries.
pub open spec fn parse_history(s: Seq<char>) -> Option<(Seq<Seq<char>>, Seq<char>)> {
    if s.len() > 0 && s[0] == ']' {
        Some((Seq::empty(), s.drop_first()))
    } else {
        parse_items(s)
    }
}

proof fn lemma_parse_items_round(h: Seq<Seq<char>>, rest: Seq<char>)
    requires
        h.len() >= 1,
    ensures
        parse_items(json_strings(h) + seq![']'] + rest) == Some((h, rest)),
    decreases h.len(),
{
    let s = json_strings(h) + seq![']'] + rest;
    if h.len() == 1 {
        let close = seq![']'] + rest;
        assert(s =~= seq!['"'] + (escape_str(h[0]) + seq!['"'] + close));
        assert(s[0] == '"');
        assert(s.drop_first() =~= escape_str(h[0]) + seq!['"'] + close);
        lemma_parse_escaped(h[0], close);
        assert(close[0] == ']');
        assert(close.drop_first() =~= rest);
        assert(seq![h[0]] =~= h);
    } else {
        let tail = json_strings(h.drop_first()) + seq![']'] + rest;
        let after = seq![','] + tail;
        assert(s =~= seq!['"'] + (escape_str(h[0]) + seq!['"'] + after));
        assert(s[0] == '"');
        assert(s.drop_first() =~= escape_str(h[0]) + seq!['"'] + after);
        lemma_parse_escaped(h[0], after);
        assert(after[0] == ',');
        assert(after.drop_first() =~= tail);
        lemma_parse_items_round(h.drop_first(), rest);
        assert(seq![h[0]] + h.drop_first() =~= h);
    }
}

/// Parse one quoted string introduced by a fixed key literal.
pub open spec fn parse_key_string(s: Seq<char>, key: Seq<char>) -> Option<(Seq<char>, Seq<char>)> {
    match parse_lit(s, key) {
        Some(s1) => parse_jstring(s1),
        None => None,
    }
}

/// Parse an optional key: absent keys leave the input untouched.
pub open spec fn parse_opt_key_string(s: Seq<char>, key: Seq<char>) -> Option<
    (Option<Seq<char>>, Seq<char>),
> {
    match parse_lit(s, key) {
        Some(s1) => match parse_jstring(s1) {
            Some(p) => Some((Some(p.0), p.1)),
            None => None,
        },
        None => Some((None, s)),
    }
}

/// Parse the wire form of an `ApiError` back into its fields. The object is
/// read key by key; each stage carries the fields read so far.
pub open spec fn parse_api(s: Seq<char>) -> Option<ApiErrorV> {
    match parse_key_string(s, "{\"git_hash\":\""@) {
        None => None,
        Some(p) => parse_after_git(p.0, p.1),
    }
}

pub open spec fn parse_after_git(gh: Seq<char>, s: Seq<char>) -> Option<ApiErrorV> {
    match parse_key_string(s, ",\"docs_url\":\""@) {
        None => None,
        Some(p) => parse_after_docs(gh, p.0, p.1),
    }
}

pub open spec fn parse_after_docs(gh: Seq<char>, du: Seq<char>, s: Seq<char>) -> Option<
    ApiErrorV,
> {
    match parse_key_string(s, ",\"correlation_id\":\""@) {
        None => None,
        Some(p) => parse_after_corr(gh, du, p.0, p.1),
    }
}

pub open spec fn parse_after_corr(gh: Seq<char>, du: Seq<char>, ci: Seq<char>, s: Seq<char>) -> Option<
    ApiErrorV,
> {
    match parse_key_string(s, ",\"title\":\""@) {
        None => None,
        Some(p) => parse_after_title(gh, du, ci, p.0, p.1),
    }
}

pub open spec fn parse_after_title(
    gh: Seq<char>,
    du: Seq<char>,
    ci: Seq<char>,
    ti: Seq<char>,
    s: Seq<char>,
) -> Option<ApiErrorV> {
    match parse_opt_key_string(s, ",\"code\":\""@) {
        None => None,
        Some(p) => parse_after_code(gh, du, ci, ti, p.0, p.1),
    }
}

pub open spec fn parse_after_code(
    gh: Seq<char>,
    du: Seq<char>,
    ci: Seq<char>,
    ti: Seq<char>,
    code: Option<Seq<char>>,
    s: Seq<char>,
) -> Option<ApiErrorV> {
    match parse_opt_key_string(s, ",\"help\":\""@) {
        None => None,
        Some(p) => parse_after_help(gh, du, ci, ti, code, p.0, p.1),
    }
}

pub open spec fn parse_after_help(
    gh: Seq<char>,
    du: Seq<char>,
    ci: Seq<char>,
    ti: Seq<char>,
    code: Option<Seq<char>>,
    help: Option<Seq<char>>,
    s: Seq<char>,
) -> Option<ApiErrorV> {
    match parse_lit(s, ",\"history\":["@) {
        None => None,
        Some(s7) => match parse_history(s7) {
            None => None,
            Some(p8) => if p8.1 == "}"@ {
                Some(
                    ApiErrorV {
                        git_hash: gh,
                        docs_url: du,
                        correlation_id: ci,
                        title: ti,
                        code,
                        help,
                        history: p8.0,
                    },
                )
            } else {
                None
            },
        },
    }
}

proof fn lemma_key_string_round(key: Seq<char>, content: Seq<char>, rest: Seq<char>)
    ensures
        parse_key_string(key + (escape_str(content) + seq!['"'] + rest), key) == Some(
            (content, rest),
        ),
{
    lemma_parse_lit_match(key, escape_str(content) + seq!['"'] + rest);
    lemma_parse_escaped(content, rest);
}

proof fn lemma_code_key_mismatch(s: Seq<char>)
    requires
        s.len() > 2,
        s[2] == 'h',
    ensures
        parse_lit(s, ",\"code\":\""@) is None,
{
    reveal_strlit(",\"code\":\"");
    let k = ",\"code\":\""@;
    if parse_lit(s, k) is Some {
        assert(s.take(k.len() as int)[2] == s[2]);
        assert(k[2] == 'c');
    }
}

proof fn lemma_help_key_mismatch(s: Seq<char>)
    requires
        s.len() > 3,
        s[3] == 'i',
    ensures
        parse_lit(s, ",\"help\":\""@) is None,
{
    reveal_strlit(",\"help\":\"");
    let k = ",\"help\":\""@;
    if parse_lit(s, k) is Some {
        assert(s.take(k.len() as int)[3] == s[3]);
        assert(k[3] == 'e');
    }
}

proof fn lemma_parse_history_round(h: Seq<Seq<char>>, rest: Seq<char>)
    ensures
        parse_history(json_strings(h) + seq![']'] + rest) == Some((h, rest)),
{
    let s = json_strings(h) + seq![']'] + rest;
    if h.len() == 0 {
        assert(s =~= seq![']'] + rest);
        assert(s[0] == ']');
        assert(s.drop_first() =~= rest);
        assert(Seq::<Seq<char>>::empty() =~= h);
    } else {
        assert(json_strings(h)[0] == '"');
        assert(s[0] == '"');
        lemma_parse_items_round(h, rest);
    }
}

/// What follows the opening bracket of the history array on the wire.
pub open spec fn wire_hist(a: ApiErrorV) -> Seq<char> {
    json_strings(a.history) + seq![']'] + "}"@
}

/// What follows the title's closing quote and the optional keys on the wire.
pub open spec fn wire_s7(a: ApiErrorV) -> Seq<char> {
    ",\"history\":["@ + wire_hist(a)
}

/// What follows the title's closing quote and the optional code key.
pub open spec fn wire_s6(a: ApiErrorV) -> Seq<char> {
    match a.help {
        Some(hp) => ",\"help\":\""@ + (escape_str(hp) + seq!['"'] + wire_s7(a)),
        None => wire_s7(a),
    }
}

/// What follows the title's closing quote on the wire.
pub open spec fn wire_s5(a: ApiErrorV) -> Seq<char> {
    match a.code {
        Some(c) => ",\"code\":\""@ + (escape_str(c) + seq!['"'] + wire_s6(a)),
        None => wire_s6(a),
    }
}

proof fn lemma_after_help_round(a: ApiErrorV)
    ensures
        parse_after_help(
            a.git_hash,
            a.docs_url,
            a.correlation_id,
            a.title,
            a.code,
            a.help,
            wire_s7(a),
        ) == Some(a),
{
    lemma_parse_lit_match(",\"history\":["@, wire_hist(a));
    lemma_parse_history_round(a.history, "}"@);
    let r = parse_after_help(
        a.git_hash,
        a.docs_url,
        a.correlation_id,
        a.title,
        a.code,
        a.help,
        wire_s7(a),
    );
    assert(r is Some);
    assert(r->Some_0 =~= a);
}

proof fn lemma_after_code_round(a: ApiErrorV)
    ensures
        parse_after_code(
            a.git_hash,
            a.docs_url,
            a.correlation_id,
            a.title,
            a.code,
            wire_s6(a),
        ) == Some(a),
{
    let k_he = ",\"help\":\""@;
    match a.help {
        Some(hp) => {
            lemma_parse_lit_match(k_he, escape_str(hp) + seq!['"'] + wire_s7(a));
            lemma_parse_escaped(hp, wire_s7(a));
        },
        None => {
            assert(wire_s6(a) == wire_s7(a));
            assert(wire_s6(a).len() > 3 && wire_s6(a)[3] == 'i') by {
                reveal_strlit(",\"history\":[");
            }
            lemma_help_key_mismatch(wire_s6(a));
        },
    }
    assert(parse_opt_key_string(wire_s6(a), k_he) == Some((a.help, wire_s7(a))));
    lemma_after_help_round(a);
}

proof fn lemma_after_title_round(a: ApiErrorV)
    ensures
        parse_after_title(
            a.git_hash,
            a.docs_url,
            a.correlation_id,
            a.title,
            wire_s5(a),
        ) == Some(a),
{
    let k_co = ",\"code\":\""@;
    match a.code {
        Some(c) => {
            lemma_parse_lit_match(k_co, escape_str(c) + seq!['"'] + wire_s6(a));
            lemma_parse_escaped(c, wire_s6(a));
        },
        None => {
            assert(wire_s5(a) == wire_s6(a));
            assert(wire_s5(a).len() > 2 && wire_s5(a)[2] == 'h') by {
                reveal_strlit(",\"help\":\"");
                reveal_strlit(",\"history\":[");
            }
            lemma_code_key_mismatch(wire_s5(a));
        },
    }
    assert(parse_opt_key_string(wire_s5(a), k_co) == Some((a.code, wire_s6(a))));
    lemma_after_code_round(a);
}

#[verifier::rlimit(100)]
proof fn lemma_json_of_decomposed(a: ApiErrorV)
    ensures
        json_of(a) == "{\"git_hash\":\""@ + (escape_str(a.git_hash) + seq!['"']
            + (",\"docs_url\":\""@ + (escape_str(a.docs_url) + seq!['"']
            + (",\"correlation_id\":\""@ + (escape_str(a.correlation_id) + seq!['"']
            + (",\"title\":\""@ + (escape_str(a.title) + seq!['"'] + wire_s5(a)))))))),
{
    reveal_strlit("\"");
    reveal_strlit("\",\"docs_url\":\"");
    reveal_strlit("\",\"correlation_id\":\"");
    reveal_strlit("\",\"title\":\"");
    reveal_strlit(",\"docs_url\":\"");
    reveal_strlit(",\"correlation_id\":\"");
    reveal_strlit(",\"title\":\"");
    reveal_strlit("]}");
    reveal_strlit("}");
    assert(json_of(a) =~= "{\"git_hash\":\""@ + (escape_str(a.git_hash) + seq!['"']
        + (",\"docs_url\":\""@ + (escape_str(a.docs_url) + seq!['"']
        + (",\"correlation_id\":\""@ + (escape_str(a.correlation_id) + seq!['"']
        + (",\"title\":\""@ + (escape_str(a.title) + seq!['"'] + wire_s5(a)))))))));
}

/// Law: serializing an `ApiError` and parsing the result back recovers
/// every field exactly; in particular an absent `code` or `help` parses
/// back as absent.
#[verifier::rlimit(100)]
pub proof fn lemma_json_round_trip(a: ApiErrorV)
    ensures
        parse_api(json_of(a)) == Some(a),
{
    let k_gh = "{\"git_hash\":\""@;
    let k_du = ",\"docs_url\":\""@;
    let k_ci = ",\"correlation_id\":\""@;
    let k_ti = ",\"title\":\""@;
    let s4 = k_ti + (escape_str(a.title) + seq!['"'] + wire_s5(a));
    let s3 = k_ci + (escape_str(a.correlation_id) + seq!['"'] + s4);
    let s2 = k_du + (escape_str(a.docs_url) + seq!['"'] + s3);
    let s1 = k_gh + (escape_str(a.git_hash) + seq!['"'] + s2);
    lemma_json_of_decomposed(a);
    assert(json_of(a) == s1);
    lemma_key_string_round(k_gh, a.git_hash, s2);
    lemma_key_string_round(k_du, a.docs_url, s3);
    lemma_key_string_round(k_ci, a.correlation_id, s4);
    lemma_key_string_round(k_ti, a.title, wire_s5(a));
    lemma_after_title_round(a);
    assert(parse_api(s1) == parse_after_git(a.git_hash, s2));
    assert(parse_after_git(a.git_hash, s2) == parse_after_docs(a.git_hash, a.docs_url, s3));
    assert(parse_after_docs(a.git_hash, a.docs_url, s3) == parse_after_corr(
        a.git_hash,
        a.docs_url,
        a.correlation_id,
        s4,
    ));
    assert(parse_after_corr(a.git_hash, a.docs_url, a.correlation_id, s4) == parse_after_title(
        a.git_hash,
        a.docs_url,
        a.correlation_id,
        a.title,
        wire_s5(a),
    ));
    assert(parse_api(json_of(a)) == Some(a));
}

fn str_to_chars(s: &str) -> (v: Vec<char>)
    ensures
        v@ == s@,
{
    let n = s.unicode_len();
    let mut v: Vec<char> = Vec::new();
    let mut i: usize = 0;
    while i < n
        invariant
            0 <= i <= n,
            n == s@.len(),
            v@ == s@.take(i as int),
        decreases n - i,
    {
        v.push(s.get_char(i));
        proof {
            assert(v@ =~= s@.take(i + 1));
        }
        i = i + 1;
    }
    proof {
        assert(s@.take(n as int) =~= s@);
    }
    v
}

fn eat_lit(v: &Vec<char>, pos: usize, lit: &str) -> (r: Option<usize>)
    requires
        pos <= v@.len(),
    ensures
        (r matches Some(p2) ==> pos <= p2 <= v@.len() && parse_lit(v@.skip(pos as int), lit@)
            == Some(v@.skip(p2 as int))),
        (r is None ==> parse_lit(v@.skip(pos as int), lit@) is None),
{
    let ghost s = v@.skip(pos as int);
    let m = lit.unicode_len();
    if m > v.len() - pos {
        return None;
    }
    let mut j: usize = 0;
    while j < m
        invariant
            0 <= j <= m,
            m == lit@.len(),
            pos + m <= v@.len(),
            v@.len() <= usize::MAX,
            s == v@.skip(pos as int),
            s.take(j as int) == lit@.take(j as int),
        decreases m - j,
    {
        let c = v[pos + j];
        proof {
            assert(s[j as int] == v@[pos + j]);
        }
        if c != lit.get_char(j) {
            proof {
                if parse_lit(s, lit@) is Some {
                    assert(s.take(m as int)[j as int] == lit@[j as int]);
                    assert(s.take(m as int)[j as int] == s[j as int]);
                }
            }
            return None;
        }
        proof {
            assert(s.take(j + 1) =~= s.take(j as int).push(s[j as int]));
            assert(lit@.take(j + 1) =~= lit@.take(j as int).push(lit@[j as int]));
        }
        j = j + 1;
    }
    proof {
        assert(lit@.take(m as int) =~= lit@);
        assert(s.take(m as int) == lit@);
        assert(s.skip(m as int) =~= v@.skip(pos + m));
    }
    Some(pos + m)
}

fn is_hex_exec(c: char) -> (r: bool)
    ensures
        r == is_hex_lower(c),
{
    ('0' <= c && c <= '9') || ('a' <= c && c <= 'f')
}

fn hex_val_exec(c: char) -> (r: u32)
    requires
        is_hex_lower(c),
    ensures
        r as nat == hex_val(c),
        r < 16,
{
    if '0' <= c && c <= '9' {
        (c as u32) - 48
    } else {
        (c as u32) - 87
    }
}

fn parse_jstring_exec(v: &Vec<char>, pos: usize) -> (r: Option<(String, usize)>)
    requires
        pos <= v@.len(),
    ensures
        (r matches Some(p) ==> p.1 <= v@.len() && parse_jstring(v@.skip(pos as int)) == Some(
            (p.0@, v@.skip(p.1 as int)),
        )),
        (r is None ==> parse_jstring(v@.skip(pos as int)) is None),
    decreases v@.len() - pos,
{
    let ghost s = v@.skip(pos as int);
    if pos == v.len() {
        return None;
    }
    let c0 = v[pos];
    proof {
        assert(s[0] == v@[pos as int]);
    }
    if c0 == '"' {
        proof {
            assert(s.drop_first() =~= v@.skip(pos + 1));
        }
        return Some((String::new(), pos + 1));
    }
    if c0 == '\\' {
        if pos + 1 == v.len() {
            return None;
        }
        let c1 = v[pos + 1];
        proof {
            assert(s[1] == v@[pos + 1]);
        }
        if c1 == '"' || c1 == '\\' {
            let decoded = if c1 == '"' {
                '"'
            } else {
                '\\'
            };
            proof {
                assert(s.skip(2) =~= v@.skip(pos + 2));
            }
            match parse_jstring_exec(v, pos + 2) {
                Some((tail, p2)) => {
                    let mut out = String::new();
                    push_char(&mut out, decoded);
                    out.append(tail.as_str());
                    proof {
                        assert(out@ =~= seq![decoded] + tail@);
                    }
                    return Some((out, p2));
                },
                None => {
                    return None;
                },
            }
        } else if c1 == 'u' {
            if v.len() - pos < 6 {
                return None;
            }
            let c2 = v[pos + 2];
            let c3 = v[pos + 3];
            let c4 = v[pos + 4];
            let c5 = v[pos + 5];
            proof {
                assert(s[2] == v@[pos + 2]);
                assert(s[3] == v@[pos + 3]);
                assert(s[4] == v@[pos + 4]);
                assert(s[5] == v@[pos + 5]);
            }
            if c2 != '0' || c3 != '0' {
                return None;
            }
            if !is_hex_exec(c4) || !is_hex_exec(c5) {
                return None;
            }
            let hv: u32 = hex_val_exec(c4) * 16 + hex_val_exec(c5);
            if hv >= 32 {
                return None;
            }
            let decoded = (hv as u8) as char;
            proof {
                assert(s.skip(6) =~= v@.skip(pos + 6));
                assert(decoded == ((hex_val(s[4]) * 16 + hex_val(s[5])) as char));
            }
            match parse_jstring_exec(v, pos + 6) {
                Some((tail, p2)) => {
                    let mut out = String::new();
                    push_char(&mut out, decoded);
                    out.append(tail.as_str());
                    proof {
                        assert(out@ =~= seq![decoded] + tail@);
                    }
                    return Some((out, p2));
                },
                None => {
                    return None;
                },
            }
        } else {
            return None;
        }
    }
    proof {
        // the executable comparison reads the codepoint through a u32 cast
        vstd::utf8::char_is_scalar(c0);
        vstd::utf8::char_u32_cast(c0, c0 as u32);
        assert(c0 as nat == (c0 as u32) as nat);
    }
    if (c0 as u32) < 32 {
        return None;
    }
    proof {
        assert(s.drop_first() =~= v@.skip(pos + 1));
    }
    match parse_jstring_exec(v, pos + 1) {
        Some((tail, p2)) => {
            let mut out = String::new();
            push_char(&mut out, c0);
            out.append(tail.as_str());
            proof {
                assert(out@ =~= seq![c0] + tail@);
            }
            Some((out, p2))
        },
        None => None,
    }
}

fn parse_items_exec(v: &Vec<char>, pos: usize) -> (r: Option<(Vec<String>, usize)>)
    requires
        pos <= v@.len(),
    ensures
        (r matches Some(p) ==> p.1 <= v@.len() && parse_items(v@.skip(pos as int)) == Some(
            (p.0@.map_values(|x: String| x@), v@.skip(p.1 as int)),
        )),
        (r is None ==> parse_items(v@.skip(pos as int)) is None),
    decreases v@.len() - pos,
{
    let ghost s = v@.skip(pos as int);
    if pos == v.len() {
        return None;
    }
    proof {
        assert(s[0] == v@[pos as int]);
    }
    if v[pos] != '"' {
        return None;
    }
    proof {
        assert(s.drop_first() =~= v@.skip(pos + 1));
    }
    match parse_jstring_exec(v, pos + 1) {
        None => None,
        Some((first, p1)) => {
            proof {
                lemma_parse_jstring_shrinks(v@.skip(pos + 1));
            }
            if p1 == v.len() {
                return None;
            }
            let cn = v[p1];
            proof {
                assert(v@.skip(p1 as int)[0] == v@[p1 as int]);
            }
            if cn == ',' {
                proof {
                    assert(v@.skip(p1 as int).drop_first() =~= v@.skip(p1 + 1));
                }
                match parse_items_exec(v, p1 + 1) {
                    None => None,
                    Some((xs, p2)) => {
                        let ghost tail_views = xs@.map_values(|x: String| x@);
                        let mut xs2 = xs;
                        xs2.insert(0, first);
                        proof {
                            assert(xs2@.map_values(|x: String| x@) =~= seq![first@]
                                + tail_views);
                        }
                        Some((xs2, p2))
                    },
                }
            } else if cn == ']' {
                let mut xs: Vec<String> = Vec::new();
                xs.push(first);
                proof {
                    assert(xs@.map_values(|x: String| x@) =~= seq![first@]);
                    assert(v@.skip(p1 as int).drop_first() =~= v@.skip(p1 + 1));
                }
                Some((xs, p1 + 1))
            } else {
                None
            }
        },
    }
}

impl ApiError {
    /// Parse the wire form back into a record. Exactly the shape `to_json`
    /// writes is accepted; anything else is rejected.
    #[verifier::rlimit(100)]
    pub fn from_json(s: &str) -> (r: Option<ApiError>)
        ensures
            (r matches Some(a) ==> parse_api(s@) == Some(a@)),
            (r is None ==> parse_api(s@) is None),
    {
        let v = str_to_chars(s);
        proof {
            assert(v@.skip(0) =~= s@);
        }
        let p0 = match eat_lit(&v, 0, "{\"git_hash\":\"") {
            Some(p) => p,
            None => {
                return None;
            },
        };
        let (git_hash, p1) = match parse_jstring_exec(&v, p0) {
            Some(x) => x,
            None => {
                return None;
            },
        };
        let p1b = match eat_lit(&v, p1, ",\"docs_url\":\"") {
            Some(p) => p,
            None => {
                return None;
            },
        };
        let (docs_url, p2) = match parse_jstring_exec(&v, p1b) {
            Some(x) => x,
            None => {
                return None;
            },
        };
        let p2b = match eat_lit(&v, p2, ",\"correlation_id\":\"") {
            Some(p) => p,
            None => {
                return None;
            },
        };
        let (correlation_id, p3) = match parse_jstring_exec(&v, p2b) {
            Some(x) => x,
            None => {
                return None;
            },
        };
        let p3b = match eat_lit(&v, p3, ",\"title\":\"") {
            Some(p) => p,
            None => {
                return None;
            },
        };
        let (title, p4) = match parse_jstring_exec(&v, p3b) {
            Some(x) => x,
            None => {
                return None;
            },
        };
        let (code, p5) = match eat_lit(&v, p4, ",\"code\":\"") {
            Some(q) => match parse_jstring_exec(&v, q) {
                Some((c, p)) => (Some(c), p),
                None => {
                    return None;
                },
            },
            None => (None, p4),
        };
        let (help, p6) = match eat_lit(&v, p5, ",\"help\":\"") {
            Some(q) => match parse_jstring_exec(&v, q) {
                Some((hp, p)) => (Some(hp), p),
                None => {
                    return None;
                },
            },
            None => (None, p5),
        };
        let p7 = match eat_lit(&v, p6, ",\"history\":[") {
            Some(p) => p,
            None => {
                return None;
            },
        };
        let (items, p8) = if p7 < v.len() && v[p7] == ']' {
            proof {
                assert(v@.skip(p7 as int)[0] == v@[p7 as int]);
                assert(v@.skip(p7 as int).drop_first() =~= v@.skip(p7 + 1));
            }
            (Vec::new(), p7 + 1)
        } else {
            proof {
                if p7 < v@.len() {
                    assert(v@.skip(p7 as int)[0] == v@[p7 as int]);
                }
            }
            match parse_items_exec(&v, p7) {
                Some(x) => x,
                None => {
                    return None;
                },
            }
        };
        proof {
            reveal_strlit("}");
        }
        if !(p8 < v.len() && v.len() - p8 == 1) {
            proof {
                if v@.skip(p8 as int) == "}"@ {
                    assert(v@.skip(p8 as int).len() == 1);
                }
            }
            return None;
        }
        if v[p8] != '}' {
            proof {
                assert(v@.skip(p8 as int)[0] == v@[p8 as int]);
                if v@.skip(p8 as int) == "}"@ {
                    assert(v@.skip(p8 as int)[0] == '}');
                }
            }
            return None;
        }
        proof {
            assert(v@.skip(p8 as int) =~= "}"@);
        }
        let mut history: Vec<ErrorFrame> = Vec::new();
        let ghost item_views = items@.map_values(|x: String| x@);
        let mut k: usize = 0;
        while k < items.len()
            invariant
                0 <= k <= items.len(),
                item_views == items@.map_values(|x: String| x@),
                frames(history@) == item_views.take(k as int),
            decreases items.len() - k,
        {
            history.push(ErrorFrame { message: items[k].clone() });
            proof {
                assert(item_views.take(k + 1) =~= item_views.take(k as int).push(
                    item_views[k as int],
                ));
                assert(frames(history@) =~= item_views.take(k as int).push(
                    item_views[k as int],
                ));
            }
            k = k + 1;
        }
        proof {
            assert(item_views.take(items@.len() as int) =~= item_views);
        }
        let a = ApiError { git_hash, docs_url, correlation_id, title, code, help, history };
        proof {
            assert(parse_api(s@) == Some(a@));
        }
        Some(a)
    }
}

/// Law: when the record carries neither a code nor a help text, the
/// serialized form omits both keys at the object level — parsing the wire
/// form back finds no code and no help field.
pub proof fn lemma_json_omits_absent_fields(a: ApiErrorV)
    requires
        a.code is None,
        a.help is None,
    ensures
        parse_api(json_of(a)) matches Some(b) && b.code is None && b.help is None,
{
    lemma_json_round_trip(a);
}

} // verus!

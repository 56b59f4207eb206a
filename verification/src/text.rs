//! Character-level helpers shared by the rest of the library: decimal
//! rendering and parsing of unsigned integers, and small string utilities.

use vstd::prelude::*;

verus! {

/// Relies on `String::push`: appends one character at the end of the string.
#[verifier::external_body]
pub fn push_char(s: &mut String, c: char)
    ensures
        final(s)@ == old(s)@.push(c),
{
    s.push(c);
}

/// The sequence of views of a sequence of strings.
pub open spec fn strs(s: Seq<String>) -> Seq<Seq<char>> {
    s.map_values(|x: String| x@)
}

pub fn clone_strings(v: &Vec<String>) -> (r: Vec<String>)
    ensures
        r@ == v@,
{
    let mut r: Vec<String> = Vec::new();
    let mut i: usize = 0;
    while i < v.len()
        invariant
            0 <= i <= v.len(),
            r@ == v@.take(i as int),
        decreases v.len() - i,
    {
        r.push(v[i].clone());
        proof {
            assert(r@ =~= v@.take(i + 1));
        }
        i = i + 1;
    }
    proof {
        assert(v@.take(v@.len() as int) =~= v@);
    }
    r
}

/// The decimal digit character for `n % 10`.
pub open spec fn dec_digit(n: nat) -> char {
    (48 + n % 10) as char
}

/// The decimal rendering of `n`, most significant digit first.
pub open spec fn dec_str(n: nat) -> Seq<char>
    decreases n,
{
    if n < 10 {
        seq![dec_digit(n)]
    } else {
        dec_str(n / 10).push(dec_digit(n))
    }
}

pub fn u64_to_string(n: u64) -> (r: String)
    ensures
        r@ == dec_str(n as nat),
    decreases n,
{
    if n < 10 {
        let mut s = String::new();
        push_char(&mut s, (48u8 + n as u8) as char);
        s
    } else {
        let mut s = u64_to_string(n / 10);
        push_char(&mut s, (48u8 + (n % 10) as u8) as char);
        s
    }
}

pub open spec fn is_dec_digit(c: char) -> bool {
    '0' <= c && c <= '9'
}

pub open spec fn digit_val(c: char) -> nat {
    (c as int - 48) as nat
}

pub open spec fn all_digits(s: Seq<char>) -> bool {
    forall|i: int| 0 <= i < s.len() ==> is_dec_digit(#[trigger] s[i])
}

/// The numeric value of a digit string, read in base ten.
pub open spec fn dec_val(s: Seq<char>) -> nat
    decreases s.len(),
{
    if s.len() == 0 {
        0
    } else {
        dec_val(s.drop_last()) * 10 + digit_val(s.last())
    }
}

/// The digit portion of a decimal string: one optional leading `+` is
/// stripped, as Rust's unsigned parsing strips it.
pub open spec fn num_digits(s: Seq<char>) -> Seq<char> {
    if s.len() > 0 && s[0] == '+' {
        s.drop_first()
    } else {
        s
    }
}

/// A string is accepted as a `u64` exactly as Rust's `u64` parsing accepts
/// it: an optional leading `+`, then one or more digits, value in range.
pub open spec fn parses_to_u64(s: Seq<char>) -> bool {
    num_digits(s).len() > 0 && all_digits(num_digits(s)) && dec_val(num_digits(s)) <= u64::MAX
}

/// The numeric value of an accepted decimal string.
pub open spec fn u64_value(s: Seq<char>) -> nat {
    dec_val(num_digits(s))
}

proof fn lemma_dec_val_step(s: Seq<char>, i: int)
    requires
        0 <= i < s.len(),
    ensures
        dec_val(s.take(i + 1)) == dec_val(s.take(i)) * 10 + digit_val(s[i]),
{
    assert(s.take(i + 1).drop_last() =~= s.take(i));
    assert(s.take(i + 1).last() == s[i]);
}

proof fn lemma_dec_val_prefix_le(s: Seq<char>, i: int)
    requires
        0 <= i <= s.len(),
    ensures
        dec_val(s.take(i)) <= dec_val(s),
    decreases s.len() - i,
{
    if i < s.len() {
        lemma_dec_val_step(s, i);
        lemma_dec_val_prefix_le(s, i + 1);
    } else {
        assert(s.take(i) =~= s);
    }
}

/// The sequence of views of a sequence of string slices.
pub open spec fn str_views(s: Seq<&str>) -> Seq<Seq<char>> {
    s.map_values(|x: &str| x@)
}

pub fn check_all_digits(s: &str) -> (r: bool)
    ensures
        r == all_digits(s@),
{
    let n = s.unicode_len();
    let mut i: usize = 0;
    while i < n
        invariant
            0 <= i <= n,
            n == s@.len(),
            all_digits(s@.take(i as int)),
        decreases n - i,
    {
        let c = s.get_char(i);
        if c < '0' || c > '9' {
            return false;
        }
        proof {
            assert(forall|j: int| 0 <= j < i + 1 ==> is_dec_digit(#[trigger] s@.take(i + 1)[j]));
        }
        i = i + 1;
    }
    proof {
        assert(s@.take(n as int) =~= s@);
    }
    true
}

pub fn parse_u64(s: &str) -> (r: Option<u64>)
    ensures
        (r matches Some(v) ==> parses_to_u64(s@) && v as nat == u64_value(s@)),
        (r is None ==> !parses_to_u64(s@)),
{
    let n = s.unicode_len();
    if n == 0 {
        return None;
    }
    let start: usize = if s.get_char(0) == '+' {
        1
    } else {
        0
    };
    let ghost body = num_digits(s@);
    proof {
        assert(body =~= s@.skip(start as int));
    }
    if start == n {
        return None;
    }
    let mut acc: u64 = 0;
    let mut i: usize = start;
    while i < n
        invariant
            start <= i <= n,
            start <= 1,
            n == s@.len(),
            body == num_digits(s@),
            body == s@.skip(start as int),
            all_digits(body.take((i - start) as int)),
            acc as nat == dec_val(body.take((i - start) as int)),
        decreases n - i,
    {
        let c = s.get_char(i);
        proof {
            assert(body[(i - start) as int] == s@[i as int]);
        }
        if c < '0' || c > '9' {
            return None;
        }
        let d: u64 = (c as u32 as u64) - 48;
        proof {
            lemma_dec_val_step(body, (i - start) as int);
            assert(all_digits(body.take((i - start) as int + 1)));
        }
        if acc > (u64::MAX - d) / 10 {
            proof {
                lemma_dec_val_prefix_le(body, (i - start) as int + 1);
            }
            return None;
        }
        acc = acc * 10 + d;
        i = i + 1;
    }
    proof {
        assert(body.take((n - start) as int) =~= body);
    }
    Some(acc)
}

/// One character as a rejected input is quoted: quotes and backslashes get
/// a backslash escape; NUL, newline, carriage return and tab their short
/// forms; other ASCII control characters (including delete) a braced
/// hexadecimal escape; everything else stands for itself. This matches
/// Rust's Debug formatting on ASCII text; characters outside ASCII always
/// stand for themselves here, where Debug would escape the non-printable
/// ones among them.
pub open spec fn debug_escape_char(c: char) -> Seq<char> {
    if c == '"' {
        seq!['\\', '"']
    } else if c == '\\' {
        seq!['\\', '\\']
    } else if c == '\n' {
        seq!['\\', 'n']
    } else if c == '\r' {
        seq!['\\', 'r']
    } else if c == '\t' {
        seq!['\\', 't']
    } else if (c as nat) == 0 {
        seq!['\\', '0']
    } else if (c as nat) < 32 || (c as nat) == 127 {
        if (c as nat) < 16 {
            seq!['\\', 'u', '{', crate::json::hex_digit(c as nat), '}']
        } else {
            seq![
                '\\',
                'u',
                '{',
                crate::json::hex_digit((c as nat) / 16),
                crate::json::hex_digit((c as nat) % 16),
                '}',
            ]
        }
    } else {
        seq![c]
    }
}

/// A string's characters as they are written between the surrounding
/// quotes of a rejected input.
pub open spec fn debug_escape(s: Seq<char>) -> Seq<char>
    decreases s.len(),
{
    if s.len() == 0 {
        Seq::empty()
    } else {
        debug_escape_char(s[0]) + debug_escape(s.drop_first())
    }
}

proof fn lemma_debug_escape_push(s: Seq<char>, c: char)
    ensures
        debug_escape(s.push(c)) == debug_escape(s) + debug_escape_char(c),
    decreases s.len(),
{
    if s.len() == 0 {
        assert(s.push(c).drop_first() =~= Seq::<char>::empty());
        assert(s.push(c)[0] == c);
        assert(debug_escape(s.push(c)) == debug_escape_char(c) + debug_escape(
            s.push(c).drop_first(),
        ));
        assert(debug_escape(s.push(c)) =~= debug_escape(s) + debug_escape_char(c));
    } else {
        assert(s.push(c).drop_first() =~= s.drop_first().push(c));
        assert(s.push(c)[0] == s[0]);
        lemma_debug_escape_push(s.drop_first(), c);
        assert(debug_escape(s.push(c)) =~= debug_escape(s) + debug_escape_char(c));
    }
}

pub fn append_debug_escaped(out: &mut String, s: &str)
    ensures
        final(out)@ == old(out)@ + debug_escape(s@),
{
    let n = s.unicode_len();
    let mut i: usize = 0;
    while i < n
        invariant
            0 <= i <= n,
            n == s@.len(),
            out@ == old(out)@ + debug_escape(s@.take(i as int)),
        decreases n - i,
    {
        let c = s.get_char(i);
        proof {
            lemma_debug_escape_push(s@.take(i as int), c);
            assert(s@.take(i + 1) =~= s@.take(i as int).push(c));
        }
        if c == '"' {
            out.append("\\\"");
            proof {
                reveal_strlit("\\\"");
                assert("\\\""@ =~= debug_escape_char(c));
            }
        } else if c == '\\' {
            out.append("\\\\");
            proof {
                reveal_strlit("\\\\");
                assert("\\\\"@ =~= debug_escape_char(c));
            }
        } else if c == '\n' {
            out.append("\\n");
            proof {
                reveal_strlit("\\n");
                assert("\\n"@ =~= debug_escape_char(c));
            }
        } else if c == '\r' {
            out.append("\\r");
            proof {
                reveal_strlit("\\r");
                assert("\\r"@ =~= debug_escape_char(c));
            }
        } else if c == '\t' {
            out.append("\\t");
            proof {
                reveal_strlit("\\t");
                assert("\\t"@ =~= debug_escape_char(c));
            }
        } else if (c as u32) == 0 {
            out.append("\\0");
            proof {
                reveal_strlit("\\0");
                assert("\\0"@ =~= debug_escape_char(c));
            }
        } else if (c as u32) < 32 || (c as u32) == 127 {
            let v: u32 = c as u32;
            out.append("\\u{");
            if v < 16 {
                push_char(out, crate::json::hex_digit_exec(v));
            } else {
                push_char(out, crate::json::hex_digit_exec(v / 16));
                push_char(out, crate::json::hex_digit_exec(v % 16));
            }
            push_char(out, '}');
            proof {
                reveal_strlit("\\u{");
                if v < 16 {
                    assert("\\u{"@.push(crate::json::hex_digit(v as nat)).push('}')
                        =~= debug_escape_char(c));
                } else {
                    assert("\\u{"@.push(crate::json::hex_digit((v / 16) as nat)).push(
                        crate::json::hex_digit((v % 16) as nat),
                    ).push('}') =~= debug_escape_char(c));
                }
            }
        } else {
            push_char(out, c);
            proof {
                assert(Seq::<char>::empty().push(c) =~= debug_escape_char(c));
            }
        }
        proof {
            assert(out@ =~= old(out)@ + debug_escape(s@.take(i + 1)));
        }
        i = i + 1;
    }
    proof {
        assert(s@.take(n as int) =~= s@);
    }
}

} // verus!

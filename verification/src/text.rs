//! Textual serialization of field values and parsing of the platform's
//! rendered thread identifier.
//!
//! Booleans and 64-bit signed integers are rendered to their canonical
//! textual forms by verified code. The thread identifier arrives as the
//! platform's rendered text (`ThreadId(<n>)`); the wrapper text is stripped
//! and the remainder parsed as an unsigned integer.

use vstd::prelude::*;
use vstd::string::StrSliceExecFns;
use vstd::string::StringExecFns;

verus! {

// ---------------------------------------------------------------------------
// Decimal rendering
// ---------------------------------------------------------------------------

/// The character for one decimal digit.
pub open spec fn spec_digit_char(d: nat) -> char {
    if d == 0 {
        '0'
    } else if d == 1 {
        '1'
    } else if d == 2 {
        '2'
    } else if d == 3 {
        '3'
    } else if d == 4 {
        '4'
    } else if d == 5 {
        '5'
    } else if d == 6 {
        '6'
    } else if d == 7 {
        '7'
    } else if d == 8 {
        '8'
    } else {
        '9'
    }
}

/// The canonical decimal text of a natural number: no sign, no leading
/// zeros (except for the number zero itself).
pub open spec fn spec_u64_text(n: nat) -> Seq<char>
    decreases n,
{
    if n < 10 {
        seq![spec_digit_char(n)]
    } else {
        spec_u64_text(n / 10).push(spec_digit_char(n % 10))
    }
}

/// The canonical decimal text of a signed number: a `-` sign for negative
/// values, followed by the decimal text of the magnitude.
pub open spec fn spec_i64_text(n: int) -> Seq<char> {
    if n < 0 {
        seq!['-'] + spec_u64_text((-n) as nat)
    } else {
        spec_u64_text(n as nat)
    }
}

/// The canonical text of a boolean.
pub open spec fn spec_bool_text(b: bool) -> Seq<char> {
    if b {
        "true"@
    } else {
        "false"@
    }
}

fn digit_str(d: u64) -> (r: &'static str)
    requires
        d < 10,
    ensures
        r@ == seq![spec_digit_char(d as nat)],
{
    proof {
        reveal_strlit("0");
        reveal_strlit("1");
        reveal_strlit("2");
        reveal_strlit("3");
        reveal_strlit("4");
        reveal_strlit("5");
        reveal_strlit("6");
        reveal_strlit("7");
        reveal_strlit("8");
        reveal_strlit("9");
    }
    let r: &'static str = match d {
        0 => "0",
        1 => "1",
        2 => "2",
        3 => "3",
        4 => "4",
        5 => "5",
        6 => "6",
        7 => "7",
        8 => "8",
        _ => "9",
    };
    proof {
        assert(r@ =~= seq![spec_digit_char(d as nat)]);
    }
    r
}

/// Renders an unsigned 64-bit integer as decimal text.
pub fn u64_text(n: u64) -> (r: String)
    ensures
        r@ == spec_u64_text(n as nat),
    decreases n,
{
    if n < 10 {
        digit_str(n).to_owned()
    } else {
        let mut s = u64_text(n / 10);
        s.append(digit_str(n % 10));
        proof {
            assert(s@ =~= spec_u64_text(((n as nat) / 10) as nat).push(
                spec_digit_char((n as nat) % 10),
            ));
        }
        s
    }
}

/// Renders a signed 64-bit integer as decimal text, with a leading `-`
/// for negative values.
pub fn i64_text(n: i64) -> (r: String)
    ensures
        r@ == spec_i64_text(n as int),
{
    if n >= 0 {
        u64_text(n as u64)
    } else {
        let wide: i128 = -(n as i128);
        assert(0 < wide <= u64::MAX);
        let mag: u64 = wide as u64;
        let mut s = "-".to_owned();
        let t = u64_text(mag);
        s.append(t.as_str());
        proof {
            reveal_strlit("-");
            assert(s@ =~= seq!['-'] + spec_u64_text((-(n as int)) as nat));
        }
        s
    }
}

/// Renders a boolean as `true` or `false`.
pub fn bool_text(b: bool) -> (r: String)
    ensures
        r@ == spec_bool_text(b),
{
    if b {
        "true".to_owned()
    } else {
        "false".to_owned()
    }
}

// ---------------------------------------------------------------------------
// Decimal parsing
// ---------------------------------------------------------------------------

/// Whether a character is a decimal digit.
pub open spec fn spec_is_digit(c: char) -> bool {
    48 <= c as int && c as int <= 57
}

/// The numeric value of one digit character.
pub open spec fn spec_digit_val(c: char) -> nat {
    (c as int - 48) as nat
}

/// Whether every character of a text is a decimal digit.
pub open spec fn spec_all_digits(s: Seq<char>) -> bool {
    forall|i: int| 0 <= i < s.len() ==> spec_is_digit(#[trigger] s[i])
}

/// The numeric value of a digit text, most significant digit first.
pub open spec fn spec_digits_val(s: Seq<char>) -> nat
    decreases s.len(),
{
    if s.len() == 0 {
        0
    } else {
        spec_digits_val(s.drop_last()) * 10 + spec_digit_val(s.last())
    }
}

/// The value of a digit text never shrinks as the text is extended on the
/// right.
proof fn lemma_digits_val_monotone(s: Seq<char>, i: int, j: int)
    requires
        0 <= i <= j <= s.len(),
    ensures
        spec_digits_val(s.take(i)) <= spec_digits_val(s.take(j)),
    decreases j - i,
{
    if i < j {
        lemma_digits_val_monotone(s, i, j - 1);
        assert(s.take(j).drop_last() =~= s.take(j - 1));
        let v = spec_digits_val(s.take(j - 1));
        assert(spec_digits_val(s.take(j)) == v * 10 + spec_digit_val(s.take(j).last()));
        assert(v * 10 >= v);
    }
}

/// Parses a text of decimal digits as an unsigned 64-bit integer. Returns
/// `Some` exactly when the text is nonempty, consists of digits only, and
/// the value fits in 64 bits.
pub fn parse_u64_digits(s: &str) -> (r: Option<u64>)
    ensures
        match r {
            Some(n) => s@.len() > 0 && spec_all_digits(s@) && spec_digits_val(s@) <= u64::MAX
                && n == spec_digits_val(s@),
            None => s@.len() == 0 || !spec_all_digits(s@) || spec_digits_val(s@) > u64::MAX,
        },
{
    let len = s.unicode_len();
    if len == 0 {
        return None;
    }
    let mut val: u64 = 0;
    let mut i: usize = 0;
    while i < len
        invariant
            len == s@.len(),
            0 <= i <= len,
            spec_all_digits(s@.take(i as int)),
            val == spec_digits_val(s@.take(i as int)),
        decreases len - i,
    {
        let c = s.get_char(i);
        let cv = c as u32;
        if cv < 48 || cv > 57 {
            proof {
                assert(!spec_is_digit(s@[i as int]));
            }
            return None;
        }
        let d: u64 = (cv - 48) as u64;
        proof {
            assert(s@.take(i + 1).drop_last() =~= s@.take(i as int));
            assert(s@.take(i + 1).last() == s@[i as int]);
        }
        let wide: u128 = (val as u128) * 10 + (d as u128);
        if wide > u64::MAX as u128 {
            proof {
                assert(spec_digits_val(s@.take(i + 1)) == wide);
                lemma_digits_val_monotone(s@, i + 1, len as int);
                assert(s@.take(len as int) =~= s@);
            }
            return None;
        }
        val = wide as u64;
        i = i + 1;
    }
    proof {
        assert(s@.take(len as int) =~= s@);
    }
    Some(val)
}

// ---------------------------------------------------------------------------
// Thread identifier text
// ---------------------------------------------------------------------------

/// Strips every leading repetition of the wrapper prefix `ThreadId(`.
pub open spec fn spec_strip_id_prefix(s: Seq<char>) -> Seq<char>
    decreases s.len(),
{
    if s.len() >= 9 && s.take(9) == "ThreadId("@ {
        spec_strip_id_prefix(s.skip(9))
    } else {
        s
    }
}

/// Strips every trailing `)` character.
pub open spec fn spec_strip_trailing_parens(s: Seq<char>) -> Seq<char>
    decreases s.len(),
{
    if s.len() > 0 && s.last() == ')' {
        spec_strip_trailing_parens(s.drop_last())
    } else {
        s
    }
}

/// The digit core of a rendered thread identifier: the text with the
/// wrapper prefix and the trailing parentheses removed.
pub open spec fn spec_thread_id_core(s: Seq<char>) -> Seq<char> {
    spec_strip_trailing_parens(spec_strip_id_prefix(s))
}

/// Whether a rendered thread identifier parses: its core is a nonempty
/// digit text whose value fits in 64 bits.
pub open spec fn spec_thread_id_parses(s: Seq<char>) -> bool {
    let core = spec_thread_id_core(s);
    core.len() > 0 && spec_all_digits(core) && spec_digits_val(core) <= u64::MAX
}

fn has_thread_id_prefix(s: &str) -> (b: bool)
    ensures
        b == (s@.len() >= 9 && s@.take(9) == "ThreadId("@),
{
    proof {
        reveal_strlit("ThreadId(");
    }
    let len = s.unicode_len();
    if len < 9 {
        return false;
    }
    let ok = s.get_char(0) == 'T' && s.get_char(1) == 'h' && s.get_char(2) == 'r' && s.get_char(3)
        == 'e' && s.get_char(4) == 'a' && s.get_char(5) == 'd' && s.get_char(6) == 'I'
        && s.get_char(7) == 'd' && s.get_char(8) == '(';
    proof {
        if ok {
            assert(s@.take(9) =~= "ThreadId("@);
        } else {
            if s@.take(9) == "ThreadId("@ {
                assert(s@.take(9)[0] == s@[0] && s@.take(9)[1] == s@[1] && s@.take(9)[2] == s@[2]
                    && s@.take(9)[3] == s@[3] && s@.take(9)[4] == s@[4] && s@.take(9)[5] == s@[5]
                    && s@.take(9)[6] == s@[6] && s@.take(9)[7] == s@[7] && s@.take(9)[8] == s@[8]);
                assert(false);
            }
        }
    }
    ok
}

/// Parses the platform's rendered thread identifier: strips the leading
/// `ThreadId(` wrapper and the trailing parentheses, then parses the
/// remainder as a decimal unsigned integer. Returns `Some` exactly when the
/// remainder is a nonempty digit text whose value fits in 64 bits.
pub fn parse_thread_id(rendered: &str) -> (r: Option<u64>)
    ensures
        r is Some <==> spec_thread_id_parses(rendered@),
        r is Some ==> r->0 == spec_digits_val(spec_thread_id_core(rendered@)),
{
    let mut s: &str = rendered;
    while has_thread_id_prefix(s)
        invariant
            spec_strip_id_prefix(rendered@) == spec_strip_id_prefix(s@),
        decreases s@.len(),
    {
        let sublen = s.unicode_len();
        let rest = s.substring_char(9, sublen);
        proof {
            assert(rest@ =~= s@.skip(9));
        }
        s = rest;
    }
    let mut e = s.unicode_len();
    proof {
        assert(s@.take(e as int) =~= s@);
    }
    while e > 0 && s.get_char(e - 1) == ')'
        invariant
            e <= s@.len(),
            spec_strip_trailing_parens(s@) == spec_strip_trailing_parens(s@.take(e as int)),
        decreases e,
    {
        proof {
            assert(s@.take(e as int).drop_last() =~= s@.take(e - 1));
            assert(s@.take(e as int).last() == s@[e - 1]);
        }
        e = e - 1;
    }
    proof {
        assert(s@.take(s@.len() as int) =~= s@);
        if e > 0 {
            assert(s@.take(e as int).last() == s@[e - 1]);
        }
        assert(spec_strip_trailing_parens(s@.take(e as int)) == s@.take(e as int));
    }
    let core = s.substring_char(0, e);
    proof {
        assert(core@ =~= s@.take(e as int));
    }
    parse_u64_digits(core)
}

/// The numeric thread identifier of a rendered thread identifier text that
/// is known to parse. The renderer and the parser are owned by the same
/// platform layer, so a caller that obtained the text from the platform may
/// establish the precondition through [`parse_thread_id`].
pub fn thread_id_integer(rendered: &str) -> (r: u64)
    requires
        spec_thread_id_parses(rendered@),
    ensures
        r == spec_digits_val(spec_thread_id_core(rendered@)),
{
    match parse_thread_id(rendered) {
        Some(n) => n,
        None => vstd::pervasive::unreached(),
    }
}

} // verus!

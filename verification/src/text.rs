//! Decimal rendering and prefix tests on strings.

use vstd::prelude::*;

verus! {

/// The ten decimal digits, indexed by their value.
pub const DECIMAL_DIGITS: [char; 10] = ['0', '1', '2', '3', '4', '5', '6', '7', '8', '9'];

/// The decimal digit that stands for `d` (for `d < 10`).
pub open spec fn digit_char(d: nat) -> char {
    DECIMAL_DIGITS@[d as int]
}

/// The decimal representation of `n`, most significant digit first, without
/// leading zeros (and `"0"` for zero): what `u64::to_string` produces.
pub open spec fn decimal(n: nat) -> Seq<char>
    decreases n,
{
    if n < 10 {
        seq![digit_char(n)]
    } else {
        decimal(n / 10).push(digit_char(n % 10))
    }
}

/// Whether `prefix` is a prefix of `s`.
pub open spec fn has_prefix(s: Seq<char>, prefix: Seq<char>) -> bool {
    prefix.is_prefix_of(s)
}

/// Appends one character to a string (`String::push`).
#[verifier::external_body]
fn push_char(s: &mut String, c: char)
    ensures
        final(s)@ == old(s)@.push(c),
{
    s.push(c);
}

/// Appends the decimal representation of `n` to `out`.
pub fn write_decimal(out: &mut String, n: u64)
    ensures
        final(out)@ == old(out)@ + decimal(n as nat),
    decreases n,
{
    if n >= 10 {
        write_decimal(out, n / 10);
    }
    let d = (n % 10) as usize;
    push_char(out, DECIMAL_DIGITS[d]);
    proof {
        assert(decimal(n as nat) =~= if n < 10 {
            seq![digit_char(n as nat)]
        } else {
            decimal((n / 10) as nat).push(digit_char((n % 10) as nat))
        });
    }
}

/// The decimal representation of `n`.
pub fn u64_to_decimal(n: u64) -> (s: String)
    ensures
        s@ == decimal(n as nat),
{
    let mut s = String::new();
    write_decimal(&mut s, n);
    assert(s@ =~= decimal(n as nat));
    s
}

/// Whether `s` begins with `prefix`.
pub fn starts_with(s: &str, prefix: &str) -> (b: bool)
    ensures
        b == has_prefix(s@, prefix@),
{
    let n = prefix.unicode_len();
    let m = s.unicode_len();
    if n > m {
        return false;
    }
    let mut i: usize = 0;
    while i < n
        invariant
            n == prefix@.len(),
            m == s@.len(),
            n <= m,
            i <= n,
            forall|j: int| 0 <= j < i ==> s@[j] == prefix@[j],
        decreases n - i,
    {
        if s.get_char(i) != prefix.get_char(i) {
            assert(!(prefix@ =~= s@.subrange(0, n as int))) by {
                assert(s@.subrange(0, n as int)[i as int] == s@[i as int]);
            }
            return false;
        }
        i = i + 1;
    }
    assert(prefix@ =~= s@.subrange(0, n as int));
    true
}

/// Whether `a` and `b` are the same text.
pub fn same_text(a: &str, b: &str) -> (r: bool)
    ensures
        r == (a@ == b@),
{
    if a.unicode_len() != b.unicode_len() {
        return false;
    }
    let r = starts_with(a, b);
    if r {
        assert(a@ =~= b@) by {
            assert(b@ =~= a@.subrange(0, b@.len() as int));
        }
    }
    r
}

/// `char::escape_debug(c)`: the text that debug output writes for the
/// character `c`.
pub uninterp spec fn char_escape_debug(c: char) -> Seq<char>;

/// The text of `c` as `char::escape_debug` gives it.
#[verifier::external_body]
fn escape_debug_char(c: char) -> (s: String)
    ensures
        s@ == char_escape_debug(c),
{
    c.escape_debug().to_string()
}

/// How debug output writes the character `c` inside a quoted text: as
/// `char::escape_debug` writes it, except that a single quote stays as it is
/// inside a string (`single_quote` false); inside a path it is escaped too.
pub open spec fn debug_escape(c: char, single_quote: bool) -> Seq<char> {
    if !single_quote && c == '\'' {
        seq!['\'']
    } else {
        char_escape_debug(c)
    }
}

/// The characters of `s`, each escaped as debug output writes it.
pub open spec fn debug_escaped(s: Seq<char>, single_quote: bool) -> Seq<char>
    decreases s.len(),
{
    if s.len() == 0 {
        Seq::empty()
    } else {
        debug_escaped(s.drop_last(), single_quote) + debug_escape(s.last(), single_quote)
    }
}

/// How debug output writes the text `s`: escaped, between double quotes
/// (single quotes escaped too where `single_quote` says so: a path is
/// written so, a string is not).
pub open spec fn debug_quoted(s: Seq<char>, single_quote: bool) -> Seq<char> {
    seq!['"'] + debug_escaped(s, single_quote) + seq!['"']
}

/// Appends `c` as debug output writes it inside a quoted text.
fn write_debug_escape(out: &mut String, c: char, single_quote: bool)
    ensures
        final(out)@ == old(out)@ + debug_escape(c, single_quote),
{
    if !single_quote && c == '\'' {
        push_char(out, c);
    } else {
        let escaped = escape_debug_char(c);
        out.append(escaped.as_str());
    }
}

/// Appends `s` as debug output writes it (see `debug_quoted`).
pub fn write_debug_quoted(out: &mut String, s: &str, single_quote: bool)
    ensures
        final(out)@ == old(out)@ + debug_quoted(s@, single_quote),
{
    let ghost start = out@;
    push_char(out, '"');
    let n = s.unicode_len();
    let mut i: usize = 0;
    while i < n
        invariant
            n == s@.len(),
            i <= n,
            out@ == start + seq!['"'] + debug_escaped(s@.take(i as int), single_quote),
        decreases n - i,
    {
        let c = s.get_char(i);
        write_debug_escape(out, c, single_quote);
        proof {
            assert(s@.take(i + 1).drop_last() =~= s@.take(i as int));
            assert(s@.take(i + 1).last() == c);
        }
        i = i + 1;
    }
    push_char(out, '"');
    proof {
        assert(s@.take(n as int) =~= s@);
        assert(out@ =~= start + debug_quoted(s@, single_quote));
    }
}

/// The upper-case form of an ASCII lower-case letter; any other character
/// stays as it is.
pub open spec fn ascii_upper(c: char) -> char {
    if 'a' <= c && c <= 'z' {
        ((c as u32) - 32) as char
    } else {
        c
    }
}

/// `snake` with its underscores taken out and the letter after each
/// underscore upper-cased; the first letter too where `upper_first` says so.
pub open spec fn camel_from(snake: Seq<char>, upper_first: bool) -> Seq<char>
    decreases snake.len(),
{
    if snake.len() == 0 {
        Seq::empty()
    } else if snake[0] == '_' {
        camel_from(snake.drop_first(), true)
    } else {
        seq![if upper_first { ascii_upper(snake[0]) } else { snake[0] }] + camel_from(
            snake.drop_first(),
            false,
        )
    }
}

/// The PascalCase form of a snake_case name (`sign_proposal` gives
/// `SignProposal`).
pub open spec fn pascal_case(snake: Seq<char>) -> Seq<char> {
    camel_from(snake, true)
}

/// The lowerCamelCase form of a snake_case name (`last_voted_round` gives
/// `lastVotedRound`).
pub open spec fn lower_camel_case(snake: Seq<char>) -> Seq<char> {
    camel_from(snake, false)
}

} // verus!

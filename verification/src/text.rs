//! Text helpers with exact specifications: decimal numerals written and read,
//! padding, repetition, truncation and trimming, each as the standard
//! library's formatter or string method does it.

use vstd::prelude::*;
use vstd::string::StringSliceAdditionalSpecFns;
use vstd::utf8::{decode_utf8, encode_utf8, is_char_boundary};

verus! {

/// The ASCII digit for `d`, where `d < 10`.
pub open spec fn digit_char(d: nat) -> char {
    ((48 + d) as u32) as char
}

/// The decimal numeral of `n`: no sign, no leading zero (but "0" for zero).
pub open spec fn decimal_text(n: nat) -> Seq<char>
    decreases n,
{
    if n < 10 {
        seq![digit_char(n)]
    } else {
        decimal_text(n / 10).push(digit_char(n % 10))
    }
}

fn digit_str(d: u64) -> (s: &'static str)
    requires
        d < 10,
    ensures
        s@ == seq![digit_char(d as nat)],
{
    proof {
        reveal_strlit("0");
        reveal_strlit("1");
        reveal_strlit("2");
        reveal_strlit("3");
        reveal_strlit("4");
        reveal_strlit("5");
        reveal_strlit("6");
        reveal_strlit("7");
        reveal_strlit("8");
        reveal_strlit("9");
    }
    let s = match d {
        0 => "0",
        1 => "1",
        2 => "2",
        3 => "3",
        4 => "4",
        5 => "5",
        6 => "6",
        7 => "7",
        8 => "8",
        _ => "9",
    };
    assert(s@ =~= seq![digit_char(d as nat)]);
    s
}

/// Writes `n` in decimal, as `n.to_string()` does.
pub fn decimal(n: u64) -> (s: String)
    ensures
        s@ == decimal_text(n as nat),
    decreases n,
{
    if n < 10 {
        String::from_str(digit_str(n))
    } else {
        let mut s = decimal(n / 10);
        s.append(digit_str(n % 10));
        s
    }
}

/// `c` is an ASCII decimal digit.
pub open spec fn is_digit(c: char) -> bool {
    48 <= (c as u32) <= 57
}

/// The value of a run of decimal digits, most significant first.
pub open spec fn digits_value(s: Seq<char>) -> nat
    decreases s.len(),
{
    if s.len() == 0 {
        0
    } else {
        digits_value(s.drop_last()) * 10 + ((s.last() as u32) - 48) as nat
    }
}

/// The digits that `u64::from_str` reads: one leading `+` is allowed.
pub open spec fn unsigned_digits(s: Seq<char>) -> Seq<char> {
    if s.len() > 0 && s[0] == '+' {
        s.drop_first()
    } else {
        s
    }
}

/// What `s.parse::<u64>()` gives: the value of a non-empty run of ASCII digits
/// (after an optional `+`), provided it fits in 64 bits.
pub open spec fn parse_u64_text(s: Seq<char>) -> Option<u64> {
    let d = unsigned_digits(s);
    if d.len() > 0 && (forall|i: int| 0 <= i < d.len() ==> is_digit(#[trigger] d[i])) && digits_value(d)
        <= u64::MAX {
        Some(digits_value(d) as u64)
    } else {
        None
    }
}

proof fn lemma_digits_value_prefix(s: Seq<char>, k: int)
    requires
        0 <= k <= s.len(),
        forall|i: int| 0 <= i < s.len() ==> is_digit(#[trigger] s[i]),
    ensures
        digits_value(s.take(k)) <= digits_value(s),
    decreases s.len(),
{
    if k < s.len() {
        let t = s.drop_last();
        assert(t.take(k) =~= s.take(k));
        assert forall|i: int| 0 <= i < t.len() implies is_digit(#[trigger] t[i]) by {
            assert(t[i] == s[i]);
        }
        lemma_digits_value_prefix(t, k);
    } else {
        assert(s.take(k) =~= s);
    }
}

/// Reads a decimal `u64` as `s.parse::<u64>()` does.
pub fn parse_u64(s: &str) -> (r: Option<u64>)
    ensures
        r == parse_u64_text(s@),
{
    let n = s.unicode_len();
    let mut i: usize = 0;
    if n > 0 && s.get_char(0) == '+' {
        i = 1;
    }
    let start = i;
    let ghost d = unsigned_digits(s@);
    assert(d =~= s@.skip(start as int));
    if start == n {
        return None;
    }
    let mut v: u64 = 0;
    while i < n
        invariant
            start <= i <= n,
            n == s@.len(),
            d == s@.skip(start as int),
            d == unsigned_digits(s@),
            start < n,
            forall|j: int| 0 <= j < i - start ==> is_digit(#[trigger] d[j]),
            v as nat == digits_value(d.take(i - start)),
        decreases n - i,
    {
        let c = s.get_char(i);
        let code = c as u32;
        if code < 48 || code > 57 {
            assert(!is_digit(d[i - start]));
            assert(!(forall|j: int| 0 <= j < d.len() ==> is_digit(#[trigger] d[j])));
            return None;
        }
        let ghost k: int = i - start;
        assert(d.take(k + 1).drop_last() =~= d.take(k));
        assert(d.take(k + 1).last() == c);
        let digit = (code - 48) as u64;
        assert(digits_value(d.take(k + 1)) == digits_value(d.take(k)) * 10 + digit);
        if v > (u64::MAX - digit) / 10 {
            proof {
                assert(v * 10 + digit > u64::MAX) by (nonlinear_arith)
                    requires
                        v > (u64::MAX - digit) / 10,
                        digit <= 9,
                ;
                if forall|j: int| 0 <= j < d.len() ==> is_digit(#[trigger] d[j]) {
                    lemma_digits_value_prefix(d, k + 1);
                    assert(digits_value(d) > u64::MAX);
                }
            }
            return None;
        }
        v = v * 10 + digit;
        i = i + 1;
    }
    assert(d.take(n - start) =~= d);
    Some(v)
}

/// `n` space characters.
pub open spec fn spaces(n: nat) -> Seq<char> {
    Seq::new(n, |i: int| ' ')
}

/// `s` padded with spaces on both sides to `width` characters, as the
/// formatter's `{:^width$}` does: the extra space, if any, goes to the right.
/// A text already as wide as `width` is left alone.
pub open spec fn centered(s: Seq<char>, width: nat) -> Seq<char> {
    if s.len() >= width {
        s
    } else {
        let pad = (width - s.len()) as nat;
        spaces(pad / 2) + s + spaces((pad - pad / 2) as nat)
    }
}

/// `s` padded with spaces on the left to `width` characters, as `{:>width$}`
/// does.
pub open spec fn right_aligned(s: Seq<char>, width: nat) -> Seq<char> {
    if s.len() >= width {
        s
    } else {
        spaces((width - s.len()) as nat) + s
    }
}

/// `piece` written `n` times in a row.
pub open spec fn repeated(piece: Seq<char>, n: nat) -> Seq<char>
    decreases n,
{
    if n == 0 {
        Seq::empty()
    } else {
        repeated(piece, (n - 1) as nat) + piece
    }
}

fn push_spaces(s: &mut String, n: usize)
    ensures
        final(s)@ == old(s)@ + spaces(n as nat),
{
    let ghost start = s@;
    let mut i: usize = 0;
    while i < n
        invariant
            i <= n,
            s@ == start + spaces(i as nat),
        decreases n - i,
    {
        proof {
            reveal_strlit(" ");
        }
        s.append(" ");
        i = i + 1;
        assert(s@ =~= start + spaces(i as nat));
    }
}

/// Centers `s` in a field of `width` characters, as `format!("{:^width$}", s)`.
pub fn center(s: &str, width: usize) -> (r: String)
    ensures
        r@ == centered(s@, width as nat),
{
    let len = s.unicode_len();
    let mut r = String::new();
    if len >= width {
        r.append(s);
        assert(r@ =~= s@);
    } else {
        let pad = width - len;
        push_spaces(&mut r, pad / 2);
        r.append(s);
        push_spaces(&mut r, pad - pad / 2);
        assert(r@ =~= centered(s@, width as nat));
    }
    r
}

/// Right-aligns `s` in a field of `width` characters, as
/// `format!("{:>width$}", s)`.
pub fn align_right(s: &str, width: usize) -> (r: String)
    ensures
        r@ == right_aligned(s@, width as nat),
{
    let len = s.unicode_len();
    let mut r = String::new();
    if len < width {
        push_spaces(&mut r, width - len);
    }
    r.append(s);
    assert(r@ =~= right_aligned(s@, width as nat));
    r
}

/// Writes `piece` `n` times, as `piece.repeat(n)`.
pub fn repeat(piece: &str, n: usize) -> (r: String)
    ensures
        r@ == repeated(piece@, n as nat),
{
    let mut r = String::new();
    let mut i: usize = 0;
    assert(r@ =~= repeated(piece@, 0));
    while i < n
        invariant
            i <= n,
            r@ == repeated(piece@, i as nat),
        decreases n - i,
    {
        r.append(piece);
        i = i + 1;
    }
    r
}

/// The text that `trunc(s, max)` keeps: the first `max` bytes of the UTF-8
/// encoding of `s` when it is longer than that, else all of `s`.
pub open spec fn truncated(s: Seq<char>, max: nat) -> Seq<char> {
    if encode_utf8(s).len() > max {
        decode_utf8(encode_utf8(s).subrange(0, max as int))
    } else {
        s
    }
}

/// Cutting the UTF-8 encoding of `s` after `max` bytes splits no character
/// (or there is nothing to cut).
pub open spec fn cuts_cleanly(s: Seq<char>, max: nat) -> bool {
    encode_utf8(s).len() <= max || is_char_boundary(encode_utf8(s), max as int)
}

/// Keeps at most `max` bytes of `s`. Byte slicing in the middle of a
/// character panics, so `requires` leaves those inputs out.
pub fn trunc(s: &str, max: usize) -> (r: &str)
    requires
        cuts_cleanly(s@, max as nat),
    ensures
        r@ == truncated(s@, max as nat),
        r.spec_bytes() == if s.spec_bytes().len() > max {
            s.spec_bytes().subrange(0, max as int)
        } else {
            s.spec_bytes()
        },
{
    broadcast use vstd::utf8::encode_utf8_decode_utf8;

    let byte_len = s.as_bytes().len();
    if byte_len > max {
        let (head, _tail) = s.split_at(max);
        assert(head.spec_bytes() =~= encode_utf8(s@).subrange(0, max as int));
        assert(decode_utf8(encode_utf8(head@)) == head@);
        head
    } else {
        s
    }
}

/// `c` has the Unicode property White_Space, which is what `char::is_whitespace`
/// and `str::trim` go by.
pub open spec fn is_white_space(c: char) -> bool {
    let u = c as u32;
    ||| 0x09 <= u <= 0x0D
    ||| u == 0x20
    ||| u == 0x85
    ||| u == 0xA0
    ||| u == 0x1680
    ||| 0x2000 <= u <= 0x200A
    ||| u == 0x2028
    ||| u == 0x2029
    ||| u == 0x202F
    ||| u == 0x205F
    ||| u == 0x3000
}

/// `s` without its leading white space.
pub open spec fn trim_start_text(s: Seq<char>) -> Seq<char>
    decreases s.len(),
{
    if s.len() > 0 && is_white_space(s[0]) {
        trim_start_text(s.drop_first())
    } else {
        s
    }
}

/// `s` without its trailing white space.
pub open spec fn trim_end_text(s: Seq<char>) -> Seq<char>
    decreases s.len(),
{
    if s.len() > 0 && is_white_space(s.last()) {
        trim_end_text(s.drop_last())
    } else {
        s
    }
}

/// `s` without leading and trailing white space, as `str::trim` gives it.
pub open spec fn trimmed(s: Seq<char>) -> Seq<char> {
    trim_end_text(trim_start_text(s))
}

fn white_space(c: char) -> (b: bool)
    ensures
        b == is_white_space(c),
{
    let u = c as u32;
    (0x09 <= u && u <= 0x0D) || u == 0x20 || u == 0x85 || u == 0xA0 || u == 0x1680 || (0x2000 <= u
        && u <= 0x200A) || u == 0x2028 || u == 0x2029 || u == 0x202F || u == 0x205F || u == 0x3000
}

/// Drops leading and trailing white space, as `s.trim()` does.
pub fn trim(s: &str) -> (r: &str)
    ensures
        r@ == trimmed(s@),
{
    let n = s.unicode_len();
    let mut a: usize = 0;
    assert(s@.skip(0) =~= s@);
    while a < n && white_space(s.get_char(a))
        invariant
            a <= n,
            n == s@.len(),
            trim_start_text(s@) == trim_start_text(s@.skip(a as int)),
        decreases n - a,
    {
        assert(s@.skip(a as int).drop_first() =~= s@.skip(a + 1));
        a = a + 1;
    }
    assert(trim_start_text(s@) == s@.skip(a as int));
    let mut b: usize = n;
    assert(s@.subrange(a as int, b as int) =~= s@.skip(a as int));
    while b > a && white_space(s.get_char(b - 1))
        invariant
            a <= b <= n,
            n == s@.len(),
            trimmed(s@) == trim_end_text(s@.subrange(a as int, b as int)),
        decreases b - a,
    {
        assert(s@.subrange(a as int, b as int).drop_last() =~= s@.subrange(a as int, b - 1));
        b = b - 1;
    }
    s.substring_char(a, b)
}

/// The uppercase form of `s` that `str::to_uppercase` gives (Unicode's
/// uppercase mapping, independent of locale).
pub uninterp spec fn uppercase(s: Seq<char>) -> Seq<char>;

/// Calls `str::to_uppercase`. Its result is taken as the name `uppercase`
/// applied to the text; nothing else is claimed of it.
#[verifier::external_body]
pub(crate) fn to_uppercase(s: &str) -> (r: String)
    ensures
        r@ == uppercase(s@),
{
    s.to_uppercase()
}

proof fn lemma_decimal_digits(n: nat)
    ensures
        decimal_text(n).len() > 0,
        forall|i: int| 0 <= i < decimal_text(n).len() ==> is_digit(#[trigger] decimal_text(n)[i]),
        digits_value(decimal_text(n)) == n,
    decreases n,
{
    if n < 10 {
        assert((digit_char(n) as u32) == 48 + n);
        assert(decimal_text(n).drop_last() =~= Seq::<char>::empty());
        assert(digits_value(Seq::<char>::empty()) == 0);
    } else {
        lemma_decimal_digits(n / 10);
        let t = decimal_text(n);
        assert(t.drop_last() =~= decimal_text(n / 10));
        assert((t.last() as u32) == 48 + n % 10);
        assert(digits_value(t) == digits_value(decimal_text(n / 10)) * 10 + n % 10);
        assert forall|i: int| 0 <= i < t.len() implies is_digit(#[trigger] t[i]) by {
            if i < t.len() - 1 {
                assert(t[i] == decimal_text(n / 10)[i]);
            }
        }
    }
}

/// Reading back a decimal numeral gives the number written: `n.to_string()`
/// parses as `n`.
pub proof fn decimal_reads_back(n: u64)
    ensures
        parse_u64_text(decimal_text(n as nat)) == Some(n),
{
    lemma_decimal_digits(n as nat);
    let t = decimal_text(n as nat);
    assert(is_digit(t[0]));
    assert(unsigned_digits(t) == t);
}

/// Decimal numerals hold digits only.
pub proof fn decimal_has_only_digits(n: nat)
    ensures
        decimal_text(n).len() > 0,
        forall|i: int| 0 <= i < decimal_text(n).len() ==> is_digit(#[trigger] decimal_text(n)[i]),
{
    lemma_decimal_digits(n);
}

/// Compares two texts character by character, as `==` on string slices does.
pub fn same_text(a: &str, b: &str) -> (r: bool)
    ensures
        r == (a@ == b@),
{
    let n = a.unicode_len();
    if n != b.unicode_len() {
        return false;
    }
    let mut i: usize = 0;
    while i < n
        invariant
            i <= n,
            n == a@.len(),
            n == b@.len(),
            forall|j: int| 0 <= j < i ==> a@[j] == b@[j],
        decreases n - i,
    {
        if a.get_char(i) != b.get_char(i) {
            return false;
        }
        i = i + 1;
    }
    assert(a@ =~= b@);
    true
}

/// A run of `n` copies of a one-character piece is `n` characters long, all of
/// them that character.
pub proof fn repeated_char(c: char, n: nat)
    ensures
        repeated(seq![c], n).len() == n,
        forall|i: int| 0 <= i < n ==> #[trigger] repeated(seq![c], n)[i] == c,
    decreases n,
{
    if n > 0 {
        repeated_char(c, (n - 1) as nat);
        let r = repeated(seq![c], n);
        assert forall|i: int| 0 <= i < n implies #[trigger] r[i] == c by {
            if i < n - 1 {
                assert(r[i] == repeated(seq![c], (n - 1) as nat)[i]);
            }
        }
    }
}

/// Centering keeps the text whole and makes it exactly `width` wide, or
/// leaves it alone when it is already wider; the left margin is half the
/// padding, rounded down.
pub proof fn centered_fills_width(s: Seq<char>, width: nat)
    ensures
        centered(s, width).len() == if s.len() >= width { s.len() } else { width },
        s.len() < width ==> centered(s, width).subrange(
            ((width - s.len()) / 2) as int,
            ((width - s.len()) / 2 + s.len()) as int,
        ) == s,
{
    if s.len() < width {
        let pad = (width - s.len()) as nat;
        let left = spaces(pad / 2);
        assert((left + s + spaces((pad - pad / 2) as nat)).subrange(
            (pad / 2) as int,
            (pad / 2 + s.len()) as int,
        ) =~= s);
    }
}

/// Right alignment keeps the text whole at the right end of the field and
/// fills the rest with spaces; a text already as wide is left alone.
pub proof fn right_aligned_fills_width(s: Seq<char>, width: nat)
    ensures
        right_aligned(s, width).len() == if s.len() >= width { s.len() } else { width },
        right_aligned(s, width).skip(right_aligned(s, width).len() - s.len()) == s,
        forall|i: int|
            0 <= i < right_aligned(s, width).len() - s.len() ==> #[trigger] right_aligned(s, width)[i]
                == ' ',
{
    let r = right_aligned(s, width);
    assert(r.skip(r.len() - s.len()) =~= s);
}

proof fn trim_start_shape(s: Seq<char>) -> (k: int)
    ensures
        0 <= k <= s.len(),
        trim_start_text(s) == s.skip(k),
        forall|i: int| 0 <= i < k ==> is_white_space(#[trigger] s[i]),
        k < s.len() ==> !is_white_space(s[k]),
    decreases s.len(),
{
    if s.len() > 0 && is_white_space(s[0]) {
        let t = s.drop_first();
        let k = trim_start_shape(t);
        assert(t.skip(k) =~= s.skip(k + 1));
        assert forall|i: int| 0 <= i < k + 1 implies is_white_space(#[trigger] s[i]) by {
            if i > 0 {
                assert(s[i] == t[i - 1]);
            }
        }
        assert(k + 1 < s.len() ==> s[k + 1] == t[k]);
        k + 1
    } else {
        assert(s.skip(0) =~= s);
        0
    }
}

proof fn trim_end_shape(s: Seq<char>) -> (k: int)
    ensures
        0 <= k <= s.len(),
        trim_end_text(s) == s.take(k),
        forall|i: int| k <= i < s.len() ==> is_white_space(#[trigger] s[i]),
        k > 0 ==> !is_white_space(s[k - 1]),
    decreases s.len(),
{
    if s.len() > 0 && is_white_space(s.last()) {
        let t = s.drop_last();
        let k = trim_end_shape(t);
        assert(t.take(k) =~= s.take(k));
        assert forall|i: int| k <= i < s.len() implies is_white_space(#[trigger] s[i]) by {
            if i < s.len() - 1 {
                assert(s[i] == t[i]);
            }
        }
        assert(k > 0 ==> s[k - 1] == t[k - 1]);
        k
    } else {
        assert(s.take(s.len() as int) =~= s);
        s.len() as int
    }
}

/// Trimming removes exactly the outer white space: the trimmed text is the
/// piece of the text between a run of white space at the start and a run of
/// white space at the end, and (unless it is empty) it neither begins nor ends
/// with white space.
pub proof fn trimmed_has_no_outer_space(s: Seq<char>)
    ensures
        trimmed(s).len() > 0 ==> !is_white_space(trimmed(s)[0]) && !is_white_space(
            trimmed(s).last(),
        ),
        exists|a: int, b: int|
            {
                &&& 0 <= a <= b <= s.len()
                &&& #[trigger] trimmed(s) == s.subrange(a, b)
                &&& forall|i: int| 0 <= i < a ==> is_white_space(#[trigger] s[i])
                &&& forall|i: int| b <= i < s.len() ==> is_white_space(#[trigger] s[i])
                &&& a < b ==> !is_white_space(s[a]) && !is_white_space(s[b - 1])
            },
{
    let a = trim_start_shape(s);
    let t = trim_start_text(s);
    let k = trim_end_shape(t);
    let b = a + k;
    assert(t.take(k) =~= s.subrange(a, b));
    assert forall|i: int| b <= i < s.len() implies is_white_space(#[trigger] s[i]) by {
        assert(s[i] == t[i - a]);
    }
    if a < b {
        assert(s[a] == t[0]);
        assert(s[b - 1] == t[k - 1]);
    }
    if trimmed(s).len() > 0 {
        assert(trimmed(s)[0] == t[0]);
    }
}

/// The white space that trimming removes is Unicode's White_Space set, code
/// point by code point: tab, line feed, vertical tab, form feed, carriage
/// return, space, next line, no-break space, ogham space mark, the eleven
/// spaces U+2000 to U+200A, line separator, paragraph separator, narrow
/// no-break space, medium mathematical space and ideographic space.
pub proof fn white_space_is_unicode_white_space(c: char)
    ensures
        is_white_space(c) <==> {
            let u = c as u32;
            ||| u == 0x0009
            ||| u == 0x000A
            ||| u == 0x000B
            ||| u == 0x000C
            ||| u == 0x000D
            ||| u == 0x0020
            ||| u == 0x0085
            ||| u == 0x00A0
            ||| u == 0x1680
            ||| u == 0x2000
            ||| u == 0x2001
            ||| u == 0x2002
            ||| u == 0x2003
            ||| u == 0x2004
            ||| u == 0x2005
            ||| u == 0x2006
            ||| u == 0x2007
            ||| u == 0x2008
            ||| u == 0x2009
            ||| u == 0x200A
            ||| u == 0x2028
            ||| u == 0x2029
            ||| u == 0x202F
            ||| u == 0x205F
            ||| u == 0x3000
        },
{
}

} // verus!

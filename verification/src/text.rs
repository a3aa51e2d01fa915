//! Text the twin prints: decimal numbers, zero padding and trimming.
use vstd::prelude::*;

verus! {

/// The one-character text of a decimal digit.
pub open spec fn digit(d: nat) -> Seq<char> {
    seq![((d % 10) + 48) as char]
}

/// The decimal text of a number, without leading zeros.
pub open spec fn decimal(n: nat) -> Seq<char>
    decreases n,
{
    if n < 10 {
        digit(n)
    } else {
        decimal(n / 10) + digit(n % 10)
    }
}

/// The last `width` decimal digits of a number, leading zeros included.
pub open spec fn padded(n: nat, width: nat) -> Seq<char>
    decreases width,
{
    if width == 0 {
        Seq::empty()
    } else {
        padded(n / 10, (width - 1) as nat) + digit(n % 10)
    }
}

fn digit_str(d: u8) -> (s: &'static str)
    requires
        d < 10,
    ensures
        s@ == digit(d as nat),
{
    proof {
        reveal_strlit("0");
        reveal_strlit("1");
        reveal_strlit("2");
        reveal_strlit("3");
        reveal_strlit("4");
        reveal_strlit("5");
        reveal_strlit("6");
        reveal_strlit("7");
        reveal_strlit("8");
        reveal_strlit("9");
    }
    let s = match d {
        0 => "0",
        1 => "1",
        2 => "2",
        3 => "3",
        4 => "4",
        5 => "5",
        6 => "6",
        7 => "7",
        8 => "8",
        _ => "9",
    };
    assert(s@ =~= digit(d as nat));
    s
}

/// Appends the decimal text of `n`.
pub fn append_decimal(out: &mut String, n: u64)
    ensures
        final(out)@ == old(out)@ + decimal(n as nat),
    decreases n,
{
    if n >= 10 {
        append_decimal(out, n / 10);
    }
    out.append(digit_str((n % 10) as u8));
    assert(out@ =~= old(out)@ + decimal(n as nat));
}

/// Appends the last `width` decimal digits of `n`, leading zeros included.
pub fn append_padded(out: &mut String, n: u64, width: u32)
    ensures
        final(out)@ == old(out)@ + padded(n as nat, width as nat),
    decreases width,
{
    if width > 0 {
        append_padded(out, n / 10, width - 1);
        out.append(digit_str((n % 10) as u8));
    }
    assert(out@ =~= old(out)@ + padded(n as nat, width as nat));
}

/// Characters with the Unicode `White_Space` property.
pub open spec fn is_white_space(c: char) -> bool {
    let code = c as u32;
    ||| 0x09 <= code <= 0x0d
    ||| code == 0x20
    ||| code == 0x85
    ||| code == 0xa0
    ||| code == 0x1680
    ||| 0x2000 <= code <= 0x200a
    ||| code == 0x2028
    ||| code == 0x2029
    ||| code == 0x202f
    ||| code == 0x205f
    ||| code == 0x3000
}

fn has_white_space_property(c: char) -> (r: bool)
    ensures
        r == is_white_space(c),
{
    let code: u32 = c as u32;
    (0x09 <= code && code <= 0x0d) || code == 0x20 || code == 0x85 || code == 0xa0 || code == 0x1680
        || (0x2000 <= code && code <= 0x200a) || code == 0x2028 || code == 0x2029 || code == 0x202f
        || code == 0x205f || code == 0x3000
}

/// The text without the white space it begins with.
pub open spec fn trimmed_start(s: Seq<char>) -> Seq<char>
    decreases s.len(),
{
    if s.len() > 0 && is_white_space(s[0]) {
        trimmed_start(s.skip(1))
    } else {
        s
    }
}

/// The text without the white space it ends with.
pub open spec fn trimmed_end(s: Seq<char>) -> Seq<char>
    decreases s.len(),
{
    if s.len() > 0 && is_white_space(s.last()) {
        trimmed_end(s.drop_last())
    } else {
        s
    }
}

/// The text without the white space at its two ends.
pub open spec fn trimmed(s: Seq<char>) -> Seq<char> {
    trimmed_end(trimmed_start(s))
}

/// Nothing but white space.
pub open spec fn is_blank(s: Seq<char>) -> bool {
    trimmed(s).len() == 0
}

/// The text without the white space at its two ends.
pub fn trim<'a>(s: &'a str) -> (r: &'a str)
    ensures
        r@ == trimmed(s@),
{
    let len: usize = s.unicode_len();
    let mut from: usize = 0;
    assert(s@.skip(0) =~= s@);
    while from < len && has_white_space_property(s.get_char(from))
        invariant
            len == s@.len(),
            from <= len,
            trimmed_start(s@) == trimmed_start(s@.skip(from as int)),
        ensures
            from <= len,
            trimmed_start(s@) == s@.skip(from as int),
        decreases len - from,
    {
        assert(s@.skip(from as int).skip(1) =~= s@.skip(from + 1));
        from = from + 1;
    }
    let mut to: usize = len;
    assert(s@.subrange(from as int, len as int) =~= s@.skip(from as int));
    while to > from && has_white_space_property(s.get_char(to - 1))
        invariant
            len == s@.len(),
            from <= to <= len,
            trimmed(s@) == trimmed_end(s@.subrange(from as int, to as int)),
        ensures
            from <= to <= len,
            trimmed(s@) == s@.subrange(from as int, to as int),
        decreases to,
    {
        assert(s@.subrange(from as int, to as int).drop_last() =~= s@.subrange(
            from as int,
            to - 1,
        ));
        to = to - 1;
    }
    s.substring_char(from, to)
}

proof fn start_does_not_begin_blank(s: Seq<char>)
    ensures
        trimmed_start(s).len() > 0 ==> !is_white_space(trimmed_start(s)[0]),
    decreases s.len(),
{
    if s.len() > 0 && is_white_space(s[0]) {
        start_does_not_begin_blank(s.skip(1));
    }
}

proof fn end_keeps_the_beginning(s: Seq<char>)
    ensures
        trimmed_end(s).len() > 0 ==> trimmed_end(s)[0] == s[0] && !is_white_space(
            trimmed_end(s).last(),
        ),
    decreases s.len(),
{
    if s.len() > 0 && is_white_space(s.last()) {
        end_keeps_the_beginning(s.drop_last());
    }
}

/// Trimmed text neither begins nor ends with white space, and trimming it again changes nothing.
pub proof fn trimming_settles(s: Seq<char>)
    ensures
        trimmed(trimmed(s)) == trimmed(s),
        trimmed(s).len() > 0 ==> !is_white_space(trimmed(s)[0]) && !is_white_space(
            trimmed(s).last(),
        ),
{
    start_does_not_begin_blank(s);
    end_keeps_the_beginning(trimmed_start(s));
}

/// Text is blank exactly when all of its characters are white space.
pub proof fn blank_is_all_white_space(s: Seq<char>)
    ensures
        is_blank(s) <==> (forall|i: int| 0 <= i < s.len() ==> is_white_space(#[trigger] s[i])),
    decreases s.len(),
{
    start_does_not_begin_blank(s);
    end_keeps_the_beginning(trimmed_start(s));
    if s.len() > 0 && is_white_space(s[0]) {
        blank_is_all_white_space(s.skip(1));
        assert forall|i: int|
            0 <= i < s.len() && is_blank(s) implies is_white_space(#[trigger] s[i]) by {
            if i > 0 {
                assert(s.skip(1)[i - 1] == s[i]);
            }
        }
    } else if s.len() > 0 {
        not_all_trimmed(s);
    }
}

proof fn not_all_trimmed(s: Seq<char>)
    requires
        s.len() > 0,
        !is_white_space(s[0]),
    ensures
        trimmed_end(s).len() > 0,
    decreases s.len(),
{
    if is_white_space(s.last()) {
        not_all_trimmed(s.drop_last());
    }
}

/// What `Debug` shows of a string: quotes around it, and an escape for each character that needs
/// one.
pub uninterp spec fn debug_text(s: Seq<char>) -> Seq<char>;

/// Shows a string with the `std::fmt::Debug` of `str`. The result is a function of the string;
/// which characters are escaped, and how, is left to std.
#[verifier::external_body]
pub(crate) fn quoted(s: &str) -> (shown: String)
    ensures
        shown@ == debug_text(s@),
{
    format!("{:?}", s)
}

/// A name with something in brackets behind it.
pub open spec fn bracketed_text(name: Seq<char>, inner: Seq<char>) -> Seq<char> {
    name + "("@ + inner + ")"@
}

/// A name with something in brackets behind it.
pub fn bracketed(name: &str, inner: &str) -> (shown: String)
    ensures
        shown@ == bracketed_text(name@, inner@),
{
    let mut shown = String::new();
    shown.append(name);
    shown.append("(");
    shown.append(inner);
    shown.append(")");
    assert(shown@ =~= bracketed_text(name@, inner@));
    shown
}

/// Text that stands between quotes as it is: printable ASCII without quotes and backslashes.
pub open spec fn is_plain(s: Seq<char>) -> bool {
    forall|i: int|
        0 <= i < s.len() ==> 0x20 <= (#[trigger] s[i]) as u32 <= 0x7e && s[i] != '"' && s[i]
            != '\\'
}

} // verus!

//! Text helpers shared by the parsers and validators.

use vstd::prelude::*;
use vstd::string::*;

verus! {

/// `str::eq` of the standard library: two string slices are equal exactly
/// when they hold the same characters.
pub assume_specification[ <str as PartialEq>::eq ](a: &str, b: &str) -> (r: bool)
    ensures
        r == (a@ == b@),
;

/// The upper-case form that the standard library gives a text.
pub uninterp spec fn uppercase_text(s: Seq<char>) -> Seq<char>;

/// The lower-case form that the standard library gives a text.
pub uninterp spec fn lowercase_text(s: Seq<char>) -> Seq<char>;

/// A text without its leading and trailing white space, as the standard
/// library removes it.
pub uninterp spec fn trimmed_text(s: Seq<char>) -> Seq<char>;

/// The character of a decimal digit.
pub open spec fn digit(d: nat) -> char {
    if d == 0 {
        '0'
    } else if d == 1 {
        '1'
    } else if d == 2 {
        '2'
    } else if d == 3 {
        '3'
    } else if d == 4 {
        '4'
    } else if d == 5 {
        '5'
    } else if d == 6 {
        '6'
    } else if d == 7 {
        '7'
    } else if d == 8 {
        '8'
    } else {
        '9'
    }
}

/// The decimal digits of a number, without leading zeros.
pub open spec fn decimal_text(n: nat) -> Seq<char>
    decreases n,
{
    if n < 10 {
        seq![digit(n)]
    } else {
        decimal_text(n / 10).push(digit(n % 10))
    }
}

/// Calls `str::to_uppercase`; the contract only gives the result its name.
#[verifier::external_body]
pub(crate) fn to_uppercase(s: &str) -> (r: String)
    ensures
        r@ == uppercase_text(s@),
{
    s.to_uppercase()
}

/// Calls `str::to_lowercase`; the contract only gives the result its name.
#[verifier::external_body]
pub(crate) fn to_lowercase(s: &str) -> (r: String)
    ensures
        r@ == lowercase_text(s@),
{
    s.to_lowercase()
}

/// Calls `str::trim`; the contract only gives the result its name.
#[verifier::external_body]
pub(crate) fn trim(s: &str) -> (r: &str)
    ensures
        r@ == trimmed_text(s@),
{
    s.trim()
}

/// The text of a decimal digit.
fn digit_text(d: usize) -> (r: &'static str)
    requires
        d < 10,
    ensures
        r@ == seq![digit(d as nat)],
{
    proof {
        reveal_strlit("0");
        reveal_strlit("1");
        reveal_strlit("2");
        reveal_strlit("3");
        reveal_strlit("4");
        reveal_strlit("5");
        reveal_strlit("6");
        reveal_strlit("7");
        reveal_strlit("8");
        reveal_strlit("9");
    }
    let r = if d == 0 {
        "0"
    } else if d == 1 {
        "1"
    } else if d == 2 {
        "2"
    } else if d == 3 {
        "3"
    } else if d == 4 {
        "4"
    } else if d == 5 {
        "5"
    } else if d == 6 {
        "6"
    } else if d == 7 {
        "7"
    } else if d == 8 {
        "8"
    } else {
        "9"
    };
    assert(r@ =~= seq![digit(d as nat)]);
    r
}

/// Prints a number in decimal digits, without leading zeros.
pub fn decimal(n: usize) -> (r: String)
    ensures
        r@ == decimal_text(n as nat),
{
    let mut out = String::from_str(digit_text(n % 10));
    let mut rest = n / 10;
    while rest > 0
        invariant
            rest == 0 ==> out@ == decimal_text(n as nat),
            rest > 0 ==> decimal_text(n as nat) == decimal_text(rest as nat) + out@,
        decreases rest,
    {
        let ghost before = out@;
        out = concat_text(digit_text(rest % 10), out.as_str());
        proof {
            if rest >= 10 {
                assert(decimal_text(rest as nat) + before =~= decimal_text((rest / 10) as nat) + out@);
            } else {
                assert(decimal_text(rest as nat) + before =~= out@);
            }
        }
        rest = rest / 10;
    }
    out
}

/// Whether a text is empty once its surrounding white space is removed.
pub open spec fn is_blank(s: Seq<char>) -> bool {
    trimmed_text(s).len() == 0
}

/// Tests whether a text holds nothing but white space.
pub fn blank(s: &str) -> (r: bool)
    ensures
        r == is_blank(s@),
{
    trim(s).is_empty()
}

/// Joins two texts into a new one.
pub fn concat_text(a: &str, b: &str) -> (r: String)
    ensures
        r@ == a@ + b@,
{
    let mut r = String::from_str(a);
    r.append(b);
    r
}

/// The decimal digits of a signed number, after a minus sign where it is
/// negative.
pub open spec fn signed_decimal_text(n: int) -> Seq<char> {
    if n < 0 {
        seq!['-'] + decimal_text((-n) as nat)
    } else {
        decimal_text(n as nat)
    }
}

/// Prints a signed number in decimal digits, after a minus sign where it
/// is negative.
pub fn signed_decimal(n: i32) -> (r: String)
    ensures
        r@ == signed_decimal_text(n as int),
{
    if n < 0 {
        let size: i64 = -(n as i64);
        proof {
            reveal_strlit("-");
            assert("-"@ =~= seq!['-']);
        }
        concat_text("-", decimal(size as usize).as_str())
    } else {
        decimal(n as usize)
    }
}

/// Whether one text occurs within another, as a run of neighbouring
/// characters. The empty text occurs in every text.
pub open spec fn is_substring(whole: Seq<char>, part: Seq<char>) -> bool {
    exists|i: int, j: int| 0 <= i <= j <= whole.len() && #[trigger] whole.subrange(i, j) == part
}

/// Calls `str::contains` with a text as the pattern: whether the pattern
/// occurs within the text.
#[verifier::external_body]
pub(crate) fn contains(whole: &str, part: &str) -> (r: bool)
    ensures
        r == is_substring(whole@, part@),
{
    whole.contains(part)
}

/// Whether one text comes before another, or is the same, in the order of
/// a dictionary whose letters are ordered by their code points: a text
/// comes after each of its beginnings, and otherwise the first character
/// in which two texts differ decides.
pub open spec fn text_le(a: Seq<char>, b: Seq<char>) -> bool
    decreases a.len(),
{
    if a.len() == 0 {
        true
    } else if b.len() == 0 {
        false
    } else if a[0] != b[0] {
        (a[0] as int) < (b[0] as int)
    } else {
        text_le(a.skip(1), b.skip(1))
    }
}

/// Compares two texts with `<=` of the standard library, which orders
/// texts by their bytes and so by the code points of their characters.
#[verifier::external_body]
pub(crate) fn le(a: &str, b: &str) -> (r: bool)
    ensures
        r == text_le(a@, b@),
{
    a <= b
}

/// Of two texts, one comes before the other or they are the same.
pub proof fn lemma_text_le_total(a: Seq<char>, b: Seq<char>)
    ensures
        text_le(a, b) || text_le(b, a),
    decreases a.len(),
{
    if a.len() > 0 && b.len() > 0 && a[0] == b[0] {
        lemma_text_le_total(a.skip(1), b.skip(1));
    }
}

/// Two texts that each come before the other are the same text.
pub proof fn lemma_text_le_antisymmetric(a: Seq<char>, b: Seq<char>)
    requires
        text_le(a, b),
        text_le(b, a),
    ensures
        a == b,
    decreases a.len(),
{
    if a.len() > 0 && b.len() > 0 {
        lemma_text_le_antisymmetric(a.skip(1), b.skip(1));
        assert(a =~= seq![a[0]] + a.skip(1));
        assert(b =~= seq![b[0]] + b.skip(1));
    } else {
        assert(a =~= b);
    }
}

/// What comes before a text that comes before a third comes before the
/// third.
pub proof fn lemma_text_le_transitive(a: Seq<char>, b: Seq<char>, c: Seq<char>)
    requires
        text_le(a, b),
        text_le(b, c),
    ensures
        text_le(a, c),
    decreases a.len(),
{
    if a.len() > 0 && b.len() > 0 && c.len() > 0 && a[0] == b[0] && b[0] == c[0] {
        lemma_text_le_transitive(a.skip(1), b.skip(1), c.skip(1));
    }
}

/// The characters of each text of a list, in order.
pub open spec fn text_views(list: Seq<String>) -> Seq<Seq<char>> {
    Seq::new(list.len(), |i: int| list[i]@)
}

/// The texts of a list, one after the other, with a separator between each
/// two neighbours.
pub open spec fn joined(parts: Seq<Seq<char>>, separator: Seq<char>) -> Seq<char>
    decreases parts.len(),
{
    if parts.len() == 0 {
        Seq::empty()
    } else if parts.len() == 1 {
        parts[0]
    } else {
        joined(parts.drop_last(), separator) + separator + parts.last()
    }
}

/// Joins texts with a separator between each two neighbours.
pub fn join(parts: &Vec<String>, separator: &str) -> (r: String)
    ensures
        r@ == joined(text_views(parts@), separator@),
{
    let ghost views = text_views(parts@);
    let mut out = String::new();
    let mut i: usize = 0;
    while i < parts.len()
        invariant
            i <= parts.len(),
            views == text_views(parts@),
            out@ == joined(views.take(i as int), separator@),
        decreases parts.len() - i,
    {
        proof {
            assert(views.take(i + 1).drop_last() =~= views.take(i as int));
            assert(views.take(i + 1).last() == parts[i as int]@);
            if i == 0 {
                assert(out@ + parts[0]@ =~= parts[0]@);
            }
        }
        if i > 0 {
            out.append(separator);
        }
        out.append(parts[i].as_str());
        i += 1;
    }
    assert(views.take(parts.len() as int) =~= views);
    out
}

} // verus!

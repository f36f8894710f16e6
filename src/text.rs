//! Character-level helpers on strings: comparison, decimal rendering and
//! upper-casing.
use vstd::prelude::*;

verus! {

/// The upper-case mapping that `str::to_uppercase` applies to a string.
pub uninterp spec fn upper_of(s: Seq<char>) -> Seq<char>;

/// Whether two characters are equal once ASCII letters are folded to one case.
pub open spec fn same_letter_ignoring_case(x: char, y: char) -> bool {
    x == y || ('a' <= x && x <= 'z' && x as u32 == y as u32 + 32) || ('a' <= y && y <= 'z'
        && y as u32 == x as u32 + 32)
}

/// Whether two strings are equal once ASCII letters are folded to one case.
pub open spec fn same_ignoring_case(a: Seq<char>, b: Seq<char>) -> bool {
    a.len() == b.len() && forall|k: int|
        0 <= k < a.len() ==> #[trigger] same_letter_ignoring_case(a[k], b[k])
}

/// The character of a decimal digit.
pub open spec fn digit_char(d: nat) -> char {
    seq!['0', '1', '2', '3', '4', '5', '6', '7', '8', '9'][(d % 10) as int]
}

/// The decimal digits of a natural number, most significant first.
pub open spec fn digits_of(n: nat) -> Seq<char>
    decreases n,
{
    if n < 10 {
        seq![digit_char(n)]
    } else {
        digits_of(n / 10).push(digit_char(n % 10))
    }
}

/// The decimal rendering of an integer, with a leading `-` when negative.
pub open spec fn decimal_of(n: int) -> Seq<char> {
    if n < 0 {
        seq!['-'] + digits_of((-n) as nat)
    } else {
        digits_of(n as nat)
    }
}

/// A value followed by a note in parentheses: `main (note)`.
pub open spec fn with_note(main: Seq<char>, note: Seq<char>) -> Seq<char> {
    main + seq![' ', '('] + note + seq![')']
}

/// Builds `main (note)`.
pub fn join_note(main: &str, note: &str) -> (r: String)
    ensures
        r@ == with_note(main@, note@),
{
    proof {
        reveal_strlit(" (");
        reveal_strlit(")");
    }
    let mut s = String::from_str(main);
    s.append(" (");
    s.append(note);
    s.append(")");
    assert(s@ =~= with_note(main@, note@));
    s
}

/// Exact string equality, character by character.
pub fn str_eq(a: &str, b: &str) -> (r: bool)
    ensures
        r == (a@ == b@),
{
    let n = a.unicode_len();
    let m = b.unicode_len();
    if n != m {
        return false;
    }
    let mut i: usize = 0;
    while i < n
        invariant
            n == a@.len(),
            m == b@.len(),
            n == m,
            i <= n,
            forall|k: int| 0 <= k < i ==> a@[k] == b@[k],
        decreases n - i,
    {
        if a.get_char(i) != b.get_char(i) {
            return false;
        }
        i = i + 1;
    }
    assert(a@ =~= b@);
    true
}

/// String equality that treats an ASCII letter and its other case as equal.
pub fn eq_ignoring_case(a: &str, b: &str) -> (r: bool)
    ensures
        r == same_ignoring_case(a@, b@),
{
    let n = a.unicode_len();
    let m = b.unicode_len();
    if n != m {
        return false;
    }
    let mut i: usize = 0;
    while i < n
        invariant
            n == a@.len(),
            m == b@.len(),
            n == m,
            i <= n,
            forall|k: int| 0 <= k < i ==> #[trigger] same_letter_ignoring_case(a@[k], b@[k]),
        decreases n - i,
    {
        let x = a.get_char(i);
        let y = b.get_char(i);
        let same = x == y || ('a' <= x && x <= 'z' && x as u32 == y as u32 + 32) || ('a' <= y && y
            <= 'z' && y as u32 == x as u32 + 32);
        if !same {
            assert(!same_letter_ignoring_case(a@[i as int], b@[i as int]));
            return false;
        }
        i = i + 1;
    }
    true
}

/// Relies on `<i128 as ToString>::to_string`: the integer in decimal, with a
/// leading `-` when negative.
#[verifier::external_body]
pub(crate) fn decimal(n: i128) -> (r: String)
    ensures
        r@ == decimal_of(n as int),
{
    n.to_string()
}

/// Relies on `str::to_uppercase`: the result depends on the characters alone.
#[verifier::external_body]
pub(crate) fn to_upper(s: &str) -> (r: String)
    ensures
        r@ == upper_of(s@),
{
    s.to_uppercase()
}

} // verus!

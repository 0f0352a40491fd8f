//! String helpers shared across the crate: case folding and trimming
//! behind trusted wrappers, a verified substring search, string equality,
//! and a verified decimal formatter.

use vstd::prelude::*;

verus! {

/// The character sequence `str::to_lowercase` produces for a given input;
/// the result depends on the input characters alone.
pub uninterp spec fn lower_of(s: Seq<char>) -> Seq<char>;

/// The character sequence `str::trim` produces for a given input;
/// the result depends on the input characters alone.
pub uninterp spec fn trim_of(s: Seq<char>) -> Seq<char>;

/// Whether `char::is_alphanumeric` accepts the character.
pub uninterp spec fn alnum_of(c: char) -> bool;

/// Relies on str::to_lowercase: Unicode lowercasing, a function of the
/// characters alone; an empty string stays empty.
#[verifier::external_body]
pub fn lower_str(s: &str) -> (r: String)
    ensures
        r@ == lower_of(s@),
        s@.len() == 0 ==> r@.len() == 0,
{
    s.to_lowercase()
}

/// Relies on str::trim: removes leading and trailing whitespace, a function
/// of the characters alone; the result is never longer than the input.
#[verifier::external_body]
pub fn trim_str(s: &str) -> (r: &str)
    ensures
        r@ == trim_of(s@),
        r@.len() <= s@.len(),
{
    s.trim()
}

/// Relies on char::is_alphanumeric: Unicode letter-or-digit test, a function
/// of the character alone.
#[verifier::external_body]
pub fn is_alnum(c: char) -> (r: bool)
    ensures
        r == alnum_of(c),
{
    c.is_alphanumeric()
}

/// `hay` contains `needle` as a contiguous subsequence.
pub open spec fn contains_seq(hay: Seq<char>, needle: Seq<char>) -> bool {
    exists|i: int|
        0 <= i && i + needle.len() <= hay.len() && #[trigger] hay.subrange(
            i,
            i + needle.len(),
        ) == needle
}

/// The characters of `hay` starting at `i` match `needle`.
fn match_at(hay: &str, needle: &str, i: usize, hl: usize, nl: usize) -> (r: bool)
    requires
        hl == hay@.len(),
        nl == needle@.len(),
        i + nl <= hl,
    ensures
        r == (hay@.subrange(i as int, i + nl as int) == needle@),
{
    let mut k: usize = 0;
    while k < nl
        invariant
            hl == hay@.len(),
            nl == needle@.len(),
            i + nl <= hl,
            0 <= k <= nl,
            forall|j: int| 0 <= j < k ==> hay@[i + j] == needle@[j],
        decreases nl - k,
    {
        if hay.get_char(i + k) != needle.get_char(k) {
            assert(hay@.subrange(i as int, i + nl as int)[k as int] != needle@[k as int]);
            return false;
        }
        k = k + 1;
    }
    assert(hay@.subrange(i as int, i + nl as int) =~= needle@);
    true
}

/// Substring test over the views of the two strings.
pub fn contains_str(hay: &str, needle: &str) -> (r: bool)
    ensures
        r == contains_seq(hay@, needle@),
{
    let hl = hay.unicode_len();
    let nl = needle.unicode_len();
    if nl > hl {
        return false;
    }
    if nl == 0 {
        proof {
            assert(hay@.subrange(0, 0 + needle@.len() as int) =~= needle@);
            assert(contains_seq(hay@, needle@));
        }
        return true;
    }
    let bound = hl - nl;
    let mut i: usize = 0;
    loop
        invariant
            hl == hay@.len(),
            nl == needle@.len(),
            1 <= nl <= hl,
            bound == hl - nl,
            0 <= i <= bound + 1,
            forall|j: int|
                0 <= j < i ==> #[trigger] hay@.subrange(j, j + nl as int) != needle@,
        ensures
            contains_seq(hay@, needle@) == (i <= bound),
            i <= bound ==> hay@.subrange(i as int, i + nl as int) == needle@,
        decreases bound + 1 - i,
    {
        if i > bound {
            assert(!contains_seq(hay@, needle@));
            break ;
        }
        if match_at(hay, needle, i, hl, nl) {
            break ;
        }
        i = i + 1;
    }
    i <= bound
}

/// Character-for-character string equality, stated over the views.
pub fn str_eq(a: &str, b: &str) -> (r: bool)
    ensures
        r == (a@ == b@),
{
    let al = a.unicode_len();
    let bl = b.unicode_len();
    if al != bl {
        return false;
    }
    let mut k: usize = 0;
    while k < al
        invariant
            al == a@.len(),
            bl == b@.len(),
            al == bl,
            0 <= k <= al,
            forall|j: int| 0 <= j < k ==> a@[j] == b@[j],
        decreases al - k,
    {
        if a.get_char(k) != b.get_char(k) {
            return false;
        }
        k = k + 1;
    }
    assert(a@ =~= b@);
    true
}

/// The decimal digit character for `d`.
pub open spec fn digit_char(d: nat) -> char {
    if d == 0 {
        '0'
    } else if d == 1 {
        '1'
    } else if d == 2 {
        '2'
    } else if d == 3 {
        '3'
    } else if d == 4 {
        '4'
    } else if d == 5 {
        '5'
    } else if d == 6 {
        '6'
    } else if d == 7 {
        '7'
    } else if d == 8 {
        '8'
    } else {
        '9'
    }
}

/// The decimal representation of `n`, most significant digit first.
pub open spec fn spec_digits(n: nat) -> Seq<char>
    decreases n,
{
    if n < 10 {
        seq![digit_char(n)]
    } else {
        spec_digits(n / 10).push(digit_char(n % 10))
    }
}

fn digit_str(d: u64) -> (r: &'static str)
    requires
        d < 10,
    ensures
        r@ == seq![digit_char(d as nat)],
{
    proof {
        reveal_strlit("0");
        reveal_strlit("1");
        reveal_strlit("2");
        reveal_strlit("3");
        reveal_strlit("4");
        reveal_strlit("5");
        reveal_strlit("6");
        reveal_strlit("7");
        reveal_strlit("8");
        reveal_strlit("9");
    }
    let r = match d {
        0 => "0",
        1 => "1",
        2 => "2",
        3 => "3",
        4 => "4",
        5 => "5",
        6 => "6",
        7 => "7",
        8 => "8",
        _ => "9",
    };
    assert(r@ =~= seq![digit_char(d as nat)]);
    r
}

/// Decimal formatting of an unsigned number.
pub fn u64_to_string(n: u64) -> (r: String)
    ensures
        r@ == spec_digits(n as nat),
    decreases n,
{
    if n < 10 {
        digit_str(n).to_owned()
    } else {
        let mut s = u64_to_string(n / 10);
        s.append(digit_str(n % 10));
        assert(s@ =~= spec_digits((n / 10) as nat).push(digit_char((n % 10) as nat)));
        s
    }
}

} // verus!

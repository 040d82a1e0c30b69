//! Small string operations: trimming white space, substring search and
//! case-insensitive matching of user names.
use vstd::prelude::*;

verus! {

/// The characters with the Unicode `White_Space` property, which is what
/// `char::is_whitespace` tests.
pub open spec fn is_white_space(c: char) -> bool {
    let u: u32 = c as u32;
    (0x9 <= u && u <= 0xD) || u == 0x20 || u == 0x85 || u == 0xA0 || u == 0x1680 || (0x2000 <= u
        && u <= 0x200A) || u == 0x2028 || u == 0x2029 || u == 0x202F || u == 0x205F || u == 0x3000
}

/// Calls `char::is_whitespace`, trusted to answer whether `c` has the
/// Unicode `White_Space` property, which `is_white_space` lists.
#[verifier::external_body]
fn char_is_whitespace(c: char) -> (b: bool)
    ensures
        b == is_white_space(c),
{
    c.is_whitespace()
}

/// Nothing but white space (possibly nothing at all).
pub open spec fn is_blank(s: Seq<char>) -> bool {
    forall|i: int| 0 <= i < s.len() ==> is_white_space(#[trigger] s[i])
}

/// The index of the first character of `s` that is not white space, from `i` on.
pub open spec fn first_non_space_from(s: Seq<char>, i: nat) -> nat
    decreases s.len() - i,
{
    if i >= s.len() {
        s.len()
    } else if !is_white_space(s[i as int]) {
        i
    } else {
        first_non_space_from(s, i + 1)
    }
}

/// The length of `s` without its trailing white space, looking at the first `j` characters.
pub open spec fn end_non_space_upto(s: Seq<char>, j: nat) -> nat
    decreases j,
{
    if j == 0 || j > s.len() {
        0
    } else if !is_white_space(s[j - 1]) {
        j
    } else {
        end_non_space_upto(s, (j - 1) as nat)
    }
}

/// `s` without leading and trailing white space, as `str::trim` gives it.
pub open spec fn trim(s: Seq<char>) -> Seq<char> {
    let a = first_non_space_from(s, 0);
    let b = end_non_space_upto(s, s.len());
    if a < b {
        s.subrange(a as int, b as int)
    } else {
        Seq::empty()
    }
}

proof fn lemma_first_non_space(s: Seq<char>, i: nat)
    requires
        i <= s.len(),
    ensures
        i <= first_non_space_from(s, i) <= s.len(),
        forall|k: int| i <= k < first_non_space_from(s, i) ==> is_white_space(#[trigger] s[k]),
        first_non_space_from(s, i) < s.len() ==> !is_white_space(s[first_non_space_from(s, i) as int]),
    decreases s.len() - i,
{
    if i < s.len() && is_white_space(s[i as int]) {
        lemma_first_non_space(s, i + 1);
    }
}

proof fn lemma_end_non_space(s: Seq<char>, j: nat)
    requires
        j <= s.len(),
    ensures
        end_non_space_upto(s, j) <= j,
        forall|k: int| end_non_space_upto(s, j) <= k < j ==> is_white_space(#[trigger] s[k]),
        end_non_space_upto(s, j) > 0 ==> !is_white_space(s[end_non_space_upto(s, j) - 1]),
    decreases j,
{
    if j > 0 && is_white_space(s[j - 1]) {
        lemma_end_non_space(s, (j - 1) as nat);
    }
}

/// A blank string trims to nothing, and only a blank one does.
pub proof fn lemma_trim_empty_iff_blank(s: Seq<char>)
    ensures
        trim(s).len() == 0 <==> is_blank(s),
{
    lemma_first_non_space(s, 0);
    lemma_end_non_space(s, s.len());
    let a = first_non_space_from(s, 0);
    let b = end_non_space_upto(s, s.len());
    if a < b {
        assert(!is_white_space(s[a as int]));
    } else if a < s.len() {
        assert(!is_white_space(s[a as int]));
        assert(b > 0 ==> !is_white_space(s[b - 1]));
        assert(is_white_space(s[a as int]));
    }
}

/// Whether `s` is nothing but white space, as `s.trim().is_empty()` tells.
pub fn str_is_blank(s: &str) -> (b: bool)
    ensures
        b == is_blank(s@),
        b == (trim(s@).len() == 0),
{
    proof {
        lemma_trim_empty_iff_blank(s@);
    }
    let n: usize = s.unicode_len();
    let mut i: usize = 0;
    while i < n
        invariant
            n == s@.len(),
            i <= n,
            forall|k: int| 0 <= k < i ==> is_white_space(#[trigger] s@[k]),
        decreases n - i,
    {
        if !char_is_whitespace(s.get_char(i)) {
            assert(!is_blank(s@));
            proof {
                lemma_trim_empty_iff_blank(s@);
            }
            return false;
        }
        i = i + 1;
    }
    true
}

/// `s.trim()`, as an owned string.
pub fn trimmed(s: &str) -> (r: String)
    ensures
        r@ == trim(s@),
{
    let n: usize = s.unicode_len();
    let mut a: usize = 0;
    while a < n
        invariant
            n == s@.len(),
            a <= n,
            first_non_space_from(s@, 0) == first_non_space_from(s@, a as nat),
        ensures
            a <= n,
            first_non_space_from(s@, 0) == a,
        decreases n - a,
    {
        if !char_is_whitespace(s.get_char(a)) {
            break;
        }
        a = a + 1;
    }
    let mut b: usize = n;
    while b > 0
        invariant
            n == s@.len(),
            b <= n,
            end_non_space_upto(s@, n as nat) == end_non_space_upto(s@, b as nat),
        ensures
            b <= n,
            end_non_space_upto(s@, n as nat) == b,
        decreases b,
    {
        if !char_is_whitespace(s.get_char(b - 1)) {
            break;
        }
        b = b - 1;
    }
    if a < b {
        String::from_str(s.substring_char(a, b))
    } else {
        String::new()
    }
}

/// `pat` occurs in `s` starting at position `i`.
pub open spec fn occurs_at(s: Seq<char>, pat: Seq<char>, i: int) -> bool {
    0 <= i && i + pat.len() <= s.len() && s.subrange(i, i + pat.len()) == pat
}

/// `pat` occurs somewhere in `s`, as `str::contains` tells.
pub open spec fn contains(s: Seq<char>, pat: Seq<char>) -> bool {
    exists|i: int| occurs_at(s, pat, i)
}

/// Whether `pat` occurs in `s`.
pub fn str_contains(s: &str, pat: &str) -> (b: bool)
    ensures
        b == contains(s@, pat@),
{
    let n: usize = s.unicode_len();
    let m: usize = pat.unicode_len();
    if m > n {
        assert forall|i: int| !occurs_at(s@, pat@, i) by {}
        return false;
    }
    let mut i: usize = 0;
    while i <= n - m
        invariant
            n == s@.len(),
            m == pat@.len(),
            m <= n,
            i <= n - m + 1,
            forall|k: int| 0 <= k < i ==> !occurs_at(s@, pat@, k),
        decreases n - m + 1 - i,
    {
        let mut j: usize = 0;
        let mut same = true;
        while j < m
            invariant
                n == s@.len(),
                m == pat@.len(),
                i + m <= n,
                j <= m,
                same ==> forall|k: int| 0 <= k < j ==> s@[i + k] == pat@[k],
                !same ==> exists|k: int| 0 <= k < m && s@[i + k] != pat@[k],
            decreases m - j,
        {
            if same && s.get_char(i + j) != pat.get_char(j) {
                same = false;
            }
            j = j + 1;
        }
        if same {
            assert(s@.subrange(i as int, i + m) =~= pat@);
            assert(occurs_at(s@, pat@, i as int));
            return true;
        }
        proof {
            let k = choose|k: int| 0 <= k < m && s@[i + k] != pat@[k];
            if occurs_at(s@, pat@, i as int) {
                assert(s@.subrange(i as int, i + m)[k] == s@[i + k]);
            }
        }
        i = i + 1;
    }
    assert forall|k: int| !occurs_at(s@, pat@, k) by {
        if 0 <= k && k + m <= n {
            assert(k < i);
        }
    }
    false
}

/// What `str::to_lowercase` gives for a string: Unicode's full lower-case
/// mapping, character by character, with the final-sigma rule.
pub uninterp spec fn lowercase(s: Seq<char>) -> Seq<char>;

/// Calls `str::to_lowercase`, trusted to return the lower-case form of `s`
/// that `lowercase` names: a function of the text alone. Which character
/// each character becomes is not stated.
#[verifier::external_body]
fn to_lowercase(s: &str) -> (r: String)
    ensures
        r@ == lowercase(s@),
{
    s.to_lowercase()
}

/// Whether `name` matches what has been typed so far: the input is not
/// empty and occurs in the name, ignoring case.
pub open spec fn matches_typed(name: Seq<char>, typed: Seq<char>) -> bool {
    lowercase(typed).len() > 0 && contains(lowercase(name), lowercase(typed))
}

/// Whether `name` matches the typed input, ignoring case.
pub fn name_matches(name: &str, typed: &str) -> (b: bool)
    ensures
        b == matches_typed(name@, typed@),
{
    let typed_lower = to_lowercase(typed);
    if typed_lower.as_str().unicode_len() == 0 {
        return false;
    }
    let name_lower = to_lowercase(name);
    str_contains(name_lower.as_str(), typed_lower.as_str())
}

} // verus!

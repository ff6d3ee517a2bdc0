use vstd::prelude::*;

use vstd::string::StrSliceExecFns;

verus! {

/// The lower-case form of a text, as Rust's `str::to_lowercase` computes it
/// (Unicode's full case mapping).
pub uninterp spec fn lowercase(s: Seq<char>) -> Seq<char>;

/// Lower-cases `s` with `str::to_lowercase` of Rust's standard library.
///
/// Trusted: the result is `lowercase` of the argument, a name for what that
/// function computes; nothing else is stated of it.
#[verifier::external_body]
fn to_lowercase(s: &str) -> (r: String)
    ensures
        r@ == lowercase(s@),
{
    s.to_lowercase()
}

/// Whether `needle` occurs as a contiguous run in `haystack` (the empty text occurs everywhere).
pub open spec fn occurs_in(needle: Seq<char>, haystack: Seq<char>) -> bool {
    exists|i: int|
        0 <= i <= haystack.len() - needle.len() && #[trigger] haystack.subrange(
            i,
            i + needle.len(),
        ) == needle
}

/// Whether `needle` occurs in `haystack`, character by character.
pub fn contains_text(haystack: &str, needle: &str) -> (r: bool)
    ensures
        r == occurs_in(needle@, haystack@),
{
    let n = haystack.unicode_len();
    let m = needle.unicode_len();
    if m > n {
        proof {
            assert forall|i: int| 0 <= i <= haystack@.len() - needle@.len() implies #[trigger] haystack@.subrange(
                i,
                i + needle@.len(),
            ) != needle@ by {}
        }
        return false;
    }
    let last = n - m;
    let mut i: usize = 0;
    loop
        invariant
            n == haystack@.len(),
            m == needle@.len(),
            m <= n,
            last == n - m,
            i <= last,
            forall|k: int|
                0 <= k < i ==> #[trigger] haystack@.subrange(k, k + needle@.len()) != needle@,
        decreases last - i,
    {
        let mut j: usize = 0;
        let mut same = true;
        while j < m
            invariant
                n == haystack@.len(),
                m == needle@.len(),
                i + m <= n,
                j <= m,
                same ==> forall|k: int| 0 <= k < j ==> haystack@[i + k] == needle@[k],
                !same ==> haystack@.subrange(i as int, i + needle@.len()) != needle@,
            decreases m - j,
        {
            if same && haystack.get_char(i + j) != needle.get_char(j) {
                same = false;
                assert(haystack@.subrange(i as int, i + needle@.len())[j as int] != needle@[j as int]);
            }
            j = j + 1;
        }
        if same {
            assert(haystack@.subrange(i as int, i + needle@.len()) =~= needle@);
            return true;
        }
        if i == last {
            return false;
        }
        i = i + 1;
    }
}

/// Whether `keyword` appears in `title`, both compared in lower case.
pub fn keyword_in_title(title: &str, keyword: &str) -> (r: bool)
    ensures
        r == occurs_in(lowercase(keyword@), lowercase(title@)),
{
    let lower_title = to_lowercase(title);
    let lower_keyword = to_lowercase(keyword);
    contains_text(lower_title.as_str(), lower_keyword.as_str())
}

} // verus!

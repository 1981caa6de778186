//! Character-level text predicates used to classify interface names.
use vstd::prelude::*;
use vstd::string::*;

verus! {

/// ASCII lower-casing of one character; every other character is kept.
pub open spec fn ascii_lower(c: char) -> char {
    if 'A' <= c && c <= 'Z' {
        ((c as u32) + 32) as char
    } else {
        c
    }
}

/// ASCII lower-casing of a whole text.
pub open spec fn ascii_lowercase(s: Seq<char>) -> Seq<char> {
    s.map_values(|c: char| ascii_lower(c))
}

/// `s` begins with `p`.
pub open spec fn has_prefix(s: Seq<char>, p: Seq<char>) -> bool {
    p.len() <= s.len() && s.subrange(0, p.len() as int) == p
}

/// `p` occurs in `s` at position `i`.
pub open spec fn occurs_at(s: Seq<char>, p: Seq<char>, i: int) -> bool {
    0 <= i && i + p.len() <= s.len() && s.subrange(i, i + p.len()) == p
}

/// `p` occurs somewhere in `s` (the empty text occurs in every text).
pub open spec fn has_infix(s: Seq<char>, p: Seq<char>) -> bool {
    exists|i: int| occurs_at(s, p, i)
}

/// Lower-casing keeps the length, turns each ASCII capital into the small
/// letter 32 code points above it, and keeps every other character.
pub proof fn lemma_ascii_lowercase_charwise(s: Seq<char>)
    ensures
        ascii_lowercase(s).len() == s.len(),
        forall|i: int|
            0 <= i < s.len() ==> if 'A' <= s[i] && s[i] <= 'Z' {
                #[trigger] ascii_lowercase(s)[i] as u32 == s[i] as u32 + 32
            } else {
                ascii_lowercase(s)[i] == s[i]
            },
{
}

/// `s` begins with `p` exactly when `p` is no longer than `s` and agrees
/// with it character by character.
pub proof fn lemma_has_prefix_charwise(s: Seq<char>, p: Seq<char>)
    ensures
        has_prefix(s, p) <==> p.len() <= s.len() && forall|i: int|
            0 <= i < p.len() ==> #[trigger] s[i] == p[i],
{
    if p.len() <= s.len() && forall|i: int| 0 <= i < p.len() ==> #[trigger] s[i] == p[i] {
        assert(s.subrange(0, p.len() as int) =~= p);
    }
    if has_prefix(s, p) {
        assert forall|i: int| 0 <= i < p.len() implies #[trigger] s[i] == p[i] by {
            assert(s.subrange(0, p.len() as int)[i] == s[i]);
        }
    }
}

/// The characters of `s` from position `k` on agree with those of `p`.
pub open spec fn agrees_at(s: Seq<char>, p: Seq<char>, k: int) -> bool {
    0 <= k && k + p.len() <= s.len() && forall|i: int| 0 <= i < p.len() ==> #[trigger] s[k + i] == p[i]
}

/// `p` occurs in `s` exactly when, at some position `k`, the characters of
/// `s` from `k` on agree with those of `p`.
pub proof fn lemma_has_infix_charwise(s: Seq<char>, p: Seq<char>)
    ensures
        has_infix(s, p) <==> exists|k: int| #[trigger] agrees_at(s, p, k),
{
    if has_infix(s, p) {
        let k = choose|k: int| occurs_at(s, p, k);
        assert forall|i: int| 0 <= i < p.len() implies #[trigger] s[k + i] == p[i] by {
            assert(s.subrange(k, k + p.len())[i] == s[k + i]);
        }
        assert(agrees_at(s, p, k));
    }
    if exists|k: int| #[trigger] agrees_at(s, p, k) {
        let k = choose|k: int| #[trigger] agrees_at(s, p, k);
        assert forall|i: int| 0 <= i < p.len() implies s.subrange(k, k + p.len())[i] == p[i] by {
            assert(s[k + i] == p[i]);
        }
        assert(s.subrange(k, k + p.len()) =~= p);
        assert(occurs_at(s, p, k));
    }
}

/// The characters of `s`.
pub fn chars_of(s: &str) -> (v: Vec<char>)
    ensures
        v@ == s@,
{
    let n = s.unicode_len();
    let mut v: Vec<char> = Vec::new();
    let mut i: usize = 0;
    while i < n
        invariant
            n == s@.len(),
            i <= n,
            v@ == s@.subrange(0, i as int),
        decreases n - i,
    {
        v.push(s.get_char(i));
        i = i + 1;
    }
    v
}

/// The characters of `s`, lower-cased as `str::to_ascii_lowercase` does.
pub fn lowercase_chars(s: &str) -> (v: Vec<char>)
    ensures
        v@ == ascii_lowercase(s@),
{
    let n = s.unicode_len();
    let mut v: Vec<char> = Vec::new();
    let mut i: usize = 0;
    while i < n
        invariant
            n == s@.len(),
            i <= n,
            v@ == ascii_lowercase(s@.subrange(0, i as int)),
        decreases n - i,
    {
        let c = s.get_char(i);
        let l = if 'A' <= c && c <= 'Z' {
            ((c as u8) + 32) as char
        } else {
            c
        };
        v.push(l);
        proof {
            assert(s@.subrange(0, i + 1) == s@.subrange(0, i as int).push(c));
        }
        i = i + 1;
    }
    proof {
        assert(s@.subrange(0, n as int) == s@);
    }
    v
}

/// Whether `p` occurs in `s` at position `i`.
fn matches_at(s: &Vec<char>, p: &Vec<char>, i: usize) -> (r: bool)
    ensures
        r == occurs_at(s@, p@, i as int),
{
    if i > s.len() || p.len() > s.len() - i {
        return false;
    }
    let mut j: usize = 0;
    while j < p.len()
        invariant
            i + p@.len() <= s@.len(),
            s@.len() == s.len(),
            j <= p@.len(),
            forall|k: int| 0 <= k < j ==> s@[i + k] == p@[k],
        decreases p@.len() - j,
    {
        if s[i + j] != p[j] {
            assert(s@.subrange(i as int, i + p@.len())[j as int] != p@[j as int]);
            return false;
        }
        j = j + 1;
    }
    assert(s@.subrange(i as int, i + p@.len()) =~= p@);
    true
}

/// Whether the text `s` begins with `p`, as `str::starts_with` answers.
pub fn starts_with(s: &Vec<char>, p: &str) -> (r: bool)
    ensures
        r == has_prefix(s@, p@),
{
    let pc = chars_of(p);
    matches_at(s, &pc, 0)
}

/// Whether `p` occurs in the text `s`, as `str::contains` answers.
pub fn contains(s: &Vec<char>, p: &str) -> (r: bool)
    ensures
        r == has_infix(s@, p@),
{
    let pc = chars_of(p);
    if pc.len() > s.len() {
        assert forall|i: int| !occurs_at(s@, p@, i) by {}
        return false;
    }
    let last = s.len() - pc.len();
    let mut i: usize = 0;
    loop
        invariant
            pc@ == p@,
            last + pc@.len() == s@.len(),
            i <= last,
            forall|k: int| 0 <= k < i ==> !occurs_at(s@, p@, k),
        decreases last - i,
    {
        if matches_at(s, &pc, i) {
            return true;
        }
        if i == last {
            assert forall|k: int| !occurs_at(s@, p@, k) by {
                if 0 <= k < i {
                }
            }
            return false;
        }
        i = i + 1;
    }
}

/// Whether the text `s` is exactly `p`.
pub fn equals(s: &Vec<char>, p: &str) -> (r: bool)
    ensures
        r == (s@ == p@),
{
    let pc = chars_of(p);
    if pc.len() != s.len() {
        return false;
    }
    let r = matches_at(s, &pc, 0);
    assert(s@.subrange(0, s@.len() as int) == s@);
    r
}

} // verus!

//! Small verified text helpers: turning a borrowed string into its character
//! vector, whitespace scanning, and comparing a scanned token against a
//! command word.

use vstd::prelude::*;

verus! {

/// The whitespace characters commands are tokenized on.
pub open spec fn is_space_char(c: char) -> bool {
    c == ' ' || c == '\t' || c == '\n' || c == '\r'
}

pub fn is_space(c: char) -> (r: bool)
    ensures
        r == is_space_char(c),
{
    c == ' ' || c == '\t' || c == '\n' || c == '\r'
}

/// Index of the first whitespace character, or the length if there is none.
pub open spec fn first_space(s: Seq<char>) -> int
    decreases s.len(),
{
    if s.len() == 0 {
        0
    } else if is_space_char(s[0]) {
        0
    } else {
        1 + first_space(s.drop_first())
    }
}

pub proof fn lemma_first_space_le(s: Seq<char>)
    ensures
        0 <= first_space(s) <= s.len(),
    decreases s.len(),
{
    if s.len() != 0 && !is_space_char(s[0]) {
        lemma_first_space_le(s.drop_first());
    }
}

proof fn lemma_first_space_at(s: Seq<char>, i: int)
    requires
        0 <= i <= s.len(),
        forall|j: int| 0 <= j < i ==> !is_space_char(s[j]),
        i == s.len() || is_space_char(s[i]),
    ensures
        first_space(s) == i,
    decreases i,
{
    if i == 0 {
    } else {
        assert(!is_space_char(s[0]));
        let t = s.drop_first();
        assert forall|j: int| 0 <= j < i - 1 implies !is_space_char(t[j]) by {
            assert(t[j] == s[j + 1]);
        }
        if i - 1 < t.len() {
            assert(t[i - 1] == s[i]);
        }
        lemma_first_space_at(t, i - 1);
    }
}

/// The first whitespace-delimited token: everything before the first space.
pub open spec fn verb_of(s: Seq<char>) -> Seq<char> {
    s.subrange(0, first_space(s))
}

/// Scans for the end of the first token.
pub fn find_token_end(s: &Vec<char>) -> (i: usize)
    ensures
        i == first_space(s@),
{
    let mut i: usize = 0;
    while i < s.len() && !is_space(s[i])
        invariant
            0 <= i <= s@.len(),
            forall|j: int| 0 <= j < i ==> !is_space_char(s@[j]),
        decreases s@.len() - i,
    {
        i += 1;
    }
    proof {
        lemma_first_space_at(s@, i as int);
    }
    i
}

/// Compares the first `end` characters of `s` with the word `word`.
pub fn token_eq(s: &Vec<char>, end: usize, word: &str) -> (r: bool)
    requires
        end <= s@.len(),
    ensures
        r == (s@.subrange(0, end as int) == word@),
{
    let n = word.unicode_len();
    if n != end {
        proof {
            assert(s@.subrange(0, end as int).len() == end);
        }
        return false;
    }
    let mut i: usize = 0;
    while i < end
        invariant
            0 <= i <= end <= s@.len(),
            n == end,
            n == word@.len(),
            forall|j: int| 0 <= j < i ==> s@[j] == word@[j],
        decreases end - i,
    {
        if s[i] != word.get_char(i) {
            proof {
                assert(s@.subrange(0, end as int)[i as int] != word@[i as int]);
            }
            return false;
        }
        i += 1;
    }
    proof {
        assert(s@.subrange(0, end as int) =~= word@);
    }
    true
}

/// Compares two character vectors for equality.
pub fn chars_eq(a: &Vec<char>, b: &Vec<char>) -> (r: bool)
    ensures
        r == (a@ == b@),
{
    if a.len() != b.len() {
        return false;
    }
    let mut i: usize = 0;
    while i < a.len()
        invariant
            0 <= i <= a@.len(),
            a@.len() == b@.len(),
            forall|j: int| 0 <= j < i ==> a@[j] == b@[j],
        decreases a@.len() - i,
    {
        if a[i] != b[i] {
            return false;
        }
        i += 1;
    }
    proof {
        assert(a@ =~= b@);
    }
    true
}

/// Copies a borrowed string into a vector of its characters.
pub fn chars_of(s: &str) -> (v: Vec<char>)
    ensures
        v@ == s@,
{
    let n = s.unicode_len();
    let mut v: Vec<char> = Vec::new();
    let mut i: usize = 0;
    while i < n
        invariant
            0 <= i <= n,
            n == s@.len(),
            v@ =~= s@.subrange(0, i as int),
        decreases n - i,
    {
        v.push(s.get_char(i));
        i += 1;
    }
    proof {
        assert(v@ =~= s@);
    }
    v
}

} // verus!

//! Character-level string helpers with exact contracts.
use vstd::prelude::*;
use vstd::string::*;

verus! {

/// Whether two string slices hold the same characters.
pub fn str_eq(a: &str, b: &str) -> (r: bool)
    ensures
        r == (a@ == b@),
{
    let n = a.unicode_len();
    let m = b.unicode_len();
    if n != m {
        return false;
    }
    let mut i: usize = 0;
    while i < n
        invariant
            n == a@.len(),
            m == b@.len(),
            n == m,
            i <= n,
            forall|j: int| 0 <= j < i ==> a@[j] == b@[j],
        decreases n - i,
    {
        let x = a.get_char(i);
        let y = b.get_char(i);
        if x != y {
            return false;
        }
        i += 1;
    }
    assert(a@ =~= b@);
    true
}

/// `i` is the position of the first occurrence of `c` in `s`.
pub open spec fn is_first_index(s: Seq<char>, c: char, i: int) -> bool {
    &&& 0 <= i < s.len()
    &&& s[i] == c
    &&& forall|j: int| 0 <= j < i ==> s[j] != c
}

/// The two sides of `s` around the first occurrence of `c`, if `c` occurs.
pub open spec fn spec_split_once(s: Seq<char>, c: char) -> Option<(Seq<char>, Seq<char>)> {
    if exists|i: int| is_first_index(s, c, i) {
        let i = choose|i: int| is_first_index(s, c, i);
        Some((s.take(i), s.skip(i + 1)))
    } else {
        None
    }
}

/// The first occurrence is unique.
pub proof fn lemma_first_index_unique(s: Seq<char>, c: char, i: int, k: int)
    requires
        is_first_index(s, c, i),
        is_first_index(s, c, k),
    ensures
        i == k,
{
    if i < k {
        assert(s[i] != c);
    } else if k < i {
        assert(s[k] != c);
    }
}

/// Where `c` occurs at `k`, it has a first occurrence.
proof fn lemma_first_index_exists(s: Seq<char>, c: char, k: int)
    requires
        0 <= k < s.len(),
        s[k] == c,
    ensures
        exists|i: int| is_first_index(s, c, i),
    decreases k,
{
    if exists|j: int| 0 <= j < k && s[j] == c {
        let j = choose|j: int| 0 <= j < k && s[j] == c;
        lemma_first_index_exists(s, c, j);
    } else {
        assert(is_first_index(s, c, k));
    }
}

/// A string splits at `c` exactly when `c` occurs in it; the two sides with
/// `c` between them give the string back, and the left side holds no `c`.
pub proof fn lemma_split_once(s: Seq<char>, c: char)
    ensures
        spec_split_once(s, c) is Some <==> s.contains(c),
        match spec_split_once(s, c) {
            Some((left, right)) => s == left + seq![c] + right && !left.contains(c),
            None => true,
        },
{
    if s.contains(c) {
        let k = choose|k: int| 0 <= k < s.len() && s[k] == c;
        lemma_first_index_exists(s, c, k);
        let i = choose|i: int| is_first_index(s, c, i);
        assert(s =~= s.take(i) + seq![c] + s.skip(i + 1));
        assert(!s.take(i).contains(c));
    } else {
        if exists|i: int| is_first_index(s, c, i) {
            let i = choose|i: int| is_first_index(s, c, i);
            assert(s[i] == c);
        }
    }
}

/// A string made of a left side without `c`, then `c`, then anything, splits
/// into that left side and that rest.
pub proof fn lemma_split_at_first(left: Seq<char>, c: char, right: Seq<char>)
    requires
        !left.contains(c),
    ensures
        spec_split_once(left + seq![c] + right, c) == Some((left, right)),
{
    let s = left + seq![c] + right;
    let n = left.len() as int;
    assert forall|j: int| 0 <= j < n implies s[j] != c by {
        assert(s[j] == left[j]);
    }
    assert(is_first_index(s, c, n));
    let i = choose|i: int| is_first_index(s, c, i);
    lemma_first_index_unique(s, c, i, n);
    assert(s.take(n) =~= left);
    assert(s.skip(n + 1) =~= right);
}

/// Splits `s` at the first occurrence of `c`, dropping that character.
pub fn split_once<'a>(s: &'a str, c: char) -> (r: Option<(&'a str, &'a str)>)
    ensures
        match spec_split_once(s@, c) {
            Some((left, right)) => (r matches Some(p) && p.0@ == left && p.1@ == right),
            None => r is None,
        },
{
    let n = s.unicode_len();
    let mut i: usize = 0;
    while i < n
        invariant
            n == s@.len(),
            i <= n,
            forall|j: int| 0 <= j < i ==> s@[j] != c,
        decreases n - i,
    {
        if s.get_char(i) == c {
            proof {
                assert(is_first_index(s@, c, i as int));
                let k = choose|k: int| is_first_index(s@, c, k);
                lemma_first_index_unique(s@, c, i as int, k);
            }
            let left = s.substring_char(0, i);
            let right = s.substring_char(i + 1, n);
            assert(left@ =~= s@.take(i as int));
            assert(right@ =~= s@.skip(i + 1));
            return Some((left, right));
        }
        i += 1;
    }
    assert(!exists|k: int| is_first_index(s@, c, k));
    None
}

/// The path that results from pushing `part` onto `base`: an absolute `part`
/// replaces `base`; otherwise a separator is put between them unless `base`
/// is empty or already ends with one.
pub open spec fn spec_path_join(base: Seq<char>, part: Seq<char>) -> Seq<char> {
    if part.len() > 0 && part[0] == '/' {
        part
    } else if base.len() == 0 || base.last() == '/' {
        base + part
    } else {
        base + seq!['/'] + part
    }
}

/// Pushes the path `part` onto the path `base`.
pub fn path_join(base: &str, part: &str) -> (r: String)
    ensures
        r@ == spec_path_join(base@, part@),
{
    let n = part.unicode_len();
    if n > 0 && part.get_char(0) == '/' {
        return String::from_str(part);
    }
    let mut r = String::from_str(base);
    let m = base.unicode_len();
    if m > 0 && base.get_char(m - 1) != '/' {
        r.append("/");
        proof {
            reveal_strlit("/");
        }
    }
    r.append(part);
    r
}

} // verus!

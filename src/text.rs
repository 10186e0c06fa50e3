//! Splitting text at the first occurrence of a separator.
use vstd::prelude::*;

verus! {

/// `s` is `head`, the separator `c`, then `tail`, and `head` holds no `c`.
pub open spec fn splits_at_first(s: Seq<char>, c: char, head: Seq<char>, tail: Seq<char>) -> bool {
    s == head + seq![c] + tail && !head.contains(c)
}

/// The text before and after the first `c` of `s`, or `None` if `s` holds no `c`.
pub open spec fn split_first(s: Seq<char>, c: char) -> Option<(Seq<char>, Seq<char>)> {
    if s.contains(c) {
        Some(choose|p: (Seq<char>, Seq<char>)| splits_at_first(s, c, p.0, p.1))
    } else {
        None
    }
}

/// A text splits in at most one way at the first occurrence of a separator.
pub proof fn lemma_split_unique(
    s: Seq<char>,
    c: char,
    h1: Seq<char>,
    t1: Seq<char>,
    h2: Seq<char>,
    t2: Seq<char>,
)
    requires
        splits_at_first(s, c, h1, t1),
        splits_at_first(s, c, h2, t2),
    ensures
        h1 == h2,
        t1 == t2,
{
    let l1 = h1.len() as int;
    let l2 = h2.len() as int;
    assert(s[l1] == c);
    assert(s[l2] == c);
    if l1 < l2 {
        assert(h2[l1] == s[l1]);
        assert(h2.contains(c));
    } else if l2 < l1 {
        assert(h1[l2] == s[l2]);
        assert(h1.contains(c));
    }
    assert(h1 =~= s.subrange(0, l1));
    assert(h2 =~= s.subrange(0, l2));
    assert(t1 =~= s.subrange(l1 + 1, s.len() as int));
    assert(t2 =~= s.subrange(l2 + 1, s.len() as int));
}

/// A split at the first separator is the one that `split_first` names.
pub proof fn lemma_split_first_of(s: Seq<char>, c: char, head: Seq<char>, tail: Seq<char>)
    requires
        splits_at_first(s, c, head, tail),
    ensures
        split_first(s, c) == Some((head, tail)),
{
    assert(s[head.len() as int] == c);
    assert(s.contains(c));
    let w = (head, tail);
    assert(splits_at_first(s, c, w.0, w.1));
    let p = choose|p: (Seq<char>, Seq<char>)| splits_at_first(s, c, p.0, p.1);
    lemma_split_unique(s, c, p.0, p.1, head, tail);
}

/// A character that occurs in a sequence has a first occurrence.
proof fn lemma_first_index(s: Seq<char>, c: char, i: int)
    requires
        0 <= i < s.len(),
        s[i] == c,
    ensures
        exists|k: int| 0 <= k < s.len() && s[k] == c && forall|j: int| 0 <= j < k ==> s[j] != c,
    decreases i,
{
    if exists|j: int| 0 <= j < i && s[j] == c {
        let j = choose|j: int| 0 <= j < i && s[j] == c;
        lemma_first_index(s, c, j);
    }
}

/// What `split_first` gives is a split of `s` at its first `c`.
pub proof fn lemma_split_first_spec(s: Seq<char>, c: char)
    ensures
        split_first(s, c) matches Some(p) ==> splits_at_first(s, c, p.0, p.1),
{
    if s.contains(c) {
        let i = choose|i: int| 0 <= i < s.len() && s[i] == c;
        lemma_first_index(s, c, i);
        let k = choose|k: int|
            0 <= k < s.len() && s[k] == c && forall|j: int| 0 <= j < k ==> s[j] != c;
        let head = s.subrange(0, k);
        let tail = s.subrange(k + 1, s.len() as int);
        assert(s =~= head + seq![c] + tail);
        assert(!head.contains(c)) by {
            if head.contains(c) {
                let j = choose|j: int| 0 <= j < head.len() && head[j] == c;
                assert(s[j] == c);
            }
        }
        lemma_split_first_of(s, c, head, tail);
    }
}

/// `a`, then `b`, then `c`.
pub fn concat3(a: &str, b: &str, c: &str) -> (r: String)
    ensures
        r@ == a@ + b@ + c@,
{
    let mut s = String::from_str(a);
    s.append(b);
    s.append(c);
    s
}

/// Splits `s` at its first `c`.
pub fn split_first_char(s: &str, c: char) -> (r: Option<(&str, &str)>)
    ensures
        match r {
            Some(p) => split_first(s@, c) == Some((p.0@, p.1@)),
            None => split_first(s@, c) is None,
        },
{
    let n = s.unicode_len();
    let mut i: usize = 0;
    while i < n
        invariant
            n == s@.len(),
            i <= n,
            forall|j: int| 0 <= j < i ==> s@[j] != c,
        decreases n - i,
    {
        if s.get_char(i) == c {
            let head = s.substring_char(0, i);
            let tail = s.substring_char(i + 1, n);
            proof {
                assert(s@ =~= head@ + seq![c] + tail@);
                assert(!head@.contains(c)) by {
                    if head@.contains(c) {
                        let k = choose|k: int| 0 <= k < head@.len() && head@[k] == c;
                        assert(s@[k] == c);
                    }
                }
                lemma_split_first_of(s@, c, head@, tail@);
            }
            return Some((head, tail));
        }
        i += 1;
    }
    None
}

} // verus!

//! The `LIKE` pattern match of SQL, as the search of tasks uses it.
use vstd::prelude::*;

verus! {

/// A character with ASCII capital letters turned into small ones.
pub open spec fn fold_case(c: char) -> int {
    if 'A' <= c && c <= 'Z' {
        (c as int) + 32
    } else {
        c as int
    }
}

/// Whether a text matches a `LIKE` pattern: `%` stands for any run of
/// characters, `_` for any one character, and every other character for
/// itself, ASCII letters without regard to case.
pub open spec fn like(p: Seq<char>, t: Seq<char>) -> bool
    decreases p.len() + t.len(),
{
    if p.len() == 0 {
        t.len() == 0
    } else if p[0] == '%' {
        like(p.drop_first(), t) || (t.len() > 0 && like(p, t.drop_first()))
    } else if t.len() == 0 {
        false
    } else if p[0] == '_' || fold_case(p[0]) == fold_case(t[0]) {
        like(p.drop_first(), t.drop_first())
    } else {
        false
    }
}

/// `like` on the suffixes of a pattern and a text.
pub open spec fn like_from(p: Seq<char>, i: int, t: Seq<char>, j: int) -> bool {
    like(p.subrange(i, p.len() as int), t.subrange(j, t.len() as int))
}

proof fn lemma_like_step(p: Seq<char>, i: int, t: Seq<char>, j: int)
    requires
        0 <= i < p.len(),
        0 <= j <= t.len(),
    ensures
        like_from(p, i, t, j) == if p[i] == '%' {
            like_from(p, i + 1, t, j) || (j < t.len() && like_from(p, i, t, j + 1))
        } else if j == t.len() {
            false
        } else if p[i] == '_' || fold_case(p[i]) == fold_case(t[j]) {
            like_from(p, i + 1, t, j + 1)
        } else {
            false
        },
{
    let ps = p.subrange(i, p.len() as int);
    let ts = t.subrange(j, t.len() as int);
    assert(ps.drop_first() =~= p.subrange(i + 1, p.len() as int));
    assert(ps[0] == p[i]);
    if j < t.len() {
        assert(ts.drop_first() =~= t.subrange(j + 1, t.len() as int));
        assert(ts[0] == t[j]);
    }
}

proof fn lemma_like_end(p: Seq<char>, t: Seq<char>, j: int)
    requires
        0 <= j <= t.len(),
    ensures
        like_from(p, p.len() as int, t, j) == (j == t.len()),
{
    assert(p.subrange(p.len() as int, p.len() as int).len() == 0);
}

fn fold_char(c: char) -> (r: u32)
    ensures
        r == fold_case(c),
{
    if 'A' <= c && c <= 'Z' {
        (c as u32) + 32
    } else {
        c as u32
    }
}

/// The characters of a text.
pub fn chars_of(s: &str) -> (v: Vec<char>)
    ensures
        v@ == s@,
{
    let n = s.unicode_len();
    let mut v: Vec<char> = Vec::new();
    let mut i: usize = 0;
    while i < n
        invariant
            n == s@.len(),
            i <= n,
            v@ == s@.take(i as int),
        decreases n - i,
    {
        v.push(s.get_char(i));
        proof {
            assert(s@.take(i + 1) =~= s@.take(i as int).push(s@[i as int]));
        }
        i = i + 1;
    }
    proof {
        assert(s@.take(n as int) =~= s@);
    }
    v
}

/// `text LIKE pattern`, decided row by row from the end of the pattern: each
/// row holds, for every suffix of the text, whether the suffix of the pattern
/// matches it.
pub fn like_match(pattern: &str, text: &str) -> (b: bool)
    ensures
        b == like(pattern@, text@),
{
    let p = chars_of(pattern);
    let t = chars_of(text);
    let n = p.len();
    let m = t.len();
    // Row i = n: the empty pattern matches the empty text only.
    let mut next: Vec<bool> = Vec::new();
    let mut k: usize = 0;
    while k < m
        invariant
            k <= m,
            m == t@.len(),
            next@.len() == k,
            forall|x: int| 0 <= x < k ==> next@[x] == false,
        decreases m - k,
    {
        next.push(false);
        k = k + 1;
    }
    let mut next_end = true;
    proof {
        assert forall|x: int| 0 <= x <= m implies like_from(p@, n as int, t@, x) == (x == m) by {
            lemma_like_end(p@, t@, x);
        }
    }
    let mut i = n;
    while i > 0
        invariant
            i <= n,
            n == p@.len(),
            m == t@.len(),
            next@.len() == m,
            forall|x: int| 0 <= x < m ==> next@[x] == like_from(p@, i as int, t@, x),
            next_end == like_from(p@, i as int, t@, m as int),
        decreases i,
    {
        i = i - 1;
        let c = p[i];
        // The empty suffix of the text.
        let cur_end = if c == '%' {
            next_end
        } else {
            false
        };
        proof {
            lemma_like_step(p@, i as int, t@, m as int);
        }
        let mut cur = next.clone();
        let mut j = m;
        while j > 0
            invariant
                j <= m,
                i < n,
                n == p@.len(),
                m == t@.len(),
                c == p@[i as int],
                next@.len() == m,
                cur@.len() == m,
                forall|x: int| 0 <= x < m ==> next@[x] == like_from(p@, i + 1, t@, x),
                next_end == like_from(p@, i + 1, t@, m as int),
                cur_end == like_from(p@, i as int, t@, m as int),
                forall|x: int| j <= x < m ==> cur@[x] == like_from(p@, i as int, t@, x),
            decreases j,
        {
            j = j - 1;
            let later = if j + 1 < m {
                cur[j + 1]
            } else {
                cur_end
            };
            let diagonal = if j + 1 < m {
                next[j + 1]
            } else {
                next_end
            };
            let v = if c == '%' {
                next[j] || later
            } else if c == '_' || fold_char(c) == fold_char(t[j]) {
                diagonal
            } else {
                false
            };
            proof {
                lemma_like_step(p@, i as int, t@, j as int);
            }
            cur.set(j, v);
        }
        next = cur;
        next_end = cur_end;
    }
    proof {
        assert(p@.subrange(0, n as int) =~= p@);
        assert(t@.subrange(0, m as int) =~= t@);
        assert(pattern@ == p@);
        assert(text@ == t@);
    }
    if m > 0 {
        next[0]
    } else {
        next_end
    }
}

} // verus!

//! Character-level string utilities: membership of a character, splitting on a
//! separator, and joining a directory to a file name with `/`.

use vstd::prelude::*;

verus! {

/// Index of the first occurrence of `sep` in `s`, or -1 when `sep` is absent.
pub open spec fn first_index_of(s: Seq<char>, sep: char) -> int
    decreases s.len(),
{
    if s.len() == 0 {
        -1
    } else if s[0] == sep {
        0
    } else {
        let r = first_index_of(s.drop_first(), sep);
        if r < 0 {
            -1
        } else {
            r + 1
        }
    }
}

/// `first_index_of` finds the least index holding `sep`, or reports that no
/// index holds it.
pub proof fn lemma_first_index_of(s: Seq<char>, sep: char)
    ensures
        first_index_of(s, sep) >= 0 ==> 0 <= first_index_of(s, sep) < s.len()
            && s[first_index_of(s, sep)] == sep
            && (forall|j: int| 0 <= j < first_index_of(s, sep) ==> s[j] != sep),
        first_index_of(s, sep) < 0 ==> forall|j: int| 0 <= j < s.len() ==> s[j] != sep,
    decreases s.len(),
{
    if s.len() == 0 {
    } else if s[0] == sep {
    } else {
        lemma_first_index_of(s.drop_first(), sep);
        if first_index_of(s, sep) < 0 {
            assert forall|j: int| 0 <= j < s.len() implies s[j] != sep by {
                if j > 0 {
                    assert(s.drop_first()[j - 1] == s[j]);
                }
            }
        } else {
            let i = first_index_of(s, sep);
            assert(s.drop_first()[i - 1] == s[i]);
            assert forall|j: int| 0 <= j < i implies s[j] != sep by {
                if j > 0 {
                    assert(s.drop_first()[j - 1] == s[j]);
                }
            }
        }
    }
}

/// The pieces of `s` between occurrences of `sep`: always at least one piece,
/// and an empty `s` yields one empty piece.
pub open spec fn split_chars(s: Seq<char>, sep: char) -> Seq<Seq<char>>
    decreases s.len(),
{
    if first_index_of(s, sep) < 0 {
        seq![s]
    } else {
        proof {
            lemma_first_index_of(s, sep);
        }
        let i = first_index_of(s, sep);
        seq![s.subrange(0, i)] + split_chars(s.subrange(i + 1, s.len() as int), sep)
    }
}

/// Whether `s` contains the character `c`.
pub fn contains_char(s: &str, c: char) -> (b: bool)
    ensures
        b == s@.contains(c),
{
    let n = s.unicode_len();
    let mut i: usize = 0;
    while i < n
        invariant
            n == s@.len(),
            0 <= i <= n,
            forall|j: int| 0 <= j < i ==> s@[j] != c,
        decreases n - i,
    {
        if s.get_char(i) == c {
            assert(s@.contains(c));
            return true;
        }
        i += 1;
    }
    assert(!s@.contains(c));
    false
}

/// Splits `s` on the separator character, keeping empty pieces, exactly as
/// `split_chars` describes.
pub fn split_on(s: &str, sep: char) -> (v: Vec<String>)
    ensures
        v.deep_view() == split_chars(s@, sep),
    decreases s@.len(),
{
    let n = s.unicode_len();
    let mut i: usize = 0;
    while i < n
        invariant
            n == s@.len(),
            0 <= i <= n,
            forall|j: int| 0 <= j < i ==> s@[j] != sep,
        decreases n - i,
    {
        if s.get_char(i) == sep {
            proof {
                lemma_first_index_of(s@, sep);
                assert(first_index_of(s@, sep) >= 0);
                assert(s@[first_index_of(s@, sep)] == sep);
                assert(first_index_of(s@, sep) == i) by {
                    if first_index_of(s@, sep) < i {
                    } else if first_index_of(s@, sep) > i {
                    }
                }
            }
            let head = s.substring_char(0, i);
            let tail = s.substring_char(i + 1, n);
            let mut rest = split_on(tail, sep);
            let ghost pre = rest.deep_view();
            let ghost prev = rest@;
            rest.insert(0, head.to_owned());
            proof {
                let lhs = rest.deep_view();
                let rhs = seq![head@] + split_chars(tail@, sep);
                assert forall|j: int| 0 <= j < lhs.len() implies lhs[j] == rhs[j] by {
                    if j > 0 {
                        assert(rest@[j] == prev[j - 1]);
                        assert(lhs[j] == pre[j - 1]);
                    }
                }
                assert(lhs =~= rhs);
                assert(lhs == split_chars(s@, sep));
            }
            return rest;
        }
        i += 1;
    }
    proof {
        lemma_first_index_of(s@, sep);
        assert(first_index_of(s@, sep) < 0) by {
            if first_index_of(s@, sep) >= 0 {
                assert(s@[first_index_of(s@, sep)] == sep);
            }
        }
    }
    let mut v: Vec<String> = Vec::new();
    v.push(s.to_owned());
    proof {
        assert(v.deep_view() =~= seq![s@]);
    }
    v
}

/// The join of a directory and a file name: the name alone when the directory
/// is empty, no doubled slash when the directory already ends with one.
pub open spec fn joined_path(dir: Seq<char>, name: Seq<char>) -> Seq<char> {
    if dir.len() == 0 {
        name
    } else if dir.last() == '/' {
        dir + name
    } else {
        dir + seq!['/'] + name
    }
}

/// Joins a directory path and a file name with a `/` separator.
pub fn join_path(dir: &str, name: &str) -> (r: String)
    ensures
        r@ == joined_path(dir@, name@),
{
    let n = dir.unicode_len();
    if n == 0 {
        return name.to_owned();
    }
    let mut r = dir.to_owned();
    if dir.get_char(n - 1) != '/' {
        r.append("/");
        proof {
            reveal_strlit("/");
            assert(r@ =~= dir@ + seq!['/']);
        }
    }
    r.append(name);
    r
}

} // verus!

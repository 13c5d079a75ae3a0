use vstd::prelude::*;

verus! {

use vstd::string::StrSliceExecFns;
use vstd::string::StringExecFns;

/// Index of the last occurrence of `c` in `s`, or -1 when `c` does not occur.
pub open spec fn last_index_of(s: Seq<char>, c: char) -> int
    decreases s.len(),
{
    if s.len() == 0 {
        -1
    } else if s[s.len() - 1] == c {
        s.len() - 1
    } else {
        last_index_of(s.drop_last(), c)
    }
}

/// `last_index_of` points at the last occurrence: the character there is `c`
/// and no later character is.
pub proof fn lemma_last_index_of(s: Seq<char>, c: char)
    ensures
        -1 <= last_index_of(s, c) < s.len(),
        last_index_of(s, c) >= 0 ==> s[last_index_of(s, c)] == c,
        forall|j: int| last_index_of(s, c) < j < s.len() ==> s[j] != c,
    decreases s.len(),
{
    if s.len() > 0 && s[s.len() - 1] != c {
        lemma_last_index_of(s.drop_last(), c);
        assert(forall|j: int|
            0 <= j < s.len() - 1 ==> s[j] == s.drop_last()[j]);
    }
}

/// Any index with `c` and nothing but other characters after it is the last
/// occurrence.
pub proof fn lemma_last_index_of_unique(s: Seq<char>, c: char, i: int)
    requires
        0 <= i < s.len(),
        s[i] == c,
        forall|j: int| i < j < s.len() ==> s[j] != c,
    ensures
        last_index_of(s, c) == i,
{
    lemma_last_index_of(s, c);
}

/// The last occurrence within the suffix of `s` that starts at `start`.
pub proof fn lemma_last_index_of_suffix(s: Seq<char>, c: char, start: int)
    requires
        0 <= start <= s.len(),
    ensures
        last_index_of(s.subrange(start, s.len() as int), c) == if last_index_of(s, c) >= start {
            last_index_of(s, c) - start
        } else {
            -1
        },
{
    let suf = s.subrange(start, s.len() as int);
    let l = last_index_of(s, c);
    lemma_last_index_of(s, c);
    lemma_last_index_of(suf, c);
    if l >= start {
        lemma_last_index_of_unique(suf, c, l - start);
    } else {
        if last_index_of(suf, c) >= 0 {
            assert(s[last_index_of(suf, c) + start] == c);
        }
    }
}

/// Index where the final component of the path starts: right after the last
/// '/' separator, or 0 when there is none.
pub open spec fn file_name_start(p: Seq<char>) -> int {
    last_index_of(p, '/') + 1
}

/// The final component of the path.
pub open spec fn spec_file_name(p: Seq<char>) -> Seq<char> {
    p.subrange(file_name_start(p), p.len() as int)
}

/// The extension of the path: the part of the final component after its last
/// '.', or nothing when the final component holds no '.' past its first
/// character (so a leading-dot name such as ".profile" has no extension).
pub open spec fn spec_extension(p: Seq<char>) -> Option<Seq<char>> {
    let name = spec_file_name(p);
    let d = last_index_of(name, '.');
    if d <= 0 {
        None
    } else {
        Some(name.subrange(d + 1, name.len() as int))
    }
}

/// The extension of the path when it has one, the empty sequence otherwise.
pub open spec fn extension_or_empty(p: Seq<char>) -> Seq<char> {
    match spec_extension(p) {
        Some(e) => e,
        None => Seq::empty(),
    }
}

/// An extension never holds a '.' or a '/': it is the part of the final
/// component after the last '.'.
pub proof fn lemma_extension_chars(p: Seq<char>)
    requires
        spec_extension(p) is Some,
    ensures
        forall|i: int|
            0 <= i < extension_or_empty(p).len() ==> extension_or_empty(p)[i] != '.'
                && extension_or_empty(p)[i] != '/',
{
    let name = spec_file_name(p);
    let d = last_index_of(name, '.');
    let e = extension_or_empty(p);
    lemma_last_index_of(p, '/');
    lemma_last_index_of(name, '.');
    assert forall|i: int| 0 <= i < e.len() implies e[i] != '.' && e[i] != '/' by {
        assert(e[i] == name[d + 1 + i]);
        assert(name[d + 1 + i] == p[file_name_start(p) + d + 1 + i]);
    }
}

/// The path with its extension replaced by `e`: everything through the final
/// '.' of the final component is kept and `e` follows it. Meaningful only on
/// a path that has an extension.
pub open spec fn spec_with_extension(p: Seq<char>, e: Seq<char>) -> Seq<char> {
    let name = spec_file_name(p);
    let d = last_index_of(name, '.');
    p.subrange(0, file_name_start(p) + d + 1) + e
}

/// Replacing the extension with a sequence free of '.' and '/' yields a path
/// whose extension is exactly that sequence, and whose prefix up to the
/// extension is unchanged.
pub proof fn lemma_extension_after_replace(p: Seq<char>, e: Seq<char>)
    requires
        spec_extension(p) is Some,
        forall|i: int| 0 <= i < e.len() ==> e[i] != '.' && e[i] != '/',
    ensures
        spec_extension(spec_with_extension(p, e)) == Some(e),
        file_name_start(spec_with_extension(p, e)) == file_name_start(p),
{
    let slash = last_index_of(p, '/');
    let name = spec_file_name(p);
    let d = last_index_of(name, '.');
    let dot = slash + 1 + d;
    let q = spec_with_extension(p, e);
    lemma_last_index_of(p, '/');
    lemma_last_index_of(name, '.');
    lemma_last_index_of_suffix(p, '.', slash + 1);
    assert(q == p.subrange(0, dot + 1) + e);
    assert(q.len() == dot + 1 + e.len());
    // the last '/' of q is the last '/' of p
    assert(forall|j: int| slash < j <= dot ==> q[j] == p[j] && p[j] != '/');
    assert(forall|j: int| dot < j < q.len() ==> q[j] == e[j - dot - 1] && q[j] != '/');
    if slash >= 0 {
        assert(q[slash] == p[slash]);
        lemma_last_index_of_unique(q, '/', slash);
    } else {
        lemma_last_index_of(q, '/');
        if last_index_of(q, '/') >= 0 {
            assert(q[last_index_of(q, '/')] == '/');
        }
    }
    assert(last_index_of(q, '/') == slash);
    // the last '.' of q's final component sits where p's did
    let qname = spec_file_name(q);
    assert(qname == q.subrange(slash + 1, q.len() as int));
    assert(qname[d] == q[dot] && q[dot] == p[dot]);
    assert(p[dot] == name[d]);
    assert(forall|j: int| d < j < qname.len() ==> qname[j] == q[j + slash + 1] && qname[j] != '.');
    lemma_last_index_of_unique(qname, '.', d);
    assert(spec_extension(q) == Some(qname.subrange(d + 1, qname.len() as int)));
    assert(qname.subrange(d + 1, qname.len() as int) =~= e);
}

/// Index of the last occurrence of `c` in `s`, or none when `c` does not
/// occur.
pub fn rfind_char(s: &str, c: char) -> (r: Option<usize>)
    ensures
        match r {
            Some(i) => last_index_of(s@, c) == i as int,
            None => last_index_of(s@, c) == -1,
        },
{
    let n: usize = s.unicode_len();
    let mut i: usize = n;
    while i > 0
        invariant
            i <= n,
            n == s@.len(),
            forall|j: int| i <= j < s@.len() ==> s@[j] != c,
        decreases i,
    {
        let ch = s.get_char(i - 1);
        if ch == c {
            proof {
                lemma_last_index_of_unique(s@, c, i - 1);
            }
            return Some(i - 1);
        }
        i = i - 1;
    }
    proof {
        lemma_last_index_of(s@, c);
        if last_index_of(s@, c) >= 0 {
            assert(s@[last_index_of(s@, c)] == c);
        }
    }
    None
}

/// The extension of `path`, as `spec_extension` defines it.
pub fn extension_of(path: &str) -> (r: Option<String>)
    ensures
        match r {
            Some(e) => spec_extension(path@) == Some(e@),
            None => spec_extension(path@) is None,
        },
{
    let n: usize = path.unicode_len();
    proof {
        lemma_last_index_of(path@, '/');
        lemma_last_index_of(path@, '.');
    }
    let slash: Option<usize> = rfind_char(path, '/');
    let start: usize = match slash {
        Some(i) => i + 1,
        None => 0,
    };
    proof {
        lemma_last_index_of_suffix(path@, '.', start as int);
    }
    match rfind_char(path, '.') {
        None => None,
        Some(d) => {
            if d > start {
                let e = path.substring_char(d + 1, n);
                proof {
                    let name = spec_file_name(path@);
                    assert(e@ =~= name.subrange(d - start + 1, name.len() as int));
                }
                Some(e.to_owned())
            } else {
                None
            }
        },
    }
}

/// `path` with its extension replaced by `new_ext`, as `spec_with_extension`
/// defines it.
pub fn with_extension(path: &str, new_ext: &str) -> (r: String)
    requires
        spec_extension(path@) is Some,
    ensures
        r@ == spec_with_extension(path@, new_ext@),
{
    let n: usize = path.unicode_len();
    proof {
        lemma_last_index_of(path@, '/');
        lemma_last_index_of(path@, '.');
    }
    let slash: Option<usize> = rfind_char(path, '/');
    let start: usize = match slash {
        Some(i) => i + 1,
        None => 0,
    };
    proof {
        lemma_last_index_of_suffix(path@, '.', start as int);
    }
    let d: usize = match rfind_char(path, '.') {
        Some(d) => d,
        None => {
            // a path with an extension always holds a '.'
            proof {
                assert(false);
            }
            0
        },
    };
    let head = path.substring_char(0, d + 1);
    let mut r = head.to_owned();
    r.append(new_ext);
    proof {
        assert(r@ =~= spec_with_extension(path@, new_ext@));
    }
    r
}

} // verus!

use vstd::prelude::*;
use crate::text::str_chars;

verus! {

/// `p` with every trailing `'/'` removed.
pub open spec fn spec_rstrip_slash(p: Seq<char>) -> Seq<char>
    decreases p.len(),
{
    if p.len() > 0 && p[p.len() - 1] == '/' {
        spec_rstrip_slash(p.drop_last())
    } else {
        p
    }
}

/// Index of the last occurrence of `c` in `s`, or `-1`.
pub open spec fn spec_rfind(s: Seq<char>, c: char) -> int
    decreases s.len(),
{
    if s.len() == 0 {
        -1
    } else if s[s.len() - 1] == c {
        s.len() - 1
    } else {
        spec_rfind(s.drop_last(), c)
    }
}

proof fn lemma_rfind_bounds(s: Seq<char>, c: char)
    ensures
        -1 <= spec_rfind(s, c) < s.len(),
    decreases s.len(),
{
    if s.len() > 0 && s[s.len() - 1] != c {
        lemma_rfind_bounds(s.drop_last(), c);
    }
}

/// The final component of a path: what stands after the last `'/'`,
/// trailing slashes ignored. A path without a component, or one whose
/// final component is `"."` or `".."`, has no file name.
pub open spec fn spec_file_name(p: Seq<char>) -> Option<Seq<char>> {
    let t = spec_rstrip_slash(p);
    if t.len() == 0 {
        None
    } else {
        let name = t.skip(spec_rfind(t, '/') + 1);
        if name == seq!['.'] || name == seq!['.', '.'] {
            None
        } else {
            Some(name)
        }
    }
}

/// The extension of a file name: what stands after the last `'.'`,
/// unless the only `'.'` opens the name.
pub open spec fn spec_extension(name: Seq<char>) -> Option<Seq<char>> {
    let k = spec_rfind(name, '.');
    if k <= 0 {
        None
    } else {
        Some(name.skip(k + 1))
    }
}

fn rfind_char(s: &Vec<char>, c: char) -> (r: Option<usize>)
    ensures
        match r {
            Some(i) => spec_rfind(s@, c) == i && i < s@.len(),
            None => spec_rfind(s@, c) == -1,
        },
{
    let mut i: usize = s.len();
    proof {
        assert(s@.take(s@.len() as int) =~= s@);
    }
    while i > 0
        invariant
            i <= s@.len(),
            spec_rfind(s@, c) == spec_rfind(s@.take(i as int), c),
        decreases i,
    {
        proof {
            assert(s@.take(i as int).drop_last() =~= s@.take(i - 1));
            assert(s@.take(i as int)[i - 1] == s@[i - 1]);
        }
        if s[i - 1] == c {
            proof {
                lemma_rfind_bounds(s@.take(i as int), c);
            }
            return Some(i - 1);
        }
        i = i - 1;
    }
    proof {
        assert(s@.take(0) =~= Seq::<char>::empty());
    }
    None
}

/// Extracts the file name of a path, as `spec_file_name` describes it.
pub fn file_name_of(p: &Vec<char>) -> (r: Option<Vec<char>>)
    ensures
        match r {
            Some(n) => spec_file_name(p@) == Some(n@),
            None => spec_file_name(p@) is None,
        },
{
    let mut hi: usize = p.len();
    proof {
        assert(p@.take(p@.len() as int) =~= p@);
    }
    while hi > 0 && p[hi - 1] == '/'
        invariant
            hi <= p@.len(),
            spec_rstrip_slash(p@) == spec_rstrip_slash(p@.take(hi as int)),
        decreases hi,
    {
        proof {
            assert(p@.take(hi as int).drop_last() =~= p@.take(hi - 1));
        }
        hi = hi - 1;
    }
    proof {
        if hi > 0 {
            assert(p@.take(hi as int)[hi - 1] == p@[hi - 1]);
        }
        assert(spec_rstrip_slash(p@.take(hi as int)) == p@.take(hi as int));
    }
    if hi == 0 {
        proof {
            assert(p@.take(0) =~= Seq::<char>::empty());
        }
        return None;
    }
    let mut t: Vec<char> = Vec::new();
    let mut i: usize = 0;
    while i < hi
        invariant
            i <= hi <= p@.len(),
            t@ == p@.take(hi as int).take(i as int),
        decreases hi - i,
    {
        t.push(p[i]);
        proof {
            assert(p@.take(hi as int).take(i as int).push(p@[i as int]) =~= p@.take(
                hi as int,
            ).take(i + 1));
        }
        i = i + 1;
    }
    proof {
        assert(t@ =~= p@.take(hi as int));
    }
    let start: usize = match rfind_char(&t, '/') {
        Some(k) => k + 1,
        None => 0,
    };
    let mut name: Vec<char> = Vec::new();
    let mut j: usize = start;
    while j < t.len()
        invariant
            start <= j <= t@.len(),
            name@ == t@.subrange(start as int, j as int),
        decreases t.len() - j,
    {
        name.push(t[j]);
        proof {
            assert(t@.subrange(start as int, j as int).push(t@[j as int]) =~= t@.subrange(
                start as int,
                j + 1,
            ));
        }
        j = j + 1;
    }
    proof {
        assert(name@ =~= t@.skip(spec_rfind(t@, '/') + 1));
    }
    let dot = name.len() == 1 && name[0] == '.';
    let dotdot = name.len() == 2 && name[0] == '.' && name[1] == '.';
    proof {
        assert(dot == (name@ =~= seq!['.']));
        assert(dotdot == (name@ =~= seq!['.', '.']));
    }
    if dot || dotdot {
        None
    } else {
        Some(name)
    }
}

/// Extracts the extension of a file name, as `spec_extension` describes it.
pub fn extension_of(name: &Vec<char>) -> (r: Option<Vec<char>>)
    ensures
        match r {
            Some(e) => spec_extension(name@) == Some(e@),
            None => spec_extension(name@) is None,
        },
{
    match rfind_char(name, '.') {
        Some(k) => {
            if k == 0 {
                None
            } else {
                let nl = name.len();
                assert(k < nl);
                let mut e: Vec<char> = Vec::new();
                let mut j: usize = k + 1;
                while j < name.len()
                    invariant
                        k + 1 <= j <= name@.len(),
                        e@ == name@.subrange(k + 1, j as int),
                    decreases name.len() - j,
                {
                    e.push(name[j]);
                    proof {
                        assert(name@.subrange(k + 1, j as int).push(name@[j as int])
                            =~= name@.subrange(k + 1, j + 1));
                    }
                    j = j + 1;
                }
                proof {
                    assert(e@ =~= name@.skip(k + 1));
                }
                Some(e)
            }
        },
        None => None,
    }
}

/// The directory part of a path: everything before the last `'/'`.
/// A path without a `'/'` has the empty parent.
pub open spec fn spec_parent_dir(p: Seq<char>) -> Seq<char> {
    let k = spec_rfind(p, '/');
    if k < 0 {
        Seq::empty()
    } else {
        p.take(k)
    }
}

pub fn parent_dir(p: &Vec<char>) -> (r: Vec<char>)
    ensures
        r@ == spec_parent_dir(p@),
{
    let k: usize = match rfind_char(p, '/') {
        Some(k) => k,
        None => {
            proof {
                assert(Seq::<char>::empty() =~= spec_parent_dir(p@));
            }
            return Vec::new();
        },
    };
    let mut r: Vec<char> = Vec::new();
    let mut i: usize = 0;
    while i < k
        invariant
            i <= k < p@.len(),
            r@ == p@.take(i as int),
        decreases k - i,
    {
        r.push(p[i]);
        proof {
            assert(p@.take(i as int).push(p@[i as int]) =~= p@.take(i + 1));
        }
        i = i + 1;
    }
    r
}

/// Joins a directory and a file name with `'/'`; an empty directory
/// yields the bare name.
pub open spec fn spec_join(dir: Seq<char>, name: Seq<char>) -> Seq<char> {
    if dir.len() == 0 {
        name
    } else {
        dir + seq!['/'] + name
    }
}

pub fn join_path(dir: &Vec<char>, name: &str) -> (r: Vec<char>)
    ensures
        r@ == spec_join(dir@, name@),
{
    let nv = str_chars(name);
    if dir.len() == 0 {
        return nv;
    }
    let mut r: Vec<char> = Vec::new();
    let mut i: usize = 0;
    while i < dir.len()
        invariant
            i <= dir@.len(),
            r@ == dir@.take(i as int),
        decreases dir.len() - i,
    {
        r.push(dir[i]);
        proof {
            assert(dir@.take(i as int).push(dir@[i as int]) =~= dir@.take(i + 1));
        }
        i = i + 1;
    }
    proof {
        assert(r@ =~= dir@);
    }
    r.push('/');
    let mut j: usize = 0;
    while j < nv.len()
        invariant
            j <= nv@.len(),
            r@ == dir@ + seq!['/'] + nv@.take(j as int),
        decreases nv.len() - j,
    {
        r.push(nv[j]);
        proof {
            assert((dir@ + seq!['/'] + nv@.take(j as int)).push(nv@[j as int]) =~= dir@
                + seq!['/'] + nv@.take(j + 1));
        }
        j = j + 1;
    }
    proof {
        assert(nv@.take(nv@.len() as int) =~= nv@);
    }
    r
}

/// A path made relative to `root`: the part after `root` and its
/// separator when `root` is a proper prefix, the path itself otherwise,
/// and the empty path when the two are equal.
pub open spec fn spec_relativize(root: Seq<char>, p: Seq<char>) -> Seq<char> {
    if p == root {
        Seq::empty()
    } else if p.len() > root.len() + 1 && p.take(root.len() as int) == root && p[root.len() as int]
        == '/' {
        p.skip(root.len() as int + 1)
    } else {
        p
    }
}

pub fn relativize_path(root: &Vec<char>, p: &Vec<char>) -> (r: Vec<char>)
    ensures
        r@ == spec_relativize(root@, p@),
{
    if crate::text::chars_eq_vec(p, root) {
        return Vec::new();
    }
    if p.len() >= 2 && root.len() <= p.len() - 2 && p[root.len()] == '/' {
        let mut pre_eq = true;
        let ghost mut bad: int = 0;
        let mut i: usize = 0;
        while i < root.len()
            invariant
                i <= root@.len(),
                root@.len() + 1 < p@.len(),
                pre_eq ==> forall|j: int| 0 <= j < i ==> p@[j] == root@[j],
                !pre_eq ==> 0 <= bad < i && p@[bad] != root@[bad],
            decreases root.len() - i,
        {
            if p[i] != root[i] {
                pre_eq = false;
                proof {
                    bad = i as int;
                }
            }
            i = i + 1;
        }
        proof {
            if pre_eq {
                assert(p@.take(root@.len() as int) =~= root@);
            } else {
                assert(p@.take(root@.len() as int)[bad] != root@[bad]);
            }
        }
        if pre_eq {
            let mut r: Vec<char> = Vec::new();
            let mut j: usize = root.len() + 1;
            while j < p.len()
                invariant
                    root@.len() + 1 <= j <= p@.len(),
                    r@ == p@.subrange(root@.len() as int + 1, j as int),
                decreases p.len() - j,
            {
                r.push(p[j]);
                proof {
                    assert(p@.subrange(root@.len() as int + 1, j as int).push(p@[j as int])
                        =~= p@.subrange(root@.len() as int + 1, j + 1));
                }
                j = j + 1;
            }
            proof {
                assert(r@ =~= p@.skip(root@.len() as int + 1));
            }
            return r;
        }
    }
    let mut r: Vec<char> = Vec::new();
    let mut i: usize = 0;
    while i < p.len()
        invariant
            i <= p@.len(),
            r@ == p@.take(i as int),
        decreases p.len() - i,
    {
        r.push(p[i]);
        proof {
            assert(p@.take(i as int).push(p@[i as int]) =~= p@.take(i + 1));
        }
        i = i + 1;
    }
    proof {
        assert(r@ =~= p@);
    }
    r
}


/// Whether the path holds any separator at all.
pub fn rfind_slash(p: &Vec<char>) -> (r: bool)
    ensures
        r == (spec_rfind(p@, '/') >= 0),
{
    let mut i: usize = 0;
    let mut found = false;
    let ghost mut w: int = 0;
    while i < p.len()
        invariant
            i <= p@.len(),
            found ==> 0 <= w < i && p@[w] == '/',
            !found ==> forall|j: int| 0 <= j < i ==> p@[j] != '/',
        decreases p.len() - i,
    {
        if p[i] == '/' {
            found = true;
            proof {
                w = i as int;
            }
        }
        i = i + 1;
    }
    proof {
        lemma_rfind_character(p@, '/');
    }
    found
}

proof fn lemma_rfind_character(s: Seq<char>, c: char)
    ensures
        (spec_rfind(s, c) >= 0) == (exists|j: int| 0 <= j < s.len() && s[j] == c),
        spec_rfind(s, c) >= 0 ==> 0 <= spec_rfind(s, c) < s.len() && s[spec_rfind(s, c)] == c,
    decreases s.len(),
{
    lemma_rfind_bounds(s, c);
    if s.len() > 0 {
        if s[s.len() - 1] == c {
        } else {
            lemma_rfind_character(s.drop_last(), c);
            if exists|j: int| 0 <= j < s.len() && s[j] == c {
                let j = choose|j: int| 0 <= j < s.len() && s[j] == c;
                assert(j < s.len() - 1);
                assert(s.drop_last()[j] == c);
            }
            if spec_rfind(s, c) >= 0 {
                assert(s.drop_last()[spec_rfind(s, c)] == s[spec_rfind(s, c)]);
            }
        }
    }
}

} // verus!

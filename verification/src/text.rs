use vstd::prelude::*;

verus! {

/// Appends one character to a `String`.
/// Relies on `String::push`: the pushed character becomes the last one.
#[verifier::external_body]
pub fn push_char(s: &mut String, c: char)
    ensures
        final(s)@ == old(s)@.push(c),
{
    s.push(c);
}

/// Collects the characters of a string slice into a vector.
pub fn str_chars(s: &str) -> (r: Vec<char>)
    ensures
        r@ == s@,
{
    let mut r: Vec<char> = Vec::new();
    for c in it: s.chars()
        invariant
            it.seq() == s@,
            r@ == it.seq().take(it.index() as int),
    {
        r.push(c);
    }
    proof {
        assert(r@ =~= s@);
    }
    r
}

/// Builds a `String` out of a vector of characters.
pub fn chars_to_string(v: &Vec<char>) -> (r: String)
    ensures
        r@ == v@,
{
    let mut r = String::new();
    let mut i: usize = 0;
    while i < v.len()
        invariant
            i <= v.len(),
            r@ == v@.take(i as int),
        decreases v.len() - i,
    {
        push_char(&mut r, v[i]);
        i = i + 1;
        proof {
            assert(r@ =~= v@.take(i as int));
        }
    }
    proof {
        assert(v@.take(v@.len() as int) =~= v@);
    }
    r
}

/// Compares two character vectors for element-wise equality.
pub fn chars_eq_vec(a: &Vec<char>, b: &Vec<char>) -> (r: bool)
    ensures
        r == (a@ == b@),
{
    if a.len() != b.len() {
        proof {
            assert(a@.len() != b@.len());
        }
        return false;
    }
    let mut i: usize = 0;
    while i < a.len()
        invariant
            i <= a.len(),
            a@.len() == b@.len(),
            forall|j: int| 0 <= j < i ==> a@[j] == b@[j],
        decreases a.len() - i,
    {
        if a[i] != b[i] {
            return false;
        }
        i = i + 1;
    }
    proof {
        assert(a@ =~= b@);
    }
    true
}

/// Compares a character vector with a string slice.
pub fn chars_eq(a: &Vec<char>, b: &str) -> (r: bool)
    ensures
        r == (a@ == b@),
{
    let bv = str_chars(b);
    chars_eq_vec(a, &bv)
}

/// True when `s` has `p` as a prefix.
pub open spec fn spec_starts_with(s: Seq<char>, p: Seq<char>) -> bool {
    p.len() <= s.len() && s.take(p.len() as int) == p
}

/// True when `s` has `p` as a suffix.
pub open spec fn spec_ends_with(s: Seq<char>, p: Seq<char>) -> bool {
    p.len() <= s.len() && s.skip(s.len() - p.len()) == p
}

pub fn chars_starts_with_vec(s: &Vec<char>, p: &Vec<char>) -> (r: bool)
    ensures
        r == spec_starts_with(s@, p@),
{
    if p.len() > s.len() {
        return false;
    }
    let mut i: usize = 0;
    while i < p.len()
        invariant
            i <= p.len(),
            p@.len() <= s@.len(),
            forall|j: int| 0 <= j < i ==> s@[j] == p@[j],
        decreases p.len() - i,
    {
        if s[i] != p[i] {
            proof {
                assert(s@.take(p@.len() as int)[i as int] != p@[i as int]);
            }
            return false;
        }
        i = i + 1;
    }
    proof {
        assert(s@.take(p@.len() as int) =~= p@);
    }
    true
}

pub fn chars_starts_with(s: &Vec<char>, p: &str) -> (r: bool)
    ensures
        r == spec_starts_with(s@, p@),
{
    let pv = str_chars(p);
    chars_starts_with_vec(s, &pv)
}

/// True when `needle` occurs as a contiguous subsequence of `hay`.
pub open spec fn spec_contains_seq(hay: Seq<char>, needle: Seq<char>) -> bool {
    exists|i: int|
        0 <= i && i + needle.len() <= hay.len() && #[trigger] hay.subrange(i, i + needle.len())
            == needle
}

pub fn chars_contains_vec(hay: &Vec<char>, needle: &Vec<char>) -> (r: bool)
    ensures
        r == spec_contains_seq(hay@, needle@),
{
    if needle.len() > hay.len() {
        return false;
    }
    if needle.len() == 0 {
        proof {
            assert(hay@.subrange(0, 0 + needle@.len() as int) =~= needle@);
        }
        return true;
    }
    let bound = hay.len() - needle.len();
    let mut i: usize = 0;
    while i <= bound
        invariant
            1 <= needle@.len() <= hay@.len(),
            bound == hay@.len() - needle@.len(),
            i <= bound + 1,
            forall|k: int|
                0 <= k < i ==> #[trigger] hay@.subrange(k, k + needle@.len()) != needle@,
        decreases hay.len() - i,
    {
        let mut j: usize = 0;
        let mut matched = true;
        while j < needle.len()
            invariant
                j <= needle@.len(),
                i <= bound,
                bound == hay@.len() - needle@.len(),
                1 <= needle@.len() <= hay@.len(),
                matched ==> forall|t: int| 0 <= t < j ==> hay@[i + t] == needle@[t],
                !matched ==> hay@.subrange(i as int, i + needle@.len()) != needle@,
            decreases needle.len() - j,
        {
            let hl = hay.len();
            assert(i + j < hl);
            if hay[i + j] != needle[j] {
                proof {
                    assert(hay@.subrange(i as int, i + needle@.len())[j as int] != needle@[j as int]);
                }
                matched = false;
                j = needle.len();
            } else {
                j = j + 1;
            }
        }
        if matched {
            proof {
                assert(hay@.subrange(i as int, i + needle@.len()) =~= needle@);
            }
            return true;
        }
        i = i + 1;
    }
    proof {
        assert forall|k: int|
            0 <= k && k + needle@.len() <= hay@.len() implies #[trigger] hay@.subrange(
            k,
            k + needle@.len(),
        ) != needle@ by {
            assert(k < i);
        }
    }
    false
}

pub fn chars_contains(hay: &Vec<char>, needle: &str) -> (r: bool)
    ensures
        r == spec_contains_seq(hay@, needle@),
{
    let nv = str_chars(needle);
    chars_contains_vec(hay, &nv)
}

/// Whitespace as the scanners understand it: the six-character ASCII
/// class of space, tab, newline, carriage return, vertical tab and
/// form feed. Other Unicode whitespace is not folded in; the
/// recognised file vocabulary is ASCII.
pub open spec fn spec_is_ws(c: char) -> bool {
    c == ' ' || c == '\t' || c == '\n' || c == '\r' || c == '\u{b}' || c == '\u{c}'
}

#[verifier::when_used_as_spec(spec_is_ws)]
pub fn is_ws(c: char) -> (r: bool)
    ensures
        r == spec_is_ws(c),
{
    c == ' ' || c == '\t' || c == '\n' || c == '\r' || c == '\u{b}' || c == '\u{c}'
}

pub open spec fn spec_is_digit(c: char) -> bool {
    '0' <= c && c <= '9'
}

#[verifier::when_used_as_spec(spec_is_digit)]
pub fn is_digit(c: char) -> (r: bool)
    ensures
        r == spec_is_digit(c),
{
    '0' <= c && c <= '9'
}

/// Index of the first whitespace character at or after `from`, or the length.
pub open spec fn spec_ws_end(s: Seq<char>, from: int) -> int
    decreases s.len() - from,
{
    if from < 0 || from >= s.len() {
        s.len() as int
    } else if spec_is_ws(s[from]) {
        from
    } else {
        spec_ws_end(s, from + 1)
    }
}

/// The longest prefix run of non-whitespace starting at `from`.
pub fn ws_end(s: &Vec<char>, from: usize) -> (r: usize)
    requires
        from <= s@.len(),
    ensures
        r == spec_ws_end(s@, from as int),
        from <= r <= s@.len(),
{
    let mut i: usize = from;
    while i < s.len()
        invariant
            from <= i <= s@.len(),
            spec_ws_end(s@, from as int) == spec_ws_end(s@, i as int),
            forall|j: int| from <= j < i ==> !spec_is_ws(s@[j]),
        decreases s.len() - i,
    {
        if is_ws(s[i]) {
            return i;
        }
        i = i + 1;
    }
    i
}

/// The index of the first non-whitespace character at or after `from`,
/// or the length when everything onward is whitespace.
pub open spec fn spec_skip_ws(s: Seq<char>, from: int) -> int
    decreases s.len() - from,
{
    if from < 0 || from >= s.len() {
        s.len() as int
    } else if spec_is_ws(s[from]) {
        spec_skip_ws(s, from + 1)
    } else {
        from
    }
}

pub fn skip_ws(s: &Vec<char>, from: usize) -> (r: usize)
    requires
        from <= s@.len(),
    ensures
        r == spec_skip_ws(s@, from as int),
        from <= r <= s@.len(),
        r < s@.len() ==> !spec_is_ws(s@[r as int]),
{
    let mut i: usize = from;
    while i < s.len()
        invariant
            from <= i <= s@.len(),
            spec_skip_ws(s@, from as int) == spec_skip_ws(s@, i as int),
        decreases s.len() - i,
    {
        if !is_ws(s[i]) {
            return i;
        }
        i = i + 1;
    }
    i
}

/// The sequence with leading and trailing whitespace removed, for
/// the ASCII whitespace class above.
pub open spec fn spec_trim(s: Seq<char>) -> Seq<char>
    decreases s.len(),
{
    if s.len() == 0 {
        s
    } else if spec_is_ws(s[0]) {
        spec_trim(s.drop_first())
    } else if spec_is_ws(s[s.len() - 1]) {
        spec_trim(s.drop_last())
    } else {
        s
    }
}

pub fn trim(s: &Vec<char>) -> (r: Vec<char>)
    ensures
        r@ == spec_trim(s@),
{
    let mut lo: usize = 0;
    let mut hi: usize = s.len();
    proof {
        assert(s@.subrange(0, s@.len() as int) =~= s@);
    }
    while lo < hi && is_ws(s[lo])
        invariant
            lo <= hi <= s@.len(),
            spec_trim(s@) == spec_trim(s@.subrange(lo as int, hi as int)),
        decreases hi - lo,
    {
        proof {
            assert(s@.subrange(lo as int, hi as int).drop_first() =~= s@.subrange(
                lo + 1,
                hi as int,
            ));
        }
        lo = lo + 1;
    }
    while lo < hi && is_ws(s[hi - 1])
        invariant
            lo <= hi <= s@.len(),
            spec_trim(s@) == spec_trim(s@.subrange(lo as int, hi as int)),
            lo < hi ==> !spec_is_ws(s@[lo as int]),
        decreases hi - lo,
    {
        proof {
            assert(s@.subrange(lo as int, hi as int).drop_last() =~= s@.subrange(
                lo as int,
                hi - 1,
            ));
        }
        hi = hi - 1;
    }
    let mut r: Vec<char> = Vec::new();
    let mut i: usize = lo;
    while i < hi
        invariant
            lo <= i <= hi <= s@.len(),
            r@ == s@.subrange(lo as int, i as int),
        decreases hi - i,
    {
        r.push(s[i]);
        proof {
            assert(s@.subrange(lo as int, i as int).push(s@[i as int]) =~= s@.subrange(
                lo as int,
                i + 1,
            ));
        }
        i = i + 1;
    }
    proof {
        if lo == hi {
            assert(s@.subrange(lo as int, hi as int) =~= Seq::<char>::empty());
            assert(spec_trim(s@.subrange(lo as int, hi as int)) =~= s@.subrange(
                lo as int,
                hi as int,
            ));
        } else {
            assert(spec_trim(s@.subrange(lo as int, hi as int)) == s@.subrange(
                lo as int,
                hi as int,
            ));
        }
    }
    r
}

/// Splits `s` into its lines, cutting at `'\n'`; the terminators are
/// not part of any line, and a trailing newline yields no extra line.
pub open spec fn spec_lines(s: Seq<char>) -> Seq<Seq<char>> {
    spec_lines_from(s, 0)
}

pub open spec fn spec_lines_from(s: Seq<char>, i: int) -> Seq<Seq<char>>
    decreases s.len() - i,
{
    if i < 0 || i >= s.len() {
        Seq::empty()
    } else {
        let e0 = spec_find_char(s, '\n', i);
        let e = if e0 < i {
            i
        } else {
            e0
        };
        if e >= s.len() {
            seq![s.subrange(i, s.len() as int)]
        } else {
            seq![s.subrange(i, e)] + spec_lines_from(s, e + 1)
        }
    }
}

/// Index of the first occurrence of `c` at or after `from`, or the length.
pub open spec fn spec_find_char(s: Seq<char>, c: char, from: int) -> int
    decreases s.len() - from,
{
    if from < 0 || from >= s.len() {
        s.len() as int
    } else if s[from] == c {
        from
    } else {
        spec_find_char(s, c, from + 1)
    }
}

pub fn find_char(s: &Vec<char>, c: char, from: usize) -> (r: usize)
    requires
        from <= s@.len(),
    ensures
        r == spec_find_char(s@, c, from as int),
        from <= r <= s@.len(),
        r < s@.len() ==> s@[r as int] == c,
        forall|j: int| from <= j < r ==> s@[j] != c,
    decreases s@.len() - from,
{
    let mut i: usize = from;
    while i < s.len()
        invariant
            from <= i <= s@.len(),
            spec_find_char(s@, c, from as int) == spec_find_char(s@, c, i as int),
            forall|j: int| from <= j < i ==> s@[j] != c,
        decreases s.len() - i,
    {
        if s[i] == c {
            return i;
        }
        i = i + 1;
    }
    i
}

/// The pieces of `s` cut at every occurrence of `c`, as `str::split`
/// yields them: one piece more than there are separators, and the
/// empty input gives one empty piece.
pub open spec fn spec_split(s: Seq<char>, c: char) -> Seq<Seq<char>> {
    spec_split_from(s, c, 0)
}

pub open spec fn spec_split_from(s: Seq<char>, c: char, i: int) -> Seq<Seq<char>>
    decreases s.len() - i,
{
    if i < 0 || i >= s.len() {
        seq![Seq::empty()]
    } else {
        let e0 = spec_find_char(s, c, i);
        let e = if e0 < i {
            i
        } else {
            e0
        };
        if e >= s.len() {
            seq![s.subrange(i, s.len() as int)]
        } else {
            seq![s.subrange(i, e)] + spec_split_from(s, c, e + 1)
        }
    }
}

pub fn split_char(s: &Vec<char>, c: char) -> (r: Vec<Vec<char>>)
    ensures
        r@.map_values(|l: Vec<char>| l@) == spec_split(s@, c),
        r@.len() >= 1,
{
    let mut r: Vec<Vec<char>> = Vec::new();
    let mut i: usize = 0;
    proof {
        assert(r@.map_values(|l: Vec<char>| l@) + spec_split_from(s@, c, 0) =~= spec_split(
            s@,
            c,
        ));
    }
    loop
        invariant
            i <= s@.len(),
            r@.map_values(|l: Vec<char>| l@) + spec_split_from(s@, c, i as int) == spec_split(
                s@,
                c,
            ),
        decreases s@.len() - i + 1,
    {
        if i >= s.len() {
            let empty_piece: Vec<char> = Vec::new();
            let ghost old_map = r@.map_values(|l: Vec<char>| l@);
            r.push(empty_piece);
            proof {
                assert(r@.map_values(|l: Vec<char>| l@) =~= old_map.push(Seq::empty()));
                assert(old_map.push(Seq::<char>::empty()) =~= old_map + seq![
                    Seq::<char>::empty(),
                ]);
                assert(spec_split_from(s@, c, i as int) == seq![Seq::<char>::empty()]);
            }
            return r;
        }
        proof {
            lemma_find_char_bounds(s@, c, i as int);
        }
        let e = find_char(s, c, i);
        let mut piece: Vec<char> = Vec::new();
        let mut j: usize = i;
        while j < e
            invariant
                i <= j <= e <= s@.len(),
                piece@ == s@.subrange(i as int, j as int),
            decreases e - j,
        {
            piece.push(s[j]);
            proof {
                assert(s@.subrange(i as int, j as int).push(s@[j as int]) =~= s@.subrange(
                    i as int,
                    j + 1,
                ));
            }
            j = j + 1;
        }
        let ghost old_map = r@.map_values(|l: Vec<char>| l@);
        r.push(piece);
        proof {
            assert(r@.map_values(|l: Vec<char>| l@) =~= old_map.push(
                s@.subrange(i as int, e as int),
            ));
        }
        if e < s.len() {
            i = e + 1;
        } else {
            proof {
                assert(s@.subrange(i as int, e as int) == s@.subrange(i as int, s@.len() as int));
                assert(old_map.push(s@.subrange(i as int, s@.len() as int)) =~= old_map + seq![
                    s@.subrange(i as int, s@.len() as int),
                ]);
            }
            return r;
        }
    }
}

/// `s` with every leading repetition of `p` removed.
pub open spec fn spec_strip_prefix_all(s: Seq<char>, p: Seq<char>) -> Seq<char>
    decreases s.len(),
{
    if p.len() > 0 && spec_starts_with(s, p) {
        spec_strip_prefix_all(s.skip(p.len() as int), p)
    } else {
        s
    }
}

pub fn strip_prefix_all(s: &Vec<char>, p: &str) -> (r: Vec<char>)
    ensures
        r@ == spec_strip_prefix_all(s@, p@),
{
    let pv = str_chars(p);
    let mut cur: Vec<char> = Vec::new();
    let mut i: usize = 0;
    while i < s.len()
        invariant
            i <= s@.len(),
            cur@ == s@.take(i as int),
        decreases s.len() - i,
    {
        cur.push(s[i]);
        proof {
            assert(s@.take(i as int).push(s@[i as int]) =~= s@.take(i + 1));
        }
        i = i + 1;
    }
    proof {
        assert(cur@ =~= s@);
    }
    if pv.len() == 0 {
        return cur;
    }
    while chars_starts_with_vec(&cur, &pv)
        invariant
            pv@ == p@,
            pv@.len() > 0,
            spec_strip_prefix_all(cur@, p@) == spec_strip_prefix_all(s@, p@),
        decreases cur@.len(),
    {
        let mut next: Vec<char> = Vec::new();
        let mut j: usize = pv.len();
        while j < cur.len()
            invariant
                pv@.len() <= j <= cur@.len(),
                next@ == cur@.subrange(pv@.len() as int, j as int),
            decreases cur.len() - j,
        {
            next.push(cur[j]);
            proof {
                assert(cur@.subrange(pv@.len() as int, j as int).push(cur@[j as int])
                    =~= cur@.subrange(pv@.len() as int, j + 1));
            }
            j = j + 1;
        }
        proof {
            assert(next@ =~= cur@.skip(pv@.len() as int));
        }
        cur = next;
    }
    cur
}

/// Index of the first occurrence of `sub` in `s` at or after `i`, or
/// the length when none occurs.
pub open spec fn spec_find_sub(s: Seq<char>, sub: Seq<char>, i: int) -> int
    decreases s.len() - i,
{
    if i < 0 || sub.len() == 0 || i + sub.len() > s.len() {
        s.len() as int
    } else if s.subrange(i, i + sub.len()) == sub {
        i
    } else {
        spec_find_sub(s, sub, i + 1)
    }
}

pub fn find_sub(s: &Vec<char>, sub: &Vec<char>, from: usize) -> (r: usize)
    requires
        from <= s@.len(),
        sub@.len() > 0,
    ensures
        r == spec_find_sub(s@, sub@, from as int),
        from <= r <= s@.len(),
        r < s@.len() ==> r + sub@.len() <= s@.len() && s@.subrange(r as int, r + sub@.len())
            == sub@,
    decreases s@.len() - from,
{
    let mut i: usize = from;
    loop
        invariant
            from <= i <= s@.len() + 1,
            i <= s@.len() + 1,
            spec_find_sub(s@, sub@, from as int) == spec_find_sub(s@, sub@, i as int),
            sub@.len() > 0,
            from <= s@.len(),
        decreases s@.len() - i + 1,
    {
        let sl = s.len();
        if i > sl || sl - i < sub.len() {
            proof {
                assert(spec_find_sub(s@, sub@, i as int) == s@.len());
            }
            return sl;
        }
        let mut j: usize = 0;
        let mut matched = true;
        while j < sub.len()
            invariant
                j <= sub@.len(),
                i + sub@.len() <= s@.len(),
                matched ==> forall|t: int| 0 <= t < j ==> s@[i + t] == sub@[t],
                !matched ==> s@.subrange(i as int, i + sub@.len()) != sub@,
            decreases sub.len() - j,
        {
            let sl2 = s.len();
            assert(i + j < sl2);
            if s[i + j] != sub[j] {
                proof {
                    assert(s@.subrange(i as int, i + sub@.len())[j as int] != sub@[j as int]);
                }
                matched = false;
                j = sub.len();
            } else {
                j = j + 1;
            }
        }
        if matched {
            proof {
                assert(s@.subrange(i as int, i + sub@.len()) =~= sub@);
            }
            return i;
        }
        i = i + 1;
    }
}

/// The pieces of `s` cut at every occurrence of `sub`, as
/// `str::split` with a string pattern yields them.
pub open spec fn spec_split_sub(s: Seq<char>, sub: Seq<char>) -> Seq<Seq<char>> {
    spec_split_sub_from(s, sub, 0)
}

pub open spec fn spec_split_sub_from(s: Seq<char>, sub: Seq<char>, i: int) -> Seq<Seq<char>>
    decreases s.len() - i,
{
    if i < 0 || i >= s.len() || sub.len() == 0 {
        seq![Seq::empty()]
    } else {
        let e0 = spec_find_sub(s, sub, i);
        let e = if e0 < i {
            i
        } else {
            e0
        };
        if e >= s.len() {
            seq![s.subrange(i, s.len() as int)]
        } else {
            let step = if e + sub.len() > s.len() {
                s.len() as int
            } else {
                e + sub.len() as int
            };
            seq![s.subrange(i, e)] + spec_split_sub_from(s, sub, step)
        }
    }
}

pub fn split_sub(s: &Vec<char>, sub: &str) -> (r: Vec<Vec<char>>)
    requires
        sub@.len() > 0,
    ensures
        r@.map_values(|l: Vec<char>| l@) == spec_split_sub(s@, sub@),
        r@.len() >= 1,
{
    let subv = str_chars(sub);
    let mut r: Vec<Vec<char>> = Vec::new();
    let mut i: usize = 0;
    proof {
        assert(r@.map_values(|l: Vec<char>| l@) + spec_split_sub_from(s@, sub@, 0)
            =~= spec_split_sub(s@, sub@));
    }
    loop
        invariant
            i <= s@.len(),
            subv@ == sub@,
            sub@.len() > 0,
            r@.map_values(|l: Vec<char>| l@) + spec_split_sub_from(s@, sub@, i as int)
                == spec_split_sub(s@, sub@),
        decreases s@.len() - i + 1,
    {
        if i >= s.len() {
            let empty_piece: Vec<char> = Vec::new();
            let ghost old_map = r@.map_values(|l: Vec<char>| l@);
            r.push(empty_piece);
            proof {
                assert(r@.map_values(|l: Vec<char>| l@) =~= old_map.push(Seq::empty()));
                assert(old_map.push(Seq::<char>::empty()) =~= old_map + seq![
                    Seq::<char>::empty(),
                ]);
            }
            return r;
        }
        let e = find_sub(s, &subv, i);
        let mut piece: Vec<char> = Vec::new();
        let mut j: usize = i;
        while j < e
            invariant
                i <= j <= e <= s@.len(),
                piece@ == s@.subrange(i as int, j as int),
            decreases e - j,
        {
            piece.push(s[j]);
            proof {
                assert(s@.subrange(i as int, j as int).push(s@[j as int]) =~= s@.subrange(
                    i as int,
                    j + 1,
                ));
            }
            j = j + 1;
        }
        let ghost old_map = r@.map_values(|l: Vec<char>| l@);
        r.push(piece);
        proof {
            assert(r@.map_values(|l: Vec<char>| l@) =~= old_map.push(
                s@.subrange(i as int, e as int),
            ));
        }
        if e < s.len() {
            let sl3 = s.len();
            assert(e + sub@.len() <= sl3);
            i = e + subv.len();
        } else {
            proof {
                assert(s@.subrange(i as int, e as int) == s@.subrange(i as int, s@.len() as int));
                assert(old_map.push(s@.subrange(i as int, s@.len() as int)) =~= old_map + seq![
                    s@.subrange(i as int, s@.len() as int),
                ]);
            }
            return r;
        }
    }
}

/// The numeric value of a digit sequence.
pub open spec fn spec_digits_val(s: Seq<char>) -> int
    decreases s.len(),
{
    if s.len() == 0 {
        0
    } else {
        spec_digits_val(s.drop_last()) * 10 + (s.last() as int - '0' as int)
    }
}

pub open spec fn spec_all_digits(s: Seq<char>) -> bool {
    forall|i: int| 0 <= i < s.len() ==> spec_is_digit(s[i])
}

/// The value `str::parse::<u32>` gives a string: an optional leading
/// `'+'`, then one or more digits, whose value fits.
pub open spec fn spec_parse_u32(s: Seq<char>) -> Option<u32> {
    let t = if s.len() > 0 && s[0] == '+' {
        s.drop_first()
    } else {
        s
    };
    if t.len() == 0 || !spec_all_digits(t) || spec_digits_val(t) > u32::MAX {
        None
    } else {
        Some(spec_digits_val(t) as u32)
    }
}

proof fn lemma_digits_val_nonneg(s: Seq<char>)
    requires
        spec_all_digits(s),
    ensures
        spec_digits_val(s) >= 0,
    decreases s.len(),
{
    if s.len() > 0 {
        assert(spec_all_digits(s.drop_last()));
        lemma_digits_val_nonneg(s.drop_last());
    }
}

proof fn lemma_digits_val_monotone(s: Seq<char>, i: int)
    requires
        0 <= i <= s.len(),
        spec_all_digits(s),
    ensures
        spec_digits_val(s.take(i)) <= spec_digits_val(s),
    decreases s.len() - i,
{
    if i < s.len() {
        lemma_digits_val_monotone(s, i + 1);
        assert(s.take(i + 1).drop_last() =~= s.take(i));
        assert(spec_digits_val(s.take(i + 1)) == spec_digits_val(s.take(i)) * 10 + (s[i] as int
            - '0' as int));
        assert(spec_all_digits(s.take(i)));
        lemma_digits_val_nonneg(s.take(i));
    } else {
        assert(s.take(i) =~= s);
    }
}

fn parse_u32_digits(t: &Vec<char>) -> (r: Option<u32>)
    ensures
        match r {
            Some(v) => t@.len() > 0 && spec_all_digits(t@) && spec_digits_val(t@) == v,
            None => t@.len() == 0 || !spec_all_digits(t@) || spec_digits_val(t@) > u32::MAX,
        },
{
    if t.len() == 0 {
        return None;
    }
    let mut val: u64 = 0;
    let mut i: usize = 0;
    while i < t.len()
        invariant
            i <= t@.len(),
            forall|j: int| 0 <= j < i ==> spec_is_digit(t@[j]),
            val == spec_digits_val(t@.take(i as int)),
            val <= u32::MAX,
        decreases t.len() - i,
    {
        let c = t[i];
        if !is_digit(c) {
            return None;
        }
        let d: u64 = (c as u64) - ('0' as u64);
        proof {
            assert(d == c as nat - '0' as nat);
            assert(d <= 9);
        }
        let next: u64 = val * 10 + d;
        proof {
            assert(t@.take(i + 1).drop_last() =~= t@.take(i as int));
            assert(spec_digits_val(t@.take(i + 1)) == val * 10 + d);
        }
        if next > 0xFFFF_FFFF {
            proof {
                if spec_all_digits(t@) {
                    lemma_digits_val_monotone(t@, i + 1);
                }
            }
            return None;
        }
        val = next;
        i = i + 1;
    }
    proof {
        assert(t@.take(t@.len() as int) =~= t@);
    }
    Some(val as u32)
}

/// Parses a character vector as `str::parse::<u32>` would.
pub fn parse_u32(s: &Vec<char>) -> (r: Option<u32>)
    ensures
        r == spec_parse_u32(s@),
{
    if s.len() > 0 && s[0] == '+' {
        let mut t: Vec<char> = Vec::new();
        let mut i: usize = 1;
        while i < s.len()
            invariant
                1 <= i <= s@.len(),
                t@ == s@.subrange(1, i as int),
            decreases s.len() - i,
        {
            t.push(s[i]);
            proof {
                assert(s@.subrange(1, i as int).push(s@[i as int]) =~= s@.subrange(1, i + 1));
            }
            i = i + 1;
        }
        proof {
            assert(t@ =~= s@.drop_first());
        }
        parse_u32_digits(&t)
    } else {
        parse_u32_digits(s)
    }
}

/// Copies a slice of a character vector.
pub fn sub_vec(s: &Vec<char>, lo: usize, hi: usize) -> (r: Vec<char>)
    requires
        lo <= hi <= s@.len(),
    ensures
        r@ == s@.subrange(lo as int, hi as int),
{
    let mut r: Vec<char> = Vec::new();
    let mut i: usize = lo;
    while i < hi
        invariant
            lo <= i <= hi <= s@.len(),
            r@ == s@.subrange(lo as int, i as int),
        decreases hi - i,
    {
        r.push(s[i]);
        proof {
            assert(s@.subrange(lo as int, i as int).push(s@[i as int]) =~= s@.subrange(
                lo as int,
                i + 1,
            ));
        }
        i = i + 1;
    }
    r
}

proof fn lemma_find_char_bounds(s: Seq<char>, c: char, from: int)
    requires
        0 <= from <= s.len(),
    ensures
        from <= spec_find_char(s, c, from) <= s.len(),
    decreases s.len() - from,
{
    if from < s.len() && s[from] != c {
        lemma_find_char_bounds(s, c, from + 1);
    }
}

/// Splits into lines as `str::lines` does, except that a carriage
/// return before the newline is kept (the scanners trim it away).
pub fn split_lines(s: &Vec<char>) -> (r: Vec<Vec<char>>)
    ensures
        r@.map_values(|l: Vec<char>| l@) == spec_lines(s@),
{
    let mut r: Vec<Vec<char>> = Vec::new();
    let mut i: usize = 0;
    proof {
        assert(r@.map_values(|l: Vec<char>| l@) + spec_lines_from(s@, 0) =~= spec_lines(s@));
    }
    while i < s.len()
        invariant
            i <= s@.len(),
            r@.map_values(|l: Vec<char>| l@) + spec_lines_from(s@, i as int) == spec_lines(s@),
        decreases s.len() - i,
    {
        proof {
            lemma_find_char_bounds(s@, '\n', i as int);
        }
        let e = find_char(s, '\n', i);
        let mut line: Vec<char> = Vec::new();
        let mut j: usize = i;
        while j < e
            invariant
                i <= j <= e <= s@.len(),
                line@ == s@.subrange(i as int, j as int),
            decreases e - j,
        {
            line.push(s[j]);
            proof {
                assert(s@.subrange(i as int, j as int).push(s@[j as int]) =~= s@.subrange(
                    i as int,
                    j + 1,
                ));
            }
            j = j + 1;
        }
        let ghost old_map = r@.map_values(|l: Vec<char>| l@);
        r.push(line);
        proof {
            assert(r@.map_values(|l: Vec<char>| l@) =~= old_map.push(
                s@.subrange(i as int, e as int),
            ));
        }
        if e < s.len() {
            i = e + 1;
        } else {
            i = e;
            proof {
                assert(spec_lines_from(s@, i as int) =~= Seq::<Seq<char>>::empty());
            }
        }
    }
    proof {
        assert(spec_lines_from(s@, i as int) =~= Seq::<Seq<char>>::empty());
        assert(r@.map_values(|l: Vec<char>| l@) =~= spec_lines(s@));
    }
    r
}


/// Whether `p` occurs at position `at` of `s`.
pub open spec fn spec_match_at(s: Seq<char>, at: int, p: Seq<char>) -> bool {
    0 <= at && at + p.len() <= s.len() && s.subrange(at, at + p.len()) == p
}

pub fn starts_with_at(s: &Vec<char>, at: usize, p: &Vec<char>) -> (r: bool)
    ensures
        r == spec_match_at(s@, at as int, p@),
{
    let sl = s.len();
    if at > sl || sl - at < p.len() {
        return false;
    }
    let mut j: usize = 0;
    while j < p.len()
        invariant
            j <= p@.len(),
            at + p@.len() <= s@.len(),
            forall|t: int| 0 <= t < j ==> s@[at + t] == p@[t],
        decreases p.len() - j,
    {
        let sl2 = s.len();
        assert(at + j < sl2);
        if s[at + j] != p[j] {
            proof {
                assert(s@.subrange(at as int, at + p@.len())[j as int] != p@[j as int]);
            }
            return false;
        }
        j = j + 1;
    }
    proof {
        assert(s@.subrange(at as int, at + p@.len()) =~= p@);
    }
    true
}

/// Index of the first occurrence of `a` or `b` at or after `from`, or
/// the length.
pub open spec fn spec_find_either(s: Seq<char>, a: char, b: char, from: int) -> int
    decreases s.len() - from,
{
    if from < 0 || from >= s.len() {
        s.len() as int
    } else if s[from] == a || s[from] == b {
        from
    } else {
        spec_find_either(s, a, b, from + 1)
    }
}

pub fn find_either(s: &Vec<char>, a: char, b: char, from: usize) -> (r: usize)
    requires
        from <= s@.len(),
    ensures
        r == spec_find_either(s@, a, b, from as int),
        from <= r <= s@.len(),
        r < s@.len() ==> s@[r as int] == a || s@[r as int] == b,
        forall|j: int| from <= j < r ==> s@[j] != a && s@[j] != b,
{
    let mut i: usize = from;
    while i < s.len()
        invariant
            from <= i <= s@.len(),
            spec_find_either(s@, a, b, from as int) == spec_find_either(s@, a, b, i as int),
            forall|j: int| from <= j < i ==> s@[j] != a && s@[j] != b,
        decreases s.len() - i,
    {
        if s[i] == a || s[i] == b {
            return i;
        }
        i = i + 1;
    }
    i
}

/// The prefix of `s` before the first occurrence of `c`, or all of
/// `s` when `c` does not occur.
pub open spec fn spec_before_char(s: Seq<char>, c: char) -> Seq<char> {
    let e = spec_find_char(s, c, 0);
    if 0 <= e <= s.len() {
        s.take(e)
    } else {
        s
    }
}

pub fn before_char(s: &Vec<char>, c: char) -> (r: Vec<char>)
    ensures
        r@ == spec_before_char(s@, c),
{
    let e = find_char(s, c, 0);
    sub_vec(s, 0, e)
}

/// The prefix of `s` before the first occurrence of `a` or `b`.
pub open spec fn spec_before_either(s: Seq<char>, a: char, b: char) -> Seq<char> {
    let e = spec_find_either(s, a, b, 0);
    if 0 <= e <= s.len() {
        s.take(e)
    } else {
        s
    }
}

pub fn before_either(s: &Vec<char>, a: char, b: char) -> (r: Vec<char>)
    ensures
        r@ == spec_before_either(s@, a, b),
{
    let e = find_either(s, a, b, 0);
    sub_vec(s, 0, e)
}


/// ASCII lowercasing of one character: A through Z fold to their
/// lower-case letters, every other character, ASCII or not, is kept
/// as it stands.
pub open spec fn spec_lower_char(c: char) -> char {
    if c == 'A' { 'a' } else if c == 'B' { 'b' } else if c == 'C' { 'c' }
    else if c == 'D' { 'd' } else if c == 'E' { 'e' } else if c == 'F' { 'f' }
    else if c == 'G' { 'g' } else if c == 'H' { 'h' } else if c == 'I' { 'i' }
    else if c == 'J' { 'j' } else if c == 'K' { 'k' } else if c == 'L' { 'l' }
    else if c == 'M' { 'm' } else if c == 'N' { 'n' } else if c == 'O' { 'o' }
    else if c == 'P' { 'p' } else if c == 'Q' { 'q' } else if c == 'R' { 'r' }
    else if c == 'S' { 's' } else if c == 'T' { 't' } else if c == 'U' { 'u' }
    else if c == 'V' { 'v' } else if c == 'W' { 'w' } else if c == 'X' { 'x' }
    else if c == 'Y' { 'y' } else if c == 'Z' { 'z' } else { c }
}

#[verifier::when_used_as_spec(spec_lower_char)]
pub fn lower_char(c: char) -> (r: char)
    ensures
        r == spec_lower_char(c),
{
    if c == 'A' { 'a' } else if c == 'B' { 'b' } else if c == 'C' { 'c' }
    else if c == 'D' { 'd' } else if c == 'E' { 'e' } else if c == 'F' { 'f' }
    else if c == 'G' { 'g' } else if c == 'H' { 'h' } else if c == 'I' { 'i' }
    else if c == 'J' { 'j' } else if c == 'K' { 'k' } else if c == 'L' { 'l' }
    else if c == 'M' { 'm' } else if c == 'N' { 'n' } else if c == 'O' { 'o' }
    else if c == 'P' { 'p' } else if c == 'Q' { 'q' } else if c == 'R' { 'r' }
    else if c == 'S' { 's' } else if c == 'T' { 't' } else if c == 'U' { 'u' }
    else if c == 'V' { 'v' } else if c == 'W' { 'w' } else if c == 'X' { 'x' }
    else if c == 'Y' { 'y' } else if c == 'Z' { 'z' } else { c }
}

/// ASCII lowercasing of a character sequence; the classification
/// keywords it is held against are all ASCII.
pub open spec fn spec_to_lower(s: Seq<char>) -> Seq<char> {
    s.map_values(|c: char| spec_lower_char(c))
}

pub fn to_lower(s: &Vec<char>) -> (r: Vec<char>)
    ensures
        r@ == spec_to_lower(s@),
{
    let mut r: Vec<char> = Vec::new();
    let mut i: usize = 0;
    while i < s.len()
        invariant
            i <= s@.len(),
            r@ == spec_to_lower(s@.take(i as int)),
        decreases s.len() - i,
    {
        r.push(lower_char(s[i]));
        proof {
            assert(r@ =~= spec_to_lower(s@.take(i + 1)));
        }
        i = i + 1;
    }
    proof {
        assert(s@.take(s@.len() as int) =~= s@);
    }
    r
}

/// Identifier characters of the line-anchored target grammars:
/// letters, digits, underscore and dash.
pub open spec fn spec_is_ident(c: char) -> bool {
    ('a' <= c && c <= 'z') || ('A' <= c && c <= 'Z') || ('0' <= c && c <= '9') || c == '_' || c
        == '-'
}

#[verifier::when_used_as_spec(spec_is_ident)]
pub fn is_ident(c: char) -> (r: bool)
    ensures
        r == spec_is_ident(c),
{
    ('a' <= c && c <= 'z') || ('A' <= c && c <= 'Z') || ('0' <= c && c <= '9') || c == '_' || c
        == '-'
}

/// The end of the identifier run starting at `from`.
pub open spec fn spec_ident_end(s: Seq<char>, from: int) -> int
    decreases s.len() - from,
{
    if from < 0 || from >= s.len() {
        s.len() as int
    } else if spec_is_ident(s[from]) {
        spec_ident_end(s, from + 1)
    } else {
        from
    }
}

pub fn ident_end(s: &Vec<char>, from: usize) -> (r: usize)
    requires
        from <= s@.len(),
    ensures
        r == spec_ident_end(s@, from as int),
        from <= r <= s@.len(),
{
    let mut i: usize = from;
    while i < s.len()
        invariant
            from <= i <= s@.len(),
            spec_ident_end(s@, from as int) == spec_ident_end(s@, i as int),
        decreases s.len() - i,
    {
        if !is_ident(s[i]) {
            return i;
        }
        i = i + 1;
    }
    i
}

/// Appends a character vector to a `String`.
pub fn append_chars(s: &mut String, v: &Vec<char>)
    ensures
        final(s)@ == old(s)@ + v@,
{
    let mut i: usize = 0;
    while i < v.len()
        invariant
            i <= v@.len(),
            s@ == old(s)@ + v@.take(i as int),
        decreases v.len() - i,
    {
        push_char(s, v[i]);
        proof {
            assert((old(s)@ + v@.take(i as int)).push(v@[i as int]) =~= old(s)@ + v@.take(i + 1));
        }
        i = i + 1;
    }
    proof {
        assert(v@.take(v@.len() as int) =~= v@);
    }
}

/// Concatenates a literal, a character vector's text and nothing
/// else into a fresh `String`.
pub fn concat_str_chars(prefix: &str, v: &Vec<char>) -> (r: String)
    ensures
        r@ == prefix@ + v@,
{
    let mut out = prefix.to_owned();
    append_chars(&mut out, v);
    out
}


/// Appends one character vector to another.
pub fn append_vec(dst: &mut Vec<char>, src: &Vec<char>)
    ensures
        final(dst)@ == old(dst)@ + src@,
{
    let mut i: usize = 0;
    while i < src.len()
        invariant
            i <= src@.len(),
            dst@ == old(dst)@ + src@.take(i as int),
        decreases src.len() - i,
    {
        dst.push(src[i]);
        proof {
            assert((old(dst)@ + src@.take(i as int)).push(src@[i as int]) =~= old(dst)@
                + src@.take(i + 1));
        }
        i = i + 1;
    }
    proof {
        assert(src@.take(src@.len() as int) =~= src@);
    }
}


/// The decimal digit character of a value below ten.
pub open spec fn spec_digit_char(d: int) -> char {
    if d == 0 { '0' } else if d == 1 { '1' } else if d == 2 { '2' } else if d == 3 { '3' }
    else if d == 4 { '4' } else if d == 5 { '5' } else if d == 6 { '6' } else if d == 7 { '7' }
    else if d == 8 { '8' } else { '9' }
}

/// The decimal spelling of a number.
pub open spec fn spec_dec(n: int) -> Seq<char>
    decreases n,
{
    if n < 10 {
        seq![spec_digit_char(n)]
    } else {
        spec_dec(n / 10) + seq![spec_digit_char(n % 10)]
    }
}

fn digit_char(d: u32) -> (r: char)
    requires
        d < 10,
    ensures
        r == spec_digit_char(d as int),
{
    if d == 0 { '0' } else if d == 1 { '1' } else if d == 2 { '2' } else if d == 3 { '3' }
    else if d == 4 { '4' } else if d == 5 { '5' } else if d == 6 { '6' } else if d == 7 { '7' }
    else if d == 8 { '8' } else { '9' }
}

/// Writes a number in decimal.
pub fn u32_dec_chars(n: u32) -> (r: Vec<char>)
    ensures
        r@ == spec_dec(n as int),
    decreases n,
{
    if n < 10 {
        let mut r: Vec<char> = Vec::new();
        r.push(digit_char(n));
        proof {
            assert(r@ =~= seq![spec_digit_char(n as int)]);
        }
        r
    } else {
        let mut r = u32_dec_chars(n / 10);
        r.push(digit_char(n % 10));
        proof {
            assert(r@ =~= spec_dec(n as int / 10) + seq![spec_digit_char(n as int % 10)]);
        }
        r
    }
}

/// Lexicographic order on character sequences, by code point.
pub open spec fn spec_lex_le(a: Seq<char>, b: Seq<char>) -> bool
    decreases a.len(),
{
    if a.len() == 0 {
        true
    } else if b.len() == 0 {
        false
    } else if a[0] == b[0] {
        spec_lex_le(a.drop_first(), b.drop_first())
    } else {
        a[0] < b[0]
    }
}

pub fn chars_lex_le(a: &Vec<char>, b: &Vec<char>) -> (r: bool)
    ensures
        r == spec_lex_le(a@, b@),
{
    let mut i: usize = 0;
    proof {
        assert(a@.skip(0) =~= a@);
        assert(b@.skip(0) =~= b@);
    }
    while i < a.len() && i < b.len()
        invariant
            i <= a@.len(),
            i <= b@.len(),
            spec_lex_le(a@, b@) == spec_lex_le(a@.skip(i as int), b@.skip(i as int)),
        decreases a.len() - i,
    {
        proof {
            assert(a@.skip(i as int)[0] == a@[i as int]);
            assert(b@.skip(i as int)[0] == b@[i as int]);
            assert(a@.skip(i as int).drop_first() =~= a@.skip(i + 1));
            assert(b@.skip(i as int).drop_first() =~= b@.skip(i + 1));
        }
        if a[i] != b[i] {
            return a[i] < b[i];
        }
        i = i + 1;
    }
    if i >= a.len() {
        proof {
            assert(a@.skip(i as int).len() == 0);
        }
        true
    } else {
        proof {
            assert(a@.skip(i as int).len() > 0);
            assert(b@.skip(i as int).len() == 0);
        }
        false
    }
}

} // verus!

//! Character-level string operations used throughout the library, each
//! stated over the `Seq<char>` view of the strings involved.

use vstd::prelude::*;

verus! {

/// Unicode `White_Space` characters: the characters that `str::trim` removes.
pub open spec fn is_white_space(c: char) -> bool {
    let u = c as u32;
    ||| 0x09 <= u <= 0x0D
    ||| u == 0x20
    ||| u == 0x85
    ||| u == 0xA0
    ||| u == 0x1680
    ||| 0x2000 <= u <= 0x200A
    ||| u == 0x2028
    ||| u == 0x2029
    ||| u == 0x202F
    ||| u == 0x205F
    ||| u == 0x3000
}

/// `s` without its leading white space.
pub open spec fn trim_start(s: Seq<char>) -> Seq<char>
    decreases s.len(),
{
    if s.len() > 0 && is_white_space(s[0]) {
        trim_start(s.drop_first())
    } else {
        s
    }
}

/// `s` without its trailing white space.
pub open spec fn trim_end(s: Seq<char>) -> Seq<char>
    decreases s.len(),
{
    if s.len() > 0 && is_white_space(s.last()) {
        trim_end(s.drop_last())
    } else {
        s
    }
}

/// `s` without leading and trailing white space.
pub open spec fn trim(s: Seq<char>) -> Seq<char> {
    trim_end(trim_start(s))
}

/// Whether `s` holds nothing but white space.
pub open spec fn is_blank(s: Seq<char>) -> bool {
    trim(s).len() == 0
}

/// Zero-width space, zero-width non-joiner, zero-width joiner and the
/// byte-order mark: characters that are invisible in text.
pub open spec fn is_invisible(c: char) -> bool {
    let u = c as u32;
    u == 0x200B || u == 0x200C || u == 0x200D || u == 0xFEFF
}

/// `s` with every invisible character removed.
pub open spec fn without_invisible(s: Seq<char>) -> Seq<char>
    decreases s.len(),
{
    if s.len() == 0 {
        s
    } else if is_invisible(s.last()) {
        without_invisible(s.drop_last())
    } else {
        without_invisible(s.drop_last()).push(s.last())
    }
}

/// `s` with each occurrence of `pat`, found from left to right without
/// overlap, replaced by `rep`.
pub open spec fn replace_all(s: Seq<char>, pat: Seq<char>, rep: Seq<char>) -> Seq<char>
    decreases s.len(),
{
    if pat.len() == 0 || s.len() < pat.len() {
        s
    } else if s.take(pat.len() as int) == pat {
        rep + replace_all(s.skip(pat.len() as int), pat, rep)
    } else {
        seq![s[0]] + replace_all(s.skip(1), pat, rep)
    }
}

/// The position of the first `c` in `s`.
pub open spec fn first_index_of(s: Seq<char>, c: char) -> Option<int> {
    if exists|i: int| 0 <= i < s.len() && s[i] == c {
        Some(choose|i: int| 0 <= i < s.len() && s[i] == c && forall|j: int| 0 <= j < i ==> s[j] != c)
    } else {
        None
    }
}

/// The position of the last `c` in `s`.
pub open spec fn last_index_of(s: Seq<char>, c: char) -> Option<int> {
    if exists|i: int| 0 <= i < s.len() && s[i] == c {
        Some(choose|i: int| 0 <= i < s.len() && s[i] == c && forall|j: int| i < j < s.len() ==> s[j] != c)
    } else {
        None
    }
}

/// The view of an optional string.
pub open spec fn opt_text(s: Option<String>) -> Option<Seq<char>> {
    match s {
        Some(t) => Some(t@),
        None => None,
    }
}

/// Appends one character to a `String`.
///
/// Calls `String::push`, which std documents as appending the given `char`
/// to the end of the string.
#[verifier::external_body]
fn push_char(s: &mut String, c: char)
    ensures
        final(s)@ == old(s)@.push(c),
{
    s.push(c);
}

/// The characters of `s`, in order.
pub fn chars_of(s: &str) -> (v: Vec<char>)
    ensures
        v@ == s@,
{
    let mut v: Vec<char> = Vec::new();
    for c in it: s.chars()
        invariant
            v@ == it.seq().take(it.index() as int),
            it.seq() == s@,
    {
        v.push(c);
    }
    assert(v@ =~= s@);
    v
}

/// The string made of `v[start..end]`.
pub fn string_of_range(v: &Vec<char>, start: usize, end: usize) -> (s: String)
    requires
        start <= end <= v.len(),
    ensures
        s@ == v@.subrange(start as int, end as int),
{
    let mut s = String::new();
    let mut i = start;
    while i < end
        invariant
            start <= i <= end <= v.len(),
            s@ == v@.subrange(start as int, i as int),
        decreases end - i,
    {
        push_char(&mut s, v[i]);
        i = i + 1;
        assert(s@ =~= v@.subrange(start as int, i as int));
    }
    s
}

/// Whether two strings hold the same characters.
pub fn same_text(a: &str, b: &str) -> (r: bool)
    ensures
        r == (a@ == b@),
{
    let x = String::from_str(a);
    let y = String::from_str(b);
    x == y
}

proof fn lemma_trim_start_skip(s: Seq<char>, i: int)
    requires
        0 <= i < s.len(),
        is_white_space(s[i]),
    ensures
        trim_start(s.skip(i)) == trim_start(s.skip(i + 1)),
{
    assert(s.skip(i).drop_first() =~= s.skip(i + 1));
}

proof fn lemma_trim_end_take(s: Seq<char>, j: int)
    requires
        0 < j <= s.len(),
        is_white_space(s[j - 1]),
    ensures
        trim_end(s.take(j)) == trim_end(s.take(j - 1)),
{
    assert(s.take(j).drop_last() =~= s.take(j - 1));
}

/// `s` with leading and trailing white space removed, as `str::trim` does.
pub fn trimmed(s: &str) -> (r: String)
    ensures
        r@ == trim(s@),
{
    let v = chars_of(s);
    let n = v.len();
    let mut start: usize = 0;
    assert(s@.skip(0) =~= s@);
    while start < n && is_white_space_char(v[start])
        invariant
            n == v.len(),
            v@ == s@,
            start <= n,
            trim_start(s@) == trim_start(s@.skip(start as int)),
        decreases n - start,
    {
        proof {
            lemma_trim_start_skip(s@, start as int);
        }
        start = start + 1;
    }
    let ghost rest = s@.skip(start as int);
    assert(trim_start(rest) == rest) by {
        if rest.len() > 0 {
            assert(rest[0] == v@[start as int]);
        }
    }
    let mut end: usize = n;
    assert(rest.take(n - start) =~= rest);
    while end > start && is_white_space_char(v[end - 1])
        invariant
            n == v.len(),
            v@ == s@,
            start <= end <= n,
            rest == s@.skip(start as int),
            trim_end(rest) == trim_end(rest.take(end - start)),
        decreases end,
    {
        proof {
            assert(rest[end - start - 1] == v@[end - 1]);
            lemma_trim_end_take(rest, end - start);
        }
        end = end - 1;
    }
    let ghost kept = rest.take(end - start);
    assert(trim_end(kept) == kept) by {
        if kept.len() > 0 {
            assert(kept.last() == v@[end - 1]);
        }
    }
    assert(kept =~= s@.subrange(start as int, end as int));
    string_of_range(&v, start, end)
}

/// Whether `c` is a Unicode `White_Space` character.
pub fn is_white_space_char(c: char) -> (r: bool)
    ensures
        r == is_white_space(c),
{
    let u = c as u32;
    (0x09 <= u && u <= 0x0D) || u == 0x20 || u == 0x85 || u == 0xA0 || u == 0x1680 || (0x2000
        <= u && u <= 0x200A) || u == 0x2028 || u == 0x2029 || u == 0x202F || u == 0x205F || u
        == 0x3000
}

/// Whether `s` holds nothing but white space.
pub fn is_blank_text(s: &str) -> (r: bool)
    ensures
        r == is_blank(s@),
{
    let t = trimmed(s);
    t.as_str().is_empty()
}

/// `s` with the invisible characters zero-width space, zero-width
/// non-joiner, zero-width joiner and byte-order mark removed.
pub fn strip_invisible_chars(s: &str) -> (r: String)
    ensures
        r@ == without_invisible(s@),
{
    let v = chars_of(s);
    let mut r = String::new();
    let mut i: usize = 0;
    while i < v.len()
        invariant
            i <= v.len(),
            v@ == s@,
            r@ == without_invisible(s@.take(i as int)),
        decreases v.len() - i,
    {
        let c = v[i];
        let u = c as u32;
        assert(s@.take(i + 1).drop_last() =~= s@.take(i as int));
        if !(u == 0x200B || u == 0x200C || u == 0x200D || u == 0xFEFF) {
            push_char(&mut r, c);
        }
        i = i + 1;
    }
    assert(s@.take(v.len() as int) =~= s@);
    r
}

/// Whether `pat` occurs in `v` at position `at`.
fn occurs_at(v: &Vec<char>, pat: &Vec<char>, at: usize) -> (r: bool)
    requires
        at + pat.len() <= v.len(),
    ensures
        r == (v@.subrange(at as int, at + pat.len()) == pat@),
{
    let mut k: usize = 0;
    while k < pat.len()
        invariant
            at + pat.len() <= v.len(),
            k <= pat.len(),
            forall|j: int| 0 <= j < k ==> v@[at + j] == pat@[j],
        decreases pat.len() - k,
    {
        if v[at + k] != pat[k] {
            assert(v@.subrange(at as int, at + pat.len())[k as int] != pat@[k as int]);
            return false;
        }
        k = k + 1;
    }
    assert(v@.subrange(at as int, at + pat.len()) =~= pat@);
    true
}

/// `s` with each occurrence of `pat` replaced by `rep`, as `str::replace` does.
pub fn replace_text(s: &str, pat: &str, rep: &str) -> (r: String)
    requires
        pat@.len() > 0,
    ensures
        r@ == replace_all(s@, pat@, rep@),
{
    let v = chars_of(s);
    let p = chars_of(pat);
    let n = v.len();
    let m = p.len();
    let mut r = String::new();
    let mut i: usize = 0;
    assert(s@.skip(0) =~= s@);
    assert(r@ + s@ =~= s@);
    while i < n
        invariant
            n == v.len(),
            m == p.len(),
            m > 0,
            v@ == s@,
            p@ == pat@,
            i <= n,
            replace_all(s@, pat@, rep@) == r@ + replace_all(s@.skip(i as int), pat@, rep@),
        decreases n - i,
    {
        let ghost rest = s@.skip(i as int);
        if n - i < m {
            assert(replace_all(rest, pat@, rep@) == rest);
            let tail = string_of_range(&v, i, n);
            assert(tail@ =~= rest);
            r.append(tail.as_str());
            assert(s@.skip(n as int) =~= Seq::<char>::empty());
            assert(replace_all(s@.skip(n as int), pat@, rep@) == Seq::<char>::empty());
            assert(r@ =~= r@ + Seq::<char>::empty());
            i = n;
        } else if occurs_at(&v, &p, i) {
            assert(rest.take(m as int) =~= v@.subrange(i as int, i + m));
            assert(rest.skip(m as int) =~= s@.skip(i + m));
            r.append(rep);
            i = i + m;
        } else {
            assert(rest.take(m as int) =~= v@.subrange(i as int, i + m));
            assert(rest.skip(1) =~= s@.skip(i + 1));
            push_char(&mut r, v[i]);
            assert(seq![rest[0]] =~= seq![v@[i as int]]);
            i = i + 1;
        }
    }
    assert(s@.skip(n as int) =~= Seq::<char>::empty());
    r
}

/// The position of the first `c` in `v`, if any.
pub fn find_first_char(v: &Vec<char>, c: char) -> (r: Option<usize>)
    ensures
        match r {
            Some(i) => i < v.len() && first_index_of(v@, c) == Some(i as int),
            None => first_index_of(v@, c) is None,
        },
{
    let mut i: usize = 0;
    while i < v.len()
        invariant
            i <= v.len(),
            forall|j: int| 0 <= j < i ==> v@[j] != c,
        decreases v.len() - i,
    {
        if v[i] == c {
            let ghost k = choose|k: int|
                0 <= k < v@.len() && v@[k] == c && forall|j: int| 0 <= j < k ==> v@[j] != c;
            assert(0 <= i < v@.len() && v@[i as int] == c && forall|j: int|
                0 <= j < i ==> v@[j] != c);
            assert(k == i);
            return Some(i);
        }
        i = i + 1;
    }
    None
}

/// The position of the last `c` in `v`, if any.
pub fn find_last_char(v: &Vec<char>, c: char) -> (r: Option<usize>)
    ensures
        match r {
            Some(i) => i < v.len() && last_index_of(v@, c) == Some(i as int),
            None => last_index_of(v@, c) is None,
        },
{
    let mut j: usize = v.len();
    while j > 0
        invariant
            j <= v.len(),
            forall|k: int| j <= k < v.len() ==> v@[k] != c,
        decreases j,
    {
        if v[j - 1] == c {
            let i = j - 1;
            let ghost k = choose|k: int|
                0 <= k < v@.len() && v@[k] == c && forall|m: int| k < m < v@.len() ==> v@[m] != c;
            assert(0 <= i < v@.len() && v@[i as int] == c && forall|m: int|
                i < m < v@.len() ==> v@[m] != c);
            assert(k == i);
            return Some(i);
        }
        j = j - 1;
    }
    None
}

proof fn lemma_trim_start_shape(s: Seq<char>)
    ensures
        trim_start(s).len() <= s.len(),
        trim_start(s) == s.skip(s.len() - trim_start(s).len()),
        trim_start(s).len() > 0 ==> !is_white_space(trim_start(s)[0]),
    decreases s.len(),
{
    if s.len() > 0 && is_white_space(s[0]) {
        lemma_trim_start_shape(s.drop_first());
        assert(s.drop_first().skip(s.drop_first().len() - trim_start(s).len()) =~= s.skip(
            s.len() - trim_start(s).len(),
        ));
    } else {
        assert(s.skip(0) =~= s);
    }
}

proof fn lemma_trim_end_shape(s: Seq<char>)
    ensures
        trim_end(s).len() <= s.len(),
        trim_end(s) == s.take(trim_end(s).len() as int),
        trim_end(s).len() > 0 ==> !is_white_space(trim_end(s).last()),
    decreases s.len(),
{
    if s.len() > 0 && is_white_space(s.last()) {
        lemma_trim_end_shape(s.drop_last());
        assert(s.drop_last().take(trim_end(s).len() as int) =~= s.take(trim_end(s).len() as int));
    } else {
        assert(s.take(s.len() as int) =~= s);
    }
}

/// Text that neither begins nor ends with white space is its own trim.
pub proof fn lemma_trim_of_unpadded(s: Seq<char>)
    requires
        s.len() > 0 ==> !is_white_space(s[0]) && !is_white_space(s.last()),
    ensures
        trim(s) == s,
{
}

/// Trimming twice is trimming once.
pub proof fn lemma_trim_idempotent(s: Seq<char>)
    ensures
        trim(trim(s)) == trim(s),
{
    lemma_trim_start_shape(s);
    let a = trim_start(s);
    lemma_trim_end_shape(a);
    let u = trim_end(a);
    if u.len() > 0 {
        assert(u[0] == a[0]);
    }
    lemma_trim_of_unpadded(u);
}

proof fn lemma_first_occurrence_exists(s: Seq<char>, c: char, i: int)
    requires
        0 <= i < s.len(),
        s[i] == c,
    ensures
        exists|k: int| 0 <= k < s.len() && s[k] == c && forall|j: int| 0 <= j < k ==> s[j] != c,
    decreases i,
{
    if exists|j: int| 0 <= j < i && s[j] == c {
        let j = choose|j: int| 0 <= j < i && s[j] == c;
        lemma_first_occurrence_exists(s, c, j);
    } else {
        assert(0 <= i < s.len() && s[i] == c && forall|j: int| 0 <= j < i ==> s[j] != c);
    }
}

proof fn lemma_last_occurrence_exists(s: Seq<char>, c: char, i: int)
    requires
        0 <= i < s.len(),
        s[i] == c,
    ensures
        exists|k: int| 0 <= k < s.len() && s[k] == c && forall|j: int| k < j < s.len() ==> s[j] != c,
    decreases s.len() - i,
{
    if exists|j: int| i < j < s.len() && s[j] == c {
        let j = choose|j: int| i < j < s.len() && s[j] == c;
        lemma_last_occurrence_exists(s, c, j);
    } else {
        assert(0 <= i < s.len() && s[i] == c && forall|j: int| i < j < s.len() ==> s[j] != c);
    }
}

/// A position found by `first_index_of` holds the first `c` of `s`.
pub proof fn lemma_first_index_found(s: Seq<char>, c: char)
    ensures
        first_index_of(s, c) matches Some(k) ==> 0 <= k < s.len() && s[k] == c && forall|j: int|
            0 <= j < k ==> s[j] != c,
{
    if exists|i: int| 0 <= i < s.len() && s[i] == c {
        let i = choose|i: int| 0 <= i < s.len() && s[i] == c;
        lemma_first_occurrence_exists(s, c, i);
    }
}

/// A position found by `last_index_of` holds the last `c` of `s`.
pub proof fn lemma_last_index_found(s: Seq<char>, c: char)
    ensures
        last_index_of(s, c) matches Some(k) ==> 0 <= k < s.len() && s[k] == c && forall|j: int|
            k < j < s.len() ==> s[j] != c,
{
    if exists|i: int| 0 <= i < s.len() && s[i] == c {
        let i = choose|i: int| 0 <= i < s.len() && s[i] == c;
        lemma_last_occurrence_exists(s, c, i);
    }
}

} // verus!

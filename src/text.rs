//! Character-level helpers on strings, each proved against a spec function.
use vstd::prelude::*;

verus! {

/// `p` is a prefix of `s`.
pub open spec fn is_prefix(p: Seq<char>, s: Seq<char>) -> bool {
    p.len() <= s.len() && s.subrange(0, p.len() as int) == p
}

/// `s` up to (not including) its first `#` or `?`.
pub open spec fn strip_fragment_and_query(s: Seq<char>) -> Seq<char>
    decreases s.len(),
{
    if s.len() == 0 {
        s
    } else if s[0] == '#' || s[0] == '?' {
        Seq::empty()
    } else {
        seq![s[0]] + strip_fragment_and_query(s.drop_first())
    }
}

/// The number of `/` characters in `s`.
pub open spec fn slash_count(s: Seq<char>) -> nat
    decreases s.len(),
{
    if s.len() == 0 {
        0
    } else {
        (if s[0] == '/' { 1nat } else { 0nat }) + slash_count(s.drop_first())
    }
}

/// The index of the first `/` in `s`, or its length when there is none.
pub open spec fn first_slash(s: Seq<char>) -> nat
    decreases s.len(),
{
    if s.len() == 0 {
        0
    } else if s[0] == '/' {
        0
    } else {
        1 + first_slash(s.drop_first())
    }
}

/// The two halves of `s` around its only `/`; `None` unless `s` holds
/// exactly one `/`.
pub open spec fn split_owner_repo(s: Seq<char>) -> Option<(Seq<char>, Seq<char>)> {
    if slash_count(s) == 1 {
        let k = first_slash(s) as int;
        Some((s.subrange(0, k), s.subrange(k + 1, s.len() as int)))
    } else {
        None
    }
}

/// Whether `s` begins with `p`.
pub fn starts_with(s: &str, p: &str) -> (r: bool)
    ensures
        r == is_prefix(p@, s@),
{
    let n = s.unicode_len();
    let m = p.unicode_len();
    if m > n {
        return false;
    }
    let mut i: usize = 0;
    while i < m
        invariant
            m == p@.len(),
            n == s@.len(),
            m <= n,
            i <= m,
            forall|j: int| 0 <= j < i ==> s@[j] == p@[j],
        decreases m - i,
    {
        if s.get_char(i) != p.get_char(i) {
            assert(s@.subrange(0, m as int)[i as int] != p@[i as int]);
            return false;
        }
        i = i + 1;
    }
    assert(s@.subrange(0, m as int) =~= p@);
    true
}

/// `s` from character `from` on, cut before its first `#` or `?`.
pub fn strip_from(s: &str, from: usize) -> (r: String)
    requires
        from <= s@.len(),
    ensures
        r@ == strip_fragment_and_query(s@.subrange(from as int, s@.len() as int)),
{
    let n = s.unicode_len();
    let mut i: usize = from;
    assert(s@.subrange(from as int, from as int) + strip_fragment_and_query(
        s@.subrange(from as int, n as int),
    ) =~= strip_fragment_and_query(s@.subrange(from as int, n as int)));
    while i < n
        invariant
            n == s@.len(),
            from <= i <= n,
            strip_fragment_and_query(s@.subrange(from as int, n as int)) == s@.subrange(
                from as int,
                i as int,
            ) + strip_fragment_and_query(s@.subrange(i as int, n as int)),
        decreases n - i,
    {
        let c = s.get_char(i);
        let ghost rest = s@.subrange(i as int, n as int);
        assert(rest[0] == c);
        if c == '#' || c == '?' {
            assert(strip_fragment_and_query(rest) =~= Seq::<char>::empty());
            assert(s@.subrange(from as int, i as int) + Seq::<char>::empty() =~= s@.subrange(
                from as int,
                i as int,
            ));
            return String::from_str(s.substring_char(from, i));
        }
        assert(rest.drop_first() =~= s@.subrange(i + 1, n as int));
        assert(s@.subrange(from as int, i as int) + seq![c] =~= s@.subrange(
            from as int,
            i + 1,
        ));
        i = i + 1;
    }
    if i == n {
        assert(strip_fragment_and_query(s@.subrange(n as int, n as int)) =~= Seq::<char>::empty());
        assert(s@.subrange(from as int, n as int) + Seq::<char>::empty() =~= s@.subrange(
            from as int,
            n as int,
        ));
    }
    String::from_str(s.substring_char(from, i))
}

/// Counts the `/` characters of `s` and finds the first of them.
fn scan_slashes(s: &str) -> (r: (usize, usize))
    ensures
        r.0 == slash_count(s@),
        r.1 == first_slash(s@),
{
    let n = s.unicode_len();
    let mut count: usize = 0;
    let mut first: usize = n;
    let mut i: usize = 0;
    assert(s@.subrange(0, n as int) =~= s@);
    while i < n
        invariant
            n == s@.len(),
            i <= n,
            count <= i,
            slash_count(s@) == count + slash_count(s@.subrange(i as int, n as int)),
            count == 0 ==> first_slash(s@) == i + first_slash(s@.subrange(i as int, n as int)),
            count > 0 ==> first_slash(s@) == first,
            count == 0 ==> first == n,
        decreases n - i,
    {
        let ghost rest = s@.subrange(i as int, n as int);
        assert(rest.drop_first() =~= s@.subrange(i + 1, n as int));
        if s.get_char(i) == '/' {
            if count == 0 {
                first = i;
            }
            count = count + 1;
        }
        i = i + 1;
    }
    assert(s@.subrange(n as int, n as int) =~= Seq::<char>::empty());
    (count, first)
}

/// Splits an `owner/repo` name at its only `/`.
pub fn split_repository(s: &str) -> (r: Option<(String, String)>)
    ensures
        match split_owner_repo(s@) {
            None => r is None,
            Some(parts) => match r {
                Some((owner, repo)) => owner@ == parts.0 && repo@ == parts.1,
                None => false,
            },
        },
{
    let (count, first) = scan_slashes(s);
    if count != 1 {
        return None;
    }
    proof {
        lemma_first_slash_in_range(s@);
    }
    let n = s.unicode_len();
    let owner = String::from_str(s.substring_char(0, first));
    let repo = String::from_str(s.substring_char(first + 1, n));
    Some((owner, repo))
}

proof fn lemma_first_slash_in_range(s: Seq<char>)
    requires
        slash_count(s) > 0,
    ensures
        first_slash(s) < s.len(),
    decreases s.len(),
{
    if s.len() > 0 && s[0] != '/' {
        lemma_first_slash_in_range(s.drop_first());
    }
}

} // verus!

verus! {

/// Cutting at the first `#` or `?` gives back `u` when `u` holds neither and
/// what follows it is empty or starts with one of them.
pub proof fn lemma_strip_stops_after(u: Seq<char>, tail: Seq<char>)
    requires
        forall|i: int| 0 <= i < u.len() ==> u[i] != '#' && u[i] != '?',
        tail.len() == 0 || tail[0] == '#' || tail[0] == '?',
    ensures
        strip_fragment_and_query(u + tail) == u,
    decreases u.len(),
{
    if u.len() == 0 {
        assert(u + tail =~= tail);
        if tail.len() > 0 {
            assert(strip_fragment_and_query(tail) =~= u);
        }
    } else {
        let s = u + tail;
        assert(s[0] == u[0]);
        assert(s.drop_first() =~= u.drop_first() + tail);
        lemma_strip_stops_after(u.drop_first(), tail);
        assert(seq![u[0]] + u.drop_first() =~= u);
    }
}

} // verus!

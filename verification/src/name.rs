use vstd::prelude::*;

verus! {

/// True when `c` occurs somewhere in `s`.
pub open spec fn contains_char(s: Seq<char>, c: char) -> bool {
    exists|i: int| 0 <= i < s.len() && s[i] == c
}

/// The suffix of `s` after the last occurrence of `c`; `s` itself when `c`
/// does not occur.
pub open spec fn after_last(s: Seq<char>, c: char) -> Seq<char>
    decreases s.len(),
{
    if s.len() == 0 {
        s
    } else if s.last() == c {
        Seq::empty()
    } else {
        after_last(s.drop_last(), c).push(s.last())
    }
}

/// `s` with any extension removed: the prefix before the last '.', or `s`
/// unchanged when no '.' occurs.
pub open spec fn strip_extension(s: Seq<char>) -> Seq<char>
    decreases s.len(),
{
    if s.len() == 0 {
        s
    } else if s.last() == '.' {
        s.drop_last()
    } else if contains_char(s, '.') {
        strip_extension(s.drop_last())
    } else {
        s
    }
}

/// The hook name the external naming convention derives from the invoked
/// path: its basename (the part after the last '/'), stripped of any
/// extension, used verbatim as the lookup key.
pub open spec fn derived_name(path: Seq<char>) -> Seq<char> {
    strip_extension(after_last(path, '/'))
}

proof fn lemma_after_last_is_suffix(s: Seq<char>, c: char, k: int)
    requires
        0 <= k <= s.len(),
        forall|j: int| k <= j < s.len() ==> s[j] != c,
        k == 0 || s[k - 1] == c,
    ensures
        after_last(s, c) =~= s.subrange(k, s.len() as int),
    decreases s.len(),
{
    if s.len() == 0 {
    } else if k == s.len() {
        assert(s.last() == c);
    } else {
        assert(s.last() != c);
        lemma_after_last_is_suffix(s.drop_last(), c, k);
        assert(after_last(s, c) =~= s.subrange(k, s.len() as int));
    }
}

proof fn lemma_strip_extension_at(s: Seq<char>, d: int)
    requires
        0 <= d < s.len(),
        s[d] == '.',
        forall|j: int| d < j < s.len() ==> s[j] != '.',
    ensures
        strip_extension(s) =~= s.subrange(0, d),
    decreases s.len(),
{
    if d == s.len() - 1 {
        assert(s.last() == '.');
        assert(strip_extension(s) =~= s.subrange(0, d));
    } else {
        assert(s.last() != '.');
        assert(contains_char(s, '.'));
        assert(s.drop_last()[d] == '.');
        lemma_strip_extension_at(s.drop_last(), d);
        assert(strip_extension(s) =~= s.subrange(0, d));
    }
}

proof fn lemma_strip_extension_none(s: Seq<char>)
    requires
        forall|j: int| 0 <= j < s.len() ==> s[j] != '.',
    ensures
        strip_extension(s) == s,
{
    if s.len() > 0 {
        assert(s.last() != '.');
        assert(!contains_char(s, '.'));
    }
}

/// Derives the hook name for the current invocation from the invoked path,
/// losslessly but for basename and extension stripping.
pub fn derive_hook_name(path: &str) -> (r: String)
    ensures
        r@ == derived_name(path@),
{
    let n: usize = path.unicode_len();
    let mut start: usize = 0;
    let mut i: usize = 0;
    while i < n
        invariant
            n == path@.len(),
            i <= n,
            start <= i,
            forall|j: int| start <= j < i ==> path@[j] != '/',
            start == 0 || path@[start - 1] == '/',
        decreases n - i,
    {
        if path.get_char(i) == '/' {
            start = i + 1;
        }
        i = i + 1;
    }
    let mut stem_end: usize = n;
    let mut j: usize = start;
    while j < n
        invariant
            n == path@.len(),
            start <= j <= n,
            start <= stem_end <= n,
            stem_end == n ==> forall|t: int| start <= t < j ==> path@[t] != '.',
            stem_end < n ==> path@[stem_end as int] == '.'
                && (forall|t: int| stem_end < t < j ==> path@[t] != '.'),
        decreases n - j,
    {
        if path.get_char(j) == '.' {
            stem_end = j;
        }
        j = j + 1;
    }
    proof {
        lemma_after_last_is_suffix(path@, '/', start as int);
        let base = path@.subrange(start as int, n as int);
        if stem_end == n {
            assert(forall|t: int| 0 <= t < base.len() ==> base[t] != '.');
            lemma_strip_extension_none(base);
            assert(derived_name(path@) =~= path@.subrange(start as int, stem_end as int));
        } else {
            let d = stem_end - start as int;
            assert(base[d] == '.');
            assert(forall|t: int| d < t < base.len() ==> base[t] != '.');
            lemma_strip_extension_at(base, d);
            assert(base.subrange(0, d) =~= path@.subrange(start as int, stem_end as int));
            assert(derived_name(path@) =~= path@.subrange(start as int, stem_end as int));
        }
    }
    let stem = path.substring_char(start, stem_end);
    String::from_str(stem)
}

/// A relation lifecycle transition; each generates a parameterized hook name.
#[derive(PartialEq, Eq, Structural, Debug, Clone, Copy)]
pub enum RelationEvent {
    Joined,
    Changed,
    Departed,
    Broken,
}

/// The suffix the naming template appends for a relation lifecycle transition.
pub open spec fn relation_event_suffix(e: RelationEvent) -> Seq<char> {
    match e {
        RelationEvent::Joined => "-joined"@,
        RelationEvent::Changed => "-changed"@,
        RelationEvent::Departed => "-departed"@,
        RelationEvent::Broken => "-broken"@,
    }
}

/// The hook name for a relation's lifecycle transition: the template
/// `relation-named-<relation><suffix>` with the declared relation name
/// substituted at registration time.
pub open spec fn relation_hook_name_of(relation: Seq<char>, e: RelationEvent) -> Seq<char> {
    "relation-named-"@ + relation + relation_event_suffix(e)
}

/// Builds the hook name under which a relation lifecycle handler is
/// registered.
pub fn relation_hook_name(relation: &str, e: RelationEvent) -> (r: String)
    ensures
        r@ == relation_hook_name_of(relation@, e),
{
    let mut s = String::from_str("relation-named-");
    s.append(relation);
    match e {
        RelationEvent::Joined => s.append("-joined"),
        RelationEvent::Changed => s.append("-changed"),
        RelationEvent::Departed => s.append("-departed"),
        RelationEvent::Broken => s.append("-broken"),
    }
    s
}

} // verus!

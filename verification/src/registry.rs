use vstd::prelude::*;

verus! {

/// One binding of a hook name to a handler, created at process startup and
/// immutable afterward.
pub struct RegistryEntry<H> {
    pub name: String,
    pub handler: H,
}

/// The table of hook-name-to-handler bindings for one process invocation:
/// an ordered collection built by the caller before any handler runs.
pub struct Registry<H> {
    entries: Vec<RegistryEntry<H>>,
}

/// The first handler bound to `n` in `b`, scanning from index `i` on.
pub open spec fn first_match_from<H>(b: Seq<(Seq<char>, H)>, n: Seq<char>, i: int) -> Option<H>
    decreases b.len() - i,
{
    if i < 0 || i >= b.len() {
        None
    } else if b[i].0 == n {
        Some(b[i].1)
    } else {
        first_match_from(b, n, i + 1)
    }
}

/// The handler resolution policy: the first binding whose name equals `n`
/// exactly, or nothing. No pattern matching, wildcarding, or case-folding.
pub open spec fn first_match<H>(b: Seq<(Seq<char>, H)>, n: Seq<char>) -> Option<H> {
    first_match_from(b, n, 0)
}

/// True when some binding in `b` carries the name `n`.
pub open spec fn contains_name<H>(b: Seq<(Seq<char>, H)>, n: Seq<char>) -> bool {
    exists|i: int| 0 <= i < b.len() && b[i].0 == n
}

impl<H> Registry<H> {
    /// The registry as a sequence of (name, handler) bindings, in
    /// registration order.
    pub closed spec fn bindings(&self) -> Seq<(Seq<char>, H)> {
        Seq::new(self.entries@.len(), |i: int| (self.entries@[i].name@, self.entries@[i].handler))
    }

    /// An empty registry.
    pub fn new() -> (r: Registry<H>)
        ensures
            r.bindings() =~= Seq::<(Seq<char>, H)>::empty(),
    {
        Registry { entries: Vec::new() }
    }

    /// Appends a binding. The caller is responsible for not registering two
    /// bindings with identical names; if it does anyway, resolution stays
    /// deterministic because lookup takes the first match.
    pub fn register(&mut self, name: String, handler: H)
        ensures
            final(self).bindings() =~= old(self).bindings().push((name@, handler)),
    {
        self.entries.push(RegistryEntry { name, handler });
    }

    /// Exact-string-match lookup: the first binding named `name`, if any.
    pub fn lookup(&self, name: &String) -> (r: Option<&H>)
        ensures
            match r {
                Some(h) => first_match(self.bindings(), name@) == Some(*h),
                None => first_match(self.bindings(), name@) is None,
            },
    {
        let ghost b = self.bindings();
        let mut i: usize = 0;
        while i < self.entries.len()
            invariant
                i <= self.entries@.len(),
                b == self.bindings(),
                b.len() == self.entries@.len(),
                first_match(b, name@) == first_match_from(b, name@, i as int),
            decreases self.entries@.len() - i,
        {
            if self.entries[i].name == *name {
                proof {
                    assert(b[i as int].0 == name@);
                }
                return Some(&self.entries[i].handler);
            }
            proof {
                assert(b[i as int].0 != name@);
                assert(first_match_from(b, name@, i as int) == first_match_from(
                    b,
                    name@,
                    i + 1,
                ));
            }
            i = i + 1;
        }
        None
    }
}

/// Law: registering a name not already present and then looking that name up
/// yields exactly the handler just registered.
pub proof fn lemma_register_then_lookup<H>(b: Seq<(Seq<char>, H)>, n: Seq<char>, h: H)
    requires
        !contains_name(b, n),
    ensures
        first_match(b.push((n, h)), n) == Some(h),
{
    assert(forall|j: int| 0 <= j < b.len() ==> b[j].0 != n);
    lemma_first_match_from_push(b, n, h, 0);
}

proof fn lemma_first_match_from_push<H>(b: Seq<(Seq<char>, H)>, n: Seq<char>, h: H, i: int)
    requires
        0 <= i <= b.len(),
        forall|j: int| i <= j < b.len() ==> b[j].0 != n,
    ensures
        first_match_from(b.push((n, h)), n, i) == Some(h),
    decreases b.len() - i,
{
    let bp = b.push((n, h));
    if i == b.len() {
        assert(bp[i].0 == n);
    } else {
        assert(bp[i].0 == b[i].0);
        lemma_first_match_from_push(b, n, h, i + 1);
    }
}

/// Law: resolution finds a handler exactly when some binding carries the
/// looked-up name.
pub proof fn lemma_match_iff_contains<H>(b: Seq<(Seq<char>, H)>, n: Seq<char>)
    ensures
        first_match(b, n) is Some <==> contains_name(b, n),
{
    lemma_match_from_iff(b, n, 0);
}

proof fn lemma_match_from_iff<H>(b: Seq<(Seq<char>, H)>, n: Seq<char>, i: int)
    requires
        0 <= i <= b.len(),
    ensures
        first_match_from(b, n, i) is Some <==> exists|j: int| i <= j < b.len() && b[j].0 == n,
    decreases b.len() - i,
{
    if i == b.len() {
    } else if b[i].0 == n {
    } else {
        lemma_match_from_iff(b, n, i + 1);
        if exists|j: int| i <= j < b.len() && b[j].0 == n {
            let j = choose|j: int| i <= j < b.len() && b[j].0 == n;
            assert(i + 1 <= j < b.len() && b[j].0 == n);
        }
    }
}

} // verus!

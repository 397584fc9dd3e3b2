use vstd::prelude::*;

verus! {

/// `i` is the first position of `s` whose element satisfies `p`.
pub open spec fn is_first_match<T>(s: Seq<T>, p: spec_fn(T) -> bool, i: int) -> bool {
    &&& 0 <= i < s.len()
    &&& p(s[i])
    &&& forall|j: int| 0 <= j < i ==> !p(#[trigger] s[j])
}

/// Position of the first element of `s` that satisfies `p`, if any.
pub open spec fn first_match<T>(s: Seq<T>, p: spec_fn(T) -> bool) -> Option<int> {
    if exists|i: int| is_first_match(s, p, i) {
        Some(choose|i: int| is_first_match(s, p, i))
    } else {
        None
    }
}

/// Some element of `s` satisfies `p`.
pub open spec fn any_match<T>(s: Seq<T>, p: spec_fn(T) -> bool) -> bool {
    exists|i: int| 0 <= i < s.len() && p(#[trigger] s[i])
}

pub proof fn lemma_first_match_at<T>(s: Seq<T>, p: spec_fn(T) -> bool, i: int)
    requires
        is_first_match(s, p, i),
    ensures
        first_match(s, p) == Some(i),
{
    let k = choose|k: int| is_first_match(s, p, k);
    assert(is_first_match(s, p, k));
    if k < i {
        assert(!p(s[k]));
    } else if k > i {
        assert(!p(s[i]));
    }
}

pub proof fn lemma_first_match_none<T>(s: Seq<T>, p: spec_fn(T) -> bool)
    requires
        forall|j: int| 0 <= j < s.len() ==> !p(#[trigger] s[j]),
    ensures
        first_match(s, p) is None,
        !any_match(s, p),
{
    if exists|i: int| is_first_match(s, p, i) {
        let k = choose|k: int| is_first_match(s, p, k);
        assert(p(s[k]));
    }
}

pub proof fn lemma_first_match_some<T>(s: Seq<T>, p: spec_fn(T) -> bool)
    requires
        any_match(s, p),
    ensures
        first_match(s, p) is Some,
    decreases s.len(),
{
    let w = choose|i: int| 0 <= i < s.len() && p(#[trigger] s[i]);
    lemma_min_witness(s, p, w);
}

proof fn lemma_min_witness<T>(s: Seq<T>, p: spec_fn(T) -> bool, n: int)
    ensures
        (exists|i: int| 0 <= i <= n && i < s.len() && p(#[trigger] s[i])) ==> exists|i: int| is_first_match(s, p, i),
    decreases n + 1,
{
    if n < 0 {
    } else {
        lemma_min_witness(s, p, n - 1);
        if (exists|i: int| 0 <= i <= n && i < s.len() && p(#[trigger] s[i])) && !(exists|i: int| 0 <= i <= n - 1 && i < s.len() && p(#[trigger] s[i])) {
            assert(is_first_match(s, p, n));
        }
    }
}

/// Result of scanning per-item verdicts in order: the first failure wins.
pub open spec fn first_failure<E>(s: Seq<Option<E>>) -> Result<(), E>
    decreases s.len(),
{
    if s.len() == 0 {
        Ok(())
    } else {
        match s[0] {
            Some(e) => Err(e),
            None => first_failure(s.drop_first()),
        }
    }
}

pub proof fn lemma_first_failure_at<E>(s: Seq<Option<E>>, i: int)
    requires
        0 <= i < s.len(),
        s[i] is Some,
        forall|j: int| 0 <= j < i ==> (#[trigger] s[j]) is None,
    ensures
        first_failure(s) == Err::<(), E>(s[i]->0),
    decreases i,
{
    if i > 0 {
        assert(s[0] is None);
        let t = s.drop_first();
        assert forall|j: int| 0 <= j < i - 1 implies (#[trigger] t[j]) is None by {
            assert(t[j] == s[j + 1]);
        }
        lemma_first_failure_at(t, i - 1);
    }
}

pub proof fn lemma_first_failure_ok<E>(s: Seq<Option<E>>)
    requires
        forall|j: int| 0 <= j < s.len() ==> (#[trigger] s[j]) is None,
    ensures
        first_failure(s) == Ok::<(), E>(()),
    decreases s.len(),
{
    if s.len() > 0 {
        let t = s.drop_first();
        assert forall|j: int| 0 <= j < t.len() implies (#[trigger] t[j]) is None by {
            assert(t[j] == s[j + 1]);
        }
        lemma_first_failure_ok(t);
    }
}

/// Exec search for the first element accepted by `f`, which decides `p`.
pub fn find_first<T, F: Fn(&T) -> bool>(v: &Vec<T>, f: F, Ghost(p): Ghost<spec_fn(T) -> bool>) -> (r: Option<usize>)
    requires
        forall|x: &T| #[trigger] f.requires((x,)),
        forall|x: &T, b: bool| f.ensures((x,), b) ==> b == p(*x),
    ensures
        opt_index(r) == first_match(v@, p),
        r matches Some(i) ==> is_first_match(v@, p, i as int),
        r is None <==> !any_match(v@, p),
{
    let mut i: usize = 0;
    while i < v.len()
        invariant
            i <= v.len(),
            forall|x: &T| #[trigger] f.requires((x,)),
            forall|x: &T, b: bool| f.ensures((x,), b) ==> b == p(*x),
            forall|j: int| 0 <= j < i ==> !p(#[trigger] v@[j]),
        decreases v.len() - i,
    {
        if f(&v[i]) {
            proof {
                lemma_first_match_at(v@, p, i as int);
                assert(any_match(v@, p));
            }
            return Some(i);
        }
        i += 1;
    }
    proof { lemma_first_match_none(v@, p); }
    None
}

} // verus!

verus! {

/// The view of an optional position as an integer position.
pub open spec fn opt_index(r: Option<usize>) -> Option<int> {
    match r {
        Some(i) => Some(i as int),
        None => None,
    }
}

pub proof fn lemma_first_match_facts<T>(s: Seq<T>, p: spec_fn(T) -> bool)
    ensures
        first_match(s, p) matches Some(i) ==> is_first_match(s, p, i),
        first_match(s, p) is None <==> !any_match(s, p),
{
    if any_match(s, p) {
        lemma_first_match_some(s, p);
    } else {
        assert forall|j: int| 0 <= j < s.len() implies !p(#[trigger] s[j]) by {}
        lemma_first_match_none(s, p);
    }
}

/// Exec test whether some element is accepted by `f`, which decides `p`.
pub fn exists_match<T, F: Fn(&T) -> bool>(v: &Vec<T>, f: F, Ghost(p): Ghost<spec_fn(T) -> bool>) -> (r: bool)
    requires
        forall|x: &T| #[trigger] f.requires((x,)),
        forall|x: &T, b: bool| f.ensures((x,), b) ==> b == p(*x),
    ensures
        r == any_match(v@, p),
{
    let k = find_first(v, f, Ghost(p));
    proof { lemma_first_match_facts(v@, p); }
    k.is_some()
}

/// Whether two strings hold the same text.
pub fn str_eq(a: &str, b: &str) -> (r: bool)
    ensures
        r == (a@ == b@),
{
    let x = a.to_owned();
    let y = b.to_owned();
    x == y
}

/// `n` is a power of two.
pub open spec fn is_power_of_two(n: nat) -> bool
    decreases n,
{
    if n == 1 {
        true
    } else if n == 0 || n % 2 == 1 {
        false
    } else {
        is_power_of_two(n / 2)
    }
}

/// Whether `x` is a power of two.
pub fn u32_is_power_of_two(x: u32) -> (r: bool)
    ensures
        r == is_power_of_two(x as nat),
{
    let mut v: u32 = x;
    while v != 1 && v != 0 && v % 2 == 0
        invariant
            is_power_of_two(v as nat) == is_power_of_two(x as nat),
        decreases v,
    {
        v = v / 2;
    }
    v == 1
}

/// The larger of two counters.
pub open spec fn max_u64(a: u64, b: u64) -> u64 {
    if a >= b { a } else { b }
}

/// The larger of two counters.
pub fn max_of(a: u64, b: u64) -> (r: u64)
    ensures
        r == max_u64(a, b),
{
    if a >= b { a } else { b }
}

/// `x + 1`, or `u64::MAX` where that overflows.
pub open spec fn saturating_succ(x: u64) -> u64 {
    if x == u64::MAX { u64::MAX } else { (x + 1) as u64 }
}

pub fn succ_saturating(x: u64) -> (r: u64)
    ensures
        r == saturating_succ(x),
{
    if x == u64::MAX { u64::MAX } else { x + 1 }
}

/// The first failure of `a`, else the verdict `b`.
pub open spec fn then_audit<E>(a: Result<(), E>, b: Result<(), E>) -> Result<(), E> {
    match a {
        Err(e) => Err(e),
        Ok(_) => b,
    }
}

} // verus!

verus! {

pub proof fn lemma_first_failure_ok_all<E>(s: Seq<Option<E>>)
    requires
        first_failure(s) is Ok,
    ensures
        forall|j: int| 0 <= j < s.len() ==> (#[trigger] s[j]) is None,
    decreases s.len(),
{
    if s.len() > 0 {
        let t = s.drop_first();
        lemma_first_failure_ok_all(t);
        assert forall|j: int| 0 <= j < s.len() implies (#[trigger] s[j]) is None by {
            if j > 0 {
                assert(s[j] == t[j - 1]);
            }
        }
    }
}

} // verus!

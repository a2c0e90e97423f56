//! The core capability contracts: `Semigroup` (an associative binary
//! operation) and `Monoid` (a semigroup with a two-sided identity), together
//! with the generic left-to-right fold algorithms `concat` and `repeat`, and
//! the `DefaultMonoid` derivation rule that turns a semigroup with a
//! distinguished default value into a monoid.
//!
//! Each capability is layered: a specification-level trait (`SemigroupSpec`,
//! `MonoidSpec`) gives the mathematical model of the operation; `SemigroupOp`
//! carries the operation and its associativity law as a proof obligation;
//! `Semigroup` adds the sequence reduction, whose meaning each instance
//! states through `sconcat` (the canonical left fold everywhere but for the
//! unit instance, which reduces to the unit value outright); `Monoid` adds
//! the identity element and its law.  Instances whose declared identity is
//! only partial (such as `Min` over a payload whose default is not an upper
//! bound) say so through `identity_req`.

use vstd::prelude::*;
use vstd::string::StringExecFns;
use std::cmp::Ordering;

verus! {

/// The mathematical model of an associative combining operation.
///
/// `M` is the model of a carrier value (the value itself for plain wrappers,
/// a `Seq` for sequence-like carriers), `m` maps a value to its model, and
/// `sop` is the specification-level combining operation over models.
/// `op_req` bounds the inputs on which the operation is defined; it only
/// excludes what machine limits force (such as integer overflow) and is
/// `true` for every other instance.
pub trait SemigroupSpec: Sized {
    /// The mathematical model of a carrier value.
    type M;

    /// The model of this value.
    spec fn m(self) -> Self::M;

    /// Specification-level combining operation.
    spec fn sop(a: Self::M, b: Self::M) -> Self::M;

    /// The inputs on which the operation is defined; excludes only what
    /// machine limits force.
    spec fn op_req(a: Self::M, b: Self::M) -> bool;
}

/// Left fold of `sop` over the models of a sequence, starting from `acc`.
pub open spec fn fold_from<S: SemigroupSpec>(acc: S::M, s: Seq<S>) -> S::M
    decreases s.len(),
{
    if s.len() <= 0 {
        acc
    } else {
        fold_from::<S>(S::sop(acc, s[0].m()), s.skip(1))
    }
}

/// Whether every step of the left fold from `acc` over `s` is defined.
pub open spec fn fold_req<S: SemigroupSpec>(acc: S::M, s: Seq<S>) -> bool
    decreases s.len(),
{
    s.len() <= 0 || (S::op_req(acc, s[0].m()) && fold_req::<S>(
        S::sop(acc, s[0].m()),
        s.skip(1),
    ))
}

/// The model after `op`-ing a value with itself, reassigning, `n` times
/// over: each step doubles, so the result is the `n`-fold doubling of `a`.
pub open spec fn repeat_spec<S: SemigroupSpec>(a: S::M, n: nat) -> S::M
    decreases n,
{
    if n == 0 {
        a
    } else {
        let p = repeat_spec::<S>(a, (n - 1) as nat);
        S::sop(p, p)
    }
}

/// Whether every doubling step of `repeat` is defined.
pub open spec fn repeat_req<S: SemigroupSpec>(a: S::M, n: nat) -> bool
    decreases n,
{
    n == 0 || (repeat_req::<S>(a, (n - 1) as nat) && {
        let p = repeat_spec::<S>(a, (n - 1) as nat);
        S::op_req(p, p)
    })
}

/// A type with an associative combining operation.
pub trait SemigroupOp: SemigroupSpec {
    /// Combine two values.  Must be associative; see `lemma_op_associative`.
    fn op(self, other: Self) -> (r: Self)
        requires
            Self::op_req(self.m(), other.m()),
        ensures
            r.m() == Self::sop(self.m(), other.m()),
    ;

    /// Associativity law: wherever both groupings are defined, they agree.
    proof fn lemma_op_associative(a: Self::M, b: Self::M, c: Self::M)
        requires
            Self::op_req(a, b),
            Self::op_req(Self::sop(a, b), c),
            Self::op_req(b, c),
            Self::op_req(a, Self::sop(b, c)),
        ensures
            Self::sop(Self::sop(a, b), c) == Self::sop(a, Self::sop(b, c)),
    ;
}

/// The canonical semigroup reduction: nothing on the empty sequence (a
/// plain semigroup has no identity to start from), otherwise the left fold
/// of the tail onto the first element.
pub open spec fn concat_spec<S: SemigroupSpec>(s: Seq<S>) -> Option<S::M> {
    if s.len() == 0 {
        Option::None
    } else {
        Option::Some(fold_from::<S>(s[0].m(), s.skip(1)))
    }
}

/// A semigroup together with its sequence reduction.
///
/// `sconcat` is the specification of what reducing a sequence yields.  For
/// every instance but one it is `concat_spec`, the left fold; the unit
/// instance overrides it, answering the unit value even for the empty
/// sequence, since there is nothing to fold.
pub trait Semigroup: SemigroupOp {
    /// What reducing a sequence of these values yields.
    spec fn sconcat(s: Seq<Self>) -> Option<Self::M>;

    /// Reduce a sequence left-to-right via repeated `op`: the element
    /// itself on a singleton, the left fold `op(op(..op(x1,x2)..),xn)` on
    /// anything longer, and on the empty sequence whatever `sconcat` says —
    /// nothing, except for the unit instance.
    fn concat(v: Vec<Self>) -> (r: Option<Self>)
        requires
            v@.len() > 0 ==> fold_req::<Self>(v@[0].m(), v@.skip(1)),
        ensures
            r is None <==> Self::sconcat(v@) is None,
            r matches Some(x) ==> Self::sconcat(v@) == Some(x.m()),
    ;
}

/// The shared body of `Semigroup::concat` for every instance that keeps
/// the canonical `concat_spec` reduction.
pub fn concat_fold<S: SemigroupOp>(v: Vec<S>) -> (r: Option<S>)
    requires
        v@.len() > 0 ==> fold_req::<S>(v@[0].m(), v@.skip(1)),
    ensures
        r is None <==> concat_spec::<S>(v@) is None,
        r matches Some(x) ==> concat_spec::<S>(v@) == Some(x.m()),
{
    let mut rest = v;
    if rest.len() == 0 {
        return None;
    }
    let ghost all = rest@;
    let first = rest.remove(0);
    proof {
        lemma_remove_front(all);
    }
    Some(fold_vec(first, rest))
}

/// Apply `op` to a value with itself, reassigning, `n` times over: after
/// the call the value has been doubled `n` times (so `Sum(x)` becomes
/// `Sum(x * 2^n)`, not `Sum(x * (n + 1))`).
pub fn repeat<S: SemigroupOp + Copy>(x: S, n: usize) -> (r: S)
    requires
        repeat_req::<S>(x.m(), n as nat),
    ensures
        r.m() == repeat_spec::<S>(x.m(), n as nat),
{
    let mut res = x;
    let mut i: usize = 0;
    while i < n
        invariant
            i <= n,
            repeat_req::<S>(x.m(), n as nat),
            res.m() == repeat_spec::<S>(x.m(), i as nat),
        decreases n - i,
    {
        proof {
            lemma_repeat_req_prefix::<S>(x.m(), (i + 1) as nat, n as nat);
        }
        res = res.op(res);
        i = i + 1;
    }
    res
}

/// Removing the front element of a sequence is the same as skipping it.
pub proof fn lemma_remove_front<T>(s: Seq<T>)
    requires
        s.len() > 0,
    ensures
        s.remove(0) == s.skip(1),
{
    assert(s.remove(0) =~= s.skip(1));
}

/// `repeat_req` for `n` steps covers any prefix of those steps.
pub proof fn lemma_repeat_req_prefix<S: SemigroupSpec>(a: S::M, k: nat, n: nat)
    requires
        k <= n,
        repeat_req::<S>(a, n),
    ensures
        repeat_req::<S>(a, k),
    decreases n,
{
    if k < n {
        lemma_repeat_req_prefix::<S>(a, k, (n - 1) as nat);
    }
}

/// Every fold step is defined outright for an instance whose `op_req`
/// holds of all inputs, as it does for every instance here that is not
/// bounded by machine-integer overflow.
pub proof fn lemma_fold_req_total<S: SemigroupSpec>(acc: S::M, s: Seq<S>)
    requires
        forall|a: S::M, b: S::M| #[trigger] S::op_req(a, b),
    ensures
        fold_req::<S>(acc, s),
    decreases s.len(),
{
    if s.len() > 0 {
        lemma_fold_req_total::<S>(S::sop(acc, s[0].m()), s.skip(1));
    }
}

/// Every doubling step of `repeat` is defined outright for an instance
/// whose `op_req` holds of all inputs.
pub proof fn lemma_repeat_req_total<S: SemigroupSpec>(a: S::M, n: nat)
    requires
        forall|x: S::M, y: S::M| #[trigger] S::op_req(x, y),
    ensures
        repeat_req::<S>(a, n),
    decreases n,
{
    if n > 0 {
        lemma_repeat_req_total::<S>(a, (n - 1) as nat);
    }
}

/// The specification-level identity element of a monoid.
pub trait MonoidSpec: SemigroupSpec {
    /// Specification-level identity element.
    spec fn sempty() -> Self::M;

    /// The models for which `sempty` is a two-sided identity: `true`
    /// everywhere for lawful instances, narrower for those whose identity is
    /// only a documented stand-in.
    spec fn identity_req(a: Self::M) -> bool;
}

/// A semigroup with a distinguished identity element.
pub trait Monoid: Semigroup + MonoidSpec {
    /// The identity element for `op`.
    fn empty() -> (r: Self)
        ensures
            r.m() == Self::sempty(),
    ;

    /// Identity law: combining with the identity on either side is defined
    /// and leaves the value unchanged.
    proof fn lemma_identity(a: Self::M)
        requires
            Self::identity_req(a),
        ensures
            Self::op_req(Self::sempty(), a),
            Self::op_req(a, Self::sempty()),
            Self::sop(Self::sempty(), a) == a,
            Self::sop(a, Self::sempty()) == a,
    ;
}

/// Fold a sequence left-to-right onto the given starting accumulator.
pub fn fold_vec<S: SemigroupOp>(acc: S, v: Vec<S>) -> (r: S)
    requires
        fold_req::<S>(acc.m(), v@),
    ensures
        r.m() == fold_from::<S>(acc.m(), v@),
{
    let ghost start = acc.m();
    let ghost all = v@;
    let mut rest = v;
    let mut acc = acc;
    while rest.len() > 0
        invariant
            fold_req::<S>(acc.m(), rest@),
            fold_from::<S>(acc.m(), rest@) == fold_from::<S>(start, all),
        decreases rest.len(),
    {
        let ghost pre = rest@;
        let x = rest.remove(0);
        proof {
            lemma_remove_front(pre);
        }
        acc = acc.op(x);
    }
    acc
}

/// Reduce a sequence left-to-right, starting from `empty()`.  Unlike the
/// semigroup reduction this always has an answer: the empty sequence yields
/// `empty()` itself.
pub fn mconcat<T: Monoid>(v: Vec<T>) -> (r: T)
    requires
        fold_req::<T>(T::sempty(), v@),
    ensures
        r.m() == fold_from::<T>(T::sempty(), v@),
{
    let e = T::empty();
    fold_vec(e, v)
}

/// Where the identity law holds of the first element, the monoid reduction
/// of a non-empty sequence agrees with the semigroup reduction of the same
/// sequence: starting the fold from `empty()` changes nothing.
pub proof fn lemma_mconcat_agrees_with_concat<T: Monoid>(s: Seq<T>)
    requires
        s.len() > 0,
        T::identity_req(s[0].m()),
    ensures
        fold_from::<T>(T::sempty(), s) == fold_from::<T>(s[0].m(), s.skip(1)),
{
    T::lemma_identity(s[0].m());
}

/// The derivation rule: a semigroup whose `Default` value is a semantically
/// correct zero qualifies as a monoid with that default as its identity.
/// Implementing this trait is the only obligation; the blanket `Monoid`
/// implementation below does the rest.
pub trait DefaultMonoid: Default + Semigroup {
    /// The model of the default value.
    spec fn sdefault() -> Self::M;

    /// The models for which the default is a two-sided identity.
    spec fn default_identity_req(a: Self::M) -> bool;

    /// The default value; its model is `sdefault`.
    fn default_value() -> (r: Self)
        ensures
            r.m() == Self::sdefault(),
    ;

    /// The default value is an identity wherever `default_identity_req`
    /// holds.
    proof fn lemma_default_identity(a: Self::M)
        requires
            Self::default_identity_req(a),
        ensures
            Self::op_req(Self::sdefault(), a),
            Self::op_req(a, Self::sdefault()),
            Self::sop(Self::sdefault(), a) == a,
            Self::sop(a, Self::sdefault()) == a,
    ;
}

impl<T: DefaultMonoid> MonoidSpec for T {
    open spec fn sempty() -> Self::M {
        T::sdefault()
    }

    open spec fn identity_req(a: Self::M) -> bool {
        T::default_identity_req(a)
    }
}

impl<T: DefaultMonoid> Monoid for T {
    fn empty() -> (r: Self) {
        T::default_value()
    }

    proof fn lemma_identity(a: Self::M) {
        T::lemma_default_identity(a);
    }
}

/// Reducing the empty sequence from the identity yields the identity
/// itself: the monoid reduction of nothing is `empty()`.
pub proof fn lemma_mconcat_empty<T: MonoidSpec>(s: Seq<T>)
    requires
        s.len() == 0,
    ensures
        fold_from::<T>(T::sempty(), s) == T::sempty(),
{
}

/// Reducing a one-element sequence yields that element unchanged.
pub proof fn lemma_concat_singleton<S: SemigroupSpec>(s: Seq<S>)
    requires
        s.len() == 1,
    ensures
        fold_from::<S>(s[0].m(), s.skip(1)) == s[0].m(),
{
}

/// Comparison verdicts combine lexicographically: the first non-equal
/// verdict, scanning left to right, wins.
impl SemigroupSpec for Ordering {
    type M = Ordering;

    open spec fn m(self) -> Ordering {
        self
    }

    open spec fn sop(a: Ordering, b: Ordering) -> Ordering {
        match a {
            Ordering::Equal => b,
            _ => a,
        }
    }

    open spec fn op_req(a: Ordering, b: Ordering) -> bool {
        true
    }
}

impl SemigroupOp for Ordering {
    fn op(self, other: Self) -> (r: Self) {
        match self {
            Ordering::Equal => other,
            _ => self,
        }
    }

    proof fn lemma_op_associative(a: Ordering, b: Ordering, c: Ordering) {
    }
}

impl Semigroup for Ordering {
    open spec fn sconcat(s: Seq<Self>) -> Option<Self::M> {
        concat_spec::<Self>(s)
    }

    fn concat(v: Vec<Self>) -> (r: Option<Self>) {
        concat_fold(v)
    }
}

impl MonoidSpec for Ordering {
    open spec fn sempty() -> Ordering {
        Ordering::Equal
    }

    open spec fn identity_req(a: Ordering) -> bool {
        true
    }
}

impl Monoid for Ordering {
    fn empty() -> (r: Self) {
        Ordering::Equal
    }

    proof fn lemma_identity(a: Ordering) {
    }
}

/// The unit value combines with itself to itself; there is nothing to fold.
impl SemigroupSpec for () {
    type M = ();

    open spec fn m(self) -> () {
        self
    }

    open spec fn sop(a: (), b: ()) -> () {
        ()
    }

    open spec fn op_req(a: (), b: ()) -> bool {
        true
    }
}

impl SemigroupOp for () {
    fn op(self, _other: Self) -> (r: Self) {
        ()
    }

    proof fn lemma_op_associative(a: (), b: (), c: ()) {
    }
}

impl Semigroup for () {
    /// The unit reduction is overridden: with nothing to fold, any
    /// sequence of unit values — the empty one included — reduces to the
    /// unit value directly, never to the absent indicator.
    open spec fn sconcat(s: Seq<Self>) -> Option<Self::M> {
        Option::Some(())
    }

    fn concat(_v: Vec<Self>) -> (r: Option<Self>) {
        Some(())
    }
}

/// Sequences combine by concatenation: all of the left sequence's elements,
/// then all of the right's.
impl<T> SemigroupSpec for Vec<T> {
    type M = Seq<T>;

    open spec fn m(self) -> Seq<T> {
        self@
    }

    open spec fn sop(a: Seq<T>, b: Seq<T>) -> Seq<T> {
        a + b
    }

    open spec fn op_req(a: Seq<T>, b: Seq<T>) -> bool {
        true
    }
}

impl<T> SemigroupOp for Vec<T> {
    fn op(self, other: Self) -> (r: Self) {
        let mut left = self;
        let mut right = other;
        left.append(&mut right);
        left
    }

    proof fn lemma_op_associative(a: Seq<T>, b: Seq<T>, c: Seq<T>) {
        assert((a + b) + c =~= a + (b + c));
    }
}

impl<T> Semigroup for Vec<T> {
    open spec fn sconcat(s: Seq<Self>) -> Option<Self::M> {
        concat_spec::<Self>(s)
    }

    fn concat(v: Vec<Self>) -> (r: Option<Self>) {
        concat_fold(v)
    }
}

impl<T> MonoidSpec for Vec<T> {
    open spec fn sempty() -> Seq<T> {
        Seq::empty()
    }

    open spec fn identity_req(a: Seq<T>) -> bool {
        true
    }
}

impl<T> Monoid for Vec<T> {
    fn empty() -> (r: Self) {
        // Zero reserved capacity: no allocation happens until it is used.
        Vec::new()
    }

    proof fn lemma_identity(a: Seq<T>) {
        assert(Seq::<T>::empty() + a =~= a);
        assert(a + Seq::<T>::empty() =~= a);
    }
}

/// Text combines by appending the second string's contents to the first.
impl SemigroupSpec for String {
    type M = Seq<char>;

    open spec fn m(self) -> Seq<char> {
        self@
    }

    open spec fn sop(a: Seq<char>, b: Seq<char>) -> Seq<char> {
        a + b
    }

    open spec fn op_req(a: Seq<char>, b: Seq<char>) -> bool {
        true
    }
}

impl SemigroupOp for String {
    fn op(self, other: Self) -> (r: Self) {
        self.concat(other.as_str())
    }

    proof fn lemma_op_associative(a: Seq<char>, b: Seq<char>, c: Seq<char>) {
        assert((a + b) + c =~= a + (b + c));
    }
}

impl Semigroup for String {
    open spec fn sconcat(s: Seq<Self>) -> Option<Self::M> {
        concat_spec::<Self>(s)
    }

    fn concat(v: Vec<Self>) -> (r: Option<Self>) {
        concat_fold(v)
    }
}

impl MonoidSpec for String {
    open spec fn sempty() -> Seq<char> {
        Seq::empty()
    }

    open spec fn identity_req(a: Seq<char>) -> bool {
        true
    }
}

impl Monoid for String {
    fn empty() -> (r: Self) {
        String::new()
    }

    proof fn lemma_identity(a: Seq<char>) {
        assert(Seq::<char>::empty() + a =~= a);
        assert(a + Seq::<char>::empty() =~= a);
    }
}

/// An absent value acts as a two-sided identity-like element: combining
/// `None` with anything yields the other side unchanged, and two present
/// values combine their contents.
impl<T: SemigroupSpec> SemigroupSpec for Option<T> {
    type M = Option<T::M>;

    open spec fn m(self) -> Option<T::M> {
        match self {
            Option::None => Option::None,
            Option::Some(x) => Option::Some(x.m()),
        }
    }

    open spec fn sop(a: Option<T::M>, b: Option<T::M>) -> Option<T::M> {
        match (a, b) {
            (Option::None, y) => y,
            (x, Option::None) => x,
            (Option::Some(x), Option::Some(y)) => Option::Some(T::sop(x, y)),
        }
    }

    open spec fn op_req(a: Option<T::M>, b: Option<T::M>) -> bool {
        match (a, b) {
            (Option::Some(x), Option::Some(y)) => T::op_req(x, y),
            _ => true,
        }
    }
}

impl<T: SemigroupOp> SemigroupOp for Option<T> {
    fn op(self, other: Self) -> (r: Self) {
        match (self, other) {
            (Option::None, y) => y,
            (x, Option::None) => x,
            (Option::Some(x), Option::Some(y)) => Option::Some(x.op(y)),
        }
    }

    proof fn lemma_op_associative(a: Option<T::M>, b: Option<T::M>, c: Option<T::M>) {
        if a is Some && b is Some && c is Some {
            T::lemma_op_associative(a->0, b->0, c->0);
        }
    }
}

impl<T: SemigroupOp> Semigroup for Option<T> {
    open spec fn sconcat(s: Seq<Self>) -> Option<Self::M> {
        concat_spec::<Self>(s)
    }

    fn concat(v: Vec<Self>) -> (r: Option<Self>) {
        concat_fold(v)
    }
}

/// A pair of semigroups combines component-wise.
impl<T: SemigroupSpec, U: SemigroupSpec> SemigroupSpec for (T, U) {
    type M = (T::M, U::M);

    open spec fn m(self) -> (T::M, U::M) {
        (self.0.m(), self.1.m())
    }

    open spec fn sop(a: (T::M, U::M), b: (T::M, U::M)) -> (T::M, U::M) {
        (T::sop(a.0, b.0), U::sop(a.1, b.1))
    }

    open spec fn op_req(a: (T::M, U::M), b: (T::M, U::M)) -> bool {
        T::op_req(a.0, b.0) && U::op_req(a.1, b.1)
    }
}

impl<T: SemigroupOp, U: SemigroupOp> SemigroupOp for (T, U) {
    fn op(self, other: Self) -> (r: Self) {
        let (a, b) = self;
        let (c, d) = other;
        (a.op(c), b.op(d))
    }

    proof fn lemma_op_associative(a: (T::M, U::M), b: (T::M, U::M), c: (T::M, U::M)) {
        T::lemma_op_associative(a.0, b.0, c.0);
        U::lemma_op_associative(a.1, b.1, c.1);
    }
}

impl<T: SemigroupOp, U: SemigroupOp> Semigroup for (T, U) {
    open spec fn sconcat(s: Seq<Self>) -> Option<Self::M> {
        concat_spec::<Self>(s)
    }

    fn concat(v: Vec<Self>) -> (r: Option<Self>) {
        concat_fold(v)
    }
}

/// A pair of monoids is a monoid component-wise.
impl<T: MonoidSpec, U: MonoidSpec> MonoidSpec for (T, U) {
    open spec fn sempty() -> (T::M, U::M) {
        (T::sempty(), U::sempty())
    }

    open spec fn identity_req(a: (T::M, U::M)) -> bool {
        T::identity_req(a.0) && U::identity_req(a.1)
    }
}

impl<T: Monoid, U: Monoid> Monoid for (T, U) {
    fn empty() -> (r: Self) {
        (T::empty(), U::empty())
    }

    proof fn lemma_identity(a: (T::M, U::M)) {
        T::lemma_identity(a.0);
        U::lemma_identity(a.1);
    }
}

} // verus!

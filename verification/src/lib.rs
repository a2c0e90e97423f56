//! Algebraic combining abstractions: semigroups, monoids, and wrapper types
//! that fix one associative operation for a payload type.

pub mod traits;

use vstd::prelude::*;
use crate::traits::SemigroupSpec;
use crate::traits::SemigroupOp;
use crate::traits::Semigroup;
use crate::traits::concat_spec;
use crate::traits::concat_fold;
use crate::traits::MonoidSpec;
use crate::traits::Monoid;
use crate::traits::DefaultMonoid;
use crate::traits::repeat_req;
use crate::traits::repeat_spec;
use crate::traits::lemma_repeat_req_prefix;

verus! {

/// Boolean disjunction: combining takes the logical OR of the payloads.
#[derive(Copy, Clone, Debug, Eq, PartialEq)]
pub struct Any(pub bool);

impl Default for Any {
    fn default() -> (r: Self)
        ensures
            r == (Any(false)),
    {
        Any(false)
    }
}

impl SemigroupSpec for Any {
    type M = Any;

    open spec fn m(self) -> Any {
        self
    }

    open spec fn sop(a: Any, b: Any) -> Any {
        Any(a.0 || b.0)
    }

    open spec fn op_req(a: Any, b: Any) -> bool {
        true
    }
}

impl SemigroupOp for Any {
    fn op(self, other: Self) -> (r: Self) {
        Any(self.0 || other.0)
    }

    proof fn lemma_op_associative(a: Any, b: Any, c: Any) {
    }
}

impl Semigroup for Any {
    open spec fn sconcat(s: Seq<Self>) -> Option<Self::M> {
        concat_spec::<Self>(s)
    }

    fn concat(v: Vec<Self>) -> (r: Option<Self>) {
        concat_fold(v)
    }
}

impl DefaultMonoid for Any {
    open spec fn sdefault() -> Any {
        Any(false)
    }

    open spec fn default_identity_req(a: Any) -> bool {
        true
    }

    fn default_value() -> (r: Self) {
        Any::default()
    }

    proof fn lemma_default_identity(a: Any) {
    }
}

/// Boolean conjunction: combining takes the logical AND of the payloads.
#[derive(Copy, Clone, Debug, Eq, PartialEq)]
pub struct All(pub bool);

impl Default for All {
    fn default() -> (r: Self)
        ensures
            r == (All(true)),
    {
        All(true)
    }
}

impl SemigroupSpec for All {
    type M = All;

    open spec fn m(self) -> All {
        self
    }

    open spec fn sop(a: All, b: All) -> All {
        All(a.0 && b.0)
    }

    open spec fn op_req(a: All, b: All) -> bool {
        true
    }
}

impl SemigroupOp for All {
    fn op(self, other: Self) -> (r: Self) {
        All(self.0 && other.0)
    }

    proof fn lemma_op_associative(a: All, b: All, c: All) {
    }
}

impl Semigroup for All {
    open spec fn sconcat(s: Seq<Self>) -> Option<Self::M> {
        concat_spec::<Self>(s)
    }

    fn concat(v: Vec<Self>) -> (r: Option<Self>) {
        concat_fold(v)
    }
}

impl DefaultMonoid for All {
    open spec fn sdefault() -> All {
        All(true)
    }

    open spec fn default_identity_req(a: All) -> bool {
        true
    }

    fn default_value() -> (r: Self) {
        All::default()
    }

    proof fn lemma_default_identity(a: All) {
    }
}

/// Minimum under the total order of the payload.  The derived identity is
/// the payload's default, which is only a true identity where the default
/// is an upper bound of the values combined — a caller-visible caveat,
/// recorded in `default_identity_req`.
#[derive(Copy, Clone, Debug, Eq, PartialEq, Ord, PartialOrd)]
pub struct Min<T>(pub T);

impl Default for Min<i32> {
    fn default() -> (r: Self)
        ensures
            r == (Min(0i32)),
    {
        Min(0)
    }
}

impl SemigroupSpec for Min<i32> {
    type M = Min<i32>;

    open spec fn m(self) -> Min<i32> {
        self
    }

    open spec fn sop(a: Min<i32>, b: Min<i32>) -> Min<i32> {
        if a.0 <= b.0 {
            a
        } else {
            b
        }
    }

    open spec fn op_req(a: Min<i32>, b: Min<i32>) -> bool {
        true
    }
}

impl SemigroupOp for Min<i32> {
    fn op(self, other: Self) -> (r: Self) {
        if self.0 <= other.0 {
            self
        } else {
            other
        }
    }

    proof fn lemma_op_associative(a: Min<i32>, b: Min<i32>, c: Min<i32>) {
    }
}

impl Semigroup for Min<i32> {
    open spec fn sconcat(s: Seq<Self>) -> Option<Self::M> {
        concat_spec::<Self>(s)
    }

    fn concat(v: Vec<Self>) -> (r: Option<Self>) {
        concat_fold(v)
    }
}

impl DefaultMonoid for Min<i32> {
    open spec fn sdefault() -> Min<i32> {
        Min(0i32)
    }

    open spec fn default_identity_req(a: Min<i32>) -> bool {
        a.0 <= 0
    }

    fn default_value() -> (r: Self) {
        Min::default()
    }

    proof fn lemma_default_identity(a: Min<i32>) {
    }
}

impl Default for Min<i64> {
    fn default() -> (r: Self)
        ensures
            r == (Min(0i64)),
    {
        Min(0)
    }
}

impl SemigroupSpec for Min<i64> {
    type M = Min<i64>;

    open spec fn m(self) -> Min<i64> {
        self
    }

    open spec fn sop(a: Min<i64>, b: Min<i64>) -> Min<i64> {
        if a.0 <= b.0 {
            a
        } else {
            b
        }
    }

    open spec fn op_req(a: Min<i64>, b: Min<i64>) -> bool {
        true
    }
}

impl SemigroupOp for Min<i64> {
    fn op(self, other: Self) -> (r: Self) {
        if self.0 <= other.0 {
            self
        } else {
            other
        }
    }

    proof fn lemma_op_associative(a: Min<i64>, b: Min<i64>, c: Min<i64>) {
    }
}

impl Semigroup for Min<i64> {
    open spec fn sconcat(s: Seq<Self>) -> Option<Self::M> {
        concat_spec::<Self>(s)
    }

    fn concat(v: Vec<Self>) -> (r: Option<Self>) {
        concat_fold(v)
    }
}

impl DefaultMonoid for Min<i64> {
    open spec fn sdefault() -> Min<i64> {
        Min(0i64)
    }

    open spec fn default_identity_req(a: Min<i64>) -> bool {
        a.0 <= 0
    }

    fn default_value() -> (r: Self) {
        Min::default()
    }

    proof fn lemma_default_identity(a: Min<i64>) {
    }
}

impl Default for Min<u32> {
    fn default() -> (r: Self)
        ensures
            r == (Min(0u32)),
    {
        Min(0)
    }
}

impl SemigroupSpec for Min<u32> {
    type M = Min<u32>;

    open spec fn m(self) -> Min<u32> {
        self
    }

    open spec fn sop(a: Min<u32>, b: Min<u32>) -> Min<u32> {
        if a.0 <= b.0 {
            a
        } else {
            b
        }
    }

    open spec fn op_req(a: Min<u32>, b: Min<u32>) -> bool {
        true
    }
}

impl SemigroupOp for Min<u32> {
    fn op(self, other: Self) -> (r: Self) {
        if self.0 <= other.0 {
            self
        } else {
            other
        }
    }

    proof fn lemma_op_associative(a: Min<u32>, b: Min<u32>, c: Min<u32>) {
    }
}

impl Semigroup for Min<u32> {
    open spec fn sconcat(s: Seq<Self>) -> Option<Self::M> {
        concat_spec::<Self>(s)
    }

    fn concat(v: Vec<Self>) -> (r: Option<Self>) {
        concat_fold(v)
    }
}

impl DefaultMonoid for Min<u32> {
    open spec fn sdefault() -> Min<u32> {
        Min(0u32)
    }

    open spec fn default_identity_req(a: Min<u32>) -> bool {
        a.0 == 0
    }

    fn default_value() -> (r: Self) {
        Min::default()
    }

    proof fn lemma_default_identity(a: Min<u32>) {
    }
}

impl Default for Min<u64> {
    fn default() -> (r: Self)
        ensures
            r == (Min(0u64)),
    {
        Min(0)
    }
}

impl SemigroupSpec for Min<u64> {
    type M = Min<u64>;

    open spec fn m(self) -> Min<u64> {
        self
    }

    open spec fn sop(a: Min<u64>, b: Min<u64>) -> Min<u64> {
        if a.0 <= b.0 {
            a
        } else {
            b
        }
    }

    open spec fn op_req(a: Min<u64>, b: Min<u64>) -> bool {
        true
    }
}

impl SemigroupOp for Min<u64> {
    fn op(self, other: Self) -> (r: Self) {
        if self.0 <= other.0 {
            self
        } else {
            other
        }
    }

    proof fn lemma_op_associative(a: Min<u64>, b: Min<u64>, c: Min<u64>) {
    }
}

impl Semigroup for Min<u64> {
    open spec fn sconcat(s: Seq<Self>) -> Option<Self::M> {
        concat_spec::<Self>(s)
    }

    fn concat(v: Vec<Self>) -> (r: Option<Self>) {
        concat_fold(v)
    }
}

impl DefaultMonoid for Min<u64> {
    open spec fn sdefault() -> Min<u64> {
        Min(0u64)
    }

    open spec fn default_identity_req(a: Min<u64>) -> bool {
        a.0 == 0
    }

    fn default_value() -> (r: Self) {
        Min::default()
    }

    proof fn lemma_default_identity(a: Min<u64>) {
    }
}

/// Maximum under the total order of the payload.  The derived identity is
/// the payload's default, a true identity only where the default is a lower
/// bound of the values combined; see `default_identity_req`.
#[derive(Copy, Clone, Debug, Eq, PartialEq, Ord, PartialOrd)]
pub struct Max<T>(pub T);

impl Default for Max<i32> {
    fn default() -> (r: Self)
        ensures
            r == (Max(0i32)),
    {
        Max(0)
    }
}

impl SemigroupSpec for Max<i32> {
    type M = Max<i32>;

    open spec fn m(self) -> Max<i32> {
        self
    }

    open spec fn sop(a: Max<i32>, b: Max<i32>) -> Max<i32> {
        if a.0 >= b.0 {
            a
        } else {
            b
        }
    }

    open spec fn op_req(a: Max<i32>, b: Max<i32>) -> bool {
        true
    }
}

impl SemigroupOp for Max<i32> {
    fn op(self, other: Self) -> (r: Self) {
        if self.0 >= other.0 {
            self
        } else {
            other
        }
    }

    proof fn lemma_op_associative(a: Max<i32>, b: Max<i32>, c: Max<i32>) {
    }
}

impl Semigroup for Max<i32> {
    open spec fn sconcat(s: Seq<Self>) -> Option<Self::M> {
        concat_spec::<Self>(s)
    }

    fn concat(v: Vec<Self>) -> (r: Option<Self>) {
        concat_fold(v)
    }
}

impl DefaultMonoid for Max<i32> {
    open spec fn sdefault() -> Max<i32> {
        Max(0i32)
    }

    open spec fn default_identity_req(a: Max<i32>) -> bool {
        a.0 >= 0
    }

    fn default_value() -> (r: Self) {
        Max::default()
    }

    proof fn lemma_default_identity(a: Max<i32>) {
    }
}

impl Default for Max<i64> {
    fn default() -> (r: Self)
        ensures
            r == (Max(0i64)),
    {
        Max(0)
    }
}

impl SemigroupSpec for Max<i64> {
    type M = Max<i64>;

    open spec fn m(self) -> Max<i64> {
        self
    }

    open spec fn sop(a: Max<i64>, b: Max<i64>) -> Max<i64> {
        if a.0 >= b.0 {
            a
        } else {
            b
        }
    }

    open spec fn op_req(a: Max<i64>, b: Max<i64>) -> bool {
        true
    }
}

impl SemigroupOp for Max<i64> {
    fn op(self, other: Self) -> (r: Self) {
        if self.0 >= other.0 {
            self
        } else {
            other
        }
    }

    proof fn lemma_op_associative(a: Max<i64>, b: Max<i64>, c: Max<i64>) {
    }
}

impl Semigroup for Max<i64> {
    open spec fn sconcat(s: Seq<Self>) -> Option<Self::M> {
        concat_spec::<Self>(s)
    }

    fn concat(v: Vec<Self>) -> (r: Option<Self>) {
        concat_fold(v)
    }
}

impl DefaultMonoid for Max<i64> {
    open spec fn sdefault() -> Max<i64> {
        Max(0i64)
    }

    open spec fn default_identity_req(a: Max<i64>) -> bool {
        a.0 >= 0
    }

    fn default_value() -> (r: Self) {
        Max::default()
    }

    proof fn lemma_default_identity(a: Max<i64>) {
    }
}

impl Default for Max<u32> {
    fn default() -> (r: Self)
        ensures
            r == (Max(0u32)),
    {
        Max(0)
    }
}

impl SemigroupSpec for Max<u32> {
    type M = Max<u32>;

    open spec fn m(self) -> Max<u32> {
        self
    }

    open spec fn sop(a: Max<u32>, b: Max<u32>) -> Max<u32> {
        if a.0 >= b.0 {
            a
        } else {
            b
        }
    }

    open spec fn op_req(a: Max<u32>, b: Max<u32>) -> bool {
        true
    }
}

impl SemigroupOp for Max<u32> {
    fn op(self, other: Self) -> (r: Self) {
        if self.0 >= other.0 {
            self
        } else {
            other
        }
    }

    proof fn lemma_op_associative(a: Max<u32>, b: Max<u32>, c: Max<u32>) {
    }
}

impl Semigroup for Max<u32> {
    open spec fn sconcat(s: Seq<Self>) -> Option<Self::M> {
        concat_spec::<Self>(s)
    }

    fn concat(v: Vec<Self>) -> (r: Option<Self>) {
        concat_fold(v)
    }
}

impl DefaultMonoid for Max<u32> {
    open spec fn sdefault() -> Max<u32> {
        Max(0u32)
    }

    open spec fn default_identity_req(a: Max<u32>) -> bool {
        true
    }

    fn default_value() -> (r: Self) {
        Max::default()
    }

    proof fn lemma_default_identity(a: Max<u32>) {
    }
}

impl Default for Max<u64> {
    fn default() -> (r: Self)
        ensures
            r == (Max(0u64)),
    {
        Max(0)
    }
}

impl SemigroupSpec for Max<u64> {
    type M = Max<u64>;

    open spec fn m(self) -> Max<u64> {
        self
    }

    open spec fn sop(a: Max<u64>, b: Max<u64>) -> Max<u64> {
        if a.0 >= b.0 {
            a
        } else {
            b
        }
    }

    open spec fn op_req(a: Max<u64>, b: Max<u64>) -> bool {
        true
    }
}

impl SemigroupOp for Max<u64> {
    fn op(self, other: Self) -> (r: Self) {
        if self.0 >= other.0 {
            self
        } else {
            other
        }
    }

    proof fn lemma_op_associative(a: Max<u64>, b: Max<u64>, c: Max<u64>) {
    }
}

impl Semigroup for Max<u64> {
    open spec fn sconcat(s: Seq<Self>) -> Option<Self::M> {
        concat_spec::<Self>(s)
    }

    fn concat(v: Vec<Self>) -> (r: Option<Self>) {
        concat_fold(v)
    }
}

impl DefaultMonoid for Max<u64> {
    open spec fn sdefault() -> Max<u64> {
        Max(0u64)
    }

    open spec fn default_identity_req(a: Max<u64>) -> bool {
        true
    }

    fn default_value() -> (r: Self) {
        Max::default()
    }

    proof fn lemma_default_identity(a: Max<u64>) {
    }
}

/// Addition: combining adds the payloads; the identity is zero.  `op_req`
/// excludes only the sums that the machine integer cannot hold.
#[derive(Copy, Clone, Debug, Eq, PartialEq, Ord, PartialOrd)]
pub struct Sum<T>(pub T);

impl Default for Sum<i32> {
    fn default() -> (r: Self)
        ensures
            r == (Sum(0i32)),
    {
        Sum(0)
    }
}

impl SemigroupSpec for Sum<i32> {
    type M = Sum<i32>;

    open spec fn m(self) -> Sum<i32> {
        self
    }

    open spec fn sop(a: Sum<i32>, b: Sum<i32>) -> Sum<i32> {
        Sum((a.0 + b.0) as i32)
    }

    open spec fn op_req(a: Sum<i32>, b: Sum<i32>) -> bool {
        i32::MIN <= a.0 + b.0 <= i32::MAX
    }
}

impl SemigroupOp for Sum<i32> {
    fn op(self, other: Self) -> (r: Self) {
        Sum(self.0 + other.0)
    }

    proof fn lemma_op_associative(a: Sum<i32>, b: Sum<i32>, c: Sum<i32>) {
    }
}

impl Semigroup for Sum<i32> {
    open spec fn sconcat(s: Seq<Self>) -> Option<Self::M> {
        concat_spec::<Self>(s)
    }

    fn concat(v: Vec<Self>) -> (r: Option<Self>) {
        concat_fold(v)
    }
}

impl DefaultMonoid for Sum<i32> {
    open spec fn sdefault() -> Sum<i32> {
        Sum(0i32)
    }

    open spec fn default_identity_req(a: Sum<i32>) -> bool {
        true
    }

    fn default_value() -> (r: Self) {
        Sum::default()
    }

    proof fn lemma_default_identity(a: Sum<i32>) {
    }
}

impl Default for Sum<u64> {
    fn default() -> (r: Self)
        ensures
            r == (Sum(0u64)),
    {
        Sum(0)
    }
}

impl SemigroupSpec for Sum<u64> {
    type M = Sum<u64>;

    open spec fn m(self) -> Sum<u64> {
        self
    }

    open spec fn sop(a: Sum<u64>, b: Sum<u64>) -> Sum<u64> {
        Sum((a.0 + b.0) as u64)
    }

    open spec fn op_req(a: Sum<u64>, b: Sum<u64>) -> bool {
        a.0 + b.0 <= u64::MAX
    }
}

impl SemigroupOp for Sum<u64> {
    fn op(self, other: Self) -> (r: Self) {
        Sum(self.0 + other.0)
    }

    proof fn lemma_op_associative(a: Sum<u64>, b: Sum<u64>, c: Sum<u64>) {
    }
}

impl Semigroup for Sum<u64> {
    open spec fn sconcat(s: Seq<Self>) -> Option<Self::M> {
        concat_spec::<Self>(s)
    }

    fn concat(v: Vec<Self>) -> (r: Option<Self>) {
        concat_fold(v)
    }
}

impl DefaultMonoid for Sum<u64> {
    open spec fn sdefault() -> Sum<u64> {
        Sum(0u64)
    }

    open spec fn default_identity_req(a: Sum<u64>) -> bool {
        true
    }

    fn default_value() -> (r: Self) {
        Sum::default()
    }

    proof fn lemma_default_identity(a: Sum<u64>) {
    }
}

impl Default for Sum<i64> {
    fn default() -> (r: Self)
        ensures
            r == (Sum(0i64)),
    {
        Sum(0)
    }
}

impl SemigroupSpec for Sum<i64> {
    type M = Sum<i64>;

    open spec fn m(self) -> Sum<i64> {
        self
    }

    open spec fn sop(a: Sum<i64>, b: Sum<i64>) -> Sum<i64> {
        Sum((a.0 + b.0) as i64)
    }

    open spec fn op_req(a: Sum<i64>, b: Sum<i64>) -> bool {
        i64::MIN <= a.0 + b.0 <= i64::MAX
    }
}

impl SemigroupOp for Sum<i64> {
    fn op(self, other: Self) -> (r: Self) {
        Sum(self.0 + other.0)
    }

    proof fn lemma_op_associative(a: Sum<i64>, b: Sum<i64>, c: Sum<i64>) {
    }
}

impl Semigroup for Sum<i64> {
    open spec fn sconcat(s: Seq<Self>) -> Option<Self::M> {
        concat_spec::<Self>(s)
    }

    fn concat(v: Vec<Self>) -> (r: Option<Self>) {
        concat_fold(v)
    }
}

impl DefaultMonoid for Sum<i64> {
    open spec fn sdefault() -> Sum<i64> {
        Sum(0i64)
    }

    open spec fn default_identity_req(a: Sum<i64>) -> bool {
        true
    }

    fn default_value() -> (r: Self) {
        Sum::default()
    }

    proof fn lemma_default_identity(a: Sum<i64>) {
    }
}

impl Default for Sum<u32> {
    fn default() -> (r: Self)
        ensures
            r == (Sum(0u32)),
    {
        Sum(0)
    }
}

impl SemigroupSpec for Sum<u32> {
    type M = Sum<u32>;

    open spec fn m(self) -> Sum<u32> {
        self
    }

    open spec fn sop(a: Sum<u32>, b: Sum<u32>) -> Sum<u32> {
        Sum((a.0 + b.0) as u32)
    }

    open spec fn op_req(a: Sum<u32>, b: Sum<u32>) -> bool {
        a.0 + b.0 <= u32::MAX
    }
}

impl SemigroupOp for Sum<u32> {
    fn op(self, other: Self) -> (r: Self) {
        Sum(self.0 + other.0)
    }

    proof fn lemma_op_associative(a: Sum<u32>, b: Sum<u32>, c: Sum<u32>) {
    }
}

impl Semigroup for Sum<u32> {
    open spec fn sconcat(s: Seq<Self>) -> Option<Self::M> {
        concat_spec::<Self>(s)
    }

    fn concat(v: Vec<Self>) -> (r: Option<Self>) {
        concat_fold(v)
    }
}

impl DefaultMonoid for Sum<u32> {
    open spec fn sdefault() -> Sum<u32> {
        Sum(0u32)
    }

    open spec fn default_identity_req(a: Sum<u32>) -> bool {
        true
    }

    fn default_value() -> (r: Self) {
        Sum::default()
    }

    proof fn lemma_default_identity(a: Sum<u32>) {
    }
}

/// Multiplication: combining multiplies the payloads; the identity is one.
/// `op_req` excludes only the products that the machine integer cannot hold.
#[derive(Copy, Clone, Debug, Eq, PartialEq, Ord, PartialOrd)]
pub struct Product<T>(pub T);

impl Default for Product<u8> {
    fn default() -> (r: Self)
        ensures
            r == (Product(1u8)),
    {
        Product(1)
    }
}

impl SemigroupSpec for Product<u8> {
    type M = Product<u8>;

    open spec fn m(self) -> Product<u8> {
        self
    }

    open spec fn sop(a: Product<u8>, b: Product<u8>) -> Product<u8> {
        Product((a.0 * b.0) as u8)
    }

    open spec fn op_req(a: Product<u8>, b: Product<u8>) -> bool {
        a.0 * b.0 <= u8::MAX
    }
}

impl SemigroupOp for Product<u8> {
    fn op(self, other: Self) -> (r: Self) {
        Product(self.0 * other.0)
    }

    proof fn lemma_op_associative(a: Product<u8>, b: Product<u8>, c: Product<u8>) {
        assert((a.0 * b.0) * c.0 == a.0 * (b.0 * c.0)) by (nonlinear_arith);
    }
}

impl Semigroup for Product<u8> {
    open spec fn sconcat(s: Seq<Self>) -> Option<Self::M> {
        concat_spec::<Self>(s)
    }

    fn concat(v: Vec<Self>) -> (r: Option<Self>) {
        concat_fold(v)
    }
}

impl DefaultMonoid for Product<u8> {
    open spec fn sdefault() -> Product<u8> {
        Product(1u8)
    }

    open spec fn default_identity_req(a: Product<u8>) -> bool {
        true
    }

    fn default_value() -> (r: Self) {
        Product::default()
    }

    proof fn lemma_default_identity(a: Product<u8>) {
    }
}

impl Default for Product<i32> {
    fn default() -> (r: Self)
        ensures
            r == (Product(1i32)),
    {
        Product(1)
    }
}

impl SemigroupSpec for Product<i32> {
    type M = Product<i32>;

    open spec fn m(self) -> Product<i32> {
        self
    }

    open spec fn sop(a: Product<i32>, b: Product<i32>) -> Product<i32> {
        Product((a.0 * b.0) as i32)
    }

    open spec fn op_req(a: Product<i32>, b: Product<i32>) -> bool {
        i32::MIN <= a.0 * b.0 <= i32::MAX
    }
}

impl SemigroupOp for Product<i32> {
    fn op(self, other: Self) -> (r: Self) {
        Product(self.0 * other.0)
    }

    proof fn lemma_op_associative(a: Product<i32>, b: Product<i32>, c: Product<i32>) {
        assert((a.0 * b.0) * c.0 == a.0 * (b.0 * c.0)) by (nonlinear_arith);
    }
}

impl Semigroup for Product<i32> {
    open spec fn sconcat(s: Seq<Self>) -> Option<Self::M> {
        concat_spec::<Self>(s)
    }

    fn concat(v: Vec<Self>) -> (r: Option<Self>) {
        concat_fold(v)
    }
}

impl DefaultMonoid for Product<i32> {
    open spec fn sdefault() -> Product<i32> {
        Product(1i32)
    }

    open spec fn default_identity_req(a: Product<i32>) -> bool {
        true
    }

    fn default_value() -> (r: Self) {
        Product::default()
    }

    proof fn lemma_default_identity(a: Product<i32>) {
    }
}

impl Default for Product<i64> {
    fn default() -> (r: Self)
        ensures
            r == (Product(1i64)),
    {
        Product(1)
    }
}

impl SemigroupSpec for Product<i64> {
    type M = Product<i64>;

    open spec fn m(self) -> Product<i64> {
        self
    }

    open spec fn sop(a: Product<i64>, b: Product<i64>) -> Product<i64> {
        Product((a.0 * b.0) as i64)
    }

    open spec fn op_req(a: Product<i64>, b: Product<i64>) -> bool {
        i64::MIN <= a.0 * b.0 <= i64::MAX
    }
}

impl SemigroupOp for Product<i64> {
    fn op(self, other: Self) -> (r: Self) {
        Product(self.0 * other.0)
    }

    proof fn lemma_op_associative(a: Product<i64>, b: Product<i64>, c: Product<i64>) {
        assert((a.0 * b.0) * c.0 == a.0 * (b.0 * c.0)) by (nonlinear_arith);
    }
}

impl Semigroup for Product<i64> {
    open spec fn sconcat(s: Seq<Self>) -> Option<Self::M> {
        concat_spec::<Self>(s)
    }

    fn concat(v: Vec<Self>) -> (r: Option<Self>) {
        concat_fold(v)
    }
}

impl DefaultMonoid for Product<i64> {
    open spec fn sdefault() -> Product<i64> {
        Product(1i64)
    }

    open spec fn default_identity_req(a: Product<i64>) -> bool {
        true
    }

    fn default_value() -> (r: Self) {
        Product::default()
    }

    proof fn lemma_default_identity(a: Product<i64>) {
    }
}

impl Default for Product<u32> {
    fn default() -> (r: Self)
        ensures
            r == (Product(1u32)),
    {
        Product(1)
    }
}

impl SemigroupSpec for Product<u32> {
    type M = Product<u32>;

    open spec fn m(self) -> Product<u32> {
        self
    }

    open spec fn sop(a: Product<u32>, b: Product<u32>) -> Product<u32> {
        Product((a.0 * b.0) as u32)
    }

    open spec fn op_req(a: Product<u32>, b: Product<u32>) -> bool {
        a.0 * b.0 <= u32::MAX
    }
}

impl SemigroupOp for Product<u32> {
    fn op(self, other: Self) -> (r: Self) {
        Product(self.0 * other.0)
    }

    proof fn lemma_op_associative(a: Product<u32>, b: Product<u32>, c: Product<u32>) {
        assert((a.0 * b.0) * c.0 == a.0 * (b.0 * c.0)) by (nonlinear_arith);
    }
}

impl Semigroup for Product<u32> {
    open spec fn sconcat(s: Seq<Self>) -> Option<Self::M> {
        concat_spec::<Self>(s)
    }

    fn concat(v: Vec<Self>) -> (r: Option<Self>) {
        concat_fold(v)
    }
}

impl DefaultMonoid for Product<u32> {
    open spec fn sdefault() -> Product<u32> {
        Product(1u32)
    }

    open spec fn default_identity_req(a: Product<u32>) -> bool {
        true
    }

    fn default_value() -> (r: Self) {
        Product::default()
    }

    proof fn lemma_default_identity(a: Product<u32>) {
    }
}

impl Default for Product<u64> {
    fn default() -> (r: Self)
        ensures
            r == (Product(1u64)),
    {
        Product(1)
    }
}

impl SemigroupSpec for Product<u64> {
    type M = Product<u64>;

    open spec fn m(self) -> Product<u64> {
        self
    }

    open spec fn sop(a: Product<u64>, b: Product<u64>) -> Product<u64> {
        Product((a.0 * b.0) as u64)
    }

    open spec fn op_req(a: Product<u64>, b: Product<u64>) -> bool {
        a.0 * b.0 <= u64::MAX
    }
}

impl SemigroupOp for Product<u64> {
    fn op(self, other: Self) -> (r: Self) {
        Product(self.0 * other.0)
    }

    proof fn lemma_op_associative(a: Product<u64>, b: Product<u64>, c: Product<u64>) {
        assert((a.0 * b.0) * c.0 == a.0 * (b.0 * c.0)) by (nonlinear_arith);
    }
}

impl Semigroup for Product<u64> {
    open spec fn sconcat(s: Seq<Self>) -> Option<Self::M> {
        concat_spec::<Self>(s)
    }

    fn concat(v: Vec<Self>) -> (r: Option<Self>) {
        concat_fold(v)
    }
}

impl DefaultMonoid for Product<u64> {
    open spec fn sdefault() -> Product<u64> {
        Product(1u64)
    }

    open spec fn default_identity_req(a: Product<u64>) -> bool {
        true
    }

    fn default_value() -> (r: Self) {
        Product::default()
    }

    proof fn lemma_default_identity(a: Product<u64>) {
    }
}

/// Keeps the leftmost value: combining discards the right operand.  Its
/// delegated identity (the payload monoid's) is only an identity when
/// combined on the right, so `identity_req` narrows the identity law to the
/// identity itself.
#[derive(Copy, Clone, Debug, Ord, PartialOrd, Eq, PartialEq)]
pub struct First<T>(T);

impl<T: SemigroupSpec> SemigroupSpec for First<T> {
    type M = First<T::M>;

    closed spec fn m(self) -> First<T::M> {
        First(self.0.m())
    }

    open spec fn sop(a: First<T::M>, b: First<T::M>) -> First<T::M> {
        a
    }

    open spec fn op_req(a: First<T::M>, b: First<T::M>) -> bool {
        true
    }
}

impl<T: SemigroupSpec> SemigroupOp for First<T> {
    fn op(self, _other: Self) -> (r: Self) {
        self
    }

    proof fn lemma_op_associative(a: First<T::M>, b: First<T::M>, c: First<T::M>) {
    }
}

impl<T: SemigroupSpec> Semigroup for First<T> {
    open spec fn sconcat(s: Seq<Self>) -> Option<Self::M> {
        concat_spec::<Self>(s)
    }

    fn concat(v: Vec<Self>) -> (r: Option<Self>) {
        concat_fold(v)
    }
}

impl<T: MonoidSpec> MonoidSpec for First<T> {
    closed spec fn sempty() -> First<T::M> {
        First(T::sempty())
    }

    open spec fn identity_req(a: First<T::M>) -> bool {
        a == Self::sempty()
    }
}

impl<T: Monoid> Monoid for First<T> {
    fn empty() -> (r: Self) {
        First(T::empty())
    }

    proof fn lemma_identity(a: First<T::M>) {
    }
}

/// Keeps the rightmost value: combining discards the left operand.  Its
/// delegated identity is only an identity when combined on the left, so
/// `identity_req` narrows the identity law to the identity itself.
#[derive(Copy, Clone, Debug, Ord, PartialOrd, Eq, PartialEq)]
pub struct Last<T>(T);

impl<T: SemigroupSpec> SemigroupSpec for Last<T> {
    type M = Last<T::M>;

    closed spec fn m(self) -> Last<T::M> {
        Last(self.0.m())
    }

    open spec fn sop(a: Last<T::M>, b: Last<T::M>) -> Last<T::M> {
        b
    }

    open spec fn op_req(a: Last<T::M>, b: Last<T::M>) -> bool {
        true
    }
}

impl<T: SemigroupSpec> SemigroupOp for Last<T> {
    fn op(self, other: Self) -> (r: Self) {
        other
    }

    proof fn lemma_op_associative(a: Last<T::M>, b: Last<T::M>, c: Last<T::M>) {
    }
}

impl<T: SemigroupSpec> Semigroup for Last<T> {
    open spec fn sconcat(s: Seq<Self>) -> Option<Self::M> {
        concat_spec::<Self>(s)
    }

    fn concat(v: Vec<Self>) -> (r: Option<Self>) {
        concat_fold(v)
    }
}

impl<T: MonoidSpec> MonoidSpec for Last<T> {
    closed spec fn sempty() -> Last<T::M> {
        Last(T::sempty())
    }

    open spec fn identity_req(a: Last<T::M>) -> bool {
        a == Self::sempty()
    }
}

impl<T: Monoid> Monoid for Last<T> {
    fn empty() -> (r: Self) {
        Last(T::empty())
    }

    proof fn lemma_identity(a: Last<T::M>) {
    }
}

/// How many times one doubles: two to the power `n`.
pub open spec fn pow2(n: nat) -> nat
    decreases n,
{
    if n == 0 {
        1nat
    } else {
        2 * pow2((n - 1) as nat)
    }
}

/// The doubling behaviour of `repeat`, pinned down for sums: `n` doubling
/// steps multiply the payload by `2^n` — not by `n + 1`, as a literal
/// repeat-`n`-times reading would suggest.
pub proof fn lemma_repeat_sum_doubles(x: u64, n: nat)
    requires
        repeat_req::<Sum<u64>>(Sum(x), n),
    ensures
        repeat_spec::<Sum<u64>>(Sum(x), n).0 == x * pow2(n),
    decreases n,
{
    if n > 0 {
        lemma_repeat_req_prefix::<Sum<u64>>(Sum(x), (n - 1) as nat, n);
        lemma_repeat_sum_doubles(x, (n - 1) as nat);
        let h = pow2((n - 1) as nat);
        let p = repeat_spec::<Sum<u64>>(Sum(x), (n - 1) as nat);
        assert(p.0 + p.0 <= u64::MAX);
        assert(repeat_spec::<Sum<u64>>(Sum(x), n) == Sum((p.0 + p.0) as u64));
        assert(2 * (x * h) == x * (2 * h)) by (nonlinear_arith);
        assert(pow2(n) == 2 * h);
        assert(repeat_spec::<Sum<u64>>(Sum(x), n).0 == 2 * (x * h));
    } else {
        assert(pow2(0) == 1);
        assert(repeat_spec::<Sum<u64>>(Sum(x), 0) == Sum(x));
    }
}

} // verus!

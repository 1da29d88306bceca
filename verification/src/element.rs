//! The scalar kinds the engine works over: a capability trait giving each
//! supported integer kind a mathematical value, its machine range, and the
//! four elementwise operators, specified over `int`.

use vstd::prelude::*;

verus! {

/// Truncating integer division, the semantics of Rust's `/` on the
/// primitive integer kinds (quotient rounded toward zero).
pub open spec fn trunc_div(a: int, b: int) -> int
    recommends
        b != 0,
{
    if a == 0 {
        0
    } else if a > 0 && b > 0 {
        a / b
    } else if a < 0 && b < 0 {
        (a * -1) / (b * -1)
    } else if a < 0 {
        ((a * -1) / b) * -1
    } else {
        (a / (b * -1)) * -1
    }
}

/// Does `x` lie in the machine range of the scalar kind `T`?
pub open spec fn fits<T: Element>(x: int) -> bool {
    T::lo() <= x <= T::hi()
}

/// A scalar kind the engine can operate on: a fixed-width machine integer
/// with its value mapping into `int`, its range, and the exact elementwise
/// operators. Every engine contract is stated through `val`.
pub trait Element: Sized + Copy {
    /// The mathematical value this scalar stands for.
    spec fn val(self) -> int;

    /// Smallest value of the kind.
    spec fn lo() -> int;

    /// Largest value of the kind.
    spec fn hi() -> int;

    /// Every supported kind can represent 0 and 1.
    proof fn range_holds_zero_one()
        ensures
            Self::lo() <= 0,
            1 <= Self::hi(),
    ;

    /// Two scalars of one kind with the same mathematical value are the
    /// same scalar.
    proof fn val_injective(self, other: Self)
        ensures
            self.val() == other.val() ==> self == other,
    ;

    /// The additive identity of the kind.
    fn zero_el() -> (r: Self)
        ensures
            r.val() == 0,
    ;

    /// The multiplicative identity of the kind.
    fn one_el() -> (r: Self)
        ensures
            r.val() == 1,
    ;

    fn add_el(self, o: Self) -> (r: Self)
        requires
            Self::lo() <= self.val() + o.val() <= Self::hi(),
        ensures
            r.val() == self.val() + o.val(),
    ;

    fn sub_el(self, o: Self) -> (r: Self)
        requires
            Self::lo() <= self.val() - o.val() <= Self::hi(),
        ensures
            r.val() == self.val() - o.val(),
    ;

    fn mul_el(self, o: Self) -> (r: Self)
        requires
            Self::lo() <= self.val() * o.val() <= Self::hi(),
        ensures
            r.val() == self.val() * o.val(),
    ;

    fn div_el(self, o: Self) -> (r: Self)
        requires
            o.val() != 0,
            Self::lo() <= trunc_div(self.val(), o.val()) <= Self::hi(),
        ensures
            r.val() == trunc_div(self.val(), o.val()),
    ;

    fn eq_el(self, o: Self) -> (b: bool)
        ensures
            b == (self.val() == o.val()),
    ;
}

impl Element for u8 {
    open spec fn val(self) -> int {
        self as int
    }

    open spec fn lo() -> int {
        0
    }

    open spec fn hi() -> int {
        u8::MAX as int
    }

    proof fn range_holds_zero_one() {
    }

    proof fn val_injective(self, other: Self) {
    }

    fn zero_el() -> (r: Self) {
        0
    }

    fn one_el() -> (r: Self) {
        1
    }

    fn add_el(self, o: Self) -> (r: Self) {
        self + o
    }

    fn sub_el(self, o: Self) -> (r: Self) {
        self - o
    }

    fn mul_el(self, o: Self) -> (r: Self) {
        self * o
    }

    fn div_el(self, o: Self) -> (r: Self) {
        self / o
    }

    fn eq_el(self, o: Self) -> (b: bool) {
        self == o
    }
}

impl Element for i64 {
    open spec fn val(self) -> int {
        self as int
    }

    open spec fn lo() -> int {
        i64::MIN as int
    }

    open spec fn hi() -> int {
        i64::MAX as int
    }

    proof fn range_holds_zero_one() {
    }

    proof fn val_injective(self, other: Self) {
    }

    fn zero_el() -> (r: Self) {
        0
    }

    fn one_el() -> (r: Self) {
        1
    }

    fn add_el(self, o: Self) -> (r: Self) {
        self + o
    }

    fn sub_el(self, o: Self) -> (r: Self) {
        self - o
    }

    fn mul_el(self, o: Self) -> (r: Self) {
        self * o
    }

    fn div_el(self, o: Self) -> (r: Self) {
        self.checked_div(o).unwrap()
    }

    fn eq_el(self, o: Self) -> (b: bool) {
        self == o
    }
}

/// The magnitude of `x`.
pub open spec fn abs_val(x: int) -> int {
    if x < 0 {
        -x
    } else {
        x
    }
}

/// A signed scalar kind: the kinds on which absolute value exists.
/// Unsigned kinds do not implement this trait, so `abs` on them is
/// ruled out at the type level.
pub trait SignedElement: Element {
    fn abs_el(self) -> (r: Self)
        requires
            Self::lo() <= abs_val(self.val()) <= Self::hi(),
        ensures
            r.val() == abs_val(self.val()),
    ;
}

impl Element for u16 {
    open spec fn val(self) -> int {
        self as int
    }

    open spec fn lo() -> int {
        0
    }

    open spec fn hi() -> int {
        u16::MAX as int
    }

    proof fn range_holds_zero_one() {
    }

    proof fn val_injective(self, other: Self) {
    }

    fn zero_el() -> (r: Self) {
        0
    }

    fn one_el() -> (r: Self) {
        1
    }

    fn add_el(self, o: Self) -> (r: Self) {
        self + o
    }

    fn sub_el(self, o: Self) -> (r: Self) {
        self - o
    }

    fn mul_el(self, o: Self) -> (r: Self) {
        self * o
    }

    fn div_el(self, o: Self) -> (r: Self) {
        self / o
    }

    fn eq_el(self, o: Self) -> (b: bool) {
        self == o
    }
}

impl Element for u32 {
    open spec fn val(self) -> int {
        self as int
    }

    open spec fn lo() -> int {
        0
    }

    open spec fn hi() -> int {
        u32::MAX as int
    }

    proof fn range_holds_zero_one() {
    }

    proof fn val_injective(self, other: Self) {
    }

    fn zero_el() -> (r: Self) {
        0
    }

    fn one_el() -> (r: Self) {
        1
    }

    fn add_el(self, o: Self) -> (r: Self) {
        self + o
    }

    fn sub_el(self, o: Self) -> (r: Self) {
        self - o
    }

    fn mul_el(self, o: Self) -> (r: Self) {
        self * o
    }

    fn div_el(self, o: Self) -> (r: Self) {
        self / o
    }

    fn eq_el(self, o: Self) -> (b: bool) {
        self == o
    }
}

impl Element for u64 {
    open spec fn val(self) -> int {
        self as int
    }

    open spec fn lo() -> int {
        0
    }

    open spec fn hi() -> int {
        u64::MAX as int
    }

    proof fn range_holds_zero_one() {
    }

    proof fn val_injective(self, other: Self) {
    }

    fn zero_el() -> (r: Self) {
        0
    }

    fn one_el() -> (r: Self) {
        1
    }

    fn add_el(self, o: Self) -> (r: Self) {
        self + o
    }

    fn sub_el(self, o: Self) -> (r: Self) {
        self - o
    }

    fn mul_el(self, o: Self) -> (r: Self) {
        self * o
    }

    fn div_el(self, o: Self) -> (r: Self) {
        self / o
    }

    fn eq_el(self, o: Self) -> (b: bool) {
        self == o
    }
}

impl Element for usize {
    open spec fn val(self) -> int {
        self as int
    }

    open spec fn lo() -> int {
        0
    }

    open spec fn hi() -> int {
        usize::MAX as int
    }

    proof fn range_holds_zero_one() {
    }

    proof fn val_injective(self, other: Self) {
    }

    fn zero_el() -> (r: Self) {
        0
    }

    fn one_el() -> (r: Self) {
        1
    }

    fn add_el(self, o: Self) -> (r: Self) {
        self + o
    }

    fn sub_el(self, o: Self) -> (r: Self) {
        self - o
    }

    fn mul_el(self, o: Self) -> (r: Self) {
        self * o
    }

    fn div_el(self, o: Self) -> (r: Self) {
        self / o
    }

    fn eq_el(self, o: Self) -> (b: bool) {
        self == o
    }
}

impl Element for i8 {
    open spec fn val(self) -> int {
        self as int
    }

    open spec fn lo() -> int {
        i8::MIN as int
    }

    open spec fn hi() -> int {
        i8::MAX as int
    }

    proof fn range_holds_zero_one() {
    }

    proof fn val_injective(self, other: Self) {
    }

    fn zero_el() -> (r: Self) {
        0
    }

    fn one_el() -> (r: Self) {
        1
    }

    fn add_el(self, o: Self) -> (r: Self) {
        self + o
    }

    fn sub_el(self, o: Self) -> (r: Self) {
        self - o
    }

    fn mul_el(self, o: Self) -> (r: Self) {
        self * o
    }

    fn div_el(self, o: Self) -> (r: Self) {
        self.checked_div(o).unwrap()
    }

    fn eq_el(self, o: Self) -> (b: bool) {
        self == o
    }
}

impl Element for i16 {
    open spec fn val(self) -> int {
        self as int
    }

    open spec fn lo() -> int {
        i16::MIN as int
    }

    open spec fn hi() -> int {
        i16::MAX as int
    }

    proof fn range_holds_zero_one() {
    }

    proof fn val_injective(self, other: Self) {
    }

    fn zero_el() -> (r: Self) {
        0
    }

    fn one_el() -> (r: Self) {
        1
    }

    fn add_el(self, o: Self) -> (r: Self) {
        self + o
    }

    fn sub_el(self, o: Self) -> (r: Self) {
        self - o
    }

    fn mul_el(self, o: Self) -> (r: Self) {
        self * o
    }

    fn div_el(self, o: Self) -> (r: Self) {
        self.checked_div(o).unwrap()
    }

    fn eq_el(self, o: Self) -> (b: bool) {
        self == o
    }
}

impl Element for i32 {
    open spec fn val(self) -> int {
        self as int
    }

    open spec fn lo() -> int {
        i32::MIN as int
    }

    open spec fn hi() -> int {
        i32::MAX as int
    }

    proof fn range_holds_zero_one() {
    }

    proof fn val_injective(self, other: Self) {
    }

    fn zero_el() -> (r: Self) {
        0
    }

    fn one_el() -> (r: Self) {
        1
    }

    fn add_el(self, o: Self) -> (r: Self) {
        self + o
    }

    fn sub_el(self, o: Self) -> (r: Self) {
        self - o
    }

    fn mul_el(self, o: Self) -> (r: Self) {
        self * o
    }

    fn div_el(self, o: Self) -> (r: Self) {
        self.checked_div(o).unwrap()
    }

    fn eq_el(self, o: Self) -> (b: bool) {
        self == o
    }
}

impl Element for isize {
    open spec fn val(self) -> int {
        self as int
    }

    open spec fn lo() -> int {
        isize::MIN as int
    }

    open spec fn hi() -> int {
        isize::MAX as int
    }

    proof fn range_holds_zero_one() {
    }

    proof fn val_injective(self, other: Self) {
    }

    fn zero_el() -> (r: Self) {
        0
    }

    fn one_el() -> (r: Self) {
        1
    }

    fn add_el(self, o: Self) -> (r: Self) {
        self + o
    }

    fn sub_el(self, o: Self) -> (r: Self) {
        self - o
    }

    fn mul_el(self, o: Self) -> (r: Self) {
        self * o
    }

    fn div_el(self, o: Self) -> (r: Self) {
        self.checked_div(o).unwrap()
    }

    fn eq_el(self, o: Self) -> (b: bool) {
        self == o
    }
}

impl SignedElement for i8 {
    fn abs_el(self) -> (r: Self) {
        if self < 0 {
            -self
        } else {
            self
        }
    }
}

impl SignedElement for i16 {
    fn abs_el(self) -> (r: Self) {
        if self < 0 {
            -self
        } else {
            self
        }
    }
}

impl SignedElement for i32 {
    fn abs_el(self) -> (r: Self) {
        if self < 0 {
            -self
        } else {
            self
        }
    }
}

impl SignedElement for i64 {
    fn abs_el(self) -> (r: Self) {
        if self < 0 {
            -self
        } else {
            self
        }
    }
}

impl SignedElement for isize {
    fn abs_el(self) -> (r: Self) {
        if self < 0 {
            -self
        } else {
            self
        }
    }
}

} // verus!

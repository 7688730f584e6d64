use vstd::prelude::*;

verus! {

/// Absolute value of a mathematical integer.
pub open spec fn abs_num(a: int) -> int {
    if a < 0 {
        -a
    } else {
        a
    }
}

/// Truncating (round-toward-zero) division, the rule the `/` operator of the
/// machine integer types follows. It differs from the Euclidean `/` of spec
/// arithmetic when exactly one operand is negative.
pub open spec fn quot(a: int, b: int) -> int {
    let q = abs_num(a) / abs_num(b);
    if (a < 0) != (b < 0) {
        -q
    } else {
        q
    }
}

/// For a nonnegative dividend, Euclidean division by a negative divisor is
/// the negated division by the divisor's magnitude.
proof fn lemma_div_negative_divisor(x: int, b: int)
    requires
        x >= 0,
        b < 0,
    ensures
        x / b == -(x / (-b)),
{
    let d = -b;
    let q = x / d;
    let r = x % d;
    vstd::arithmetic::div_mod::lemma_fundamental_div_mod(x, d);
    vstd::arithmetic::div_mod::lemma_mod_bound(x, d);
    let q2 = x / b;
    let r2 = x % b;
    vstd::arithmetic::div_mod::lemma_fundamental_div_mod(x, b);
    assert(0 <= r2 < -b);
    assert(b * (-q) == d * q) by (nonlinear_arith)
        requires
            b == -d,
    ;
    assert(q2 == -q) by (nonlinear_arith)
        requires
            b * q2 + r2 == b * (-q) + r,
            0 <= r2 < -b,
            0 <= r < -b,
            b < 0,
    ;
}

/// `quot` written with Euclidean division on a nonnegative dividend, the shape
/// in which the machine division operators are specified.
pub proof fn lemma_quot_parts(a: int, b: int)
    requires
        b != 0,
    ensures
        a >= 0 ==> quot(a, b) == a / b,
        a < 0 ==> quot(a, b) == -((-a) / b),
{
    if b < 0 {
        if a >= 0 {
            lemma_div_negative_divisor(a, b);
        } else {
            lemma_div_negative_divisor(-a, b);
        }
    }
}

/// Truncating remainder, the rule the `%` operator of the machine integer
/// types follows: its sign follows the dividend's.
pub open spec fn remt(a: int, b: int) -> int {
    let r = abs_num(a) % abs_num(b);
    if a < 0 {
        -r
    } else {
        r
    }
}

/// `remt` written with the Euclidean `%` on a nonnegative dividend, the shape
/// in which the machine remainder operators are specified, with its bound.
pub proof fn lemma_remt_parts(a: int, b: int)
    requires
        b != 0,
    ensures
        a >= 0 ==> remt(a, b) == a % b,
        a < 0 ==> remt(a, b) == -((-a) % b),
        abs_num(remt(a, b)) < abs_num(b),
{
    let x = abs_num(a);
    vstd::arithmetic::div_mod::lemma_mod_bound(x, abs_num(b));
    if b < 0 {
        lemma_div_negative_divisor(x, b);
        vstd::arithmetic::div_mod::lemma_fundamental_div_mod(x, b);
        vstd::arithmetic::div_mod::lemma_fundamental_div_mod(x, -b);
        assert(b * (x / b) == (-b) * (x / (-b))) by (nonlinear_arith)
            requires
                x / b == -(x / (-b)),
        ;
    }
}

/// The smaller of two values by their mathematical model.
pub open spec fn min_num<T: SupportedValue>(a: T, b: T) -> T {
    if a.as_num() <= b.as_num() {
        a
    } else {
        b
    }
}

/// The larger of two values by their mathematical model.
pub open spec fn max_num<T: SupportedValue>(a: T, b: T) -> T {
    if b.as_num() <= a.as_num() {
        a
    } else {
        b
    }
}

/// The capability every element type of a vector must offer: a mathematical
/// model (`as_num`), the two identity elements, and executable equality and
/// ordering tests. Implemented for the machine integer types and for `bool`
/// (`false` plays zero, `true` plays one).
pub trait SupportedValue: Sized + Copy {
    /// The mathematical integer this value stands for.
    spec fn as_num(self) -> int;

    /// The additive identity (`false` for `bool`).
    spec fn zero_spec() -> Self;

    /// The multiplicative identity (`true` for `bool`).
    spec fn one_spec() -> Self;

    /// Two values with the same model are the same value.
    proof fn num_injective(a: Self, b: Self)
        ensures
            a.as_num() == b.as_num() ==> a == b,
    ;

    /// The identities model 0 and 1.
    proof fn identity_nums()
        ensures
            Self::zero_spec().as_num() == 0,
            Self::one_spec().as_num() == 1,
    ;

    fn zero() -> (r: Self)
        ensures
            r == Self::zero_spec(),
    ;

    fn one() -> (r: Self)
        ensures
            r == Self::one_spec(),
    ;

    fn eq_val(self, other: Self) -> (r: bool)
        ensures
            r == (self == other),
    ;

    fn lt_val(self, other: Self) -> (r: bool)
        ensures
            r == (self.as_num() < other.as_num()),
    ;

    fn le_val(self, other: Self) -> (r: bool)
        ensures
            r == (self.as_num() <= other.as_num()),
    ;
}

/// The four basic operators, with exact contracts over the integer model.
/// Overflow is ruled out by `requires`; division follows the machine rule
/// (`quot`, truncation toward zero) and demands a nonzero divisor.
pub trait ScalarArith: SupportedValue {
    /// Whether a mathematical integer fits in this type.
    spec fn in_range(v: int) -> bool;

    /// The value of this type standing for a mathematical integer (meaningful
    /// when the integer is in range).
    spec fn from_num(v: int) -> Self;

    /// Every value's model is in range.
    proof fn num_in_range(a: Self)
        ensures
            Self::in_range(a.as_num()),
    ;

    /// 0 and 1 are in range.
    proof fn identities_in_range()
        ensures
            Self::in_range(0),
            Self::in_range(1),
    ;

    /// `from_num` inverts `as_num` on in-range integers.
    proof fn from_to_num(v: int)
        requires
            Self::in_range(v),
        ensures
            Self::from_num(v).as_num() == v,
    ;

    fn add_val(self, other: Self) -> (r: Self)
        requires
            Self::in_range(self.as_num() + other.as_num()),
        ensures
            r == Self::from_num(self.as_num() + other.as_num()),
    ;

    fn sub_val(self, other: Self) -> (r: Self)
        requires
            Self::in_range(self.as_num() - other.as_num()),
        ensures
            r == Self::from_num(self.as_num() - other.as_num()),
    ;

    fn mul_val(self, other: Self) -> (r: Self)
        requires
            Self::in_range(self.as_num() * other.as_num()),
        ensures
            r == Self::from_num(self.as_num() * other.as_num()),
    ;

    fn div_val(self, other: Self) -> (r: Self)
        requires
            other.as_num() != 0,
            Self::in_range(quot(self.as_num(), other.as_num())),
        ensures
            r == Self::from_num(quot(self.as_num(), other.as_num())),
    ;

    fn rem_val(self, other: Self) -> (r: Self)
        requires
            other.as_num() != 0,
            Self::in_range(quot(self.as_num(), other.as_num())),
        ensures
            r == Self::from_num(remt(self.as_num(), other.as_num())),
    ;
}

/// Unary negation, offered by the signed element types.
pub trait ScalarNeg: ScalarArith {
    fn neg_val(self) -> (r: Self)
        requires
            Self::in_range(-self.as_num()),
        ensures
            r == Self::from_num(-self.as_num()),
    ;
}

/// Component types of the bitwise vector operators: the integers and `bool`
/// (where they are the logical connectives).
pub trait ScalarBits: SupportedValue {
    spec fn and_spec(self, other: Self) -> Self;

    spec fn or_spec(self, other: Self) -> Self;

    spec fn xor_spec(self, other: Self) -> Self;

    spec fn not_spec(self) -> Self;

    fn and_val(self, other: Self) -> (r: Self)
        ensures
            r == self.and_spec(other),
    ;

    fn or_val(self, other: Self) -> (r: Self)
        ensures
            r == self.or_spec(other),
    ;

    fn xor_val(self, other: Self) -> (r: Self)
        ensures
            r == self.xor_spec(other),
    ;

    fn not_val(self) -> (r: Self)
        ensures
            r == self.not_spec(),
    ;
}

impl SupportedValue for bool {
    open spec fn as_num(self) -> int {
        if self {
            1
        } else {
            0
        }
    }

    open spec fn zero_spec() -> Self {
        false
    }

    open spec fn one_spec() -> Self {
        true
    }

    proof fn num_injective(a: Self, b: Self) {
    }

    proof fn identity_nums() {
    }

    fn zero() -> Self {
        false
    }

    fn one() -> Self {
        true
    }

    fn eq_val(self, other: Self) -> bool {
        self == other
    }

    fn lt_val(self, other: Self) -> bool {
        !self && other
    }

    fn le_val(self, other: Self) -> bool {
        !self || other
    }
}

impl ScalarBits for bool {
    open spec fn and_spec(self, other: Self) -> Self {
        self && other
    }

    open spec fn or_spec(self, other: Self) -> Self {
        self || other
    }

    open spec fn xor_spec(self, other: Self) -> Self {
        self != other
    }

    open spec fn not_spec(self) -> Self {
        !self
    }

    fn and_val(self, other: Self) -> Self {
        self && other
    }

    fn or_val(self, other: Self) -> Self {
        self || other
    }

    fn xor_val(self, other: Self) -> Self {
        self != other
    }

    fn not_val(self) -> Self {
        !self
    }
}

impl SupportedValue for i8 {
    open spec fn as_num(self) -> int {
        self as int
    }

    open spec fn zero_spec() -> Self {
        0i8
    }

    open spec fn one_spec() -> Self {
        1i8
    }

    proof fn num_injective(a: Self, b: Self) {
    }

    proof fn identity_nums() {
    }

    fn zero() -> Self {
        0
    }

    fn one() -> Self {
        1
    }

    fn eq_val(self, other: Self) -> bool {
        self == other
    }

    fn lt_val(self, other: Self) -> bool {
        self < other
    }

    fn le_val(self, other: Self) -> bool {
        self <= other
    }
}

impl SupportedValue for i16 {
    open spec fn as_num(self) -> int {
        self as int
    }

    open spec fn zero_spec() -> Self {
        0i16
    }

    open spec fn one_spec() -> Self {
        1i16
    }

    proof fn num_injective(a: Self, b: Self) {
    }

    proof fn identity_nums() {
    }

    fn zero() -> Self {
        0
    }

    fn one() -> Self {
        1
    }

    fn eq_val(self, other: Self) -> bool {
        self == other
    }

    fn lt_val(self, other: Self) -> bool {
        self < other
    }

    fn le_val(self, other: Self) -> bool {
        self <= other
    }
}

impl SupportedValue for i32 {
    open spec fn as_num(self) -> int {
        self as int
    }

    open spec fn zero_spec() -> Self {
        0i32
    }

    open spec fn one_spec() -> Self {
        1i32
    }

    proof fn num_injective(a: Self, b: Self) {
    }

    proof fn identity_nums() {
    }

    fn zero() -> Self {
        0
    }

    fn one() -> Self {
        1
    }

    fn eq_val(self, other: Self) -> bool {
        self == other
    }

    fn lt_val(self, other: Self) -> bool {
        self < other
    }

    fn le_val(self, other: Self) -> bool {
        self <= other
    }
}

impl SupportedValue for i64 {
    open spec fn as_num(self) -> int {
        self as int
    }

    open spec fn zero_spec() -> Self {
        0i64
    }

    open spec fn one_spec() -> Self {
        1i64
    }

    proof fn num_injective(a: Self, b: Self) {
    }

    proof fn identity_nums() {
    }

    fn zero() -> Self {
        0
    }

    fn one() -> Self {
        1
    }

    fn eq_val(self, other: Self) -> bool {
        self == other
    }

    fn lt_val(self, other: Self) -> bool {
        self < other
    }

    fn le_val(self, other: Self) -> bool {
        self <= other
    }
}

impl SupportedValue for i128 {
    open spec fn as_num(self) -> int {
        self as int
    }

    open spec fn zero_spec() -> Self {
        0i128
    }

    open spec fn one_spec() -> Self {
        1i128
    }

    proof fn num_injective(a: Self, b: Self) {
    }

    proof fn identity_nums() {
    }

    fn zero() -> Self {
        0
    }

    fn one() -> Self {
        1
    }

    fn eq_val(self, other: Self) -> bool {
        self == other
    }

    fn lt_val(self, other: Self) -> bool {
        self < other
    }

    fn le_val(self, other: Self) -> bool {
        self <= other
    }
}

impl SupportedValue for isize {
    open spec fn as_num(self) -> int {
        self as int
    }

    open spec fn zero_spec() -> Self {
        0isize
    }

    open spec fn one_spec() -> Self {
        1isize
    }

    proof fn num_injective(a: Self, b: Self) {
    }

    proof fn identity_nums() {
    }

    fn zero() -> Self {
        0
    }

    fn one() -> Self {
        1
    }

    fn eq_val(self, other: Self) -> bool {
        self == other
    }

    fn lt_val(self, other: Self) -> bool {
        self < other
    }

    fn le_val(self, other: Self) -> bool {
        self <= other
    }
}

impl SupportedValue for u8 {
    open spec fn as_num(self) -> int {
        self as int
    }

    open spec fn zero_spec() -> Self {
        0u8
    }

    open spec fn one_spec() -> Self {
        1u8
    }

    proof fn num_injective(a: Self, b: Self) {
    }

    proof fn identity_nums() {
    }

    fn zero() -> Self {
        0
    }

    fn one() -> Self {
        1
    }

    fn eq_val(self, other: Self) -> bool {
        self == other
    }

    fn lt_val(self, other: Self) -> bool {
        self < other
    }

    fn le_val(self, other: Self) -> bool {
        self <= other
    }
}

impl SupportedValue for u16 {
    open spec fn as_num(self) -> int {
        self as int
    }

    open spec fn zero_spec() -> Self {
        0u16
    }

    open spec fn one_spec() -> Self {
        1u16
    }

    proof fn num_injective(a: Self, b: Self) {
    }

    proof fn identity_nums() {
    }

    fn zero() -> Self {
        0
    }

    fn one() -> Self {
        1
    }

    fn eq_val(self, other: Self) -> bool {
        self == other
    }

    fn lt_val(self, other: Self) -> bool {
        self < other
    }

    fn le_val(self, other: Self) -> bool {
        self <= other
    }
}

impl SupportedValue for u32 {
    open spec fn as_num(self) -> int {
        self as int
    }

    open spec fn zero_spec() -> Self {
        0u32
    }

    open spec fn one_spec() -> Self {
        1u32
    }

    proof fn num_injective(a: Self, b: Self) {
    }

    proof fn identity_nums() {
    }

    fn zero() -> Self {
        0
    }

    fn one() -> Self {
        1
    }

    fn eq_val(self, other: Self) -> bool {
        self == other
    }

    fn lt_val(self, other: Self) -> bool {
        self < other
    }

    fn le_val(self, other: Self) -> bool {
        self <= other
    }
}

impl SupportedValue for u64 {
    open spec fn as_num(self) -> int {
        self as int
    }

    open spec fn zero_spec() -> Self {
        0u64
    }

    open spec fn one_spec() -> Self {
        1u64
    }

    proof fn num_injective(a: Self, b: Self) {
    }

    proof fn identity_nums() {
    }

    fn zero() -> Self {
        0
    }

    fn one() -> Self {
        1
    }

    fn eq_val(self, other: Self) -> bool {
        self == other
    }

    fn lt_val(self, other: Self) -> bool {
        self < other
    }

    fn le_val(self, other: Self) -> bool {
        self <= other
    }
}

impl SupportedValue for u128 {
    open spec fn as_num(self) -> int {
        self as int
    }

    open spec fn zero_spec() -> Self {
        0u128
    }

    open spec fn one_spec() -> Self {
        1u128
    }

    proof fn num_injective(a: Self, b: Self) {
    }

    proof fn identity_nums() {
    }

    fn zero() -> Self {
        0
    }

    fn one() -> Self {
        1
    }

    fn eq_val(self, other: Self) -> bool {
        self == other
    }

    fn lt_val(self, other: Self) -> bool {
        self < other
    }

    fn le_val(self, other: Self) -> bool {
        self <= other
    }
}

impl SupportedValue for usize {
    open spec fn as_num(self) -> int {
        self as int
    }

    open spec fn zero_spec() -> Self {
        0usize
    }

    open spec fn one_spec() -> Self {
        1usize
    }

    proof fn num_injective(a: Self, b: Self) {
    }

    proof fn identity_nums() {
    }

    fn zero() -> Self {
        0
    }

    fn one() -> Self {
        1
    }

    fn eq_val(self, other: Self) -> bool {
        self == other
    }

    fn lt_val(self, other: Self) -> bool {
        self < other
    }

    fn le_val(self, other: Self) -> bool {
        self <= other
    }
}

impl ScalarArith for i8 {
    open spec fn in_range(v: int) -> bool {
        i8::MIN <= v <= i8::MAX
    }

    open spec fn from_num(v: int) -> Self {
        v as i8
    }

    proof fn num_in_range(a: Self) {
    }

    proof fn identities_in_range() {
    }

    proof fn from_to_num(v: int) {
    }

    fn add_val(self, other: Self) -> Self {
        self + other
    }

    fn sub_val(self, other: Self) -> Self {
        self - other
    }

    fn mul_val(self, other: Self) -> Self {
        self * other
    }

    fn div_val(self, other: Self) -> Self {
        proof {
            lemma_quot_parts(self as int, other as int);
            if self == i8::MIN && other == -1 {
                vstd::arithmetic::div_mod::lemma_div_basics(abs_num(self as int));
            }
        }
        self / other
    }

    fn rem_val(self, other: Self) -> Self {
        proof {
            lemma_remt_parts(self as int, other as int);
            lemma_quot_parts(self as int, other as int);
            if self == i8::MIN && other == -1 {
                vstd::arithmetic::div_mod::lemma_div_basics(abs_num(self as int));
            }
        }
        self % other
    }
}

impl ScalarNeg for i8 {
    fn neg_val(self) -> Self {
        -self
    }
}

impl ScalarArith for i16 {
    open spec fn in_range(v: int) -> bool {
        i16::MIN <= v <= i16::MAX
    }

    open spec fn from_num(v: int) -> Self {
        v as i16
    }

    proof fn num_in_range(a: Self) {
    }

    proof fn identities_in_range() {
    }

    proof fn from_to_num(v: int) {
    }

    fn add_val(self, other: Self) -> Self {
        self + other
    }

    fn sub_val(self, other: Self) -> Self {
        self - other
    }

    fn mul_val(self, other: Self) -> Self {
        self * other
    }

    fn div_val(self, other: Self) -> Self {
        proof {
            lemma_quot_parts(self as int, other as int);
            if self == i16::MIN && other == -1 {
                vstd::arithmetic::div_mod::lemma_div_basics(abs_num(self as int));
            }
        }
        self / other
    }

    fn rem_val(self, other: Self) -> Self {
        proof {
            lemma_remt_parts(self as int, other as int);
            lemma_quot_parts(self as int, other as int);
            if self == i16::MIN && other == -1 {
                vstd::arithmetic::div_mod::lemma_div_basics(abs_num(self as int));
            }
        }
        self % other
    }
}

impl ScalarNeg for i16 {
    fn neg_val(self) -> Self {
        -self
    }
}

impl ScalarArith for i32 {
    open spec fn in_range(v: int) -> bool {
        i32::MIN <= v <= i32::MAX
    }

    open spec fn from_num(v: int) -> Self {
        v as i32
    }

    proof fn num_in_range(a: Self) {
    }

    proof fn identities_in_range() {
    }

    proof fn from_to_num(v: int) {
    }

    fn add_val(self, other: Self) -> Self {
        self + other
    }

    fn sub_val(self, other: Self) -> Self {
        self - other
    }

    fn mul_val(self, other: Self) -> Self {
        self * other
    }

    fn div_val(self, other: Self) -> Self {
        proof {
            lemma_quot_parts(self as int, other as int);
            if self == i32::MIN && other == -1 {
                vstd::arithmetic::div_mod::lemma_div_basics(abs_num(self as int));
            }
        }
        self / other
    }

    fn rem_val(self, other: Self) -> Self {
        proof {
            lemma_remt_parts(self as int, other as int);
            lemma_quot_parts(self as int, other as int);
            if self == i32::MIN && other == -1 {
                vstd::arithmetic::div_mod::lemma_div_basics(abs_num(self as int));
            }
        }
        self % other
    }
}

impl ScalarNeg for i32 {
    fn neg_val(self) -> Self {
        -self
    }
}

impl ScalarArith for i64 {
    open spec fn in_range(v: int) -> bool {
        i64::MIN <= v <= i64::MAX
    }

    open spec fn from_num(v: int) -> Self {
        v as i64
    }

    proof fn num_in_range(a: Self) {
    }

    proof fn identities_in_range() {
    }

    proof fn from_to_num(v: int) {
    }

    fn add_val(self, other: Self) -> Self {
        self + other
    }

    fn sub_val(self, other: Self) -> Self {
        self - other
    }

    fn mul_val(self, other: Self) -> Self {
        self * other
    }

    fn div_val(self, other: Self) -> Self {
        proof {
            lemma_quot_parts(self as int, other as int);
            if self == i64::MIN && other == -1 {
                vstd::arithmetic::div_mod::lemma_div_basics(abs_num(self as int));
            }
        }
        self / other
    }

    fn rem_val(self, other: Self) -> Self {
        proof {
            lemma_remt_parts(self as int, other as int);
            lemma_quot_parts(self as int, other as int);
            if self == i64::MIN && other == -1 {
                vstd::arithmetic::div_mod::lemma_div_basics(abs_num(self as int));
            }
        }
        self % other
    }
}

impl ScalarNeg for i64 {
    fn neg_val(self) -> Self {
        -self
    }
}

impl ScalarArith for i128 {
    open spec fn in_range(v: int) -> bool {
        i128::MIN <= v <= i128::MAX
    }

    open spec fn from_num(v: int) -> Self {
        v as i128
    }

    proof fn num_in_range(a: Self) {
    }

    proof fn identities_in_range() {
    }

    proof fn from_to_num(v: int) {
    }

    fn add_val(self, other: Self) -> Self {
        self + other
    }

    fn sub_val(self, other: Self) -> Self {
        self - other
    }

    fn mul_val(self, other: Self) -> Self {
        self * other
    }

    fn div_val(self, other: Self) -> Self {
        proof {
            lemma_quot_parts(self as int, other as int);
            if self == i128::MIN && other == -1 {
                vstd::arithmetic::div_mod::lemma_div_basics(abs_num(self as int));
            }
        }
        self / other
    }

    fn rem_val(self, other: Self) -> Self {
        proof {
            lemma_remt_parts(self as int, other as int);
            lemma_quot_parts(self as int, other as int);
            if self == i128::MIN && other == -1 {
                vstd::arithmetic::div_mod::lemma_div_basics(abs_num(self as int));
            }
        }
        self % other
    }
}

impl ScalarNeg for i128 {
    fn neg_val(self) -> Self {
        -self
    }
}

impl ScalarArith for isize {
    open spec fn in_range(v: int) -> bool {
        isize::MIN <= v <= isize::MAX
    }

    open spec fn from_num(v: int) -> Self {
        v as isize
    }

    proof fn num_in_range(a: Self) {
    }

    proof fn identities_in_range() {
    }

    proof fn from_to_num(v: int) {
    }

    fn add_val(self, other: Self) -> Self {
        self + other
    }

    fn sub_val(self, other: Self) -> Self {
        self - other
    }

    fn mul_val(self, other: Self) -> Self {
        self * other
    }

    fn div_val(self, other: Self) -> Self {
        proof {
            lemma_quot_parts(self as int, other as int);
            if self == isize::MIN && other == -1 {
                vstd::arithmetic::div_mod::lemma_div_basics(abs_num(self as int));
            }
        }
        self / other
    }

    fn rem_val(self, other: Self) -> Self {
        proof {
            lemma_remt_parts(self as int, other as int);
            lemma_quot_parts(self as int, other as int);
            if self == isize::MIN && other == -1 {
                vstd::arithmetic::div_mod::lemma_div_basics(abs_num(self as int));
            }
        }
        self % other
    }
}

impl ScalarNeg for isize {
    fn neg_val(self) -> Self {
        -self
    }
}

impl ScalarArith for u8 {
    open spec fn in_range(v: int) -> bool {
        0 <= v <= u8::MAX
    }

    open spec fn from_num(v: int) -> Self {
        v as u8
    }

    proof fn num_in_range(a: Self) {
    }

    proof fn identities_in_range() {
    }

    proof fn from_to_num(v: int) {
    }

    fn add_val(self, other: Self) -> Self {
        self + other
    }

    fn sub_val(self, other: Self) -> Self {
        self - other
    }

    fn mul_val(self, other: Self) -> Self {
        self * other
    }

    fn div_val(self, other: Self) -> Self {
        self / other
    }

    fn rem_val(self, other: Self) -> Self {
        self % other
    }
}

impl ScalarArith for u16 {
    open spec fn in_range(v: int) -> bool {
        0 <= v <= u16::MAX
    }

    open spec fn from_num(v: int) -> Self {
        v as u16
    }

    proof fn num_in_range(a: Self) {
    }

    proof fn identities_in_range() {
    }

    proof fn from_to_num(v: int) {
    }

    fn add_val(self, other: Self) -> Self {
        self + other
    }

    fn sub_val(self, other: Self) -> Self {
        self - other
    }

    fn mul_val(self, other: Self) -> Self {
        self * other
    }

    fn div_val(self, other: Self) -> Self {
        self / other
    }

    fn rem_val(self, other: Self) -> Self {
        self % other
    }
}

impl ScalarArith for u32 {
    open spec fn in_range(v: int) -> bool {
        0 <= v <= u32::MAX
    }

    open spec fn from_num(v: int) -> Self {
        v as u32
    }

    proof fn num_in_range(a: Self) {
    }

    proof fn identities_in_range() {
    }

    proof fn from_to_num(v: int) {
    }

    fn add_val(self, other: Self) -> Self {
        self + other
    }

    fn sub_val(self, other: Self) -> Self {
        self - other
    }

    fn mul_val(self, other: Self) -> Self {
        self * other
    }

    fn div_val(self, other: Self) -> Self {
        self / other
    }

    fn rem_val(self, other: Self) -> Self {
        self % other
    }
}

impl ScalarArith for u64 {
    open spec fn in_range(v: int) -> bool {
        0 <= v <= u64::MAX
    }

    open spec fn from_num(v: int) -> Self {
        v as u64
    }

    proof fn num_in_range(a: Self) {
    }

    proof fn identities_in_range() {
    }

    proof fn from_to_num(v: int) {
    }

    fn add_val(self, other: Self) -> Self {
        self + other
    }

    fn sub_val(self, other: Self) -> Self {
        self - other
    }

    fn mul_val(self, other: Self) -> Self {
        self * other
    }

    fn div_val(self, other: Self) -> Self {
        self / other
    }

    fn rem_val(self, other: Self) -> Self {
        self % other
    }
}

impl ScalarArith for u128 {
    open spec fn in_range(v: int) -> bool {
        0 <= v <= u128::MAX
    }

    open spec fn from_num(v: int) -> Self {
        v as u128
    }

    proof fn num_in_range(a: Self) {
    }

    proof fn identities_in_range() {
    }

    proof fn from_to_num(v: int) {
    }

    fn add_val(self, other: Self) -> Self {
        self + other
    }

    fn sub_val(self, other: Self) -> Self {
        self - other
    }

    fn mul_val(self, other: Self) -> Self {
        self * other
    }

    fn div_val(self, other: Self) -> Self {
        self / other
    }

    fn rem_val(self, other: Self) -> Self {
        self % other
    }
}

impl ScalarArith for usize {
    open spec fn in_range(v: int) -> bool {
        0 <= v <= usize::MAX
    }

    open spec fn from_num(v: int) -> Self {
        v as usize
    }

    proof fn num_in_range(a: Self) {
    }

    proof fn identities_in_range() {
    }

    proof fn from_to_num(v: int) {
    }

    fn add_val(self, other: Self) -> Self {
        self + other
    }

    fn sub_val(self, other: Self) -> Self {
        self - other
    }

    fn mul_val(self, other: Self) -> Self {
        self * other
    }

    fn div_val(self, other: Self) -> Self {
        self / other
    }

    fn rem_val(self, other: Self) -> Self {
        self % other
    }
}

impl ScalarBits for i8 {
    open spec fn and_spec(self, other: Self) -> Self {
        self & other
    }

    open spec fn or_spec(self, other: Self) -> Self {
        self | other
    }

    open spec fn xor_spec(self, other: Self) -> Self {
        self ^ other
    }

    open spec fn not_spec(self) -> Self {
        !self
    }

    fn and_val(self, other: Self) -> Self {
        self & other
    }

    fn or_val(self, other: Self) -> Self {
        self | other
    }

    fn xor_val(self, other: Self) -> Self {
        self ^ other
    }

    fn not_val(self) -> Self {
        !self
    }
}

impl ScalarBits for i16 {
    open spec fn and_spec(self, other: Self) -> Self {
        self & other
    }

    open spec fn or_spec(self, other: Self) -> Self {
        self | other
    }

    open spec fn xor_spec(self, other: Self) -> Self {
        self ^ other
    }

    open spec fn not_spec(self) -> Self {
        !self
    }

    fn and_val(self, other: Self) -> Self {
        self & other
    }

    fn or_val(self, other: Self) -> Self {
        self | other
    }

    fn xor_val(self, other: Self) -> Self {
        self ^ other
    }

    fn not_val(self) -> Self {
        !self
    }
}

impl ScalarBits for i32 {
    open spec fn and_spec(self, other: Self) -> Self {
        self & other
    }

    open spec fn or_spec(self, other: Self) -> Self {
        self | other
    }

    open spec fn xor_spec(self, other: Self) -> Self {
        self ^ other
    }

    open spec fn not_spec(self) -> Self {
        !self
    }

    fn and_val(self, other: Self) -> Self {
        self & other
    }

    fn or_val(self, other: Self) -> Self {
        self | other
    }

    fn xor_val(self, other: Self) -> Self {
        self ^ other
    }

    fn not_val(self) -> Self {
        !self
    }
}

impl ScalarBits for i64 {
    open spec fn and_spec(self, other: Self) -> Self {
        self & other
    }

    open spec fn or_spec(self, other: Self) -> Self {
        self | other
    }

    open spec fn xor_spec(self, other: Self) -> Self {
        self ^ other
    }

    open spec fn not_spec(self) -> Self {
        !self
    }

    fn and_val(self, other: Self) -> Self {
        self & other
    }

    fn or_val(self, other: Self) -> Self {
        self | other
    }

    fn xor_val(self, other: Self) -> Self {
        self ^ other
    }

    fn not_val(self) -> Self {
        !self
    }
}

impl ScalarBits for i128 {
    open spec fn and_spec(self, other: Self) -> Self {
        self & other
    }

    open spec fn or_spec(self, other: Self) -> Self {
        self | other
    }

    open spec fn xor_spec(self, other: Self) -> Self {
        self ^ other
    }

    open spec fn not_spec(self) -> Self {
        !self
    }

    fn and_val(self, other: Self) -> Self {
        self & other
    }

    fn or_val(self, other: Self) -> Self {
        self | other
    }

    fn xor_val(self, other: Self) -> Self {
        self ^ other
    }

    fn not_val(self) -> Self {
        !self
    }
}

impl ScalarBits for isize {
    open spec fn and_spec(self, other: Self) -> Self {
        self & other
    }

    open spec fn or_spec(self, other: Self) -> Self {
        self | other
    }

    open spec fn xor_spec(self, other: Self) -> Self {
        self ^ other
    }

    open spec fn not_spec(self) -> Self {
        !self
    }

    fn and_val(self, other: Self) -> Self {
        self & other
    }

    fn or_val(self, other: Self) -> Self {
        self | other
    }

    fn xor_val(self, other: Self) -> Self {
        self ^ other
    }

    fn not_val(self) -> Self {
        !self
    }
}

impl ScalarBits for u8 {
    open spec fn and_spec(self, other: Self) -> Self {
        self & other
    }

    open spec fn or_spec(self, other: Self) -> Self {
        self | other
    }

    open spec fn xor_spec(self, other: Self) -> Self {
        self ^ other
    }

    open spec fn not_spec(self) -> Self {
        !self
    }

    fn and_val(self, other: Self) -> Self {
        self & other
    }

    fn or_val(self, other: Self) -> Self {
        self | other
    }

    fn xor_val(self, other: Self) -> Self {
        self ^ other
    }

    fn not_val(self) -> Self {
        !self
    }
}

impl ScalarBits for u16 {
    open spec fn and_spec(self, other: Self) -> Self {
        self & other
    }

    open spec fn or_spec(self, other: Self) -> Self {
        self | other
    }

    open spec fn xor_spec(self, other: Self) -> Self {
        self ^ other
    }

    open spec fn not_spec(self) -> Self {
        !self
    }

    fn and_val(self, other: Self) -> Self {
        self & other
    }

    fn or_val(self, other: Self) -> Self {
        self | other
    }

    fn xor_val(self, other: Self) -> Self {
        self ^ other
    }

    fn not_val(self) -> Self {
        !self
    }
}

impl ScalarBits for u32 {
    open spec fn and_spec(self, other: Self) -> Self {
        self & other
    }

    open spec fn or_spec(self, other: Self) -> Self {
        self | other
    }

    open spec fn xor_spec(self, other: Self) -> Self {
        self ^ other
    }

    open spec fn not_spec(self) -> Self {
        !self
    }

    fn and_val(self, other: Self) -> Self {
        self & other
    }

    fn or_val(self, other: Self) -> Self {
        self | other
    }

    fn xor_val(self, other: Self) -> Self {
        self ^ other
    }

    fn not_val(self) -> Self {
        !self
    }
}

impl ScalarBits for u64 {
    open spec fn and_spec(self, other: Self) -> Self {
        self & other
    }

    open spec fn or_spec(self, other: Self) -> Self {
        self | other
    }

    open spec fn xor_spec(self, other: Self) -> Self {
        self ^ other
    }

    open spec fn not_spec(self) -> Self {
        !self
    }

    fn and_val(self, other: Self) -> Self {
        self & other
    }

    fn or_val(self, other: Self) -> Self {
        self | other
    }

    fn xor_val(self, other: Self) -> Self {
        self ^ other
    }

    fn not_val(self) -> Self {
        !self
    }
}

impl ScalarBits for u128 {
    open spec fn and_spec(self, other: Self) -> Self {
        self & other
    }

    open spec fn or_spec(self, other: Self) -> Self {
        self | other
    }

    open spec fn xor_spec(self, other: Self) -> Self {
        self ^ other
    }

    open spec fn not_spec(self) -> Self {
        !self
    }

    fn and_val(self, other: Self) -> Self {
        self & other
    }

    fn or_val(self, other: Self) -> Self {
        self | other
    }

    fn xor_val(self, other: Self) -> Self {
        self ^ other
    }

    fn not_val(self) -> Self {
        !self
    }
}

impl ScalarBits for usize {
    open spec fn and_spec(self, other: Self) -> Self {
        self & other
    }

    open spec fn or_spec(self, other: Self) -> Self {
        self | other
    }

    open spec fn xor_spec(self, other: Self) -> Self {
        self ^ other
    }

    open spec fn not_spec(self) -> Self {
        !self
    }

    fn and_val(self, other: Self) -> Self {
        self & other
    }

    fn or_val(self, other: Self) -> Self {
        self | other
    }

    fn xor_val(self, other: Self) -> Self {
        self ^ other
    }

    fn not_val(self) -> Self {
        !self
    }
}

} // verus!

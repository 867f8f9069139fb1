//! The lang-item traits of a minimal core library, with their impls for the
//! primitive types, each carrying the exact meaning of the operation.
use vstd::prelude::*;

verus! {

/// Types whose size is known at compile time.
pub trait Sized {}

/// Types that can be destructed in constant contexts.
pub trait Destruct {}

/// Tuple types, used as argument lists of the function traits.
pub trait Tuple {}

/// Types that can be unsized to `T`.
pub trait Unsize<T: ?core::marker::Sized> {}

/// Pointer-like types that can be coerced to a pointer to an unsized target.
pub trait CoerceUnsized<T> {}

impl<'a, 'b: 'a, T: ?core::marker::Sized + Unsize<U>, U: ?core::marker::Sized> CoerceUnsized<&'a U> for &'b T {}

impl<'a, T: ?core::marker::Sized + Unsize<U>, U: ?core::marker::Sized> CoerceUnsized<&'a mut U> for &'a mut T {}

/// Pointer-like types that can be used as the receiver of a dynamically dispatched call.
pub trait DispatchFromDyn<T> {}

impl<'a, T: ?core::marker::Sized + Unsize<U>, U: ?core::marker::Sized> DispatchFromDyn<&'a U> for &'a T {}

impl<'a, T: ?core::marker::Sized + Unsize<U>, U: ?core::marker::Sized> DispatchFromDyn<&'a mut U> for &'a mut T {}

/// Types that can be used as a method receiver.
pub trait Receiver {}

impl<T: ?core::marker::Sized> Receiver for &T {}

impl<T: ?core::marker::Sized> Receiver for &mut T {}

/// Types whose values can be duplicated by copying bits.
pub trait Copy {}

impl Copy for bool {}
impl Copy for u8 {}
impl Copy for u16 {}
impl Copy for u32 {}
impl Copy for u64 {}
impl Copy for u128 {}
impl Copy for usize {}
impl Copy for i8 {}
impl Copy for i16 {}
impl Copy for i32 {}
impl Copy for isize {}
impl Copy for char {}
impl<'a, T: ?core::marker::Sized> Copy for &'a T {}
impl<T: Copy> Copy for Option<T> {}

/// Types that can be shared between threads.
pub trait Sync {}

impl Sync for bool {}
impl Sync for u8 {}
impl Sync for u16 {}
impl Sync for u32 {}
impl Sync for u64 {}
impl Sync for usize {}
impl Sync for i8 {}
impl Sync for i16 {}
impl Sync for i32 {}
impl Sync for isize {}
impl Sync for char {}
impl<'a, T: ?core::marker::Sized> Sync for &'a T {}
impl Sync for [u8; 16] {}

/// Types without interior mutability.
trait Freeze {}

impl<T: ?core::marker::Sized> Freeze for PhantomData<T> {}
impl<T: ?core::marker::Sized> Freeze for &T {}
impl<T: ?core::marker::Sized> Freeze for &mut T {}

/// Types whose `==` is structural.
pub trait StructuralPartialEq {}

/// Types whose `Eq` is structural.
pub trait StructuralEq {}

/// The `!` operator.
pub trait Not {
    type Output;

    /// What `!self` is.
    spec fn not_result(self) -> Self::Output;

    fn not(self) -> (r: Self::Output)
        ensures
            r == self.not_result(),
    ;
}

impl Not for bool {
    type Output = bool;

    open spec fn not_result(self) -> bool {
        !self
    }

    fn not(self) -> (r: bool) {
        !self
    }
}

/// The `*` operator.
pub trait Mul<RHS = Self> {
    type Output;

    /// Whether `self * rhs` is defined, that is, does not overflow.
    spec fn mul_ok(self, rhs: RHS) -> bool;

    /// What `self * rhs` is.
    spec fn mul_result(self, rhs: RHS) -> Self::Output;

    fn mul(self, rhs: RHS) -> (r: Self::Output)
        requires
            self.mul_ok(rhs),
        ensures
            r == self.mul_result(rhs),
    ;
}

/// The `+` operator.
pub trait Add<RHS = Self> {
    type Output;

    /// Whether `self + rhs` is defined, that is, does not overflow.
    spec fn add_ok(self, rhs: RHS) -> bool;

    /// What `self + rhs` is.
    spec fn add_result(self, rhs: RHS) -> Self::Output;

    fn add(self, rhs: RHS) -> (r: Self::Output)
        requires
            self.add_ok(rhs),
        ensures
            r == self.add_result(rhs),
    ;
}

/// The `-` operator.
pub trait Sub<RHS = Self> {
    type Output;

    /// Whether `self - rhs` is defined, that is, does not overflow.
    spec fn sub_ok(self, rhs: RHS) -> bool;

    /// What `self - rhs` is.
    spec fn sub_result(self, rhs: RHS) -> Self::Output;

    fn sub(self, rhs: RHS) -> (r: Self::Output)
        requires
            self.sub_ok(rhs),
        ensures
            r == self.sub_result(rhs),
    ;
}

/// The `%` operator.
pub trait Rem<RHS = Self> {
    type Output;

    /// Whether `self % rhs` is defined, that is, the divisor is not zero.
    spec fn rem_ok(self, rhs: RHS) -> bool;

    /// What `self % rhs` is.
    spec fn rem_result(self, rhs: RHS) -> Self::Output;

    fn rem(self, rhs: RHS) -> (r: Self::Output)
        requires
            self.rem_ok(rhs),
        ensures
            r == self.rem_result(rhs),
    ;
}

impl Mul for u8 {
    type Output = u8;

    open spec fn mul_ok(self, rhs: u8) -> bool {
        self * rhs <= u8::MAX
    }

    open spec fn mul_result(self, rhs: u8) -> u8 {
        (self * rhs) as u8
    }

    fn mul(self, rhs: u8) -> (r: u8) {
        self * rhs
    }
}

impl Mul for usize {
    type Output = usize;

    open spec fn mul_ok(self, rhs: usize) -> bool {
        self * rhs <= usize::MAX
    }

    open spec fn mul_result(self, rhs: usize) -> usize {
        (self * rhs) as usize
    }

    fn mul(self, rhs: usize) -> (r: usize) {
        self * rhs
    }
}

impl Add for u8 {
    type Output = u8;

    open spec fn add_ok(self, rhs: u8) -> bool {
        self + rhs <= u8::MAX
    }

    open spec fn add_result(self, rhs: u8) -> u8 {
        (self + rhs) as u8
    }

    fn add(self, rhs: u8) -> (r: u8) {
        self + rhs
    }
}

impl Add for i8 {
    type Output = i8;

    open spec fn add_ok(self, rhs: i8) -> bool {
        i8::MIN <= self + rhs && self + rhs <= i8::MAX
    }

    open spec fn add_result(self, rhs: i8) -> i8 {
        (self + rhs) as i8
    }

    fn add(self, rhs: i8) -> (r: i8) {
        self + rhs
    }
}

impl Add for usize {
    type Output = usize;

    open spec fn add_ok(self, rhs: usize) -> bool {
        self + rhs <= usize::MAX
    }

    open spec fn add_result(self, rhs: usize) -> usize {
        (self + rhs) as usize
    }

    fn add(self, rhs: usize) -> (r: usize) {
        self + rhs
    }
}

impl Sub for usize {
    type Output = usize;

    open spec fn sub_ok(self, rhs: usize) -> bool {
        usize::MIN <= self - rhs
    }

    open spec fn sub_result(self, rhs: usize) -> usize {
        (self - rhs) as usize
    }

    fn sub(self, rhs: usize) -> (r: usize) {
        self - rhs
    }
}

impl Sub for u8 {
    type Output = u8;

    open spec fn sub_ok(self, rhs: u8) -> bool {
        u8::MIN <= self - rhs
    }

    open spec fn sub_result(self, rhs: u8) -> u8 {
        (self - rhs) as u8
    }

    fn sub(self, rhs: u8) -> (r: u8) {
        self - rhs
    }
}

impl Sub for i8 {
    type Output = i8;

    open spec fn sub_ok(self, rhs: i8) -> bool {
        i8::MIN <= self - rhs && self - rhs <= i8::MAX
    }

    open spec fn sub_result(self, rhs: i8) -> i8 {
        (self - rhs) as i8
    }

    fn sub(self, rhs: i8) -> (r: i8) {
        self - rhs
    }
}

impl Sub for i16 {
    type Output = i16;

    open spec fn sub_ok(self, rhs: i16) -> bool {
        i16::MIN <= self - rhs && self - rhs <= i16::MAX
    }

    open spec fn sub_result(self, rhs: i16) -> i16 {
        (self - rhs) as i16
    }

    fn sub(self, rhs: i16) -> (r: i16) {
        self - rhs
    }
}

impl Rem for usize {
    type Output = usize;

    open spec fn rem_ok(self, rhs: usize) -> bool {
        rhs != 0
    }

    open spec fn rem_result(self, rhs: usize) -> usize {
        self % rhs
    }

    fn rem(self, rhs: usize) -> (r: usize) {
        self % rhs
    }
}


/// The `|` operator.
pub trait BitOr<RHS = Self> {
    type Output;

    /// What `self | rhs` is.
    spec fn bitor_result(self, rhs: RHS) -> Self::Output;

    fn bitor(self, rhs: RHS) -> (r: Self::Output)
        ensures
            r == self.bitor_result(rhs),
    ;
}

impl BitOr for bool {
    type Output = bool;

    open spec fn bitor_result(self, rhs: bool) -> bool {
        self || rhs
    }

    fn bitor(self, rhs: bool) -> (r: bool) {
        self || rhs
    }
}

impl<'a> BitOr<bool> for &'a bool {
    type Output = bool;

    open spec fn bitor_result(self, rhs: bool) -> bool {
        *self || rhs
    }

    fn bitor(self, rhs: bool) -> (r: bool) {
        *self || rhs
    }
}

/// The `==` and `!=` operators.
pub trait PartialEq<Rhs: ?core::marker::Sized = Self> {
    /// What `self == other` is.
    spec fn eq_result(&self, other: &Rhs) -> bool;

    /// What `self != other` is.
    spec fn ne_result(&self, other: &Rhs) -> bool;

    fn eq(&self, other: &Rhs) -> (r: bool)
        ensures
            r == self.eq_result(other),
    ;

    fn ne(&self, other: &Rhs) -> (r: bool)
        ensures
            r == self.ne_result(other),
    ;
}

impl PartialEq for u8 {
    open spec fn eq_result(&self, other: &u8) -> bool {
        *self == *other
    }

    open spec fn ne_result(&self, other: &u8) -> bool {
        *self != *other
    }

    fn eq(&self, other: &u8) -> (r: bool) {
        (*self) == (*other)
    }

    fn ne(&self, other: &u8) -> (r: bool) {
        (*self) != (*other)
    }
}

impl PartialEq for u16 {
    open spec fn eq_result(&self, other: &u16) -> bool {
        *self == *other
    }

    open spec fn ne_result(&self, other: &u16) -> bool {
        *self != *other
    }

    fn eq(&self, other: &u16) -> (r: bool) {
        (*self) == (*other)
    }

    fn ne(&self, other: &u16) -> (r: bool) {
        (*self) != (*other)
    }
}

impl PartialEq for u32 {
    open spec fn eq_result(&self, other: &u32) -> bool {
        *self == *other
    }

    open spec fn ne_result(&self, other: &u32) -> bool {
        *self != *other
    }

    fn eq(&self, other: &u32) -> (r: bool) {
        (*self) == (*other)
    }

    fn ne(&self, other: &u32) -> (r: bool) {
        (*self) != (*other)
    }
}

impl PartialEq for u64 {
    open spec fn eq_result(&self, other: &u64) -> bool {
        *self == *other
    }

    open spec fn ne_result(&self, other: &u64) -> bool {
        *self != *other
    }

    fn eq(&self, other: &u64) -> (r: bool) {
        (*self) == (*other)
    }

    fn ne(&self, other: &u64) -> (r: bool) {
        (*self) != (*other)
    }
}

impl PartialEq for u128 {
    open spec fn eq_result(&self, other: &u128) -> bool {
        *self == *other
    }

    open spec fn ne_result(&self, other: &u128) -> bool {
        *self != *other
    }

    fn eq(&self, other: &u128) -> (r: bool) {
        (*self) == (*other)
    }

    fn ne(&self, other: &u128) -> (r: bool) {
        (*self) != (*other)
    }
}

impl PartialEq for usize {
    open spec fn eq_result(&self, other: &usize) -> bool {
        *self == *other
    }

    open spec fn ne_result(&self, other: &usize) -> bool {
        *self != *other
    }

    fn eq(&self, other: &usize) -> (r: bool) {
        (*self) == (*other)
    }

    fn ne(&self, other: &usize) -> (r: bool) {
        (*self) != (*other)
    }
}

impl PartialEq for i8 {
    open spec fn eq_result(&self, other: &i8) -> bool {
        *self == *other
    }

    open spec fn ne_result(&self, other: &i8) -> bool {
        *self != *other
    }

    fn eq(&self, other: &i8) -> (r: bool) {
        (*self) == (*other)
    }

    fn ne(&self, other: &i8) -> (r: bool) {
        (*self) != (*other)
    }
}

impl PartialEq for i32 {
    open spec fn eq_result(&self, other: &i32) -> bool {
        *self == *other
    }

    open spec fn ne_result(&self, other: &i32) -> bool {
        *self != *other
    }

    fn eq(&self, other: &i32) -> (r: bool) {
        (*self) == (*other)
    }

    fn ne(&self, other: &i32) -> (r: bool) {
        (*self) != (*other)
    }
}

impl PartialEq for isize {
    open spec fn eq_result(&self, other: &isize) -> bool {
        *self == *other
    }

    open spec fn ne_result(&self, other: &isize) -> bool {
        *self != *other
    }

    fn eq(&self, other: &isize) -> (r: bool) {
        (*self) == (*other)
    }

    fn ne(&self, other: &isize) -> (r: bool) {
        (*self) != (*other)
    }
}

impl PartialEq for char {
    open spec fn eq_result(&self, other: &char) -> bool {
        *self == *other
    }

    open spec fn ne_result(&self, other: &char) -> bool {
        *self != *other
    }

    fn eq(&self, other: &char) -> (r: bool) {
        (*self) == (*other)
    }

    fn ne(&self, other: &char) -> (r: bool) {
        (*self) != (*other)
    }
}


impl<T: PartialEq> PartialEq for Option<T> {
    open spec fn eq_result(&self, other: &Self) -> bool {
        match (self, other) {
            (Option::Present(lhs), Option::Present(rhs)) => lhs.eq_result(rhs),
            (Option::Absent, Option::Absent) => true,
            _ => false,
        }
    }

    open spec fn ne_result(&self, other: &Self) -> bool {
        match (self, other) {
            (Option::Present(lhs), Option::Present(rhs)) => lhs.ne_result(rhs),
            (Option::Absent, Option::Absent) => false,
            _ => true,
        }
    }

    fn eq(&self, other: &Self) -> (r: bool) {
        match (self, other) {
            (Option::Present(lhs), Option::Present(rhs)) => lhs.eq(rhs),
            (Option::Absent, Option::Absent) => true,
            _ => false,
        }
    }

    fn ne(&self, other: &Self) -> (r: bool) {
        match (self, other) {
            (Option::Present(lhs), Option::Present(rhs)) => lhs.ne(rhs),
            (Option::Absent, Option::Absent) => false,
            _ => true,
        }
    }
}

/// The `<<` operator.
pub trait Shl<RHS = Self> {
    type Output;

    /// Whether `self << rhs` is defined, that is, the shift is narrower than the type.
    spec fn shl_ok(self, rhs: RHS) -> bool;

    /// What `self << rhs` is.
    spec fn shl_result(self, rhs: RHS) -> Self::Output;

    fn shl(self, rhs: RHS) -> (r: Self::Output)
        requires
            self.shl_ok(rhs),
        ensures
            r == self.shl_result(rhs),
    ;
}

impl Shl for u128 {
    type Output = u128;

    open spec fn shl_ok(self, rhs: u128) -> bool {
        rhs < 128
    }

    open spec fn shl_result(self, rhs: u128) -> u128 {
        self << rhs
    }

    fn shl(self, rhs: u128) -> (r: u128) {
        self << rhs
    }
}

/// The unary `-` operator.
pub trait Neg {
    type Output;

    /// Whether `-self` is defined, that is, does not overflow.
    spec fn neg_ok(self) -> bool;

    /// What `-self` is.
    spec fn neg_result(self) -> Self::Output;

    fn neg(self) -> (r: Self::Output)
        requires
            self.neg_ok(),
        ensures
            r == self.neg_result(),
    ;
}

impl Neg for i8 {
    type Output = i8;

    open spec fn neg_ok(self) -> bool {
        self != i8::MIN
    }

    open spec fn neg_result(self) -> i8 {
        (-self) as i8
    }

    fn neg(self) -> (r: i8) {
        -self
    }
}

/// Negation of an `i16` in this core gives its operand back unchanged.
impl Neg for i16 {
    type Output = i16;

    open spec fn neg_ok(self) -> bool {
        true
    }

    open spec fn neg_result(self) -> i16 {
        self
    }

    fn neg(self) -> (r: i16) {
        self
    }
}

impl Neg for isize {
    type Output = isize;

    open spec fn neg_ok(self) -> bool {
        self != isize::MIN
    }

    open spec fn neg_result(self) -> isize {
        (-self) as isize
    }

    fn neg(self) -> (r: isize) {
        -self
    }
}

/// An optional value.
pub enum Option<T> {
    Present(T),
    Absent,
}

/// A zero-sized marker that acts as if it owned a `T`.
pub struct PhantomData<T: ?core::marker::Sized> {
    marker: core::marker::PhantomData<T>,
}

/// Functions that can be called once, taking their arguments as a tuple.
pub trait FnOnce<Args: Tuple> {
    type Output;

    fn call_once(self, args: Args) -> Self::Output;
}

/// Functions that can be called repeatedly through a mutable reference.
pub trait FnMut<Args: Tuple>: FnOnce<Args> {
    fn call_mut(&mut self, args: Args) -> Self::Output;
}

/// Immutable dereferencing.
pub trait Deref {
    type Target: ?core::marker::Sized;

    fn deref(&self) -> &Self::Target;
}

/// Custom code run when a value goes out of scope.
pub trait Drop {
    fn drop(&mut self);
}

/// A wrapper that inhibits the destructor of its contents.
pub struct ManuallyDrop<T: ?core::marker::Sized> {
    pub value: T,
}

/// Indexing, `container[index]`.
pub trait Index<Idx> {
    type Output;

    /// Whether `index` lies within `self`.
    spec fn index_ok(&self, index: Idx) -> bool;

    /// The element at `index`.
    spec fn index_result(&self, index: Idx) -> Self::Output;

    fn index(&self, index: Idx) -> (r: &Self::Output)
        requires
            self.index_ok(index),
        ensures
            *r == self.index_result(index),
    ;
}

impl<T> Index<usize> for [T; 3] {
    type Output = T;

    open spec fn index_ok(&self, index: usize) -> bool {
        index < 3
    }

    open spec fn index_result(&self, index: usize) -> T {
        self@[index as int]
    }

    fn index(&self, index: usize) -> (r: &T) {
        &self[index]
    }
}

impl<T> Index<usize> for [T] {
    type Output = T;

    open spec fn index_ok(&self, index: usize) -> bool {
        index < self@.len()
    }

    open spec fn index_result(&self, index: usize) -> T {
        self@[index as int]
    }

    fn index(&self, index: usize) -> (r: &T) {
        &self[index]
    }
}

/// The value of the thread-local byte that this core exports.
pub fn get_tls() -> (r: u8)
    ensures
        r == 42,
{
    42
}

} // verus!

//! Truthiness of script values: whether a value counts as true where a
//! condition is expected, as the script-mode `Truthy` trait defines it.
//! Floating-point values are truthy when non-zero; their impls stand outside
//! the library, which holds no floats.
use vstd::prelude::*;

verus! {

/// Whether a value counts as true in a condition.
pub trait Truthy {
    /// Whether the value counts as true.
    fn is_truthy(&self) -> bool;
}

impl Truthy for bool {
    /// A `bool` is itself.
    fn is_truthy(&self) -> (r: bool)
        ensures
            r == *self,
    {
        *self
    }
}

impl Truthy for i8 {
    /// A number is truthy when it is not zero.
    fn is_truthy(&self) -> (r: bool)
        ensures
            r == (*self != 0),
    {
        *self != 0
    }
}

impl Truthy for i16 {
    /// A number is truthy when it is not zero.
    fn is_truthy(&self) -> (r: bool)
        ensures
            r == (*self != 0),
    {
        *self != 0
    }
}

impl Truthy for i32 {
    /// A number is truthy when it is not zero.
    fn is_truthy(&self) -> (r: bool)
        ensures
            r == (*self != 0),
    {
        *self != 0
    }
}

impl Truthy for i64 {
    /// A number is truthy when it is not zero.
    fn is_truthy(&self) -> (r: bool)
        ensures
            r == (*self != 0),
    {
        *self != 0
    }
}

impl Truthy for i128 {
    /// A number is truthy when it is not zero.
    fn is_truthy(&self) -> (r: bool)
        ensures
            r == (*self != 0),
    {
        *self != 0
    }
}

impl Truthy for isize {
    /// A number is truthy when it is not zero.
    fn is_truthy(&self) -> (r: bool)
        ensures
            r == (*self != 0),
    {
        *self != 0
    }
}

impl Truthy for u8 {
    /// A number is truthy when it is not zero.
    fn is_truthy(&self) -> (r: bool)
        ensures
            r == (*self != 0),
    {
        *self != 0
    }
}

impl Truthy for u16 {
    /// A number is truthy when it is not zero.
    fn is_truthy(&self) -> (r: bool)
        ensures
            r == (*self != 0),
    {
        *self != 0
    }
}

impl Truthy for u32 {
    /// A number is truthy when it is not zero.
    fn is_truthy(&self) -> (r: bool)
        ensures
            r == (*self != 0),
    {
        *self != 0
    }
}

impl Truthy for u64 {
    /// A number is truthy when it is not zero.
    fn is_truthy(&self) -> (r: bool)
        ensures
            r == (*self != 0),
    {
        *self != 0
    }
}

impl Truthy for u128 {
    /// A number is truthy when it is not zero.
    fn is_truthy(&self) -> (r: bool)
        ensures
            r == (*self != 0),
    {
        *self != 0
    }
}

impl Truthy for usize {
    /// A number is truthy when it is not zero.
    fn is_truthy(&self) -> (r: bool)
        ensures
            r == (*self != 0),
    {
        *self != 0
    }
}

impl<'a> Truthy for &'a str {
    /// Text is truthy when it is not empty.
    fn is_truthy(&self) -> (r: bool)
        ensures
            r == ((*self)@.len() > 0),
    {
        !self.is_empty()
    }
}

impl Truthy for String {
    /// Text is truthy when it is not empty.
    fn is_truthy(&self) -> (r: bool)
        ensures
            r == (self@.len() > 0),
    {
        !self.as_str().is_empty()
    }
}

impl<T> Truthy for Vec<T> {
    /// A list is truthy when it is not empty.
    fn is_truthy(&self) -> (r: bool)
        ensures
            r == (self@.len() > 0),
    {
        self.len() > 0
    }
}

impl<T> Truthy for Option<T> {
    /// An option is truthy when it holds a value.
    fn is_truthy(&self) -> (r: bool)
        ensures
            r == (*self is Some),
    {
        self.is_some()
    }
}

} // verus!

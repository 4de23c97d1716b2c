//! The rule library: each validator is a pure acceptance predicate over a
//! value of a given type, independent of any record shape.

use crate::text::{blank, email_is_match, email_matches, has_content};
use vstd::prelude::*;
use vstd::string::StrSliceExecFns;

verus! {

/// Trait for an object that can validate an item of type `T`.
pub trait Validator<T> {
    /// The error returned if validation fails.
    type Error;

    /// When `self` accepts `value`.
    spec fn valid(&self, value: &T) -> bool;

    /// Validates `value`: returns `Ok(())` iff `self` accepts it, an error
    /// of type [`Self::Error`] otherwise.
    fn validate(&self, value: &T) -> (r: Result<(), Self::Error>)
        ensures
            r is Ok <==> self.valid(value),
    ;
}

/// Ensures that the field is a valid email.
#[derive(Debug, Copy, Clone)]
pub struct Email;

impl Validator<String> for Email {
    type Error = ();

    open spec fn valid(&self, value: &String) -> bool {
        email_matches(value@)
    }

    fn validate(&self, value: &String) -> (r: Result<(), Self::Error>) {
        if email_is_match(value.as_str()) {
            Ok(())
        } else {
            Err(())
        }
    }
}

impl<'a> Validator<&'a str> for Email {
    type Error = ();

    open spec fn valid(&self, value: &&'a str) -> bool {
        email_matches(value@)
    }

    fn validate(&self, value: &&'a str) -> (r: Result<(), Self::Error>) {
        if email_is_match(*value) {
            Ok(())
        } else {
            Err(())
        }
    }
}

/// Ensures that a value is "not empty": a text must hold at least one
/// non-whitespace character, an optional value must be present.
#[derive(Debug, Copy, Clone)]
pub struct Required;

impl Validator<String> for Required {
    type Error = ();

    open spec fn valid(&self, value: &String) -> bool {
        !blank(value@)
    }

    fn validate(&self, value: &String) -> (r: Result<(), Self::Error>) {
        if has_content(value.as_str()) {
            Ok(())
        } else {
            Err(())
        }
    }
}

impl<'a> Validator<&'a str> for Required {
    type Error = ();

    open spec fn valid(&self, value: &&'a str) -> bool {
        !blank(value@)
    }

    fn validate(&self, value: &&'a str) -> (r: Result<(), Self::Error>) {
        if has_content(*value) {
            Ok(())
        } else {
            Err(())
        }
    }
}

impl<T> Validator<Option<T>> for Required {
    type Error = ();

    open spec fn valid(&self, value: &Option<T>) -> bool {
        value is Some
    }

    fn validate(&self, value: &Option<T>) -> (r: Result<(), Self::Error>) {
        if value.is_some() {
            Ok(())
        } else {
            Err(())
        }
    }
}

/// Ensures that a value is bounded from below by some other value: an
/// integer by the bound itself, a text by the bound read as a minimum
/// length in characters.
#[derive(Debug, Copy, Clone)]
pub struct Min<T>(T);

impl<T> Min<T> where T: Ord {
    /// The bound this validator was constructed with.
    pub closed spec fn bound(&self) -> T {
        self.0
    }

    /// Constructs a new [`Min`] validator.
    pub fn new(min: T) -> (r: Self)
        ensures
            r.bound() == min,
    {
        Min(min)
    }
}

impl Validator<u8> for Min<u8> {
    type Error = ();

    open spec fn valid(&self, value: &u8) -> bool {
        *value >= self.bound()
    }

    fn validate(&self, value: &u8) -> (r: Result<(), Self::Error>) {
        if *value >= self.0 {
            Ok(())
        } else {
            Err(())
        }
    }
}

impl Validator<i8> for Min<i8> {
    type Error = ();

    open spec fn valid(&self, value: &i8) -> bool {
        *value >= self.bound()
    }

    fn validate(&self, value: &i8) -> (r: Result<(), Self::Error>) {
        if *value >= self.0 {
            Ok(())
        } else {
            Err(())
        }
    }
}

impl Validator<u16> for Min<u16> {
    type Error = ();

    open spec fn valid(&self, value: &u16) -> bool {
        *value >= self.bound()
    }

    fn validate(&self, value: &u16) -> (r: Result<(), Self::Error>) {
        if *value >= self.0 {
            Ok(())
        } else {
            Err(())
        }
    }
}

impl Validator<i16> for Min<i16> {
    type Error = ();

    open spec fn valid(&self, value: &i16) -> bool {
        *value >= self.bound()
    }

    fn validate(&self, value: &i16) -> (r: Result<(), Self::Error>) {
        if *value >= self.0 {
            Ok(())
        } else {
            Err(())
        }
    }
}

impl Validator<u32> for Min<u32> {
    type Error = ();

    open spec fn valid(&self, value: &u32) -> bool {
        *value >= self.bound()
    }

    fn validate(&self, value: &u32) -> (r: Result<(), Self::Error>) {
        if *value >= self.0 {
            Ok(())
        } else {
            Err(())
        }
    }
}

impl Validator<i32> for Min<i32> {
    type Error = ();

    open spec fn valid(&self, value: &i32) -> bool {
        *value >= self.bound()
    }

    fn validate(&self, value: &i32) -> (r: Result<(), Self::Error>) {
        if *value >= self.0 {
            Ok(())
        } else {
            Err(())
        }
    }
}

impl Validator<u64> for Min<u64> {
    type Error = ();

    open spec fn valid(&self, value: &u64) -> bool {
        *value >= self.bound()
    }

    fn validate(&self, value: &u64) -> (r: Result<(), Self::Error>) {
        if *value >= self.0 {
            Ok(())
        } else {
            Err(())
        }
    }
}

impl Validator<i64> for Min<i64> {
    type Error = ();

    open spec fn valid(&self, value: &i64) -> bool {
        *value >= self.bound()
    }

    fn validate(&self, value: &i64) -> (r: Result<(), Self::Error>) {
        if *value >= self.0 {
            Ok(())
        } else {
            Err(())
        }
    }
}

impl Validator<usize> for Min<usize> {
    type Error = ();

    open spec fn valid(&self, value: &usize) -> bool {
        *value >= self.bound()
    }

    fn validate(&self, value: &usize) -> (r: Result<(), Self::Error>) {
        if *value >= self.0 {
            Ok(())
        } else {
            Err(())
        }
    }
}

impl Validator<isize> for Min<isize> {
    type Error = ();

    open spec fn valid(&self, value: &isize) -> bool {
        *value >= self.bound()
    }

    fn validate(&self, value: &isize) -> (r: Result<(), Self::Error>) {
        if *value >= self.0 {
            Ok(())
        } else {
            Err(())
        }
    }
}

impl Validator<String> for Min<u8> {
    type Error = ();

    open spec fn valid(&self, value: &String) -> bool {
        value@.len() >= self.bound()
    }

    fn validate(&self, value: &String) -> (r: Result<(), Self::Error>) {
        let n = value.as_str().unicode_len();
        if n as u64 >= self.0 as u64 {
            Ok(())
        } else {
            Err(())
        }
    }
}

impl Validator<String> for Min<u16> {
    type Error = ();

    open spec fn valid(&self, value: &String) -> bool {
        value@.len() >= self.bound()
    }

    fn validate(&self, value: &String) -> (r: Result<(), Self::Error>) {
        let n = value.as_str().unicode_len();
        if n as u64 >= self.0 as u64 {
            Ok(())
        } else {
            Err(())
        }
    }
}

impl Validator<String> for Min<u32> {
    type Error = ();

    open spec fn valid(&self, value: &String) -> bool {
        value@.len() >= self.bound()
    }

    fn validate(&self, value: &String) -> (r: Result<(), Self::Error>) {
        let n = value.as_str().unicode_len();
        if n as u64 >= self.0 as u64 {
            Ok(())
        } else {
            Err(())
        }
    }
}

impl Validator<String> for Min<u64> {
    type Error = ();

    open spec fn valid(&self, value: &String) -> bool {
        value@.len() >= self.bound()
    }

    fn validate(&self, value: &String) -> (r: Result<(), Self::Error>) {
        let n = value.as_str().unicode_len();
        if n as u64 >= self.0 {
            Ok(())
        } else {
            Err(())
        }
    }
}

impl Validator<String> for Min<usize> {
    type Error = ();

    open spec fn valid(&self, value: &String) -> bool {
        value@.len() >= self.bound()
    }

    fn validate(&self, value: &String) -> (r: Result<(), Self::Error>) {
        let n = value.as_str().unicode_len();
        if n >= self.0 {
            Ok(())
        } else {
            Err(())
        }
    }
}

impl<'a> Validator<&'a str> for Min<u8> {
    type Error = ();

    open spec fn valid(&self, value: &&'a str) -> bool {
        value@.len() >= self.bound()
    }

    fn validate(&self, value: &&'a str) -> (r: Result<(), Self::Error>) {
        let n = value.unicode_len();
        if n as u64 >= self.0 as u64 {
            Ok(())
        } else {
            Err(())
        }
    }
}

impl<'a> Validator<&'a str> for Min<u16> {
    type Error = ();

    open spec fn valid(&self, value: &&'a str) -> bool {
        value@.len() >= self.bound()
    }

    fn validate(&self, value: &&'a str) -> (r: Result<(), Self::Error>) {
        let n = value.unicode_len();
        if n as u64 >= self.0 as u64 {
            Ok(())
        } else {
            Err(())
        }
    }
}

impl<'a> Validator<&'a str> for Min<u32> {
    type Error = ();

    open spec fn valid(&self, value: &&'a str) -> bool {
        value@.len() >= self.bound()
    }

    fn validate(&self, value: &&'a str) -> (r: Result<(), Self::Error>) {
        let n = value.unicode_len();
        if n as u64 >= self.0 as u64 {
            Ok(())
        } else {
            Err(())
        }
    }
}

impl<'a> Validator<&'a str> for Min<u64> {
    type Error = ();

    open spec fn valid(&self, value: &&'a str) -> bool {
        value@.len() >= self.bound()
    }

    fn validate(&self, value: &&'a str) -> (r: Result<(), Self::Error>) {
        let n = value.unicode_len();
        if n as u64 >= self.0 {
            Ok(())
        } else {
            Err(())
        }
    }
}

impl<'a> Validator<&'a str> for Min<usize> {
    type Error = ();

    open spec fn valid(&self, value: &&'a str) -> bool {
        value@.len() >= self.bound()
    }

    fn validate(&self, value: &&'a str) -> (r: Result<(), Self::Error>) {
        let n = value.unicode_len();
        if n >= self.0 {
            Ok(())
        } else {
            Err(())
        }
    }
}

} // verus!

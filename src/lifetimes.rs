//! Returning owned and borrowed strings, and the lifetimes that tie them to
//! their inputs.
use vstd::prelude::*;

verus! {

/// An owned string can be returned from a function that created it.
pub fn lifetime() -> (r: String)
    ensures
        r@ == "Khannnn"@,
{
    "Khannnn".to_string()
}

/// A string literal lives for the whole program.
pub fn static_lifetime() -> (r: &'static str)
    ensures
        r@ == "Khannnn"@,
{
    "Khannnn"
}

/// The string that is longer in bytes; `y` when both are as long.
pub fn longest<'a>(x: &'a str, y: &'a str) -> (r: &'a str)
    ensures
        r@ == (if x.len() > y.len() {
            x@
        } else {
            y@
        }),
{
    if x.len() > y.len() {
        x
    } else {
        y
    }
}

/// The result borrows from the one input.
pub fn _ret_y(y: &str) -> (r: &str)
    ensures
        r@ == y@,
{
    &y
}

/// With several inputs an owned result needs no lifetime.
pub fn rule1(f_name: &str, _l_name: &str) -> (r: String)
    ensures
        r@ == f_name@,
{
    f_name.to_string()
}

/// With one input the result's lifetime is that of the input.
pub fn rule2(f_name: &str) -> (r: &str)
    ensures
        r@ == f_name@,
{
    f_name
}

/// A struct that borrows its name.
pub struct _Person<'a> {
    pub name: &'a str,
}

impl<'a> _Person<'a> {
    /// With `&self` among the inputs the result's lifetime is that of `self`.
    pub fn _get_name(&self, _prefix: &str) -> (r: &str)
        ensures
            r@ == self.name@,
    {
        self.name
    }
}

} // verus!

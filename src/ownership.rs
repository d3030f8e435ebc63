//! Moving, copying and borrowing values.
use vstd::prelude::*;

verus! {

/// Creates a string and hands its ownership to the caller, who may consume it.
pub fn demo_ownership() -> (r: String)
    ensures
        r@ == "hello"@,
{
    let s = String::from_str("hello");
    s
}

/// Returns the string itself rather than a reference to a local.
pub fn no_dangle() -> (r: String)
    ensures
        r@ == "hello"@,
{
    let s = String::from_str("hello");
    s
}

pub fn demo_dangle() {
    let _s: String = no_dangle();
}

/// After `let s2 = s1;` a `String` is moved, so only `s2` may be used.
pub fn borrow_vs_moving_str() {
    let s1 = String::from_str("Khalili");
    let _s2 = s1;
}

/// Empties the string through a mutable borrow.
pub fn mut_borrow_string(value: &mut String)
    ensures
        final(value)@ == Seq::<char>::empty(),
{
    *value = String::new();
}

pub fn demo_mut_borrow() {
    let _s1: String = String::from_str("Immutable String");
    let mut s2: String = String::from_str("String That Is Mutable");
    mut_borrow_string(&mut s2);
}

/// Two mutable borrows of one value may not be alive at once; one after the
/// other is fine.
pub fn multi_mut_ref_error() {
    let mut x: i32 = 5;
    {
        let r1 = &mut x;
        *r1 += 1;
    }
    let r2 = &mut x;
    *r2 += 1;
}

pub fn demo_mut_reference() {
    multi_mut_ref_error();
}

/// Mutable borrows that end one before the next begins: "hello", then
/// " world", then "!".
pub fn demo_read_with_write() -> (r: String)
    ensures
        r@ == "hello world!"@,
{
    let mut s = String::from_str("hello");
    {
        let r1 = &mut s;
        r1.append(" world");
    }
    let r2 = &mut s;
    r2.append("!");
    proof {
        reveal_strlit("hello");
        reveal_strlit(" world");
        reveal_strlit("!");
        reveal_strlit("hello world!");
    }
    assert(s@ =~= "hello world!"@);
    s
}

} // verus!

//! Tuples, fixed-size arrays, vectors and hash maps.
use vstd::prelude::*;
use std::collections::HashMap;

verus! {

/// Several values returned at once.
pub fn tuple_return() -> (r: (String, String, i32))
    ensures
        r.0@ == "Hello"@,
        r.1@ == "World"@,
        r.2 == 25,
{
    ("Hello".to_string(), "World".to_string(), 25)
}

/// An array of two strings.
pub fn vector_fixed_size() -> (r: [String; 2])
    ensures
        r@.len() == 2,
        r@[0]@ == "Hello"@,
        r@[1]@ == "world"@,
{
    let values: [String; 2] = ["Hello".to_string(), "world".to_string()];
    let _length = values.len();
    values
}

/// Each element of `values` doubled.
pub fn doubled(values: &[i32]) -> (r: Vec<i32>)
    requires
        forall|i: int| 0 <= i < values@.len() ==> i32::MIN <= 2 * #[trigger] values@[i] <= i32::MAX,
    ensures
        r@.len() == values@.len(),
        forall|i: int| 0 <= i < values@.len() ==> r@[i] == 2 * values@[i],
{
    let mut r: Vec<i32> = Vec::new();
    let mut k: usize = 0;
    while k < values.len()
        invariant
            k <= values@.len(),
            r@.len() == k,
            forall|i: int| 0 <= i < values@.len() ==> i32::MIN <= 2 * #[trigger] values@[i] <= i32::MAX,
            forall|i: int| 0 <= i < k ==> r@[i] == 2 * values@[i],
        decreases values@.len() - k,
    {
        r.push(values[k] * 2);
        k = k + 1;
    }
    r
}

/// The array `[10, 20]` mapped to the doubles of its elements.
pub fn mapping_iteration_vector() -> (r: Vec<i32>)
    ensures
        r@ == seq![20i32, 40i32],
{
    let values: [i32; 2] = [10, 20];
    let r = doubled(&values);
    assert(r@ =~= seq![20i32, 40i32]);
    r
}

/// An empty map from strings to strings.
pub fn hashmap_string_string() -> (r: HashMap<String, String>)
    ensures
        r@ == Map::<String, String>::empty(),
{
    HashMap::new()
}

/// A person that can be a key of a hash map.
#[derive(Hash, PartialEq, Eq)]
pub struct Person {
    pub name: String,
    pub age: u8,
}

/// A struct can be a map's key once it can be hashed and compared.
pub fn structs_in_hashmaps() {
    let mut h_map: HashMap<Person, &str> = HashMap::new();
    h_map.insert(Person { name: "Khan".to_string(), age: 20 }, "test");
}

} // verus!

use rust_lessons::animals::{
    animals, create_animals, describe_animal, make_run, make_speak, AnimalType, CanRun, Cat, Dog,
    Talk,
};
use rust_lessons::collections::{
    doubled, hashmap_string_string, mapping_iteration_vector, structs_in_hashmaps, tuple_return,
    vector_fixed_size,
};
use rust_lessons::generics::GenericPoint2;
use rust_lessons::lifetimes::{_Person, _ret_y, lifetime, longest, rule1, rule2, static_lifetime};
use rust_lessons::ownership::{
    borrow_vs_moving_str, demo_dangle, demo_mut_borrow, demo_mut_reference, demo_ownership,
    demo_read_with_write, multi_mut_ref_error, mut_borrow_string, no_dangle,
};
use rust_lessons::person::{HasFullName, HasName, InitWithFullName, Person, PrintFullName};
use rust_lessons::pointers::{
    implicit_deref, ref_cell_testing, BorrowConflict, BorrowState, BoxedValue, ExclusiveCell,
    Person as AgedPerson, RegularStruct,
};

#[test]
fn owned_and_static_strings() {
    assert_eq!(lifetime(), "Khannnn");
    assert_eq!(static_lifetime(), "Khannnn");
    assert_eq!(no_dangle(), "hello");
    assert_eq!(demo_ownership(), "hello");
    demo_dangle();
    borrow_vs_moving_str();
}

#[test]
fn longest_picks_more_bytes() {
    assert_eq!(longest("Khannn", "Khalili"), "Khalili");
    assert_eq!(longest("long_string_1", "longer_string_2"), "longer_string_2");
    assert_eq!(longest("abcd", "xy"), "abcd");
    assert_eq!(longest("ab", "xy"), "xy");
    assert_eq!(longest("é", "ab"), "ab");
    assert_eq!(longest("é", "a"), "é");
}

#[test]
fn elision_rules_return_the_input() {
    assert_eq!(rule1("Khan", "Khalili"), "Khan".to_string());
    assert_eq!(rule2("Khan"), "Khan");
    assert_eq!(_ret_y("y"), "y");
    let p = _Person { name: "Khan" };
    assert_eq!(p._get_name("Mr"), "Khan");
}

#[test]
fn mutable_borrow_clears_string() {
    let mut s = "String That Is Mutable".to_string();
    mut_borrow_string(&mut s);
    assert_eq!(s, "");
    demo_mut_borrow();
    multi_mut_ref_error();
    demo_mut_reference();
}

#[test]
fn writes_one_after_another() {
    assert_eq!(demo_read_with_write(), "hello world!");
}

#[test]
fn animals_speak_and_run() {
    let cat = Cat { name: "c1".to_string() };
    let dog = Dog { name: "d1".to_string() };
    assert_eq!(cat.speak(), "Meow!");
    assert_eq!(dog.speak(), "Woof!");
    assert_eq!(make_speak(&cat), "Meow!");
    assert_eq!(make_speak(&dog), "Woof!");
    assert_eq!(cat.run(), "runnnn!");
    assert_eq!(make_run(&dog), "run!");
    assert_eq!(make_run(&cat), "runnnn!");
    create_animals();
    animals();
}

#[test]
fn animal_kinds_are_described() {
    assert_eq!(describe_animal(AnimalType::Dog), "Animal_1 is a Dog!");
    assert_eq!(describe_animal(AnimalType::Cat), "Animal_1 is a cat!");
    assert_eq!(describe_animal(AnimalType::Rabbit), "Animal_1 is a Rabbit!");
    assert_eq!(describe_animal(AnimalType::Snake), "This seems Complicated!");
}

#[test]
fn person_from_full_name() {
    let p = Person::new_instance("Khannn Khalili");
    assert_eq!(p._first_name, "Khannn");
    assert_eq!(p._last_name, "Khalili");
    assert_eq!(p._age, 0);
    assert_eq!(p.full_name(), "Khannn Khalili");
    assert_eq!(p.print_full_name(), "Khannn Khalili");
    assert_eq!(p.first_name(), "Khannn");
    assert_eq!(p.last_name(), "Khalili");
}

#[test]
fn full_name_takes_first_two_pieces() {
    let p = Person::new_instance("Ana Maria Lopez");
    assert_eq!(p._first_name, "Ana");
    assert_eq!(p._last_name, "Maria");
    let q = Person::new_instance("Ana  Lopez");
    assert_eq!(q._first_name, "Ana");
    assert_eq!(q._last_name, "");
    let r = Person::new_instance(" Lopez");
    assert_eq!(r._first_name, "");
    assert_eq!(r._last_name, "Lopez");
}

#[test]
fn full_name_of_constructed_person() {
    let p = Person { _first_name: "Khann".to_string(), _last_name: "Khalili".to_string(), _age: 30 };
    assert_eq!(p.full_name(), "Khann Khalili");
}

#[test]
fn points_shift_and_compare() {
    let mut p1 = GenericPoint2 { x: 10, y: 20 };
    p1.shift_point_addassign(3, 15);
    assert_eq!((p1.x, p1.y), (13, 35));
    p1.shift_point_add(-3, 5);
    assert_eq!((p1.x, p1.y), (10, 40));
    p1.add_assign(GenericPoint2 { x: 3, y: 5 });
    assert_eq!((p1.x, p1.y), (13, 45));
    let p5 = GenericPoint2 { x: 32, y: 9 };
    let p6 = GenericPoint2 { x: 15, y: 11 };
    assert!(p5 != p6);
    assert!(p5 == GenericPoint2 { x: 32, y: 9 });
}

#[test]
fn tuples_arrays_and_maps() {
    assert_eq!(tuple_return(), ("Hello".to_string(), "World".to_string(), 25));
    assert_eq!(vector_fixed_size(), ["Hello".to_string(), "world".to_string()]);
    assert_eq!(mapping_iteration_vector(), vec![20, 40]);
    assert_eq!(doubled(&[1, -2, 0]), vec![2, -4, 0]);
    assert!(doubled(&[]).is_empty());
    assert!(hashmap_string_string().is_empty());
    structs_in_hashmaps();
}

#[test]
fn wrappers_hold_their_value() {
    assert_eq!(RegularStruct::new(21u8).value, 21);
    let b = BoxedValue::new(21u8);
    assert_eq!(*b.get(), 21);
    assert_eq!(*b, 21);
    assert_eq!(implicit_deref(), 22);
}

#[test]
fn age_counts_up() {
    let mut p = AgedPerson { name: "Khan".to_string(), age: 20 };
    p.increment_age();
    assert_eq!(p.age, 21);
    assert_eq!(p.name, "Khan");
}

#[test]
fn second_borrow_conflicts_with_mutable_one() {
    assert_eq!(ref_cell_testing(), Err(BorrowConflict));
}

#[test]
fn cell_borrows_are_tracked() {
    let mut cell = ExclusiveCell::new(vec![10, 20, 30]);
    assert_eq!(cell.try_borrow(), Ok(()));
    assert_eq!(cell.try_borrow(), Ok(()));
    assert_eq!(cell.try_borrow_mut(), Err(BorrowConflict));
    assert_eq!(cell.get().len(), 3);
    cell.release_shared();
    cell.release_shared();
    assert_eq!(cell.try_borrow_mut(), Ok(()));
    assert_eq!(cell.try_borrow_mut(), Err(BorrowConflict));
    assert_eq!(cell.try_borrow(), Err(BorrowConflict));
    cell.set(vec![10, 20, 30, 100]);
    assert_eq!(cell.get(), &vec![10, 20, 30, 100]);
    cell.release_mut();
    assert_eq!(cell.try_borrow(), Ok(()));
    cell.release_shared();
    assert_eq!(cell.try_borrow_mut(), Ok(()));
    let _ = BorrowState::Unborrowed;
}

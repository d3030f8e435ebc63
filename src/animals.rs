//! Capabilities shared by several animal types, and functions that accept any
//! animal with a given capability.
use vstd::prelude::*;

verus! {

pub struct Cat {
    pub name: String,
}

pub struct Dog {
    pub name: String,
}

/// Animals that can speak.
pub trait Talk {
    /// The animal's sound.
    spec fn sound(&self) -> Seq<char>;

    fn speak(&self) -> (r: String)
        ensures
            r@ == self.sound(),
    ;
}

impl Talk for Cat {
    open spec fn sound(&self) -> Seq<char> {
        "Meow!"@
    }

    fn speak(&self) -> (r: String) {
        "Meow!".to_string()
    }
}

impl Talk for Dog {
    open spec fn sound(&self) -> Seq<char> {
        "Woof!"@
    }

    fn speak(&self) -> (r: String) {
        "Woof!".to_string()
    }
}

/// Any animal that can speak, whatever its type.
pub fn make_speak(animal: &dyn Talk) -> (r: String)
    ensures
        r@ == animal.sound(),
{
    animal.speak()
}

/// Animals that can run.
pub trait CanRun {
    /// How the animal runs.
    spec fn stride(&self) -> Seq<char>;

    fn run(&self) -> (r: String)
        ensures
            r@ == self.stride(),
    ;
}

impl CanRun for Cat {
    open spec fn stride(&self) -> Seq<char> {
        "runnnn!"@
    }

    fn run(&self) -> (r: String) {
        "runnnn!".to_string()
    }
}

impl CanRun for Dog {
    open spec fn stride(&self) -> Seq<char> {
        "run!"@
    }

    fn run(&self) -> (r: String) {
        "run!".to_string()
    }
}

/// Any animal that can run, whatever its type.
pub fn make_run(animal: &dyn CanRun) -> (r: String)
    ensures
        r@ == animal.stride(),
{
    animal.run()
}

/// Each animal speaks through its own type.
pub fn create_animals() {
    let dog1 = Dog { name: "d1".to_string() };
    let cat1 = Cat { name: "c1".to_string() };
    let d = dog1.speak();
    let c = cat1.speak();
    assert(d@ == "Woof!"@ && c@ == "Meow!"@);
}

/// Each animal speaks through the one function that accepts any speaker.
pub fn animals() {
    let dog1 = Dog { name: "d1".to_string() };
    let cat1 = Cat { name: "c1".to_string() };
    let d = make_speak(&dog1);
    let c = make_speak(&cat1);
    assert(d@ == "Woof!"@ && c@ == "Meow!"@);
}

/// Kinds of animal.
#[derive(PartialEq, Eq, Structural, Clone, Copy, Debug)]
pub enum AnimalType {
    Dog,
    Cat,
    Rabbit,
    Snake,
}

/// The sentence that names an animal's kind; kinds without one of their own
/// share a fallback.
pub fn describe_animal(animal: AnimalType) -> (r: String)
    ensures
        r@ == match animal {
            AnimalType::Cat => "Animal_1 is a cat!"@,
            AnimalType::Dog => "Animal_1 is a Dog!"@,
            AnimalType::Rabbit => "Animal_1 is a Rabbit!"@,
            AnimalType::Snake => "This seems Complicated!"@,
        },
{
    match animal {
        AnimalType::Cat => "Animal_1 is a cat!".to_string(),
        AnimalType::Dog => "Animal_1 is a Dog!".to_string(),
        AnimalType::Rabbit => "Animal_1 is a Rabbit!".to_string(),
        _ => "This seems Complicated!".to_string(),
    }
}

} // verus!

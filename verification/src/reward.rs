//! The catalog of collectible animals and the draw of one of them.

use vstd::prelude::*;
use vstd::string::*;
use rand::rngs::StdRng;
use crate::random::sample_inclusive;

verus! {

/// A collectible reward. The catalog is fixed; an animal is its name and
/// nothing more.
#[derive(Clone, Copy, Debug, PartialEq, Eq, Hash, Structural)]
pub enum Animal {
    Cat,
    Dog,
    Rabbit,
    Fox,
    Bear,
    Owl,
    Frog,
    Turtle,
    Horse,
    Penguin,
    Elephant,
    Lion,
}

/// The number of animals in the catalog.
pub const CATALOG_SIZE: usize = 12;

/// The catalog, in its fixed order.
pub open spec fn catalog_model() -> Seq<Animal> {
    seq![
        Animal::Cat,
        Animal::Dog,
        Animal::Rabbit,
        Animal::Fox,
        Animal::Bear,
        Animal::Owl,
        Animal::Frog,
        Animal::Turtle,
        Animal::Horse,
        Animal::Penguin,
        Animal::Elephant,
        Animal::Lion,
    ]
}

impl Animal {
    /// The place of the animal in the catalog.
    pub open spec fn position(self) -> int {
        match self {
            Animal::Cat => 0,
            Animal::Dog => 1,
            Animal::Rabbit => 2,
            Animal::Fox => 3,
            Animal::Bear => 4,
            Animal::Owl => 5,
            Animal::Frog => 6,
            Animal::Turtle => 7,
            Animal::Horse => 8,
            Animal::Penguin => 9,
            Animal::Elephant => 10,
            Animal::Lion => 11,
        }
    }

    /// The display name of the animal.
    pub open spec fn name_text(self) -> Seq<char> {
        match self {
            Animal::Cat => "Cat"@,
            Animal::Dog => "Dog"@,
            Animal::Rabbit => "Rabbit"@,
            Animal::Fox => "Fox"@,
            Animal::Bear => "Bear"@,
            Animal::Owl => "Owl"@,
            Animal::Frog => "Frog"@,
            Animal::Turtle => "Turtle"@,
            Animal::Horse => "Horse"@,
            Animal::Penguin => "Penguin"@,
            Animal::Elephant => "Elephant"@,
            Animal::Lion => "Lion"@,
        }
    }

    /// The animal at place `i` of the catalog, if the catalog is that long.
    pub fn from_index(i: usize) -> (r: Option<Animal>)
        ensures
            r == (if i < CATALOG_SIZE {
                Some(catalog_model()[i as int])
            } else {
                None
            }),
    {
        if i == 0 {
            Some(Animal::Cat)
        } else if i == 1 {
            Some(Animal::Dog)
        } else if i == 2 {
            Some(Animal::Rabbit)
        } else if i == 3 {
            Some(Animal::Fox)
        } else if i == 4 {
            Some(Animal::Bear)
        } else if i == 5 {
            Some(Animal::Owl)
        } else if i == 6 {
            Some(Animal::Frog)
        } else if i == 7 {
            Some(Animal::Turtle)
        } else if i == 8 {
            Some(Animal::Horse)
        } else if i == 9 {
            Some(Animal::Penguin)
        } else if i == 10 {
            Some(Animal::Elephant)
        } else if i == 11 {
            Some(Animal::Lion)
        } else {
            None
        }
    }

    /// The place of the animal in the catalog.
    pub fn index(self) -> (i: usize)
        ensures
            i == self.position(),
            i < CATALOG_SIZE,
            catalog_model()[i as int] == self,
    {
        match self {
            Animal::Cat => 0,
            Animal::Dog => 1,
            Animal::Rabbit => 2,
            Animal::Fox => 3,
            Animal::Bear => 4,
            Animal::Owl => 5,
            Animal::Frog => 6,
            Animal::Turtle => 7,
            Animal::Horse => 8,
            Animal::Penguin => 9,
            Animal::Elephant => 10,
            Animal::Lion => 11,
        }
    }

    /// The display name of the animal.
    pub fn name(self) -> (s: &'static str)
        ensures
            s@ == self.name_text(),
    {
        match self {
            Animal::Cat => "Cat",
            Animal::Dog => "Dog",
            Animal::Rabbit => "Rabbit",
            Animal::Fox => "Fox",
            Animal::Bear => "Bear",
            Animal::Owl => "Owl",
            Animal::Frog => "Frog",
            Animal::Turtle => "Turtle",
            Animal::Horse => "Horse",
            Animal::Penguin => "Penguin",
            Animal::Elephant => "Elephant",
            Animal::Lion => "Lion",
        }
    }
}

/// The whole catalog, in its fixed order.
pub fn catalog() -> (v: Vec<Animal>)
    ensures
        v@ == catalog_model(),
{
    let mut v: Vec<Animal> = Vec::new();
    let mut i: usize = 0;
    while i < CATALOG_SIZE
        invariant
            i <= CATALOG_SIZE,
            v@ == catalog_model().take(i as int),
        decreases CATALOG_SIZE - i,
    {
        if let Some(a) = Animal::from_index(i) {
            v.push(a);
        }
        i += 1;
    }
    v
}

/// Draws one animal of the catalog at random. What was collected before
/// plays no part: the same animal may come again.
pub fn random_animal(rng: &mut StdRng) -> (a: Animal)
    ensures
        catalog_model().contains(a),
{
    let last: i32 = (CATALOG_SIZE - 1) as i32;
    let i: i32 = sample_inclusive(rng, 0, last);
    match Animal::from_index(i as usize) {
        Some(a) => a,
        None => unreached(),
    }
}

} // verus!

use vstd::prelude::*;
use vstd::string::*;

verus! {

/// The lightest and heaviest dog the factory makes, in grams.
pub const DOG_MIN_GRAMS: u32 = 1000;
pub const DOG_MAX_GRAMS: u32 = 100000;

/// The lightest and heaviest cat the factory makes, in grams.
pub const CAT_MIN_GRAMS: u32 = 500;
pub const CAT_MAX_GRAMS: u32 = 20000;

/// The weight, in grams, of a dog or cat made without one.
pub const AVERAGE_DOG_GRAMS: u32 = 25000;
pub const AVERAGE_CAT_GRAMS: u32 = 4500;

/// A named animal with a weight in grams.
pub trait Animal {
    spec fn sound_spec(&self) -> Seq<char>;

    spec fn species_spec(&self) -> Seq<char>;

    spec fn weight_spec(&self) -> u32;

    /// The line the animal says.
    fn make_sound(&self) -> (r: String)
        ensures
            r@ == self.sound_spec(),
    ;

    fn get_species(&self) -> (r: String)
        ensures
            r@ == self.species_spec(),
    ;

    /// The weight in grams.
    fn get_weight(&self) -> (r: u32)
        ensures
            r == self.weight_spec(),
    ;
}

#[derive(Debug)]
pub struct Dog {
    name: String,
    weight: u32,
}

impl Dog {
    pub closed spec fn name_spec(&self) -> Seq<char> {
        self.name@
    }

    pub fn new(name: &str, weight: u32) -> (r: Self)
        ensures
            r.name_spec() == name@,
            r.weight_spec() == weight,
    {
        Dog { name: String::from_str(name), weight }
    }
}

impl Animal for Dog {
    open spec fn sound_spec(&self) -> Seq<char> {
        self.name_spec() + " says: Woof!"@
    }

    open spec fn species_spec(&self) -> Seq<char> {
        "Canis lupus familiaris"@
    }

    closed spec fn weight_spec(&self) -> u32 {
        self.weight
    }

    fn make_sound(&self) -> (r: String) {
        let mut s = String::from_str(self.name.as_str());
        s.append(" says: Woof!");
        s
    }

    fn get_species(&self) -> (r: String) {
        String::from_str("Canis lupus familiaris")
    }

    fn get_weight(&self) -> (r: u32) {
        self.weight
    }
}

#[derive(Debug)]
pub struct Cat {
    name: String,
    weight: u32,
}

impl Cat {
    pub closed spec fn name_spec(&self) -> Seq<char> {
        self.name@
    }

    pub fn new(name: &str, weight: u32) -> (r: Self)
        ensures
            r.name_spec() == name@,
            r.weight_spec() == weight,
    {
        Cat { name: String::from_str(name), weight }
    }
}

impl Animal for Cat {
    open spec fn sound_spec(&self) -> Seq<char> {
        self.name_spec() + " says: Meow!"@
    }

    open spec fn species_spec(&self) -> Seq<char> {
        "Felis catus"@
    }

    closed spec fn weight_spec(&self) -> u32 {
        self.weight
    }

    fn make_sound(&self) -> (r: String) {
        let mut s = String::from_str(self.name.as_str());
        s.append(" says: Meow!");
        s
    }

    fn get_species(&self) -> (r: String) {
        String::from_str("Felis catus")
    }

    fn get_weight(&self) -> (r: u32) {
        self.weight
    }
}

/// The kinds of animal that can be asked for.
#[derive(Debug, Clone, Copy, PartialEq, Eq, Structural)]
pub enum AnimalType {
    Dog,
    Cat,
    Bird,
}

/// An animal the factory made.
#[derive(Debug)]
pub enum Pet {
    Dog(Dog),
    Cat(Cat),
}

impl Pet {
    /// The kind of animal this is.
    pub open spec fn kind(&self) -> AnimalType {
        match self {
            Pet::Dog(_) => AnimalType::Dog,
            Pet::Cat(_) => AnimalType::Cat,
        }
    }

    pub open spec fn name_spec(&self) -> Seq<char> {
        match self {
            Pet::Dog(d) => d.name_spec(),
            Pet::Cat(c) => c.name_spec(),
        }
    }
}

impl Animal for Pet {
    open spec fn sound_spec(&self) -> Seq<char> {
        match self {
            Pet::Dog(d) => d.sound_spec(),
            Pet::Cat(c) => c.sound_spec(),
        }
    }

    open spec fn species_spec(&self) -> Seq<char> {
        match self {
            Pet::Dog(d) => d.species_spec(),
            Pet::Cat(c) => c.species_spec(),
        }
    }

    open spec fn weight_spec(&self) -> u32 {
        match self {
            Pet::Dog(d) => d.weight_spec(),
            Pet::Cat(c) => c.weight_spec(),
        }
    }

    fn make_sound(&self) -> (r: String) {
        match self {
            Pet::Dog(d) => d.make_sound(),
            Pet::Cat(c) => c.make_sound(),
        }
    }

    fn get_species(&self) -> (r: String) {
        match self {
            Pet::Dog(d) => d.get_species(),
            Pet::Cat(c) => c.get_species(),
        }
    }

    fn get_weight(&self) -> (r: u32) {
        match self {
            Pet::Dog(d) => d.get_weight(),
            Pet::Cat(c) => c.get_weight(),
        }
    }
}

/// Whether `grams` is a weight the factory accepts for `t`.
pub open spec fn weight_allowed(t: AnimalType, grams: u32) -> bool {
    match t {
        AnimalType::Dog => DOG_MIN_GRAMS <= grams <= DOG_MAX_GRAMS,
        AnimalType::Cat => CAT_MIN_GRAMS <= grams <= CAT_MAX_GRAMS,
        AnimalType::Bird => false,
    }
}

/// The reason the factory gives for refusing `t`.
pub open spec fn refusal(t: AnimalType) -> Seq<char> {
    match t {
        AnimalType::Dog => "Dog weight must be between 1.0 and 100.0 kg"@,
        AnimalType::Cat => "Cat weight must be between 0.5 and 20.0 kg"@,
        AnimalType::Bird => "Bird implementation not yet available"@,
    }
}

/// Makes animals by kind, checking their weight.
pub struct AnimalFactory;

impl AnimalFactory {
    /// An animal of kind `animal_type`, when its weight in grams lies in the
    /// range for that kind; birds are not made.
    pub fn create_animal(animal_type: AnimalType, name: &str, weight: u32) -> (r: Result<
        Pet,
        String,
    >)
        ensures
            r is Ok <==> weight_allowed(animal_type, weight),
            r is Ok ==> r->Ok_0.kind() == animal_type && r->Ok_0.name_spec() == name@
                && r->Ok_0.weight_spec() == weight,
            r is Err ==> r->Err_0@ == refusal(animal_type),
    {
        match animal_type {
            AnimalType::Dog => {
                if weight < DOG_MIN_GRAMS || weight > DOG_MAX_GRAMS {
                    return Err(String::from_str("Dog weight must be between 1.0 and 100.0 kg"));
                }
                Ok(Pet::Dog(Dog::new(name, weight)))
            },
            AnimalType::Cat => {
                if weight < CAT_MIN_GRAMS || weight > CAT_MAX_GRAMS {
                    return Err(String::from_str("Cat weight must be between 0.5 and 20.0 kg"));
                }
                Ok(Pet::Cat(Cat::new(name, weight)))
            },
            AnimalType::Bird => Err(String::from_str("Bird implementation not yet available")),
        }
    }

    /// A dog of average weight.
    pub fn create_dog(name: &str) -> (r: Pet)
        ensures
            r.kind() == AnimalType::Dog,
            r.name_spec() == name@,
            r.weight_spec() == AVERAGE_DOG_GRAMS,
    {
        Pet::Dog(Dog::new(name, AVERAGE_DOG_GRAMS))
    }

    /// A cat of average weight.
    pub fn create_cat(name: &str) -> (r: Pet)
        ensures
            r.kind() == AnimalType::Cat,
            r.name_spec() == name@,
            r.weight_spec() == AVERAGE_CAT_GRAMS,
    {
        Pet::Cat(Cat::new(name, AVERAGE_CAT_GRAMS))
    }
}

} // verus!

//! The five closed attribute domains of the puzzle: each category has exactly
//! five distinct values, and every house receives exactly one value of each.

use vstd::prelude::*;

verus! {

#[derive(Debug, Clone, Copy, PartialEq, Eq, Hash, Structural)]
pub enum HouseColor {
    Red,
    Green,
    Blue,
    Yellow,
    White,
}

#[derive(Debug, Clone, Copy, PartialEq, Eq, Hash, Structural)]
pub enum Nationality {
    British,
    Swedish,
    Danish,
    Norwegian,
    German,
}

#[derive(Debug, Clone, Copy, PartialEq, Eq, Hash, Structural)]
pub enum Drink {
    Tea,
    Coffee,
    Milk,
    Beer,
    Water,
}

#[derive(Debug, Clone, Copy, PartialEq, Eq, Hash, Structural)]
pub enum Pet {
    Dog,
    Bird,
    Cat,
    Horse,
    Fish,
}

#[derive(Debug, Clone, Copy, PartialEq, Eq, Hash, Structural)]
pub enum Cigarette {
    PallMall,
    Dunhill,
    Brends,
    Bluemasters,
    Prince,
}

/// An attribute value that can be compared at run time, with the comparison
/// agreeing with mathematical equality. Every category enum implements it, so
/// the positional predicates can be generic over the two categories they relate.
pub trait AttributeValue: Sized + Copy {
    fn same(&self, other: &Self) -> (r: bool)
        ensures
            r == (*self == *other),
    ;
}

impl AttributeValue for HouseColor {
    fn same(&self, other: &Self) -> (r: bool)
        ensures
            r == (*self == *other),
    {
        *self == *other
    }
}

impl AttributeValue for Nationality {
    fn same(&self, other: &Self) -> (r: bool)
        ensures
            r == (*self == *other),
    {
        *self == *other
    }
}

impl AttributeValue for Drink {
    fn same(&self, other: &Self) -> (r: bool)
        ensures
            r == (*self == *other),
    {
        *self == *other
    }
}

impl AttributeValue for Pet {
    fn same(&self, other: &Self) -> (r: bool)
        ensures
            r == (*self == *other),
    {
        *self == *other
    }
}

impl AttributeValue for Cigarette {
    fn same(&self, other: &Self) -> (r: bool)
        ensures
            r == (*self == *other),
    {
        *self == *other
    }
}

impl HouseColor {
    /// The display name of the color.
    pub open spec fn spec_name(self) -> Seq<char> {
        match self {
            HouseColor::Red => "Red"@,
            HouseColor::Green => "Green"@,
            HouseColor::Blue => "Blue"@,
            HouseColor::Yellow => "Yellow"@,
            HouseColor::White => "White"@,
        }
    }

    pub fn name(&self) -> (r: &'static str)
        ensures
            r@ == self.spec_name(),
    {
        match self {
            HouseColor::Red => "Red",
            HouseColor::Green => "Green",
            HouseColor::Blue => "Blue",
            HouseColor::Yellow => "Yellow",
            HouseColor::White => "White",
        }
    }
}

impl Nationality {
    /// The display name of the nationality.
    pub open spec fn spec_name(self) -> Seq<char> {
        match self {
            Nationality::British => "British"@,
            Nationality::Swedish => "Swedish"@,
            Nationality::Danish => "Danish"@,
            Nationality::Norwegian => "Norwegian"@,
            Nationality::German => "German"@,
        }
    }

    pub fn name(&self) -> (r: &'static str)
        ensures
            r@ == self.spec_name(),
    {
        match self {
            Nationality::British => "British",
            Nationality::Swedish => "Swedish",
            Nationality::Danish => "Danish",
            Nationality::Norwegian => "Norwegian",
            Nationality::German => "German",
        }
    }
}

impl Drink {
    /// The display name of the drink.
    pub open spec fn spec_name(self) -> Seq<char> {
        match self {
            Drink::Tea => "Tea"@,
            Drink::Coffee => "Coffee"@,
            Drink::Milk => "Milk"@,
            Drink::Beer => "Beer"@,
            Drink::Water => "Water"@,
        }
    }

    pub fn name(&self) -> (r: &'static str)
        ensures
            r@ == self.spec_name(),
    {
        match self {
            Drink::Tea => "Tea",
            Drink::Coffee => "Coffee",
            Drink::Milk => "Milk",
            Drink::Beer => "Beer",
            Drink::Water => "Water",
        }
    }
}

impl Pet {
    /// The display name of the pet.
    pub open spec fn spec_name(self) -> Seq<char> {
        match self {
            Pet::Dog => "Dog"@,
            Pet::Bird => "Bird"@,
            Pet::Cat => "Cat"@,
            Pet::Horse => "Horse"@,
            Pet::Fish => "Fish"@,
        }
    }

    pub fn name(&self) -> (r: &'static str)
        ensures
            r@ == self.spec_name(),
    {
        match self {
            Pet::Dog => "Dog",
            Pet::Bird => "Bird",
            Pet::Cat => "Cat",
            Pet::Horse => "Horse",
            Pet::Fish => "Fish",
        }
    }
}

impl Cigarette {
    /// The display name of the smoked brand.
    pub open spec fn spec_name(self) -> Seq<char> {
        match self {
            Cigarette::PallMall => "Pall Mall"@,
            Cigarette::Dunhill => "Dunhill"@,
            Cigarette::Brends => "Brends"@,
            Cigarette::Bluemasters => "Bluemasters"@,
            Cigarette::Prince => "Prince"@,
        }
    }

    pub fn name(&self) -> (r: &'static str)
        ensures
            r@ == self.spec_name(),
    {
        match self {
            Cigarette::PallMall => "Pall Mall",
            Cigarette::Dunhill => "Dunhill",
            Cigarette::Brends => "Brends",
            Cigarette::Bluemasters => "Bluemasters",
            Cigarette::Prince => "Prince",
        }
    }
}

pub open spec fn spec_color_values() -> Seq<HouseColor> {
    seq![
        HouseColor::Red,
        HouseColor::Green,
        HouseColor::Blue,
        HouseColor::Yellow,
        HouseColor::White,
    ]
}

pub open spec fn spec_nationality_values() -> Seq<Nationality> {
    seq![
        Nationality::British,
        Nationality::Swedish,
        Nationality::Danish,
        Nationality::Norwegian,
        Nationality::German,
    ]
}

pub open spec fn spec_drink_values() -> Seq<Drink> {
    seq![Drink::Tea, Drink::Coffee, Drink::Milk, Drink::Beer, Drink::Water]
}

pub open spec fn spec_pet_values() -> Seq<Pet> {
    seq![Pet::Dog, Pet::Bird, Pet::Cat, Pet::Horse, Pet::Fish]
}

pub open spec fn spec_cigarette_values() -> Seq<Cigarette> {
    seq![
        Cigarette::PallMall,
        Cigarette::Dunhill,
        Cigarette::Brends,
        Cigarette::Bluemasters,
        Cigarette::Prince,
    ]
}

pub fn color_values() -> (r: [HouseColor; 5])
    ensures
        r@ == spec_color_values(),
{
    let r = [
        HouseColor::Red,
        HouseColor::Green,
        HouseColor::Blue,
        HouseColor::Yellow,
        HouseColor::White,
    ];
    proof {
        assert(r@ =~= spec_color_values());
    }
    r
}

pub fn nationality_values() -> (r: [Nationality; 5])
    ensures
        r@ == spec_nationality_values(),
{
    let r = [
        Nationality::British,
        Nationality::Swedish,
        Nationality::Danish,
        Nationality::Norwegian,
        Nationality::German,
    ];
    proof {
        assert(r@ =~= spec_nationality_values());
    }
    r
}

pub fn drink_values() -> (r: [Drink; 5])
    ensures
        r@ == spec_drink_values(),
{
    let r = [Drink::Tea, Drink::Coffee, Drink::Milk, Drink::Beer, Drink::Water];
    proof {
        assert(r@ =~= spec_drink_values());
    }
    r
}

pub fn pet_values() -> (r: [Pet; 5])
    ensures
        r@ == spec_pet_values(),
{
    let r = [Pet::Dog, Pet::Bird, Pet::Cat, Pet::Horse, Pet::Fish];
    proof {
        assert(r@ =~= spec_pet_values());
    }
    r
}

pub fn cigarette_values() -> (r: [Cigarette; 5])
    ensures
        r@ == spec_cigarette_values(),
{
    let r = [
        Cigarette::PallMall,
        Cigarette::Dunhill,
        Cigarette::Brends,
        Cigarette::Bluemasters,
        Cigarette::Prince,
    ];
    proof {
        assert(r@ =~= spec_cigarette_values());
    }
    r
}

/// Each base domain lists its five values once: no category value is repeated.
pub proof fn lemma_base_domains_distinct()
    ensures
        spec_color_values().no_duplicates(),
        spec_nationality_values().no_duplicates(),
        spec_drink_values().no_duplicates(),
        spec_pet_values().no_duplicates(),
        spec_cigarette_values().no_duplicates(),
{
}

} // verus!

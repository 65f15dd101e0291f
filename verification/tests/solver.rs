use zebra_puzzle::possibilities::Constraints;
use zebra_puzzle::possibilities::House;
use zebra_puzzle::possibilities::Possibilities;
use zebra_puzzle::variants::cigarette_values;
use zebra_puzzle::variants::color_values;
use zebra_puzzle::variants::drink_values;
use zebra_puzzle::variants::nationality_values;
use zebra_puzzle::variants::pet_values;
use zebra_puzzle::variants::Cigarette;
use zebra_puzzle::variants::Drink;
use zebra_puzzle::variants::HouseColor;
use zebra_puzzle::variants::Nationality;
use zebra_puzzle::variants::Pet;

fn canonical_houses() -> Vec<House> {
    vec![
        House {
            house_color: HouseColor::Yellow,
            nationality: Nationality::Norwegian,
            cigarette: Cigarette::Dunhill,
            drink: Drink::Water,
            pet: Pet::Cat,
        },
        House {
            house_color: HouseColor::Blue,
            nationality: Nationality::Danish,
            cigarette: Cigarette::Brends,
            drink: Drink::Tea,
            pet: Pet::Horse,
        },
        House {
            house_color: HouseColor::Red,
            nationality: Nationality::British,
            cigarette: Cigarette::PallMall,
            drink: Drink::Milk,
            pet: Pet::Bird,
        },
        House {
            house_color: HouseColor::Green,
            nationality: Nationality::German,
            cigarette: Cigarette::Prince,
            drink: Drink::Coffee,
            pet: Pet::Fish,
        },
        House {
            house_color: HouseColor::White,
            nationality: Nationality::Swedish,
            cigarette: Cigarette::Bluemasters,
            drink: Drink::Beer,
            pet: Pet::Dog,
        },
    ]
}

fn count_occurrences<T: PartialEq>(row: &[T], value: &T) -> usize {
    row.iter().filter(|v| *v == value).count()
}

fn assert_bijections<T: PartialEq + Copy + std::fmt::Debug>(rows: &[Vec<T>], base: &[T; 5]) {
    assert_eq!(rows.len(), 120);
    for row in rows {
        assert_eq!(row.len(), 5);
        for value in base {
            assert_eq!(count_occurrences(row, value), 1);
        }
    }
}

fn assert_distinct<T: PartialEq + std::fmt::Debug>(rows: &[Vec<T>]) {
    for i in 0..rows.len() {
        for j in (i + 1)..rows.len() {
            assert_ne!(rows[i], rows[j]);
        }
    }
}

#[test]
fn permutation_lists_have_120_rows() {
    let p = Possibilities::new();
    assert_eq!(p.colors().len(), 120);
    assert_eq!(p.nationalities().len(), 120);
    assert_eq!(p.cigarettes().len(), 120);
    assert_eq!(p.drinks().len(), 120);
    assert_eq!(p.pets().len(), 120);
}

#[test]
fn permutation_rows_are_bijections() {
    let p = Possibilities::new();
    assert_bijections(p.colors(), &color_values());
    assert_bijections(p.nationalities(), &nationality_values());
    assert_bijections(p.cigarettes(), &cigarette_values());
    assert_bijections(p.drinks(), &drink_values());
    assert_bijections(p.pets(), &pet_values());
}

#[test]
fn permutation_rows_are_distinct() {
    let p = Possibilities::new();
    assert_distinct(p.colors());
    assert_distinct(p.nationalities());
    assert_distinct(p.cigarettes());
    assert_distinct(p.drinks());
    assert_distinct(p.pets());
}

#[test]
fn permutation_lists_are_deterministic() {
    let p1 = Possibilities::new();
    let p2 = Possibilities::new();
    assert_eq!(p1.colors(), p2.colors());
    assert_eq!(p1.nationalities(), p2.nationalities());
    assert_eq!(p1.cigarettes(), p2.cigarettes());
    assert_eq!(p1.drinks(), p2.drinks());
    assert_eq!(p1.pets(), p2.pets());
}

#[test]
fn same_position_matches_shared_index() {
    let c = Constraints::new();
    let nationalities = nationality_values();
    let drinks = drink_values();
    // Both value lists in base order: index 2 holds Danish and Milk.
    assert!(c.meets_criteria(&nationalities, Nationality::Danish, &drinks, Drink::Milk));
    // Danish is at index 2 but Tea at index 0.
    assert!(!c.meets_criteria(&nationalities, Nationality::Danish, &drinks, Drink::Tea));
}

#[test]
fn same_position_is_symmetric() {
    let c = Constraints::new();
    let nationalities = nationality_values();
    let drinks = drink_values();
    for n in nationality_values() {
        for d in drink_values() {
            assert_eq!(
                c.meets_criteria(&nationalities, n, &drinks, d),
                c.meets_criteria(&drinks, d, &nationalities, n),
            );
        }
    }
}

#[test]
fn left_of_and_right_of_concrete() {
    let c = Constraints::new();
    let colors = color_values();
    // Base order: Red, Green, Blue, Yellow, White.
    assert!(c.left_of(&colors, HouseColor::Red, &colors, HouseColor::Green));
    assert!(!c.left_of(&colors, HouseColor::Green, &colors, HouseColor::Red));
    assert!(c.right_of(&colors, HouseColor::Green, &colors, HouseColor::Red));
    assert!(!c.right_of(&colors, HouseColor::Red, &colors, HouseColor::Green));
    assert!(!c.left_of(&colors, HouseColor::White, &colors, HouseColor::Red));
}

#[test]
fn next_to_agrees_with_directional_tests() {
    let c = Constraints::new();
    let colors = color_values();
    let pets = pet_values();
    for color in color_values() {
        for pet in pet_values() {
            assert_eq!(
                c.next_to(&colors, color, &pets, pet),
                c.left_of(&colors, color, &pets, pet) || c.right_of(&colors, color, &pets, pet),
            );
        }
    }
}

#[test]
fn neighbors_are_adjacent_and_far_pairs_are_not() {
    let c = Constraints::new();
    let colors = color_values();
    // Red and Green are one house apart, in either argument order.
    assert!(c.next_to(&colors, HouseColor::Red, &colors, HouseColor::Green));
    assert!(c.next_to(&colors, HouseColor::Green, &colors, HouseColor::Red));
    // Red and Blue are two houses apart, Red and White four.
    assert!(!c.next_to(&colors, HouseColor::Red, &colors, HouseColor::Blue));
    assert!(!c.next_to(&colors, HouseColor::Red, &colors, HouseColor::White));
}

#[test]
fn clue_groups_accept_the_canonical_rows() {
    let c = Constraints::new();
    let colors = vec![
        HouseColor::Yellow,
        HouseColor::Blue,
        HouseColor::Red,
        HouseColor::Green,
        HouseColor::White,
    ];
    let nationalities = vec![
        Nationality::Norwegian,
        Nationality::Danish,
        Nationality::British,
        Nationality::German,
        Nationality::Swedish,
    ];
    let drinks = vec![Drink::Water, Drink::Tea, Drink::Milk, Drink::Coffee, Drink::Beer];
    let pets = vec![Pet::Cat, Pet::Horse, Pet::Bird, Pet::Fish, Pet::Dog];
    let cigarettes = vec![
        Cigarette::Dunhill,
        Cigarette::Brends,
        Cigarette::PallMall,
        Cigarette::Prince,
        Cigarette::Bluemasters,
    ];
    assert!(c.left_of(&colors, HouseColor::Green, &colors, HouseColor::White));
    assert!(c.nationality_constraints(&nationalities, &colors));
    assert!(c.pet_constraints(&pets, &nationalities));
    assert!(c.drink_constraints(&drinks, &colors, &nationalities));
    assert!(c.cigarette_constraints(&cigarettes, &nationalities, &colors, &pets, &drinks));
    // Swapping two nationalities violates the nationality group.
    let wrong = vec![
        Nationality::Danish,
        Nationality::Norwegian,
        Nationality::British,
        Nationality::German,
        Nationality::Swedish,
    ];
    assert!(!c.nationality_constraints(&wrong, &colors));
}

#[test]
fn solver_finds_canonical_solution() {
    let p = Possibilities::new();
    let houses = p.solve().expect("the fixed puzzle has a solution");
    assert_eq!(houses, canonical_houses());
}

#[test]
fn solver_run_twice_gives_identical_solution() {
    let p = Possibilities::new();
    let first = p.solve();
    let second = p.solve();
    assert_eq!(first, second);
    assert!(first.is_some());
}

#[test]
fn unsatisfiable_variant_returns_no_solution() {
    let p = Possibilities::new();
    // Replace the drink candidates with every permutation in which the middle
    // house does not drink milk: the middle-house clue can never be met.
    let drinks: Vec<Vec<Drink>> = p
        .drinks()
        .iter()
        .filter(|row| row[2] != Drink::Milk)
        .cloned()
        .collect();
    assert_eq!(drinks.len(), 96);
    let variant = Possibilities::with_candidates(
        p.colors().clone(),
        p.nationalities().clone(),
        p.cigarettes().clone(),
        drinks,
        p.pets().clone(),
    );
    assert_eq!(variant.solve(), None);
}

#[test]
fn empty_candidate_lists_return_no_solution() {
    let empty = Possibilities::with_candidates(
        Vec::new(),
        Vec::new(),
        Vec::new(),
        Vec::new(),
        Vec::new(),
    );
    assert_eq!(empty.solve(), None);
}

#[test]
fn restricted_lists_with_solution_return_it() {
    let expected = canonical_houses();
    let restricted = Possibilities::with_candidates(
        vec![expected.iter().map(|h| h.house_color).collect()],
        vec![expected.iter().map(|h| h.nationality).collect()],
        vec![expected.iter().map(|h| h.cigarette).collect()],
        vec![expected.iter().map(|h| h.drink).collect()],
        vec![expected.iter().map(|h| h.pet).collect()],
    );
    assert_eq!(restricted.solve(), Some(expected));
}

#[test]
fn attribute_names() {
    assert_eq!(HouseColor::Red.name(), "Red");
    assert_eq!(HouseColor::White.name(), "White");
    assert_eq!(Nationality::Norwegian.name(), "Norwegian");
    assert_eq!(Drink::Coffee.name(), "Coffee");
    assert_eq!(Pet::Fish.name(), "Fish");
    assert_eq!(Cigarette::PallMall.name(), "Pall Mall");
    assert_eq!(Cigarette::Bluemasters.name(), "Bluemasters");
}

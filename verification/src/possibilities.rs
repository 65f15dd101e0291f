//! The search engine: candidate permutations per category, the positional
//! predicates, the clue groups, and the nested early-pruning enumeration that
//! finds the unique satisfying assignment.

use itertools::Itertools;
use vstd::prelude::*;

use crate::variants::cigarette_values;
use crate::variants::color_values;
use crate::variants::drink_values;
use crate::variants::nationality_values;
use crate::variants::pet_values;
use crate::variants::spec_cigarette_values;
use crate::variants::spec_color_values;
use crate::variants::spec_drink_values;
use crate::variants::spec_nationality_values;
use crate::variants::spec_pet_values;
use crate::variants::AttributeValue;
use crate::variants::Cigarette;
use crate::variants::Drink;
use crate::variants::HouseColor;
use crate::variants::Nationality;
use crate::variants::Pet;

verus! {

/// Some position holds `x` in `a` and `y` in `b`.
pub open spec fn spec_same_position<T, K>(a: Seq<T>, x: T, b: Seq<K>, y: K) -> bool {
    exists|i: int| 0 <= i < 5 && a[i] == x && b[i] == y
}

/// Some position holds `x` in `a` with `y` in `b` directly to its right.
pub open spec fn spec_left_of<T, K>(a: Seq<T>, x: T, b: Seq<K>, y: K) -> bool {
    exists|i: int| 0 <= i < 4 && a[i] == x && b[i + 1] == y
}

/// Some position holds `x` in `a` with `y` in `b` directly to its left.
pub open spec fn spec_right_of<T, K>(a: Seq<T>, x: T, b: Seq<K>, y: K) -> bool {
    exists|i: int| 1 <= i < 5 && a[i] == x && b[i - 1] == y
}

/// `x` in `a` and `y` in `b` sit in neighboring houses, in either direction.
pub open spec fn spec_next_to<T, K>(a: Seq<T>, x: T, b: Seq<K>, y: K) -> bool {
    spec_left_of(a, x, b, y) || spec_right_of(a, x, b, y)
}

/// The color-only clue: the green house is immediately left of the white one.
pub open spec fn spec_color_clue(colors: Seq<HouseColor>) -> bool {
    spec_left_of(colors, HouseColor::Green, colors, HouseColor::White)
}

/// The clues over nationalities and colors: the Norwegian lives in the first
/// house, the Brit lives in the red house, and the Norwegian lives immediately
/// left of the blue house.
pub open spec fn spec_nationality_clues(
    nationalities: Seq<Nationality>,
    colors: Seq<HouseColor>,
) -> bool {
    &&& nationalities[0] == Nationality::Norwegian
    &&& spec_same_position(nationalities, Nationality::British, colors, HouseColor::Red)
    &&& spec_left_of(nationalities, Nationality::Norwegian, colors, HouseColor::Blue)
}

/// The clue over pets and nationalities: the Swede keeps a dog.
pub open spec fn spec_pet_clues(pets: Seq<Pet>, nationalities: Seq<Nationality>) -> bool {
    spec_same_position(pets, Pet::Dog, nationalities, Nationality::Swedish)
}

/// The clues over drinks, colors and nationalities: the Dane drinks tea, the
/// green house's occupant drinks coffee, and the middle house drinks milk.
pub open spec fn spec_drink_clues(
    drinks: Seq<Drink>,
    colors: Seq<HouseColor>,
    nationalities: Seq<Nationality>,
) -> bool {
    &&& spec_same_position(nationalities, Nationality::Danish, drinks, Drink::Tea)
    &&& spec_same_position(colors, HouseColor::Green, drinks, Drink::Coffee)
    &&& drinks[2] == Drink::Milk
}

/// The clues that need all five categories: Pall Mall with the bird, Dunhill in
/// the yellow house, Brends next to the cat, the horse next to Dunhill,
/// Bluemasters with beer, the German smokes Prince, and Brends next to water.
pub open spec fn spec_cigarette_clues(
    cigarettes: Seq<Cigarette>,
    nationalities: Seq<Nationality>,
    colors: Seq<HouseColor>,
    pets: Seq<Pet>,
    drinks: Seq<Drink>,
) -> bool {
    &&& spec_same_position(cigarettes, Cigarette::PallMall, pets, Pet::Bird)
    &&& spec_same_position(colors, HouseColor::Yellow, cigarettes, Cigarette::Dunhill)
    &&& spec_next_to(cigarettes, Cigarette::Brends, pets, Pet::Cat)
    &&& spec_next_to(pets, Pet::Horse, cigarettes, Cigarette::Dunhill)
    &&& spec_same_position(cigarettes, Cigarette::Bluemasters, drinks, Drink::Beer)
    &&& spec_same_position(nationalities, Nationality::German, cigarettes, Cigarette::Prince)
    &&& spec_next_to(cigarettes, Cigarette::Brends, drinks, Drink::Water)
}

/// The position-equality test is symmetric: swapping the (assignment, value)
/// pair on each side does not change its outcome.
pub proof fn lemma_same_position_symmetric<T, K>(a: Seq<T>, x: T, b: Seq<K>, y: K)
    ensures
        spec_same_position(a, x, b, y) == spec_same_position(b, y, a, x),
{
}

/// Adjacency holds exactly when one of the two one-directional neighbor tests
/// holds.
pub proof fn lemma_next_to_iff<T, K>(a: Seq<T>, x: T, b: Seq<K>, y: K)
    ensures
        spec_next_to(a, x, b, y) == (spec_left_of(a, x, b, y) || spec_right_of(a, x, b, y)),
{
}

/// Whenever `x` sits at position `p` and `y` directly to its right, the two
/// are adjacent.
pub proof fn lemma_neighbors_are_adjacent<T, K>(a: Seq<T>, x: T, b: Seq<K>, y: K, p: int)
    requires
        0 <= p < 4,
        a[p] == x,
        b[p + 1] == y,
    ensures
        spec_next_to(a, x, b, y),
{
}

/// When `x` occurs only at position `i` and `y` only at position `j`, and the
/// two positions are more than one house apart, the values are not adjacent.
pub proof fn lemma_far_apart_not_adjacent<T, K>(a: Seq<T>, x: T, b: Seq<K>, y: K, i: int, j: int)
    requires
        0 <= i < 5,
        0 <= j < 5,
        a[i] == x,
        b[j] == y,
        forall|k: int| 0 <= k < 5 && a[k] == x ==> k == i,
        forall|k: int| 0 <= k < 5 && b[k] == y ==> k == j,
        i - j > 1 || j - i > 1,
    ensures
        !spec_next_to(a, x, b, y),
{
}

pub struct Constraints;

impl Constraints {
    pub fn new() -> Self {
        Self {}
    }

    /// Whether some house holds `value_in_set_1` in `list_1` and
    /// `value_in_list_2` in `list_2`.
    pub fn meets_criteria<T: AttributeValue, K: AttributeValue>(
        &self,
        list_1: &[T],
        value_in_set_1: T,
        list_2: &[K],
        value_in_list_2: K,
    ) -> (r: bool)
        requires
            list_1@.len() == 5,
            list_2@.len() == 5,
        ensures
            r == spec_same_position(list_1@, value_in_set_1, list_2@, value_in_list_2),
    {
        let mut i: usize = 0;
        while i < 5
            invariant
                list_1@.len() == 5,
                list_2@.len() == 5,
                i <= 5,
                forall|j: int|
                    0 <= j < i ==> !(list_1@[j] == value_in_set_1 && list_2@[j]
                        == value_in_list_2),
            decreases 5 - i,
        {
            if list_1[i].same(&value_in_set_1) && list_2[i].same(&value_in_list_2) {
                return true;
            }
            i += 1;
        }
        false
    }

    /// Whether the two named values sit in adjacent houses, in either direction.
    pub fn next_to<T: AttributeValue, K: AttributeValue>(
        &self,
        list_1: &[T],
        value_in_list_1: T,
        list_2: &[K],
        value_in_list_2: K,
    ) -> (r: bool)
        requires
            list_1@.len() == 5,
            list_2@.len() == 5,
        ensures
            r == spec_next_to(list_1@, value_in_list_1, list_2@, value_in_list_2),
    {
        self.left_of(list_1, value_in_list_1, list_2, value_in_list_2) || self.right_of(
            list_1,
            value_in_list_1,
            list_2,
            value_in_list_2,
        )
    }

    /// Whether `value_in_list_1` sits immediately left of `value_in_list_2`.
    pub fn left_of<T: AttributeValue, K: AttributeValue>(
        &self,
        list_1: &[T],
        value_in_list_1: T,
        list_2: &[K],
        value_in_list_2: K,
    ) -> (r: bool)
        requires
            list_1@.len() == 5,
            list_2@.len() == 5,
        ensures
            r == spec_left_of(list_1@, value_in_list_1, list_2@, value_in_list_2),
    {
        let mut i: usize = 0;
        while i < 4
            invariant
                list_1@.len() == 5,
                list_2@.len() == 5,
                i <= 4,
                forall|j: int|
                    0 <= j < i ==> !(list_1@[j] == value_in_list_1 && list_2@[j + 1]
                        == value_in_list_2),
            decreases 4 - i,
        {
            if list_1[i].same(&value_in_list_1) && list_2[i + 1].same(&value_in_list_2) {
                return true;
            }
            i += 1;
        }
        false
    }

    /// Whether `value_in_list_1` sits immediately right of `value_in_list_2`.
    pub fn right_of<T: AttributeValue, K: AttributeValue>(
        &self,
        list_1: &[T],
        value_in_list_1: T,
        list_2: &[K],
        value_in_list_2: K,
    ) -> (r: bool)
        requires
            list_1@.len() == 5,
            list_2@.len() == 5,
        ensures
            r == spec_right_of(list_1@, value_in_list_1, list_2@, value_in_list_2),
    {
        let mut i: usize = 1;
        while i < 5
            invariant
                list_1@.len() == 5,
                list_2@.len() == 5,
                1 <= i <= 5,
                forall|j: int|
                    1 <= j < i ==> !(list_1@[j] == value_in_list_1 && list_2@[j - 1]
                        == value_in_list_2),
            decreases 5 - i,
        {
            if list_1[i].same(&value_in_list_1) && list_2[i - 1].same(&value_in_list_2) {
                return true;
            }
            i += 1;
        }
        false
    }

    /// The clue group applied once nationalities join the bound colors.
    pub fn nationality_constraints(
        &self,
        nationalities: &[Nationality],
        colors: &[HouseColor],
    ) -> (r: bool)
        requires
            nationalities@.len() == 5,
            colors@.len() == 5,
        ensures
            r == spec_nationality_clues(nationalities@, colors@),
    {
        nationalities[0].same(&Nationality::Norwegian) && self.meets_criteria(
            nationalities,
            Nationality::British,
            colors,
            HouseColor::Red,
        ) && self.left_of(nationalities, Nationality::Norwegian, colors, HouseColor::Blue)
    }

    /// The clue group applied once pets join the bound nationalities.
    pub fn pet_constraints(&self, pets: &[Pet], nationalities: &[Nationality]) -> (r: bool)
        requires
            pets@.len() == 5,
            nationalities@.len() == 5,
        ensures
            r == spec_pet_clues(pets@, nationalities@),
    {
        self.meets_criteria(pets, Pet::Dog, nationalities, Nationality::Swedish)
    }

    /// The clue group applied once drinks join the bound colors and nationalities.
    pub fn drink_constraints(
        &self,
        drinks: &[Drink],
        colors: &[HouseColor],
        nationalities: &[Nationality],
    ) -> (r: bool)
        requires
            drinks@.len() == 5,
            colors@.len() == 5,
            nationalities@.len() == 5,
        ensures
            r == spec_drink_clues(drinks@, colors@, nationalities@),
    {
        self.meets_criteria(nationalities, Nationality::Danish, drinks, Drink::Tea)
            && self.meets_criteria(colors, HouseColor::Green, drinks, Drink::Coffee)
            && drinks[2].same(&Drink::Milk)
    }

    /// The clue group applied last, once all five categories are bound.
    pub fn cigarette_constraints(
        &self,
        cigarettes: &[Cigarette],
        nationalities: &[Nationality],
        colors: &[HouseColor],
        pets: &[Pet],
        drinks: &[Drink],
    ) -> (r: bool)
        requires
            cigarettes@.len() == 5,
            nationalities@.len() == 5,
            colors@.len() == 5,
            pets@.len() == 5,
            drinks@.len() == 5,
        ensures
            r == spec_cigarette_clues(cigarettes@, nationalities@, colors@, pets@, drinks@),
    {
        self.meets_criteria(cigarettes, Cigarette::PallMall, pets, Pet::Bird)
            && self.meets_criteria(colors, HouseColor::Yellow, cigarettes, Cigarette::Dunhill)
            && self.next_to(cigarettes, Cigarette::Brends, pets, Pet::Cat) && self.next_to(
            pets,
            Pet::Horse,
            cigarettes,
            Cigarette::Dunhill,
        ) && self.meets_criteria(cigarettes, Cigarette::Bluemasters, drinks, Drink::Beer)
            && self.meets_criteria(nationalities, Nationality::German, cigarettes, Cigarette::Prince)
            && self.next_to(cigarettes, Cigarette::Brends, drinks, Drink::Water)
    }
}

/// One house of the final solution: the five attribute values that co-occur at
/// one position.
#[derive(Debug, Clone, Copy, PartialEq, Eq, Structural)]
pub struct House {
    pub house_color: HouseColor,
    pub nationality: Nationality,
    pub cigarette: Cigarette,
    pub drink: Drink,
    pub pet: Pet,
}

/// The mathematical content of a `Possibilities` value: for each category, the
/// sequence of candidate assignments the search will enumerate.
pub ghost struct CandidateSets {
    pub colors: Seq<Seq<HouseColor>>,
    pub nationalities: Seq<Seq<Nationality>>,
    pub cigarettes: Seq<Seq<Cigarette>>,
    pub drinks: Seq<Seq<Drink>>,
    pub pets: Seq<Seq<Pet>>,
}

/// The sequence of views of a list of candidate rows.
pub open spec fn views_of<T>(rows: Seq<Vec<T>>) -> Seq<Seq<T>> {
    rows.map_values(|row: Vec<T>| row@)
}

/// A full candidate list for one category: 120 rows, each of them a
/// rearrangement of the category's five base values.
pub open spec fn is_candidate_list<T>(rows: Seq<Seq<T>>, base: Seq<T>) -> bool {
    &&& rows.len() == 120
    &&& forall|i: int|
        0 <= i < rows.len() ==> (#[trigger] rows[i]).len() == 5 && rows[i].to_multiset()
            == base.to_multiset()
}

/// No candidate row occurs twice in the list.
pub open spec fn rows_distinct<T>(rows: Seq<Seq<T>>) -> bool {
    forall|i: int, j: int| 0 <= i < j < rows.len() ==> rows[i] != rows[j]
}

/// Every row of the list has exactly five entries, one per house position.
pub open spec fn rows_have_five_entries<T>(rows: Seq<Seq<T>>) -> bool {
    forall|i: int| 0 <= i < rows.len() ==> (#[trigger] rows[i]).len() == 5
}

/// Every row of a full candidate list is a bijection onto the category's base
/// values: each base value appears at exactly one of the row's five positions.
pub proof fn lemma_candidate_row_bijection<T>(row: Seq<T>, base: Seq<T>, x: T)
    requires
        row.len() == 5,
        row.to_multiset() == base.to_multiset(),
        base.no_duplicates(),
        base.contains(x),
    ensures
        exists|i: int| 0 <= i < 5 && row[i] == x,
        forall|i: int, j: int| 0 <= i < 5 && 0 <= j < 5 && row[i] == x && row[j] == x ==> i == j,
{
    row.to_multiset_ensures();
    base.to_multiset_ensures();
    base.lemma_multiset_has_no_duplicates();
    row.lemma_multiset_has_no_duplicates_conv();
    assert(base.to_multiset().count(x) > 0);
    assert(row.to_multiset().count(x) > 0);
    assert(row.contains(x));
    assert(forall|i: int, j: int|
        0 <= i < 5 && 0 <= j < 5 && row[i] == x && row[j] == x ==> i == j) by {
        assert(row.no_duplicates());
    }
}

/// Relies on itertools::Itertools::permutations: with five input values it
/// emits the values at every ordering of the five indices, one `Vec` per
/// ordering, 120 in all, so each row is a rearrangement of the input, and
/// rows built from distinct index orderings differ whenever the input values
/// are distinct.
#[verifier::external_body]
fn permutations_of_five<T: Copy>(values: [T; 5]) -> (r: Vec<Vec<T>>)
    ensures
        r@.len() == 120,
        forall|i: int|
            0 <= i < r@.len() ==> (#[trigger] r@[i])@.len() == 5 && r@[i]@.to_multiset()
                == values@.to_multiset(),
        values@.no_duplicates() ==> forall|i: int, j: int|
            0 <= i < j < r@.len() ==> r@[i]@ != r@[j]@,
{
    values.into_iter().permutations(5).collect()
}

/// The candidate permutation lists of the five categories, one list per
/// category, as the search engine enumerates them.
pub struct Possibilities {
    colors: Vec<Vec<HouseColor>>,
    nationalities: Vec<Vec<Nationality>>,
    cigarettes: Vec<Vec<Cigarette>>,
    drinks: Vec<Vec<Drink>>,
    pets: Vec<Vec<Pet>>,
}

impl View for Possibilities {
    type V = CandidateSets;

    closed spec fn view(&self) -> CandidateSets {
        CandidateSets {
            colors: views_of(self.colors@),
            nationalities: views_of(self.nationalities@),
            cigarettes: views_of(self.cigarettes@),
            drinks: views_of(self.drinks@),
            pets: views_of(self.pets@),
        }
    }
}

impl Possibilities {
    /// Every stored candidate row has the five entries the predicates expect.
    pub open spec fn wf(&self) -> bool {
        &&& rows_have_five_entries(self@.colors)
        &&& rows_have_five_entries(self@.nationalities)
        &&& rows_have_five_entries(self@.cigarettes)
        &&& rows_have_five_entries(self@.drinks)
        &&& rows_have_five_entries(self@.pets)
    }

    /// Builds the full candidate lists: all 120 permutations of each
    /// category's five base values.
    pub fn new() -> (r: Self)
        ensures
            r.wf(),
            is_candidate_list(r@.colors, spec_color_values()),
            is_candidate_list(r@.nationalities, spec_nationality_values()),
            is_candidate_list(r@.cigarettes, spec_cigarette_values()),
            is_candidate_list(r@.drinks, spec_drink_values()),
            is_candidate_list(r@.pets, spec_pet_values()),
            rows_distinct(r@.colors),
            rows_distinct(r@.nationalities),
            rows_distinct(r@.cigarettes),
            rows_distinct(r@.drinks),
            rows_distinct(r@.pets),
    {
        let colors = permutations_of_five(color_values());
        let nationalities = permutations_of_five(nationality_values());
        let cigarettes = permutations_of_five(cigarette_values());
        let drinks = permutations_of_five(drink_values());
        let pets = permutations_of_five(pet_values());
        let r = Possibilities { colors, nationalities, cigarettes, drinks, pets };
        proof {
            crate::variants::lemma_base_domains_distinct();
        }
        r
    }

    /// Builds a `Possibilities` from caller-supplied candidate lists, so a
    /// restricted or deliberately unsatisfiable variant of the search can be
    /// run through the same engine.
    pub fn with_candidates(
        colors: Vec<Vec<HouseColor>>,
        nationalities: Vec<Vec<Nationality>>,
        cigarettes: Vec<Vec<Cigarette>>,
        drinks: Vec<Vec<Drink>>,
        pets: Vec<Vec<Pet>>,
    ) -> (r: Self)
        requires
            rows_have_five_entries(views_of(colors@)),
            rows_have_five_entries(views_of(nationalities@)),
            rows_have_five_entries(views_of(cigarettes@)),
            rows_have_five_entries(views_of(drinks@)),
            rows_have_five_entries(views_of(pets@)),
        ensures
            r.wf(),
            r@.colors == views_of(colors@),
            r@.nationalities == views_of(nationalities@),
            r@.cigarettes == views_of(cigarettes@),
            r@.drinks == views_of(drinks@),
            r@.pets == views_of(pets@),
    {
        Possibilities { colors, nationalities, cigarettes, drinks, pets }
    }
}

impl Possibilities {
    /// The candidate color assignments the search will enumerate.
    pub fn colors(&self) -> (r: &Vec<Vec<HouseColor>>)
        ensures
            views_of(r@) == self@.colors,
    {
        &self.colors
    }

    /// The candidate nationality assignments the search will enumerate.
    pub fn nationalities(&self) -> (r: &Vec<Vec<Nationality>>)
        ensures
            views_of(r@) == self@.nationalities,
    {
        &self.nationalities
    }

    /// The candidate smoked-brand assignments the search will enumerate.
    pub fn cigarettes(&self) -> (r: &Vec<Vec<Cigarette>>)
        ensures
            views_of(r@) == self@.cigarettes,
    {
        &self.cigarettes
    }

    /// The candidate drink assignments the search will enumerate.
    pub fn drinks(&self) -> (r: &Vec<Vec<Drink>>)
        ensures
            views_of(r@) == self@.drinks,
    {
        &self.drinks
    }

    /// The candidate pet assignments the search will enumerate.
    pub fn pets(&self) -> (r: &Vec<Vec<Pet>>)
        ensures
            views_of(r@) == self@.pets,
    {
        &self.pets
    }
}

/// The indices pick one candidate row per category, each within its list.
pub open spec fn combo_in_bounds(v: CandidateSets, a: int, b: int, c: int, d: int, e: int) -> bool {
    &&& 0 <= a < v.colors.len()
    &&& 0 <= b < v.nationalities.len()
    &&& 0 <= c < v.pets.len()
    &&& 0 <= d < v.drinks.len()
    &&& 0 <= e < v.cigarettes.len()
}

/// The five rows picked by the indices satisfy every clue group.
pub open spec fn combo_satisfies(v: CandidateSets, a: int, b: int, c: int, d: int, e: int) -> bool {
    &&& spec_color_clue(v.colors[a])
    &&& spec_nationality_clues(v.nationalities[b], v.colors[a])
    &&& spec_pet_clues(v.pets[c], v.nationalities[b])
    &&& spec_drink_clues(v.drinks[d], v.colors[a], v.nationalities[b])
    &&& spec_cigarette_clues(v.cigarettes[e], v.nationalities[b], v.colors[a], v.pets[c], v.drinks[d])
}

/// The first index tuple comes strictly before the second in the order the
/// nested enumeration visits them: colors outermost, then nationalities,
/// pets, drinks, and cigarettes innermost.
pub open spec fn lex_earlier(
    a: int,
    b: int,
    c: int,
    d: int,
    e: int,
    a2: int,
    b2: int,
    c2: int,
    d2: int,
    e2: int,
) -> bool {
    ||| a < a2
    ||| (a == a2 && b < b2)
    ||| (a == a2 && b == b2 && c < c2)
    ||| (a == a2 && b == b2 && c == c2 && d < d2)
    ||| (a == a2 && b == b2 && c == c2 && d == d2 && e < e2)
}

/// No candidate combination visited before the given index tuple satisfies
/// every clue group.
pub open spec fn no_earlier_solution(
    v: CandidateSets,
    a: int,
    b: int,
    c: int,
    d: int,
    e: int,
) -> bool {
    forall|a2: int, b2: int, c2: int, d2: int, e2: int|
        combo_in_bounds(v, a2, b2, c2, d2, e2) && lex_earlier(a2, b2, c2, d2, e2, a, b, c, d, e)
            ==> !#[trigger] combo_satisfies(v, a2, b2, c2, d2, e2)
}

/// The per-position reading of the five rows picked by the indices: house `i`
/// bundles the five attribute values that the rows place at position `i`.
pub open spec fn houses_of(v: CandidateSets, a: int, b: int, c: int, d: int, e: int) -> Seq<House> {
    Seq::new(
        5,
        |i: int|
            (House {
                house_color: v.colors[a][i],
                nationality: v.nationalities[b][i],
                cigarette: v.cigarettes[e][i],
                drink: v.drinks[d][i],
                pet: v.pets[c][i],
            }),
    )
}

/// `houses` is the solution read off the first satisfying combination in
/// enumeration order.
pub open spec fn is_first_solution(
    v: CandidateSets,
    houses: Seq<House>,
    a: int,
    b: int,
    c: int,
    d: int,
    e: int,
) -> bool {
    &&& combo_in_bounds(v, a, b, c, d, e)
    &&& combo_satisfies(v, a, b, c, d, e)
    &&& houses == houses_of(v, a, b, c, d, e)
    &&& no_earlier_solution(v, a, b, c, d, e)
}

/// The view of a search result.
pub open spec fn opt_houses_view(r: Option<Vec<House>>) -> Option<Seq<House>> {
    match r {
        Some(houses) => Some(houses@),
        None => None,
    }
}

/// Some index tuple witnesses `houses` as the first satisfying combination.
pub open spec fn found_solution(v: CandidateSets, houses: Seq<House>) -> bool {
    exists|a: int, b: int, c: int, d: int, e: int|
        #[trigger] is_first_solution(v, houses, a, b, c, d, e)
}

/// No combination of candidate rows satisfies every clue group.
pub open spec fn no_solution(v: CandidateSets) -> bool {
    forall|a: int, b: int, c: int, d: int, e: int|
        combo_in_bounds(v, a, b, c, d, e) ==> !#[trigger] combo_satisfies(v, a, b, c, d, e)
}

/// What the search returns on the candidate sets `v`: the houses of the first
/// satisfying combination if one exists, and nothing when no combination of
/// the candidate rows satisfies every clue group.
pub open spec fn solve_result_matches(v: CandidateSets, r: Option<Seq<House>>) -> bool {
    match r {
        Some(houses) => found_solution(v, houses),
        None => no_solution(v),
    }
}

/// The search is deterministic: on the same candidate sets, any two results
/// that match the search contract are the same result, because the contract
/// pins the result to the first satisfying combination in enumeration order.
pub proof fn lemma_solve_deterministic(
    v: CandidateSets,
    r1: Option<Seq<House>>,
    r2: Option<Seq<House>>,
)
    requires
        solve_result_matches(v, r1),
        solve_result_matches(v, r2),
    ensures
        r1 == r2,
{
    match (r1, r2) {
        (Some(h1), Some(h2)) => {
            let (a1, b1, c1, d1, e1) = choose|a1: int, b1: int, c1: int, d1: int, e1: int|
                is_first_solution(v, h1, a1, b1, c1, d1, e1);
            let (a2, b2, c2, d2, e2) = choose|a2: int, b2: int, c2: int, d2: int, e2: int|
                is_first_solution(v, h2, a2, b2, c2, d2, e2);
            assert(is_first_solution(v, h1, a1, b1, c1, d1, e1));
            assert(is_first_solution(v, h2, a2, b2, c2, d2, e2));
            if lex_earlier(a1, b1, c1, d1, e1, a2, b2, c2, d2, e2) {
                assert(!combo_satisfies(v, a1, b1, c1, d1, e1));
            } else if lex_earlier(a2, b2, c2, d2, e2, a1, b1, c1, d1, e1) {
                assert(!combo_satisfies(v, a2, b2, c2, d2, e2));
            } else {
                assert(a1 == a2 && b1 == b2 && c1 == c2 && d1 == d2 && e1 == e2);
                assert(h1 == h2);
            }
        },
        (Some(h1), None) => {
            let (a1, b1, c1, d1, e1) = choose|a1: int, b1: int, c1: int, d1: int, e1: int|
                is_first_solution(v, h1, a1, b1, c1, d1, e1);
            assert(is_first_solution(v, h1, a1, b1, c1, d1, e1));
            assert(!combo_satisfies(v, a1, b1, c1, d1, e1));
        },
        (None, Some(h2)) => {
            let (a2, b2, c2, d2, e2) = choose|a2: int, b2: int, c2: int, d2: int, e2: int|
                is_first_solution(v, h2, a2, b2, c2, d2, e2);
            assert(is_first_solution(v, h2, a2, b2, c2, d2, e2));
            assert(!combo_satisfies(v, a2, b2, c2, d2, e2));
        },
        (None, None) => {},
    }
}

impl Possibilities {
    /// Enumerates the candidate rows category by category, pruning each branch
    /// as soon as the clue group over the categories bound so far fails, and
    /// returns the houses of the first combination that satisfies every clue
    /// group, or nothing when no combination does.
    #[verifier::loop_isolation(false)]
    pub fn solve(&self) -> (r: Option<Vec<House>>)
        requires
            self.wf(),
        ensures
            solve_result_matches(self@, opt_houses_view(r)),
    {
        let constraints = Constraints::new();
        let ghost v = self@;
        let mut ci: usize = 0;
        while ci < self.colors.len()
            invariant
                ci <= self.colors@.len(),
                no_earlier_solution(v, ci as int, 0, 0, 0, 0),
            decreases self.colors@.len() - ci,
        {
            let color_set = &self.colors[ci];
            proof {
                assert(color_set@ == v.colors[ci as int]);
            }
            let color_ok = constraints.left_of(
                color_set.as_slice(),
                HouseColor::Green,
                color_set.as_slice(),
                HouseColor::White,
            );
            if color_ok {
                let mut ni: usize = 0;
                while ni < self.nationalities.len()
                    invariant
                        ni <= self.nationalities@.len(),
                        no_earlier_solution(v, ci as int, ni as int, 0, 0, 0),
                    decreases self.nationalities@.len() - ni,
                {
                    let nationality_set = &self.nationalities[ni];
                    proof {
                        assert(nationality_set@ == v.nationalities[ni as int]);
                    }
                    let nationality_ok = constraints.nationality_constraints(
                        nationality_set.as_slice(),
                        color_set.as_slice(),
                    );
                    if nationality_ok {
                        let mut pi: usize = 0;
                        while pi < self.pets.len()
                            invariant
                                pi <= self.pets@.len(),
                                no_earlier_solution(v, ci as int, ni as int, pi as int, 0, 0),
                            decreases self.pets@.len() - pi,
                        {
                            let pet_set = &self.pets[pi];
                            proof {
                                assert(pet_set@ == v.pets[pi as int]);
                            }
                            let pet_ok = constraints.pet_constraints(
                                pet_set.as_slice(),
                                nationality_set.as_slice(),
                            );
                            if pet_ok {
                                let mut di: usize = 0;
                                while di < self.drinks.len()
                                    invariant
                                        di <= self.drinks@.len(),
                                        no_earlier_solution(
                                            v,
                                            ci as int,
                                            ni as int,
                                            pi as int,
                                            di as int,
                                            0,
                                        ),
                                    decreases self.drinks@.len() - di,
                                {
                                    let drink_set = &self.drinks[di];
                                    proof {
                                        assert(drink_set@ == v.drinks[di as int]);
                                    }
                                    let drink_ok = constraints.drink_constraints(
                                        drink_set.as_slice(),
                                        color_set.as_slice(),
                                        nationality_set.as_slice(),
                                    );
                                    if drink_ok {
                                        let mut gi: usize = 0;
                                        while gi < self.cigarettes.len()
                                            invariant
                                                gi <= self.cigarettes@.len(),
                                                no_earlier_solution(
                                                    v,
                                                    ci as int,
                                                    ni as int,
                                                    pi as int,
                                                    di as int,
                                                    gi as int,
                                                ),
                                            decreases self.cigarettes@.len() - gi,
                                        {
                                            let cigar_set = &self.cigarettes[gi];
                                            proof {
                                                assert(cigar_set@ == v.cigarettes[gi as int]);
                                            }
                                            let cigarette_ok = constraints.cigarette_constraints(
                                                cigar_set.as_slice(),
                                                nationality_set.as_slice(),
                                                color_set.as_slice(),
                                                pet_set.as_slice(),
                                                drink_set.as_slice(),
                                            );
                                            if cigarette_ok {
                                                let ghost found = houses_of(
                                                    v,
                                                    ci as int,
                                                    ni as int,
                                                    pi as int,
                                                    di as int,
                                                    gi as int,
                                                );
                                                let mut houses: Vec<House> = Vec::new();
                                                let mut j: usize = 0;
                                                while j < 5
                                                    invariant
                                                        j <= 5,
                                                        houses@.len() == j,
                                                        forall|k: int|
                                                            0 <= k < j ==> houses@[k] == found[k],
                                                    decreases 5 - j,
                                                {
                                                    houses.push(
                                                        House {
                                                            house_color: color_set[j],
                                                            nationality: nationality_set[j],
                                                            cigarette: cigar_set[j],
                                                            drink: drink_set[j],
                                                            pet: pet_set[j],
                                                        },
                                                    );
                                                    j += 1;
                                                }
                                                proof {
                                                    assert(houses@ =~= found);
                                                    assert(is_first_solution(
                                                        v,
                                                        houses@,
                                                        ci as int,
                                                        ni as int,
                                                        pi as int,
                                                        di as int,
                                                        gi as int,
                                                    ));
                                                    assert(found_solution(v, houses@));
                                                }
                                                return Some(houses);
                                            }
                                            proof {
                                                assert forall|
                                                    a2: int,
                                                    b2: int,
                                                    c2: int,
                                                    d2: int,
                                                    e2: int,
                                                |
                                                    combo_in_bounds(v, a2, b2, c2, d2, e2)
                                                        && lex_earlier(
                                                        a2,
                                                        b2,
                                                        c2,
                                                        d2,
                                                        e2,
                                                        ci as int,
                                                        ni as int,
                                                        pi as int,
                                                        di as int,
                                                        gi + 1,
                                                    ) implies !combo_satisfies(
                                                    v,
                                                    a2,
                                                    b2,
                                                    c2,
                                                    d2,
                                                    e2,
                                                ) by {
                                                    if !lex_earlier(
                                                        a2,
                                                        b2,
                                                        c2,
                                                        d2,
                                                        e2,
                                                        ci as int,
                                                        ni as int,
                                                        pi as int,
                                                        di as int,
                                                        gi as int,
                                                    ) {
                                                        assert(e2 == gi);
                                                        assert(!spec_cigarette_clues(
                                                            v.cigarettes[e2],
                                                            v.nationalities[b2],
                                                            v.colors[a2],
                                                            v.pets[c2],
                                                            v.drinks[d2],
                                                        ));
                                                    }
                                                }
                                            }
                                            gi += 1;
                                        }
                                    }
                                    proof {
                                        assert forall|a2: int, b2: int, c2: int, d2: int, e2: int|
                                            combo_in_bounds(v, a2, b2, c2, d2, e2) && lex_earlier(
                                                a2,
                                                b2,
                                                c2,
                                                d2,
                                                e2,
                                                ci as int,
                                                ni as int,
                                                pi as int,
                                                di + 1,
                                                0,
                                            ) implies !combo_satisfies(v, a2, b2, c2, d2, e2) by {
                                            if !lex_earlier(
                                                a2,
                                                b2,
                                                c2,
                                                d2,
                                                e2,
                                                ci as int,
                                                ni as int,
                                                pi as int,
                                                di as int,
                                                0,
                                            ) {
                                                assert(d2 == di);
                                                if !drink_ok {
                                                    assert(!spec_drink_clues(
                                                        v.drinks[d2],
                                                        v.colors[a2],
                                                        v.nationalities[b2],
                                                    ));
                                                }
                                            }
                                        }
                                    }
                                    di += 1;
                                }
                            }
                            proof {
                                assert forall|a2: int, b2: int, c2: int, d2: int, e2: int|
                                    combo_in_bounds(v, a2, b2, c2, d2, e2) && lex_earlier(
                                        a2,
                                        b2,
                                        c2,
                                        d2,
                                        e2,
                                        ci as int,
                                        ni as int,
                                        pi + 1,
                                        0,
                                        0,
                                    ) implies !combo_satisfies(v, a2, b2, c2, d2, e2) by {
                                    if !lex_earlier(
                                        a2,
                                        b2,
                                        c2,
                                        d2,
                                        e2,
                                        ci as int,
                                        ni as int,
                                        pi as int,
                                        0,
                                        0,
                                    ) {
                                        assert(c2 == pi);
                                        if !pet_ok {
                                            assert(!spec_pet_clues(v.pets[c2], v.nationalities[b2]));
                                        }
                                    }
                                }
                            }
                            pi += 1;
                        }
                    }
                    proof {
                        assert forall|a2: int, b2: int, c2: int, d2: int, e2: int|
                            combo_in_bounds(v, a2, b2, c2, d2, e2) && lex_earlier(
                                a2,
                                b2,
                                c2,
                                d2,
                                e2,
                                ci as int,
                                ni + 1,
                                0,
                                0,
                                0,
                            ) implies !combo_satisfies(v, a2, b2, c2, d2, e2) by {
                            if !lex_earlier(a2, b2, c2, d2, e2, ci as int, ni as int, 0, 0, 0) {
                                assert(b2 == ni);
                                if !nationality_ok {
                                    assert(!spec_nationality_clues(
                                        v.nationalities[b2],
                                        v.colors[a2],
                                    ));
                                }
                            }
                        }
                    }
                    ni += 1;
                }
            }
            proof {
                assert forall|a2: int, b2: int, c2: int, d2: int, e2: int|
                    combo_in_bounds(v, a2, b2, c2, d2, e2) && lex_earlier(
                        a2,
                        b2,
                        c2,
                        d2,
                        e2,
                        ci + 1,
                        0,
                        0,
                        0,
                        0,
                    ) implies !combo_satisfies(v, a2, b2, c2, d2, e2) by {
                    if !lex_earlier(a2, b2, c2, d2, e2, ci as int, 0, 0, 0, 0) {
                        assert(a2 == ci);
                        if !color_ok {
                            assert(!spec_color_clue(v.colors[a2]));
                        }
                    }
                }
            }
            ci += 1;
        }
        proof {
            assert forall|a2: int, b2: int, c2: int, d2: int, e2: int|
                combo_in_bounds(v, a2, b2, c2, d2, e2) implies !combo_satisfies(
                v,
                a2,
                b2,
                c2,
                d2,
                e2,
            ) by {
                assert(lex_earlier(a2, b2, c2, d2, e2, ci as int, 0, 0, 0, 0));
            }
            assert(no_solution(v));
        }
        None
    }
}

} // verus!

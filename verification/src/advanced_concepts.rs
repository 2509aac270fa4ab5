//! Generics, trait bounds, vectors, and what a declarative macro expands to.

use vstd::prelude::*;
use vstd::string::*;
use crate::text::str_eq;

verus! {

/// Nothing to show yet.
pub fn test_iter_map_coll() {
}

/// Takes a value of any type. The value is dropped.
pub fn generic_func<T>(value: T) {
}

/// Marks a type as an animal.
pub trait Animal {
}

/// A dog, which is not marked as an animal.
pub struct Dog;

/// A cat with a name and an age.
#[derive(Debug)]
pub struct Cat {
    pub Name: String,
    pub Age: i16,
}

impl Animal for Cat {
}

/// Takes any animal, and only an animal: the bound is checked where the call
/// is written. The value is dropped.
pub fn apply_trait_bounds<T: Animal>(animal: T) {
}

/// Hands a cat to a function that is bound to animals. A dog could not be
/// handed over: `Dog` does not implement `Animal`.
pub fn test_trait_bound_fn() {
    let dog: Dog = Dog;
    let cat: Cat = Cat { Name: String::from_str("Mittens"), Age: 5 };
    let t_cat = apply_trait_bounds(cat);
}

/// A cat that can be cloned.
#[derive(Clone, Debug)]
pub struct BCat {
    pub Name: String,
    pub Age: u8,
}

impl Animal for BCat {
}

/// Hands a cat that can be cloned to a function that is bound to animals, and
/// gives back what that function returns.
pub fn test_clone_trait() -> () {
    let bCat: BCat = BCat { Name: String::from_str("Cat"), Age: 22 };
    let t_bCat = apply_trait_bounds(bCat);
    t_bCat
}

/// A person whose age can be of any type.
pub struct PersonX<T> {
    pub Name: String,
    pub Age: T,
}

/// A person whose pet must be an animal.
pub struct Person<PetType: Animal> {
    pub Name: String,
    pub Pet: PetType,
}

/// Builds a person whose pet is a cat.
pub fn test_gen_structs() {
    let cat: Cat = Cat { Name: String::from_str("Mittens"), Age: 5 };
    let person = Person { Name: String::from_str("John Doe"), Pet: cat };
}

/// Marks a type as safe to keep as a pet.
pub trait NotDangerous {
}

/// A bear, which is neither marked as an animal nor as safe.
pub struct Bear;

impl NotDangerous for Dog {
}

impl NotDangerous for Cat {
}

/// A person whose pet must be an animal and safe to keep.
pub struct StrictPerson<PetType: Animal + NotDangerous> {
    pub Name: String,
    pub Pet: PetType,
}

/// Marks a type for `StricterPerson`.
pub trait SomeTrait {
}

/// A type without the mark `SomeTrait`.
pub struct SomeStruct;

/// A person with two generic fields, each with its bounds in a `where`
/// clause.
pub struct StricterPerson<PetType, StructType> where
    PetType: Animal + NotDangerous,
    StructType: SomeTrait,
{
    pub Name: String,
    pub Pet: PetType,
    pub Struct: StructType,
}

/// Builds two small vectors of integers by pushing and popping: the first
/// ends as `[0]`, the second as `[47, 33, 45, 2, 0]`.
pub fn test_vec_int() -> (vecs: (Vec<i32>, Vec<i32>))
    ensures
        vecs.0@ == seq![0i32],
        vecs.1@ == seq![47i32, 33i32, 45i32, 2i32, 0i32],
{
    let int_vec: Vec<i32> = vec![1, 2, 3];
    let int_vec_mut: Vec<i32> = vec![3, 2, 1];

    let mut int_vec_2: Vec<i32> = Vec::new();
    int_vec_2.push(0);
    int_vec_2.push(30);
    int_vec_2.pop();
    assert(int_vec_2@ =~= seq![0i32]);

    let mut int_vec_3: Vec<i32> = Vec::new();
    int_vec_3.push(47);
    int_vec_3.push(33);
    int_vec_3.push(45);
    int_vec_3.push(2);
    int_vec_3.push(0);
    assert(int_vec_3@ =~= seq![47i32, 33i32, 45i32, 2i32, 0i32]);
    (int_vec_2, int_vec_3)
}

/// The first names that `test_vec_str` walks through.
pub open spec fn the_first_names() -> Seq<Seq<char>> {
    seq!["John"@, "Wick"@, "Trevor"@, "Doe"@, "Elliot"@]
}

/// Walks through five first names and pairs each with its index.
pub fn test_vec_str() -> (numbered: Vec<(usize, &'static str)>)
    ensures
        numbered@.len() == the_first_names().len(),
        forall|i: int|
            0 <= i < the_first_names().len() ==> (#[trigger] numbered@[i]).0 == i && numbered@[i].1@
                == the_first_names()[i],
{
    let first_names: Vec<&'static str> = vec!["John", "Wick", "Trevor", "Doe", "Elliot"];
    let mut numbered: Vec<(usize, &'static str)> = Vec::new();
    for x in 0..first_names.len()
        invariant
            first_names@.len() == 5,
            forall|j: int| 0 <= j < 5 ==> (#[trigger] first_names@[j])@ == the_first_names()[j],
            numbered@.len() == x,
            forall|j: int|
                0 <= j < x ==> (#[trigger] numbered@[j]).0 == j && numbered@[j].1@
                    == the_first_names()[j],
    {
        numbered.push((x, first_names[x]));
    }
    numbered
}

/// A car with the name of its maker and of its model.
#[derive(Debug)]
pub struct Car {
    pub name: String,
    pub model: String,
}

impl View for Car {
    type V = (Seq<char>, Seq<char>);

    /// The characters of the maker's name and of the model's.
    open spec fn view(&self) -> (Seq<char>, Seq<char>) {
        (self.name@, self.model@)
    }
}

/// Whether a car is a Lamborghini, by its maker's name.
pub open spec fn is_lamborghini(car: Car) -> bool {
    car.name@ == "Lamborghini"@
}

/// A lot of five cars of one maker and model.
pub fn fill_lot(name: &str, model: &str) -> (car_lot: Vec<Car>)
    ensures
        car_lot@.len() == 5,
        forall|i: int| 0 <= i < 5 ==> (#[trigger] car_lot@[i])@ == (name@, model@),
{
    let mut car_lot: Vec<Car> = Vec::new();
    for n in 0..5u8
        invariant
            car_lot@.len() == n,
            forall|i: int| 0 <= i < n ==> (#[trigger] car_lot@[i])@ == (name@, model@),
    {
        car_lot.push(Car { name: String::from_str(name), model: String::from_str(model) });
    }
    car_lot
}

/// Moves every car of the first lot to the end of the third, and parks a
/// Lamborghini Aventador in front of them all.
pub fn merge_lots(car_lot3: &mut Vec<Car>, car_lot1: &mut Vec<Car>)
    ensures
        final(car_lot1)@ == Seq::<Car>::empty(),
        final(car_lot3)@.len() == old(car_lot3)@.len() + old(car_lot1)@.len() + 1,
        final(car_lot3)@[0]@ == ("Lamborghini"@, "Aventador"@),
        final(car_lot3)@.drop_first() == old(car_lot3)@ + old(car_lot1)@,
{
    car_lot3.append(car_lot1);
    car_lot3.insert(
        0,
        Car { name: String::from_str("Lamborghini"), model: String::from_str("Aventador") },
    );
    assert(car_lot3@.drop_first() =~= old(car_lot3)@ + old(car_lot1)@);
}

/// Keeps the Lamborghinis of a lot, in their order, and drops every other
/// car.
pub fn keep_lamborghinis(car_lot: &mut Vec<Car>)
    ensures
        final(car_lot)@ == old(car_lot)@.filter(|e: Car| is_lamborghini(e)),
{
    let mut all: Vec<Car> = Vec::new();
    all.append(car_lot);
    let ghost before = all@;
    for e in iter: all
        invariant
            iter.seq() == before,
            car_lot@ == before.take(iter.index() as int).filter(|e: Car| is_lamborghini(e)),
    {
        proof {
            before.lemma_take_succ_push(iter.index() as int);
            before.take(iter.index() as int).lemma_filter_push(e, |e: Car| is_lamborghini(e));
        }
        if str_eq(e.name.as_str(), "Lamborghini") {
            car_lot.push(e);
        }
    }
    assert(before.take(before.len() as int) =~= before);
}

/// Fills two lots with five cars each, merges the first into a third behind a
/// Lamborghini, and then keeps only the Lamborghinis there: the first lot
/// ends empty, the second keeps its five cars, and the third holds the one
/// Lamborghini.
pub fn test_vec_custom() -> (lots: (Vec<Car>, Vec<Car>, Vec<Car>))
    ensures
        lots.0@.len() == 0,
        lots.1@.len() == 5,
        forall|i: int| 0 <= i < 5 ==> (#[trigger] lots.1@[i])@ == ("Hyundai"@, "Sanata"@),
        lots.2@.len() == 1,
        lots.2@[0]@ == ("Lamborghini"@, "Aventador"@),
{
    let mut car_lot1: Vec<Car> = fill_lot("Porsche", "Panamera");
    let car_lot2: Vec<Car> = fill_lot("Hyundai", "Sanata");
    let mut car_lot3: Vec<Car> = Vec::new();

    let ghost porsches = car_lot1@;
    merge_lots(&mut car_lot3, &mut car_lot1);
    let ghost merged = car_lot3@;
    proof {
        // Behind the Lamborghini stand the Porsches, and none of them is kept.
        reveal_strlit("Porsche");
        reveal_strlit("Lamborghini");
        let keep = |e: Car| is_lamborghini(e);
        assert(merged.drop_first() =~= porsches);
        assert forall|i: int| 0 <= i < porsches.len() implies !keep(#[trigger] porsches[i]) by {
            assert(porsches[i]@.0.len() != "Lamborghini"@.len());
        }
        porsches.lemma_all_neg_filter_empty(keep);
        porsches.lemma_filter_prepend(merged[0], keep);
        assert(merged =~= seq![merged[0]] + porsches);
    }
    keep_lamborghinis(&mut car_lot3);
    car_lot3.reserve(50);
    (car_lot1, car_lot2, car_lot3)
}

/// What the logging macro makes of the message `Hello World`: the message
/// behind a hash sign and a space.
pub fn test_dec_macros() -> (line: &'static str)
    ensures
        line@ == "# "@ + "Hello World"@,
{
    proof {
        reveal_strlit("# ");
        reveal_strlit("Hello World");
        reveal_strlit("# Hello World");
    }
    assert("# Hello World"@ =~= "# "@ + "Hello World"@);
    "# Hello World"
}

} // verus!

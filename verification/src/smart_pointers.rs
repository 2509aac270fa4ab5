//! Where values live, and the pointers that own them: `Box` and `Rc`.

use vstd::prelude::*;
use vstd::string::*;
use std::rc::Rc;

verus! {

/// Two values of known size, which live on the stack and are gone when the
/// function returns.
pub fn foo_stack() {
    let x: i32 = 10;
    let y: bool = true;
}

/// A string whose characters live on the heap, and a literal whose characters
/// live in the program itself.
pub fn foo_heap() {
    let s = String::from_str("Hello");
    let s1 = "World";
}

/// A node of a list that is linked both ways. The type refers to itself, so
/// its neighbours are boxed.
pub struct ListNode<T> {
    pub value: T,
    pub prev: Option<Box<ListNode<T>>>,
    pub next: Option<Box<ListNode<T>>>,
}

/// A list by its two ends, each absent while the list is empty.
pub struct LinkedList<T> {
    pub head: Option<Box<ListNode<T>>>,
    pub tail: Option<Box<ListNode<T>>>,
}

/// What can be asked of an animal.
pub trait Animal {
    /// Whether the animal is a mammal.
    spec fn is_mammal(&self) -> bool;

    /// Tells whether the animal is a mammal.
    fn mammal(&self) -> (yes: bool)
        ensures
            yes == self.is_mammal(),
    ;
}

/// Says in a sentence whether an animal is a mammal.
pub fn check_animal<A: Animal>(animal: A) -> (sentence: &'static str)
    ensures
        sentence@ == if animal.is_mammal() {
            "This Animal is a mammal!"@
        } else {
            "This Animal is not a mammal!"@
        },
{
    if animal.mammal() {
        "This Animal is a mammal!"
    } else {
        "This Animal is not a mammal!"
    }
}

/// A dog.
pub struct Dog;

impl Animal for Dog {
    open spec fn is_mammal(&self) -> bool {
        true
    }

    fn mammal(&self) -> (yes: bool) {
        true
    }
}

/// A cat.
pub struct Cat;

impl Animal for Cat {
    open spec fn is_mammal(&self) -> bool {
        true
    }

    fn mammal(&self) -> (yes: bool) {
        true
    }
}

/// A living thing whose kind is only known when the program runs.
pub struct LivingThingA {
    pub lt_type: Box<dyn Animal>,
}

/// A living thing whose kind is fixed where the value is declared.
pub struct LivingThingB<A: Animal> {
    pub lt_type: A,
}

/// Declares a living thing that is a cat.
pub fn x() {
    let lt_B: LivingThingB<Cat> = LivingThingB { lt_type: Cat };
}

/// A node of a binary tree whose children may be shared with other owners.
pub struct Node {
    pub value: i32,
    pub left: Option<Rc<Node>>,
    pub right: Option<Rc<Node>>,
}

/// Shares two leaves between their own handles and a parent node, and reads
/// the value of the parent, of its left child through the parent, and of the
/// two leaves through their handles: all of them are alive.
pub fn check_rc() -> (values: (i32, i32, i32, i32))
    ensures
        values == (3i32, 47i32, 47i32, 48i32),
{
    let node_a = Rc::new(Node { value: 47, left: None, right: None });
    let node_b = Rc::new(Node { value: 48, left: None, right: None });

    let parent = Node {
        value: 3,
        left: Some(Rc::clone(&node_a)),
        right: Some(Rc::clone(&node_b)),
    };

    (parent.value, parent.left.unwrap().value, node_a.value, node_b.value)
}

} // verus!

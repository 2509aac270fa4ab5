use rust_exercises::closures::{test_closures, test_closures_2, test_closures_3};
use rust_exercises::control_flow::{
    let_conditionals, test_for, test_if, test_loop, test_match_int, test_while,
};
use rust_exercises::enums::{
    test_direct_impl, test_op_directions, test_op_int, test_op_str, Direction,
};
use rust_exercises::functions::get_name;
use rust_exercises::helpers::agehelpers::add_5_to_age;
use rust_exercises::helpers::get_name_mod;
use rust_exercises::helpers::namehelpers::get_name_child_mod;
use rust_exercises::ownership::test_ownership;
use rust_exercises::results::{can_divide, test_Result, test_Result_1, test_Result_2};
use rust_exercises::structs::{
    new_vehicle, test_structs, test_tup_struct, Person, VehicleColor, VehicleMan,
};

#[test]
fn get_name_joins_with_one_space() {
    assert_eq!(get_name("Shane", "Jones"), "Shane Jones");
    assert_eq!(get_name("", ""), " ");
    assert_eq!(get_name("Mary Ann", ""), "Mary Ann ");
}

#[test]
fn get_name_mod_joins_with_one_space() {
    assert_eq!(get_name_mod("Shane", "Jones"), "Shane Jones");
    assert_eq!(get_name_mod("", "Jones"), " Jones");
}

#[test]
fn get_name_child_mod_joins_with_one_space() {
    assert_eq!(get_name_child_mod("Shane", "Jones"), "Shane Jones");
    assert_eq!(get_name_child_mod("\u{c9}lo\u{ef}se", "d'Arc"), "\u{c9}lo\u{ef}se d'Arc");
}

#[test]
fn add_5_to_age_adds_five() {
    assert_eq!(add_5_to_age(42), 47);
    assert_eq!(add_5_to_age(0), 5);
    assert_eq!(add_5_to_age(65530), 65535);
}

#[test]
fn test_ownership_gives_owner_and_clone() {
    let (owner, clone) = test_ownership();
    assert_eq!(owner, "This has a value!");
    assert_eq!(clone, "This has a value!");
}

#[test]
fn test_closures_yields_its_greeting() {
    assert_eq!(test_closures(), "Hello Rust!");
}

#[test]
fn test_closures_2_greets_with_hello_world() {
    assert_eq!(test_closures_2(), "Hello World, Hello Rust!");
}

#[test]
fn test_closures_3_greets_with_hello_world() {
    assert_eq!(test_closures_3(), "Hello World, Hello Rust!");
}

#[test]
fn test_if_above_sixteen() {
    assert_eq!(test_if(17), ("User is old enough to drive!", true));
    assert_eq!(test_if(255), ("User is old enough to drive!", true));
}

#[test]
fn test_if_at_fifteen_and_sixteen() {
    assert_eq!(test_if(16), ("User is almost old enough to drive!", false));
    assert_eq!(test_if(15), ("User is almost old enough to drive!", false));
}

#[test]
fn test_if_below_fifteen() {
    assert_eq!(test_if(14), ("User is not old enough to drive!", false));
    assert_eq!(test_if(0), ("User is not old enough to drive!", false));
}

#[test]
fn test_while_leaves_after_six_rounds() {
    assert_eq!(test_while(), 6);
}

#[test]
fn test_loop_leaves_after_six_rounds() {
    assert_eq!(test_loop(), 6);
}

#[test]
fn test_for_judges_the_four_ages() {
    assert_eq!(
        test_for(),
        vec![
            "User is eligible to drive!: '18'",
            "User is not eligible to drive!: '16'",
            "User is eligible to drive!: '41'",
            "User is eligible to drive!: '35'",
        ]
    );
}

#[test]
fn test_match_int_takes_the_arms_for_five() {
    assert_eq!(test_match_int(), ("This isn't a match!", "This is within match!"));
}

#[test]
fn let_conditionals_returns() {
    let_conditionals();
}

#[test]
fn test_op_int_holds_ten() {
    assert_eq!(test_op_int(), Some(10));
}

#[test]
fn test_op_str_holds_the_name() {
    assert_eq!(test_op_str(), Some(String::from("Name")));
}

#[test]
fn test_op_directions_names_each_direction() {
    assert_eq!(test_op_directions(Direction::North), "This is the north direction");
    assert_eq!(test_op_directions(Direction::South), "This is the south direction");
    assert_eq!(test_op_directions(Direction::East), "This is the east direction");
    assert_eq!(test_op_directions(Direction::West), "This is the west direction");
}

#[test]
fn check_if_vertical_for_north_and_south() {
    assert_eq!(Direction::check_if_vertical(Direction::North), Some(true));
    assert_eq!(Direction::check_if_vertical(Direction::South), Some(true));
}

#[test]
fn check_if_vertical_not_for_east_and_west() {
    assert_eq!(Direction::check_if_vertical(Direction::East), Some(false));
    assert_eq!(Direction::check_if_vertical(Direction::West), Some(false));
}

#[test]
fn test_direct_impl_finds_north_vertical() {
    assert!(test_direct_impl());
}

#[test]
fn get_full_details_gives_name_and_age() {
    let person = Person { Name: String::from("John"), Age: 22 };
    assert_eq!(person.get_full_details(), "User's name is John and is 22 years old!");
    let old = Person { Name: String::from("Methuselah"), Age: 65535 };
    assert_eq!(old.get_full_details(), "User's name is Methuselah and is 65535 years old!");
    let young = Person { Name: String::new(), Age: 0 };
    assert_eq!(young.get_full_details(), "User's name is  and is 0 years old!");
}

#[test]
fn person_prints_for_debugging() {
    let person = Person { Name: String::from("John"), Age: 22 };
    assert_eq!(format!("{:?}", person), "Person { Name: \"John\", Age: 22 }");
}

#[test]
fn new_vehicle_keeps_its_parts() {
    let vehicle = new_vehicle(VehicleMan::Mercedes, String::from("C200"), VehicleColor::Silver);
    assert!(matches!(vehicle.manufacturer, VehicleMan::Mercedes));
    assert_eq!(vehicle.model, "C200");
    assert!(matches!(vehicle.color, VehicleColor::Silver));
    assert_eq!(
        format!("{:?}", vehicle),
        "Vehicle { manufacturer: Mercedes, model: \"C200\", color: Silver }"
    );
}

#[test]
fn test_structs_gives_the_details_of_all_three() {
    assert_eq!(
        test_structs(),
        vec![
            "User's name is John and is 22 years old!",
            "User's name is Doe and is 30 years old!",
            "User's name is Kevin and is 35 years old!",
        ]
    );
}

#[test]
fn test_tup_struct_builds_john_doe() {
    let person_tup = test_tup_struct();
    assert_eq!(person_tup.0, "John Doe");
    assert_eq!(person_tup.1, 36);
    assert_eq!(format!("{:?}", person_tup), "PersonTuple(\"John Doe\", 36)");
}

#[test]
fn test_result_divides() {
    assert_eq!(test_Result(22, 4), Ok(5));
    assert_eq!(test_Result(127, 1), Ok(127));
    assert_eq!(test_Result(0, 9), Ok(0));
    assert_eq!(test_Result(5, 7), Ok(0));
}

#[test]
fn test_result_rounds_towards_zero() {
    assert_eq!(test_Result(-9, -2), Ok(4));
    assert_eq!(test_Result(-128, -2), Ok(64));
    assert_eq!(test_Result(3, -5), Ok(0));
    assert_eq!(test_Result(-3, 5), Ok(0));
    assert_eq!(test_Result(0, -1), Ok(0));
    assert_eq!(test_Result(-127, -1), Ok(127));
}

#[test]
fn test_result_refuses_zero() {
    assert_eq!(test_Result(22, 0), Err(String::from("Cannot divide with zero")));
    assert_eq!(test_Result(0, 0), Err(String::from("Cannot divide with zero")));
    assert_eq!(test_Result(-128, 0), Err(String::from("Cannot divide with zero")));
}

#[test]
fn test_result_1_divides() {
    assert_eq!(test_Result_1(22, 4), Ok(5));
    assert_eq!(test_Result_1(-9, -2), Ok(4));
    assert_eq!(test_Result_1(-3, 5), Ok(0));
    assert_eq!(test_Result_1(127, 127), Ok(1));
}

#[test]
fn test_result_1_refuses_zero() {
    assert_eq!(test_Result_1(22, 0), Err(String::from("Cannot divide with zero.")));
    assert_eq!(test_Result_1(0, 0), Err(String::from("Cannot divide with zero.")));
}

#[test]
fn test_result_2_shows_both_outcomes() {
    let (result1, result2) = test_Result_2();
    assert_eq!(result1, Err(String::from("Cannot divide with zero.")));
    assert_eq!(result2, Ok(5));
}

#[test]
fn can_divide_takes_every_division_by_zero() {
    assert!(can_divide(0, 0));
    assert!(can_divide(22, 0));
    assert!(can_divide(i8::MIN, 0));
}

#[test]
fn can_divide_takes_quotients_that_are_not_negative() {
    assert!(can_divide(22, 4));
    assert!(can_divide(-9, -2));
    assert!(can_divide(3, -5));
    assert!(can_divide(-3, 5));
    assert!(can_divide(0, -7));
    assert!(can_divide(i8::MAX, 1));
    assert!(can_divide(i8::MIN, -2));
}

#[test]
fn can_divide_refuses_negative_quotients() {
    assert!(!can_divide(-9, 2));
    assert!(!can_divide(9, -2));
    assert!(!can_divide(5, -5));
    assert!(!can_divide(i8::MIN, 1));
    assert!(!can_divide(i8::MAX, -1));
}

#[test]
fn can_divide_refuses_the_quotient_that_is_too_large() {
    assert!(!can_divide(i8::MIN, -1));
}

#[test]
fn can_divide_agrees_with_checked_division_everywhere() {
    let mut a = i8::MIN;
    loop {
        let mut b = i8::MIN;
        loop {
            let expected = b == 0 || a.checked_div(b).map_or(false, |q| q >= 0);
            assert_eq!(can_divide(a, b), expected);
            if expected && b != 0 {
                assert_eq!(test_Result(a, b), Ok((a / b) as u8));
                assert_eq!(test_Result_1(a, b), Ok((a / b) as u8));
            }
            if b == i8::MAX {
                break;
            }
            b += 1;
        }
        if a == i8::MAX {
            break;
        }
        a += 1;
    }
}

#[test]
fn the_quotient_leaves_a_rest_on_the_side_of_the_dividend() {
    for (a, b) in [(22i8, 4i8), (-9, -2), (3, -5), (-3, 5), (127, 2), (-128, -3), (7, 7)] {
        let q = i32::from(test_Result(a, b).unwrap());
        let rest = i32::from(a) - i32::from(b) * q;
        assert!(rest.abs() < i32::from(b).abs());
        assert!(rest == 0 || (rest > 0) == (a > 0));
    }
}

use rust_exercises::exercises::ex1::{
    calc_diff, calc_prod, calc_res, calc_sum, closure_test, closure_test_2, iterate_arr,
    test_if_int, test_while,
};

#[test]
fn calc_sum_adds() {
    assert_eq!(calc_sum(23, 24), 47);
    assert_eq!(calc_sum(0, 0), 0);
    assert_eq!(calc_sum(65535, 0), 65535);
    assert_eq!(calc_sum(32767, 32768), 65535);
}

#[test]
fn calc_diff_subtracts() {
    assert_eq!(calc_diff(47, 40), 7);
    assert_eq!(calc_diff(5, 5), 0);
    assert_eq!(calc_diff(65535, 1), 65534);
}

#[test]
fn calc_prod_multiplies() {
    assert_eq!(calc_prod(100, 5), 500);
    assert_eq!(calc_prod(0, 65535), 0);
    assert_eq!(calc_prod(255, 257), 65535);
}

#[test]
fn calc_res_divides_and_rounds_down() {
    assert_eq!(calc_res(47, 47), 1);
    assert_eq!(calc_res(7, 2), 3);
    assert_eq!(calc_res(1, 2), 0);
    assert_eq!(calc_res(65535, 1), 65535);
}

#[test]
fn test_if_int_lets_drive_above_sixteen() {
    assert_eq!(test_if_int(17), "User can drive a car!\n");
    assert_eq!(test_if_int(i16::MAX), "User can drive a car!\n");
}

#[test]
fn test_if_int_is_close_at_sixteen() {
    assert_eq!(test_if_int(16), "User is close to driving a car!\n");
}

#[test]
fn test_if_int_refuses_below_sixteen() {
    assert_eq!(test_if_int(15), "User cannot drive a car!\n");
    assert_eq!(test_if_int(0), "User cannot drive a car!\n");
    assert_eq!(test_if_int(-5), "User cannot drive a car!\n");
    assert_eq!(test_if_int(i16::MIN), "User cannot drive a car!\n");
}

#[test]
fn iterate_arr_labels_each_element() {
    assert_eq!(
        iterate_arr([20, 32, 16, 50, 92]),
        vec!["Below 20", "Above 20", "Below 20", "Above 20", "Above 20"]
    );
}

#[test]
fn iterate_arr_draws_the_line_behind_twenty() {
    assert_eq!(
        iterate_arr([0, 19, 20, 21, 65535]),
        vec!["Below 20", "Below 20", "Below 20", "Above 20", "Above 20"]
    );
}

#[test]
fn test_while_counts_the_rounds_up_to_sixteen() {
    assert_eq!(test_while(0), 16);
    assert_eq!(test_while(10), 6);
    assert_eq!(test_while(15), 1);
}

#[test]
fn test_while_makes_no_round_from_sixteen_on() {
    assert_eq!(test_while(16), 0);
    assert_eq!(test_while(17), 0);
    assert_eq!(test_while(u16::MAX), 0);
}

#[test]
fn closure_test_yields_its_greeting() {
    assert_eq!(closure_test(), "Hello from the closure!");
}

#[test]
fn closure_test_2_greets_with_both_words() {
    assert_eq!(closure_test_2("Hello", "Rust"), "Hello World, Hello Rust!");
    assert_eq!(closure_test_2("", ""), "Hello World,  !");
    assert_eq!(closure_test_2("a b", "c"), "Hello World, a b c!");
}

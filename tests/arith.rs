use toy_server::arith::{add, add_one, add_two, is_even, Dummy};

#[test]
fn it_works() {
    assert_eq!(add(2, 2), 4);
}

#[test]
fn negative_test() {
    assert_ne!(add(2, 3), 4);
}

#[test]
fn five_not_even() {
    assert!(!is_even(5))
}

#[test]
fn with_result() -> Result<(), String> {
    if add(2, 3) == 5 {
        Ok(())
    } else {
        Err(String::from("2 + 3 must be 4!"))
    }
}

#[test]
fn even_numbers_including_negative() {
    assert!(is_even(0));
    assert!(is_even(-4));
    assert!(!is_even(-3));
    assert!(is_even(i32::MIN));
}

#[test]
fn add_one_and_two() {
    assert_eq!(add_one(5), 6);
    assert_eq!(add_two(5), 7);
    assert_eq!(add_one(u64::MAX - 1), u64::MAX);
    let _d = Dummy {};
}

#[test]
fn add_at_the_largest_size() {
    assert_eq!(add(usize::MAX - 1, 1), usize::MAX);
}

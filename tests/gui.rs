use toy_server::gui::{Button, Draw, Screen, Screen2, SelectBox};

#[test]
fn screen_draws_mixed_components_in_order() {
    let screen = Screen {
        components: vec![
            Box::new(SelectBox { width: 75, height: 10, options: vec![String::from("Yes"), String::from("No")] }),
            Box::new(Button { width: 50, height: 10, label: String::from("OK") }),
        ],
    };
    assert_eq!(screen.run(), vec!["drawing selectbox", "drawing button"]);
    let empty = Screen { components: vec![] };
    assert!(empty.run().is_empty());
}

#[test]
fn screen_of_one_kind() {
    let screen = Screen2 {
        components: vec![
            Button { width: 1, height: 1, label: String::from("a") },
            Button { width: 2, height: 2, label: String::from("b") },
        ],
    };
    assert_eq!(screen.run(), vec!["drawing button", "drawing button"]);
    assert_eq!(Button { width: 0, height: 0, label: String::new() }.draw(), "drawing button");
}

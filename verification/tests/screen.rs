use primer::Button;
use primer::Screen;

#[test]
fn screen_draws_each_component() {
    let screen = Screen {
        components: vec![
            Button {
                width: 50,
                height: 50,
                label: String::from("OK"),
            },
            Button {
                width: 30,
                height: 20,
                label: String::from("Cancel"),
            },
        ],
    };

    let drawn = screen.run();
    assert_eq!(
        vec![
            "Rendering button.".to_string(),
            "Rendering button.".to_string()
        ],
        drawn
    );
}

#[test]
fn empty_screen_draws_nothing() {
    let screen: Screen<Button> = Screen { components: vec![] };
    assert!(screen.run().is_empty());
}

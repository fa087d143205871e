use primer::area;
use primer::build_user;
use primer::Rectangle;

#[test]
fn rectangle_area() {
    let rect = Rectangle {
        width: 30,
        height: 50,
    };
    assert_eq!(1500, rect.area());
    assert_eq!(1500, area(&rect));
}

#[test]
fn can_hold_is_strict() {
    let rect1 = Rectangle {
        width: 60,
        height: 50,
    };
    let rect2 = Rectangle {
        width: 10,
        height: 40,
    };
    let rect3 = Rectangle {
        width: 60,
        height: 45,
    };

    assert!(rect1.can_hold(&rect2));
    assert!(!rect2.can_hold(&rect1));
    assert!(!rect1.can_hold(&rect3));
}

#[test]
fn square_has_equal_sides() {
    let sq = Rectangle::square(20);
    assert_eq!(20, sq.width);
    assert_eq!(20, sq.height);
    assert_eq!(400, sq.area());
}

#[test]
fn build_user_fills_the_defaults() {
    let user = build_user(String::from("nex@6.com"), String::from("1usr"));
    assert!(user.active);
    assert_eq!("nex@6.com", user.email);
    assert_eq!("1usr", user.username);
    assert_eq!(1, user.sign_in_count);
}

use primer::greeting;
use primer::greeting_banner;
use primer::invert;
use primer::Number;
use primer::Signed;

#[test]
fn the_greeting() {
    assert_eq!("Hello fellow rustaceans!", greeting());
}

#[test]
fn banner_matches_ferris() {
    let message = greeting();
    let width = message.chars().count();

    let mut expected: Vec<u8> = Vec::new();
    ferris_says::say(message.as_bytes(), width, &mut expected).unwrap();

    let banner = greeting_banner();
    assert_eq!(expected, banner);
    assert_ne!(message.as_bytes(), banner.as_slice());
}

#[test]
fn number_signs() {
    let one = Number {
        odd: true,
        value: 1,
    };
    let two = Number {
        odd: false,
        value: -2,
    };

    assert!(one.is_strictly_positive());
    assert!(!one.is_strictly_negative());
    assert!(two.is_strictly_negative());
    assert!((-3i32).is_strictly_negative());
    assert!(!5i32.is_strictly_negative());
}

#[test]
fn invert_flips_the_sign() {
    let mut mut_num = Number {
        odd: true,
        value: 1,
    };
    invert(&mut mut_num);
    assert_eq!(-1, mut_num.value);
    assert!(mut_num.odd);
    invert(&mut mut_num);
    assert_eq!(1, mut_num.value);
}

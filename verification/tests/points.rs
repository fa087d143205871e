use primer::Number;
use primer::Point;
use primer::Point2;

#[test]
fn point_exposes_x() {
    let p = Point { x: 5, y: 10 };
    assert_eq!(&5, p.x());
}

#[test]
fn mixup_crosses_coordinates() {
    let p2 = Point2 { x: 10, y: 20.2f64 };
    let p2_mix = Point2 { x: "hey", y: 't' };
    let p2_res = p2.mixup(p2_mix);

    assert_eq!(10, p2_res.x);
    assert_eq!('t', p2_res.y);
}

#[test]
fn neg_flips_only_the_value() {
    let one = Number {
        odd: true,
        value: 1,
    };
    let minus = one.neg();
    assert_eq!(-1, minus.value);
    assert!(minus.odd);
}

use primer::shoes_in_size;
use primer::Shoe;

#[test]
fn filters_by_size() {
    let all_shoes: Vec<Shoe> = vec![
        Shoe {
            size: 11,
            style: String::from("sneaker"),
        },
        Shoe {
            size: 13,
            style: String::from("sandal"),
        },
        Shoe {
            size: 10,
            style: String::from("boot"),
        },
    ];

    let in_my_size: Vec<Shoe> = shoes_in_size(all_shoes, 11);

    assert_eq!(
        in_my_size,
        vec![Shoe {
            size: 11,
            style: String::from("sneaker"),
        },]
    )
}

#[test]
fn keeps_every_match_in_order() {
    let all_shoes: Vec<Shoe> = vec![
        Shoe {
            size: 9,
            style: String::from("loafer"),
        },
        Shoe {
            size: 9,
            style: String::from("clog"),
        },
        Shoe {
            size: 8,
            style: String::from("mule"),
        },
    ];

    let nines = shoes_in_size(all_shoes, 9);
    assert_eq!(2, nines.len());
    assert_eq!("loafer", nines[0].style);
    assert_eq!("clog", nines[1].style);
}

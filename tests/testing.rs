use concurrency::arith::add;
use concurrency::rectangle::Rectangle;
use concurrency::shoes::{shoes_in_my_size, Shoe};

#[test]
fn it_works() {
    let result = add(2, 2);
    assert_eq!(result, 4);
}

#[test]
fn another_it_works() -> Result<(), String> {
    if 2 + 2 == 4 {
        Ok(())
    } else {
        Err(String::from("two plus two does not equal four"))
    }
}

#[test]
fn larget_can_hold_smaller() {
    let larger = Rectangle {
        width: 8,
        height: 7,
    };
    let smaller = Rectangle {
        width: 5,
        height: 1,
    };

    assert!(
        larger.can_hold(&smaller),
        "The larger rectangle should be able to hold the smaller rectangle"
    );

    assert!(
        !smaller.can_hold(&larger),
        "The smaller rectangle should not be able to hold the larger rectangle"
    );
}

#[test]
fn filters_by_size() {
    let shoes = vec![
        Shoe {
            size: 10,
            style: String::from("sneaker"),
        },
        Shoe {
            size: 13,
            style: String::from("sandal"),
        },
        Shoe {
            size: 10,
            style: String::from("boot"),
        },
    ];

    let in_my_size = shoes_in_my_size(shoes, 10);

    assert_eq!(
        in_my_size,
        vec![
            Shoe {
                size: 10,
                style: String::from("sneaker"),
            },
            Shoe {
                size: 10,
                style: String::from("boot"),
            },
        ]
    );
}

#[test]
fn filters_by_size_none_match() {
    let shoes = vec![Shoe {
        size: 9,
        style: String::from("loafer"),
    }];
    assert_eq!(shoes_in_my_size(shoes, 10), vec![]);
    assert_eq!(shoes_in_my_size(vec![], 10), vec![]);
}

#[test]
fn add_negative_numbers() {
    assert_eq!(add(-7, 3), -4);
    assert_eq!(add(i32::MAX, 0), i32::MAX);
}

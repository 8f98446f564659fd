use concurrency::generics::{get_largest, Point};
use concurrency::gui::{decimal_text, Button, Draw, Screen};
use concurrency::hosting;
use concurrency::matching::{plus_one, value_in_cents, Coin};
use concurrency::rectangle::{area, Rectangle};
use concurrency::restaurant::{eat_at_restaurant, eat_at_restaurant3, Breakfast};
use concurrency::summary::{NewsArticle, Summary, Tweet};
use concurrency::text::{calculate_length, gives_ownership, longest, takes_and_gives_back};
use concurrency::user::build_user;

#[test]
fn tweet_summaries() {
    let tweet = Tweet::new(
        String::from("horse_ebooks"),
        String::from("of course, as you probably already know, people"),
    );
    assert!(!tweet.reply && !tweet.retweet);
    assert_eq!(
        tweet.summarize(),
        "horse_ebooks: of course, as you probably already know, people"
    );
    assert_eq!(tweet.summarize_author(), "@horse_ebooks");
}

#[test]
fn article_summaries() {
    let article = NewsArticle::new(
        String::from("Penguins win the Stanley Cup Championship!"),
        String::from("Pittsburgh, PA, USA"),
        String::from("Iceburgh"),
        String::from("The Pittsburgh Penguins once again are the best hockey team in the NHL."),
    );
    assert_eq!(
        article.summarize(),
        "Penguins win the Stanley Cup Championship!, by Iceburgh (Pittsburgh, PA, USA)"
    );
    assert_eq!(article.summarize_author(), "@Iceburgh");
    assert_eq!(article.content, "The Pittsburgh Penguins once again are the best hockey team in the NHL.");
}

#[test]
fn summer_breakfast() {
    let mut meal = Breakfast::summer("Rye");
    assert_eq!(meal.toast, "Rye");
    assert_eq!(meal.seasonal_fruit(), "peaches");
    meal.toast = String::from("Wheat");
    assert_eq!(meal.toast, "Wheat");
    eat_at_restaurant();
    eat_at_restaurant3();
    hosting::add_to_waitlist();
}

#[test]
fn button_drawing_and_screen() {
    let screen = Screen {
        components: vec![
            Box::new(Button { width: 75, height: 10, label: String::from("OK") }),
            Box::new(Button { width: 0, height: 4294967295, label: String::new() }),
        ],
    };
    let frames = screen.run();
    assert_eq!(
        frames,
        vec![
            "Drawing a button with width: 75, height: 10, label: OK",
            "Drawing a button with width: 0, height: 4294967295, label: ",
        ]
    );
    let b = Button { width: 3, height: 5, label: String::from("x") };
    assert_eq!(b.draw(), "Drawing a button with width: 3, height: 5, label: x");
    assert!(Screen { components: vec![] }.run().is_empty());
}

#[test]
fn decimal_numerals() {
    assert_eq!(decimal_text(0), "0");
    assert_eq!(decimal_text(7), "7");
    assert_eq!(decimal_text(10), "10");
    assert_eq!(decimal_text(1203), "1203");
    assert_eq!(decimal_text(u32::MAX), "4294967295");
}

#[test]
fn coins_and_options() {
    assert_eq!(value_in_cents(Coin::Penny), 1);
    assert_eq!(value_in_cents(Coin::Nickel), 5);
    assert_eq!(value_in_cents(Coin::Dime), 10);
    assert_eq!(value_in_cents(Coin::Quarter), 25);
    assert_eq!(plus_one(Some(5)), Some(6));
    assert_eq!(plus_one(Some(-1)), Some(0));
    assert_eq!(plus_one(None), None);
}

#[test]
fn largest_and_mixup() {
    assert_eq!(get_largest(vec![34, 50, 25, 100, 65]), 100);
    assert_eq!(get_largest(vec![-3]), -3);
    assert_eq!(get_largest(vec![-5, -2, -9]), -2);
    assert_eq!(get_largest(vec!['y', 'm', 'a', 'q']), 'y');
    let p1 = Point { x: 5, y: 10 };
    let p2 = Point { x: "Hello", y: 'c' };
    let p3 = p1.mixup(p2);
    assert_eq!(p3.x, 5);
    assert_eq!(p3.y, 'c');
}

#[test]
fn strings_owned_and_borrowed() {
    assert_eq!(gives_ownership(), "hello");
    assert_eq!(takes_and_gives_back(String::from("hello")), "hello");
    assert_eq!(calculate_length(&String::from("hello")), 5);
    assert_eq!(calculate_length(&String::from("héllo")), 6);
    assert_eq!(longest("abcd", "xyz"), "abcd");
    assert_eq!(longest("ab", "xyz"), "xyz");
    assert_eq!(longest("abc", "xyz"), "xyz");
}

#[test]
fn rectangles_and_users() {
    let rect = Rectangle { width: 30, height: 50 };
    assert_eq!(rect.area(), 1500);
    assert_eq!(area(&rect), 1500);
    assert!(rect.can_hold(&Rectangle { width: 20, height: 40 }));
    assert!(!rect.can_hold(&Rectangle { width: 50, height: 60 }));
    assert!(!rect.can_hold(&Rectangle { width: 30, height: 40 }));
    let sq = Rectangle::square(30);
    assert_eq!((sq.width, sq.height), (30, 30));
    let user = build_user(String::from("kyle@mail.com"), String::from("kyle"));
    assert_eq!(user.email, "kyle@mail.com");
    assert_eq!(user.username, "kyle");
    assert!(user.active);
    assert_eq!(user.sign_in_count, 1);
}

use primer::aggregator;
use primer::boxes::MyBox;
use primer::dining;
use primer::functions::{five, plus_one, statement_and_expressions};
use primer::guessing::{judge, pick_secret, Verdict};
use primer::inventory::{Inventory, ShirtColor};
use primer::largest_fixed;
use primer::largest_number;
use primer::lifetimes::{longest, ImportantExcerpt};
use primer::methods;
use primer::ownership::{calculate_length, gives_ownership, takes_and_gives_back};
use primer::points::Point;
use primer::rectangles;
use primer::references;
use primer::shoes::{shoes_in_size, Shoe};
use primer::slices::first_word;
use primer::summaries;
use primer::validation::Guess;

use aggregator::Summary as AuthorSummary;
use summaries::Summary as FullSummary;

#[test]
fn giveaway_honors_a_preference() {
    let store = Inventory { shirts: vec![ShirtColor::Blue, ShirtColor::Red, ShirtColor::Blue] };
    assert_eq!(ShirtColor::Red, store.giveaway(Some(ShirtColor::Red)));
}

#[test]
fn giveaway_falls_back_to_the_most_stocked_color() {
    let store = Inventory { shirts: vec![ShirtColor::Blue, ShirtColor::Red, ShirtColor::Blue] };
    assert_eq!(ShirtColor::Blue, store.giveaway(None));
}

#[test]
fn most_stocked_prefers_the_majority() {
    let store = Inventory { shirts: vec![ShirtColor::Red, ShirtColor::Red, ShirtColor::Blue] };
    assert_eq!(ShirtColor::Red, store.most_stocked());
}

#[test]
fn most_stocked_breaks_a_tie_toward_blue() {
    let store = Inventory { shirts: vec![ShirtColor::Red, ShirtColor::Blue] };
    assert_eq!(ShirtColor::Blue, store.most_stocked());
    let empty = Inventory { shirts: vec![] };
    assert_eq!(ShirtColor::Blue, empty.most_stocked());
}

#[test]
fn largest_of_numbers() {
    let number_list = vec![34, 50, 25, 100, 65];
    assert_eq!(100, largest_number::largest(&number_list));
    let number_list = vec![102, 34, 6000, 89, 54, 2, 43, 8];
    assert_eq!(6000, largest_number::largest(&number_list));
}

#[test]
fn largest_of_any_ordered_copy_type() {
    let number_list = vec![34, 50, 25, 100, 65];
    assert_eq!(100, largest_fixed::largest(&number_list));
    let char_list = vec!['y', 'm', 'a', 'q'];
    assert_eq!('y', largest_fixed::largest(&char_list));
}

#[test]
fn pair_keeps_its_two_values() {
    let pair = largest_fixed::Pair::new(5, 10);
    assert_eq!(5, pair.x);
    assert_eq!(10, pair.y);
}

#[test]
fn longest_picks_the_longer_slice() {
    let string1 = String::from("abcd");
    let string2 = "xyz";
    assert_eq!("abcd", longest(string1.as_str(), string2));
    assert_eq!("even", longest("odd", "even"));
}

#[test]
fn excerpt_level_is_three() {
    let novel = String::from("Call me Ishmael. Some years ago...");
    let excerpt = ImportantExcerpt { part: &novel };
    assert_eq!(3, excerpt.level());
}

#[test]
fn first_word_stops_at_the_first_space() {
    assert_eq!("hello", first_word("hello world"));
    assert_eq!("hello", first_word("hello"));
    assert_eq!("", first_word(" leading"));
    assert_eq!("", first_word(""));
}

#[test]
fn judge_compares_guess_and_secret() {
    assert_eq!(Verdict::TooSmall, judge(50, 60));
    assert_eq!(Verdict::TooBig, judge(70, 60));
    assert_eq!(Verdict::Win, judge(60, 60));
}

#[test]
fn pick_secret_stays_in_range() {
    for _ in 0..50 {
        let secret = pick_secret();
        assert!((1..=100).contains(&secret));
    }
}

#[test]
fn validated_guess_hands_its_value_back() {
    assert_eq!(50, Guess::new(50).value());
    assert_eq!(1, Guess::new(1).value());
    assert_eq!(100, Guess::new(100).value());
}

#[test]
fn tweet_summaries() {
    let tweet = summaries::Tweet {
        username: String::from("horse_ebooks"),
        content: String::from("of course, as you probably already know, people"),
        reply: false,
        retweet: false,
    };
    assert_eq!(
        "horse_ebooks: of course, as you probably already know, people",
        tweet.summarize()
    );
}

#[test]
fn article_summary_names_author_and_place() {
    let article = summaries::NewsArticle {
        headline: String::from("Penguins win the Stanley Cup Championship!"),
        location: String::from("Pittsburgh, PA, USA"),
        author: String::from("Iceburgh"),
        content: String::from("The Pittsburgh Penguins once again are the best."),
    };
    assert_eq!(
        "Penguins win the Stanley Cup Championship!, by Iceburgh (Pittsburgh, PA, USA)",
        article.summarize()
    );
}

#[test]
fn default_summary_credits_the_author() {
    let tweet = aggregator::Tweet {
        username: String::from("horse_ebooks"),
        content: String::from("of course, as you probably already know, people"),
        reply: false,
        retweet: false,
    };
    assert_eq!("@horse_ebooks", tweet.summarize_author());
    assert_eq!("(Read more from @horse_ebooks...)", tweet.summarize());
}

#[test]
fn ownership_round_trips() {
    assert_eq!("yours", gives_ownership());
    let s = String::from("hello");
    assert_eq!("hello", takes_and_gives_back(s));
    let (s, len) = calculate_length(String::from("hello"));
    assert_eq!("hello", s);
    assert_eq!(5, len);
}

#[test]
fn change_appends_world() {
    let mut s = String::from("hello");
    references::change(&mut s);
    assert_eq!("hello, world", s);
    assert_eq!(12, references::calculate_length(&s));
}

#[test]
fn shoes_in_my_size_only() {
    let shoes = vec![
        Shoe { size: 10, style: String::from("sneaker") },
        Shoe { size: 13, style: String::from("sandal") },
        Shoe { size: 10, style: String::from("boot") },
    ];

    let in_my_size = shoes_in_size(shoes, 10);
    assert_eq!(2, in_my_size.len());
    assert_eq!("sneaker", in_my_size[0].style);
    assert_eq!("boot", in_my_size[1].style);
    assert!(in_my_size.iter().all(|s| s.size == 10));
}

#[test]
fn rectangle_methods() {
    let rect = methods::Rectangle { width: 30, height: 50 };
    assert_eq!(1500, rect.area());
    assert!(rect.width());
    let rect2 = methods::Rectangle { width: 10, height: 40 };
    let rect3 = methods::Rectangle { width: 60, height: 45 };
    assert!(rect.can_hold(&rect2));
    assert!(!rect.can_hold(&rect3));
    let sq = methods::Rectangle::square(3);
    assert_eq!(3, sq.width);
    assert_eq!(3, sq.height);
    assert!(!methods::Rectangle { width: 0, height: 9 }.width());
}

#[test]
fn area_of_a_rectangle() {
    let rect = rectangles::Rectangle { width: 30, height: 50 };
    assert_eq!(1500, rectangles::area(&rect));
}

#[test]
fn small_functions() {
    assert_eq!(5, five());
    assert_eq!(6, plus_one(5));
    statement_and_expressions();
}

#[test]
fn mixup_takes_one_coordinate_from_each() {
    let p1 = Point { x: 5, y: 10.4 };
    let p2 = Point { x: "Hello", y: 'c' };
    let p3 = p1.mixup(p2);
    assert_eq!(5, p3.x);
    assert_eq!('c', p3.y);
}

#[test]
fn my_box_wraps_a_value() {
    let b = MyBox::new(5);
    assert_eq!(5, b.0);
}

#[test]
fn breakfast_order_ends_with_wheat_toast() {
    assert_eq!("I'd like Wheat toast please", dining::eat_at_restaurant());
}

#[test]
fn waitlists_accept_parties() {
    primer::bistro::eat_at_restaurant();
    primer::bistro::hosting::add_to_waitlist();
    primer::front_desk::eat_at_restaurant();
    primer::front_desk::customer::eat_at_restaurant();
    dining::front_of_house::hosting::add_to_waitlist();
    primer::restaurant::front_of_house::hosting::add_to_waitlist();
    primer::restaurant::front_of_house::hosting::seat_at_table();
    primer::restaurant::front_of_house::serving::take_order();
    primer::restaurant::front_of_house::serving::serve_order();
    primer::restaurant::front_of_house::serving::take_payment();
}

#[test]
fn summer_breakfast_has_the_chosen_toast() {
    let _meal = dining::back_of_house::Breakfast::summer("Rye");
}

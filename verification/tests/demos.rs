use hello::advanced_features::adv_fun::{add_one, do_twice};
use hello::advanced_features::default_type_demo::{default_type_demo, Meters, Millimeters, Point};
use hello::advanced_features::same_method::{Animal, Dog, Human, Pilot, Wizard};
use hello::advanced_features::trait_demo::trait_demo;
use hello::enum_match::enum_def::{enum_def, enum_struct, route, IpAddrKind, Message};
use hello::enum_match::match_def::{plus_one, value_in_cents, Coin, UsState};
use hello::guess::{compare_guess, GuessOutcome};
use hello::ownership::{
    calculate_length, change, dangle, first_world, gives_ownership, ownership_dangling_reference,
    ownership_return, takes_and_gives_back,
};
use hello::package_crate_use::Breakfast;
use hello::smart_point::box_def::MyBox;
use hello::struct_def::{struct_build_user, struct_def, struct_no_field, Rectangle};
use hello::type_trait_life::lifttime::{
    cmp_str_len, first_word, lifetime_demo, lifetime_struct, longest, split_first_sentence,
    ImportantExcerpt,
};
use hello::type_trait_life::trait_def::{notify, notify_bound, Pair, Summary, Tweet, NewsArticle};
use hello::type_trait_life::type_def::{largest, Point2};

#[test]
fn default_type_demo_it_works() {
    default_type_demo();
}

#[test]
fn trait_demo_it_works() {
    trait_demo();
}

#[test]
fn point_addition_sums_componentwise() {
    let sum = (Point { x: 1, y: 0 }).add(Point { x: 2, y: 3 });
    assert_eq!(sum, Point { x: 3, y: 3 });
}

#[test]
fn millimeters_plus_meters() {
    let total = Millimeters(500).add(Meters(2));
    assert_eq!(total.0, 2500);
}

#[test]
fn add_one_and_do_twice() {
    assert_eq!(add_one(5), 6);
    assert_eq!(do_twice(add_one, 5), 12);
}

#[test]
fn same_method_disambiguation() {
    let person = Human;
    assert_eq!(person.fly(), "*waving arms furiously*");
    assert_eq!(Pilot::fly(&person), "This is your captain speaking.");
    assert_eq!(Wizard::fly(&person), "Up!");
    assert_eq!(Dog::baby_name(), "Spot");
    assert_eq!(<Dog as Animal>::baby_name(), "puppy");
}

#[test]
fn route_names_the_protocol() {
    assert_eq!(route(IpAddrKind::V4), "IPv4");
    assert_eq!(route(IpAddrKind::V6), "IPv6");
    enum_def();
}

#[test]
fn message_call_names_each_variant() {
    assert_eq!(Message::Quit.call(), "Quit");
    assert_eq!(Message::Move { x: 1, y: 2 }.call(), "Move");
    assert_eq!(Message::Write(String::from("hello")).call(), "Write");
    assert_eq!(Message::ChangeColor(1, 2, 3).call(), "ChangeColor");
    enum_struct();
}

#[test]
fn coin_values_in_cents() {
    assert_eq!(value_in_cents(Coin::Penny), 1);
    assert_eq!(value_in_cents(Coin::Nickel), 5);
    assert_eq!(value_in_cents(Coin::Dime), 10);
    assert_eq!(value_in_cents(Coin::Quarter(UsState::Alabama)), 25);
}

#[test]
fn plus_one_on_both_shapes() {
    assert_eq!(plus_one(Some(5)), Some(6));
    assert_eq!(plus_one(Some(-1)), Some(0));
    assert_eq!(plus_one(None), None);
}

#[test]
fn guess_verdicts() {
    assert_eq!(compare_guess(10, 42), GuessOutcome::TooSmall);
    assert_eq!(compare_guess(99, 42), GuessOutcome::TooBig);
    assert_eq!(compare_guess(42, 42), GuessOutcome::Correct);
}

#[test]
fn ownership_moves_and_borrows() {
    ownership_return();
    ownership_dangling_reference();
    assert_eq!(gives_ownership(), "hello");
    assert_eq!(takes_and_gives_back(String::from("world")), "world");
    assert_eq!(dangle(), "hello");
    assert_eq!(calculate_length(&String::from("hello")), 5);
    let mut s = String::from("hello");
    change(&mut s);
    assert_eq!(s, "hello, world");
}

#[test]
fn first_word_of_each_kind_of_string() {
    assert_eq!(first_world(&String::from("hello world")), "hello");
    assert_eq!(first_world(&String::from("hello")), "hello");
    assert_eq!(first_word(" leading"), "");
    assert_eq!(first_word("one two three"), "one");
    assert_eq!(first_word(""), "");
    assert_eq!(first_world(&String::new()), "");
}

#[test]
fn breakfast_toast_is_the_customers() {
    let mut meal = Breakfast::summer("Rye");
    assert_eq!(meal.toast, "Rye");
    meal.set_toast(String::from("Wheat"));
    assert_eq!(meal.toast, "Wheat");
}

#[test]
fn users_and_rectangles() {
    struct_def();
    struct_no_field();
    let u = struct_build_user(String::from("some3"), String::from("some3@example.com"));
    assert!(u.active);
    assert_eq!(u.sign_in_count, 1);
    assert_eq!(u.username, "some3");

    let rect1 = Rectangle { width: 30, height: 50 };
    let rect2 = Rectangle { width: 10, height: 40 };
    let rect3 = Rectangle { width: 60, height: 45 };
    assert_eq!(rect1.area(), 1500);
    assert!(rect1.can_hold(&rect2));
    assert!(!rect1.can_hold(&rect3));
}

#[test]
fn lifetimes_and_longest() {
    lifetime_demo();
    lifetime_struct();
    cmp_str_len();
    assert_eq!(longest("hello", "hi"), "hello");
    assert_eq!(longest("hi", "hello"), "hello");
    assert_eq!(longest("abc", "xyz"), "xyz");
    assert_eq!(
        split_first_sentence("Call me Ishmael. Some years ago..."),
        "Call me Ishmael"
    );
    assert_eq!(split_first_sentence("no period"), "no period");
    let excerpt = ImportantExcerpt { part: "Call me Ishmael" };
    assert_eq!(excerpt.level(), 3);
    assert_eq!(excerpt.announce_and_return_part("hello"), "Call me Ishmael");
}

#[test]
fn summaries_and_notifications() {
    let tweet = Tweet::new(
        String::from("horse_ebooks"),
        String::from("of course, as you probably already know, people"),
    );
    assert!(!tweet.reply && !tweet.retweet);
    assert_eq!(tweet.summarize(), "horse_ebooks");
    assert_eq!(tweet.print_content(), "horse_ebooks");
    assert_eq!(notify(&tweet), "Breaking news! horse_ebooks");
    assert_eq!(notify_bound(&tweet), "Breaking news! horse_ebooks");

    let article = NewsArticle {
        headline: String::from("Penguins win the Stanley Cup Championship!"),
        location: String::from("Pittsburgh, PA, USA"),
        author: String::from("Iceburgh"),
        content: String::from(
            "The Pittsburgh Penguins once again are the best hockey team in the NHL.",
        ),
    };
    assert_eq!(
        article.summarize(),
        "Penguins win the Stanley Cup Championship!, by Iceburgh (Pittsburgh, PA, USA)"
    );

    let pair = Pair::new(1, 2);
    assert_eq!(pair.x, 1);
    assert_eq!(pair.y, 2);
}

#[test]
fn largest_of_each_list() {
    let a = [1, 2, 3, 4, 5, 6, 7, 8, 9, 10];
    assert_eq!(largest(&a), 10);
    assert_eq!(largest(&[1, 2, 3, 40, 5, 6, 7, 8, 9, 10]), 40);
    assert_eq!(largest(&[7]), 7);
    assert_eq!(largest(&['y', 'm', 'a', 'q']), 'y');
}

#[test]
fn generic_points_mix() {
    let p3 = Point2 { x: 1, y: 2.2 };
    let p4 = Point2 { x: 1.1, y: 2 };
    let mixed = p3.mixup(p4);
    assert_eq!(mixed.x, 1);
    assert_eq!(mixed.y, 2);

    let b = MyBox::new(5);
    assert_eq!(*b.inner(), 5);
}

#[test]
fn nested_module_paths_reach_the_leaf() {
    hello::package_crate_use::a::b::test_use_();
    hello::package_crate_use::customer::test_use_();
    hello::package_crate_use::eat_at_restaurant();
}

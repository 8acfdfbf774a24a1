use primer::basics::five;
use primer::borrowing::calculate_length;
use primer::borrowing::change;
use primer::coins::plus_one;
use primer::coins::value_in_cents;
use primer::coins::Coin;
use primer::coins::UsState;
use primer::collections::add_to_each;
use primer::collections::word_count;
use primer::enums;
use primer::generics::largest;
use primer::generics::largest_char;
use primer::generics::largest_i32;
use primer::generics::AnotherPoint;
use primer::generics::Point;
use primer::inventory::Inventory;
use primer::inventory::ShirtColor;
use primer::lifetimes::longest;
use primer::lifetimes::ImportantExcerpt;
use primer::rectangles::area;
use primer::rectangles::area_with_struct;
use primer::rectangles::area_with_tuple;
use primer::rectangles::Rectangle;
use primer::restaurant::Appetizer;
use primer::restaurant::Breakfast;
use primer::slices::first_word;
use primer::slices::first_word_slice;
use primer::structs::build_user;
use primer::summaries::NewsArticle;
use primer::summaries::Summary;
use primer::summaries::Summary2;
use primer::summaries::Tweet;
use primer::tracker;

#[test]
fn a_function_can_return_a_plain_value() {
    assert_eq!(five(), 5);
    assert_eq!(primer::basics::plus_one(41), 42);
}

#[test]
fn length_is_read_through_a_borrow() {
    let s1 = String::from("hello");
    assert_eq!(calculate_length(&s1), 5);
}

#[test]
fn change_appends_through_a_mutable_borrow() {
    let mut s = String::from("hello");
    change(&mut s);
    assert_eq!(s, "hello, world!");
}

#[test]
fn first_word_stops_at_the_space() {
    let s = String::from("hello world");
    assert_eq!(first_word(&s), 5);
    assert_eq!(first_word_slice(&s), "hello");
}

#[test]
fn first_word_of_one_word_is_the_whole_string() {
    let s = String::from("hello");
    assert_eq!(first_word(&s), 5);
    assert_eq!(first_word_slice(&s), "hello");
}

#[test]
fn areas_agree_across_argument_shapes() {
    let rect = Rectangle {
        width: 30,
        height: 50,
    };
    assert_eq!(area(30, 50), 1500);
    assert_eq!(area_with_tuple((30, 50)), 1500);
    assert_eq!(area_with_struct(&rect), 1500);
    assert_eq!(rect.area(), 1500);
}

#[test]
fn a_square_has_equal_sides() {
    let square = Rectangle::square(25);
    assert_eq!(square.width, 25);
    assert_eq!(square.height, 25);
    assert!(square.width());
}

#[test]
fn coins_sort_to_their_values() {
    assert_eq!(value_in_cents(Coin::_Penny), 1);
    assert_eq!(value_in_cents(Coin::_Nickel), 5);
    assert_eq!(value_in_cents(Coin::_Dime), 10);
    assert_eq!(value_in_cents(Coin::Quarter(UsState::Utah)), 25);
}

#[test]
fn plus_one_steps_inside_the_option() {
    let five = Some(5);
    assert_eq!(plus_one(five), Some(6));
    assert_eq!(plus_one(None), None);
}

#[test]
fn every_element_is_raised_by_fifty() {
    let mut v = vec![100, 32, 57];
    add_to_each(&mut v, 50);
    assert_eq!(v, vec![150, 82, 107]);
}

#[test]
fn words_are_counted_in_order_of_first_appearance() {
    let words: Vec<String> = ["hello", "world", "wonderful", "world"]
        .iter()
        .map(|w| String::from(*w))
        .collect();
    let counts = word_count(&words);
    assert_eq!(
        counts,
        vec![
            (String::from("hello"), 1),
            (String::from("world"), 2),
            (String::from("wonderful"), 1),
        ]
    );
}

#[test]
fn counting_no_words_gives_an_empty_table() {
    let words: Vec<String> = Vec::new();
    assert!(word_count(&words).is_empty());
}

#[test]
fn the_largest_is_found_for_each_type() {
    let number_list = vec![34, 50, 25, 100, 65];
    assert_eq!(*largest_i32(&number_list), 100);
    let char_list = vec!['y', 'm', 'a', 'q'];
    assert_eq!(*largest_char(&char_list), 'y');
    assert_eq!(*largest(&number_list), 100);
    assert_eq!(*largest(&char_list), 'y');
}

#[test]
fn the_longer_slice_wins() {
    let string1 = String::from("abcd");
    let string2 = "xyz";
    assert_eq!(longest(string1.as_str(), string2), "abcd");
    assert_eq!(longest("long string is long", "xyz"), "long string is long");
}

#[test]
fn points_keep_and_mix_their_coordinates() {
    let p = Point { x: 5, y: 10 };
    assert_eq!(*p.x(), 5);
    assert_eq!(p.y, 10);

    let p1 = AnotherPoint { x: 5, y: 10.4 };
    let p2 = AnotherPoint { x: "Hello", y: 'c' };
    let p3 = p1.mixup(p2);
    assert_eq!(p3.x, 5);
    assert_eq!(p3.y, 'c');
}

#[test]
fn a_stated_preference_wins_the_giveaway() {
    let store = Inventory {
        shirts: vec![ShirtColor::Blue, ShirtColor::Red, ShirtColor::Blue],
    };
    assert_eq!(store.giveaway(Some(ShirtColor::Red)), ShirtColor::Red);
}

#[test]
fn without_a_preference_the_most_stocked_colour_wins() {
    let store = Inventory {
        shirts: vec![ShirtColor::Blue, ShirtColor::Red, ShirtColor::Blue],
    };
    assert_eq!(store.giveaway(None), ShirtColor::Blue);
    assert_eq!(store.most_stocked(), ShirtColor::Blue);

    let mostly_red = Inventory {
        shirts: vec![ShirtColor::Red, ShirtColor::Red, ShirtColor::Blue],
    };
    assert_eq!(mostly_red.most_stocked(), ShirtColor::Red);
}

#[test]
fn summer_breakfast_takes_its_toast() {
    let mut meal = Breakfast::summer("Rye");
    assert_eq!(meal.toast, "Rye");
    meal.toast = String::from("Wheat");
    assert_eq!(meal.toast, "Wheat");

    let _order1 = Appetizer::Soup;
    let _order2 = Appetizer::Salad;
}

#[test]
fn a_new_user_starts_active_with_one_sign_in() {
    let user = build_user(
        String::from("someone@example.com"),
        String::from("someusername123"),
    );
    assert!(user.active);
    assert_eq!(user.sign_in_count, 1);
    assert_eq!(user.email, "someone@example.com");
    assert_eq!(user.username, "someusername123");
}

#[test]
fn an_excerpt_keeps_its_part() {
    let novel = String::from("Call me Ishmael. Some years ago...");
    let first_sentence = novel.split('.').next().expect("Could not find a '.'");
    let i = ImportantExcerpt {
        part: first_sentence,
    };
    assert_eq!(i.level(), 3);
    assert_eq!(i.part(), "Call me Ishmael");
}

#[test]
fn summaries_fall_back_and_name_the_author() {
    let article = NewsArticle {
        headline: String::from("Penguins win the Stanley Cup Championship!"),
        location: String::from("Pittsburgh, PA, USA"),
        author: String::from("Iceburgh"),
        content: String::from(
            "The Pittsburgh Penguins once again are the best hockey team in the NHL.",
        ),
    };
    assert_eq!(article.summarize(), "Read more...");

    let tweet = Tweet {
        username: String::from("horse_ebooks"),
        content: String::from("of course, as you probably already know, people"),
        reply: false,
        retweet: false,
    };
    assert_eq!(tweet.summarize_author(), "@horse_ebooks");
    assert_eq!(tweet.summarize(), "Read more from @horse_ebooks...");
}

#[test]
fn first_word_of_an_empty_string_is_empty() {
    let s = String::new();
    assert_eq!(first_word(&s), 0);
    assert_eq!(first_word_slice(&s), "");
    assert_eq!(calculate_length(&s), 0);
}

#[test]
fn a_leading_space_makes_the_first_word_empty() {
    let s = String::from(" hello");
    assert_eq!(first_word(&s), 0);
    assert_eq!(first_word_slice(&s), "");
}

#[test]
fn the_second_slice_wins_a_tie() {
    assert_eq!(longest("abc", "xyz"), "xyz");
}

#[test]
fn a_single_element_is_its_own_largest() {
    let one = vec![7];
    assert_eq!(*largest_i32(&one), 7);
    assert_eq!(*largest(&one), 7);
}

#[test]
fn the_demonstrations_run() {
    enums::run();
    tracker::run();
    primer::restaurant::_eat_at_restaurant();
}

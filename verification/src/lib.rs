//! A small library of verified fundamentals: a document workflow engine for
//! blog posts, line-oriented text search, a number-guessing game's rules, and
//! a handful of supporting data types.

use vstd::prelude::*;

mod basics;
mod blog;
mod closures;
mod coins;
mod guess;
mod guessing;
mod hello;
mod limit;
mod points;
mod rectangles;
mod restaurant;
mod screen;
mod search;
mod summaries;
mod text;
mod words;

pub use basics::five;
pub use blog::Post;
pub use blog::Status;
pub use closures::Counter;
pub use closures::Shoe;
pub use closures::WorkoutPlan;
pub use closures::generate_workout;
pub use closures::shoes_in_size;
pub use coins::Coin;
pub use coins::HatAction;
pub use coins::Message;
pub use coins::UsState;
pub use coins::add_one;
pub use coins::reroll;
pub use coins::roll_dice;
pub use coins::value_in_cents;
pub use guess::Guess;
pub use guessing::Game;
pub use guessing::Outcome;
pub use guessing::parse_guess;
pub use hello::Number;
pub use hello::Signed;
pub use hello::greeting;
pub use hello::greeting_banner;
pub use hello::invert;
pub use limit::LimitTracker;
pub use limit::Messenger;
pub use limit::quota_warning;
pub use points::Point;
pub use points::Point2;
pub use rectangles::Rectangle;
pub use rectangles::User;
pub use rectangles::area;
pub use rectangles::build_user;
pub use restaurant::Breakfast;
pub use screen::Button;
pub use screen::Draw;
pub use screen::Screen;
pub use search::Config;
pub use search::search;
pub use search::search_case_insensitive;
pub use summaries::Displayer;
pub use summaries::NewsArticle;
pub use summaries::Pair;
pub use summaries::Summary;
pub use summaries::Tweet;
pub use summaries::largest;
pub use summaries::some_func;
pub use summaries::returns_summarizable;
pub use words::calculate_length;
pub use words::change_mut;
pub use words::first_word;
pub use words::first_word_slice;
pub use words::last_char_of_first_line;
pub use words::longest;

//! Entropy estimation for generated word-based passwords: a brute-force
//! character-class model, a known-wordlist model, a time-to-crack unit ladder,
//! report formatting, and the randomized password construction itself.

pub mod charclass;
pub mod generate;
pub mod report;
pub mod timeunit;
pub mod wordmodel;

mod rng;

pub use charclass::CharClassSet;
pub use charclass::bruteforce_class_size;
pub use charclass::class_size;
pub use charclass::classify;
pub use generate::generate_password;
pub use report::pad_left;
pub use report::report_entry;
pub use timeunit::MagnitudeFlags;
pub use timeunit::TimeUnit;
pub use timeunit::format_crack_time;
pub use timeunit::select_unit;
pub use timeunit::unit_decimals;
pub use timeunit::unit_label;
pub use wordmodel::get_words;
pub use wordmodel::separator_count;

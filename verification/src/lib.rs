//! Validators for common personal-data fields: identification numbers,
//! contact details, postal addresses, dates, times, currency amounts, URLs,
//! passwords, and a lexical pattern finder.
//!
//! Each validator is a pure function from an input string to a boolean (or,
//! where decomposition is useful, an `Option` of a structured value). The
//! shape of each field is stated as a spec-level grammar over the string's
//! character sequence, and every validator is proved to return exactly the
//! judgement of that grammar together with the field's semantic rules
//! (calendar-day bounds, numeric-range exclusions, character-class counts).

pub mod address;
pub mod chars;
pub mod clock;
pub mod currency;
pub mod date;
pub mod email;
pub mod ion;
pub mod password;
pub mod phone;
pub mod region;
pub mod roster;
pub mod scan;
pub mod ssn;
pub mod url;

pub use address::validate_address;
pub use clock::validate_military_time;
pub use currency::validate_currency;
pub use date::is_leap_year;
pub use date::validate_date;
pub use email::validate_email;
pub use ion::validate_odd_ion_words;
pub use password::validate_password;
pub use phone::validate_phone_number;
pub use region::validate_city_state_zip;
pub use roster::validate_name_roster;
pub use ssn::validate_ssn;
pub use url::validate_url;

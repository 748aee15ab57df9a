mod basics;
mod dice;
mod ownership;
mod port;
mod select;

pub use basics::even_squares;
pub use basics::flip;
pub use basics::greet;
pub use basics::sum;
pub use basics::sum_of;
pub use dice::roll_dice;
pub use ownership::borrow_first_char;
pub use ownership::push_exclamation;
pub use ownership::take_ownership;
pub use port::digit_val;
pub use port::is_dec_digit;
pub use port::parse_port;
pub use port::scan_digits;
pub use port::spec_parse_port;
pub use port::PortScan;
pub use select::keys_for;
pub use select::leftmost_min_at;
pub use select::min_by_key;
pub use select::min_key_witness;

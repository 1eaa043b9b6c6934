pub mod bool_u8;
pub mod errors;
pub mod helper;
pub mod pubkey;
pub mod ticker;

pub use bool_u8::BoolU8;
pub use errors::Errors;
pub use helper::convert_to_shares;
pub use pubkey::Pubkey;
pub use ticker::is_valid_ticker;

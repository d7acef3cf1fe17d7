pub mod account;
pub mod oxedium_amm;
pub mod pubkey;
pub mod pubkey_map;
pub mod swap_ix_data;
pub mod treasury;
pub mod vault;

pub use account::{Account, LoadedAccount};
pub use oxedium_amm::OxediumAmmState;
pub use pubkey::Pubkey;
pub use pubkey_map::PubkeyMap;
pub use swap_ix_data::SwapIxData;
pub use treasury::Treasury;
pub use vault::Vault;

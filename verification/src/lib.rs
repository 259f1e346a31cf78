pub mod laws;
pub mod state;
pub mod store;
pub mod transitions;

pub use state::Pubkey;
pub use state::StoreError;
pub use state::TodoAccount;
pub use state::TodoError;
pub use state::UserProfile;
pub use store::TodoList;

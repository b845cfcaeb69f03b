pub use crate::models::CardId;

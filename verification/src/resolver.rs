//! The resolver of partners: from what an actor says about a partner to the place
//! where the partner's manifest is loaded.
pub mod partner;

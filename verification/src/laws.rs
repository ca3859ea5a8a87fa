//! What the functions of this crate do, said of what goes into a call and what comes
//! out of it.

pub mod ids;
pub mod granting;
pub mod slots;
pub mod flags;
pub mod received;
pub mod checks;
pub mod session;
pub mod values;

//! Verified core of a fund program's Orca swap handler, with the native
//! mint's constants.

pub mod keys;
pub mod native_mint;
pub mod swap_data;
pub mod orca_swap;
pub mod swap_laws;

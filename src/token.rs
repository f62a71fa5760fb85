//! Token accounts and the companion token program's instructions.
pub mod assertions;
pub mod cpi;

//! What the test engine decides: how traffic is marked and which address families are
//! tested.

pub mod dist;
pub mod dscp;
pub mod error;
pub mod ip_comparison;
pub mod laws;
pub mod list_laws;
pub mod marking;
pub mod value_laws;

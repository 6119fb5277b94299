//! A fixed-price token-sale pod: a creator escrows a supply of a base token at a
//! fixed price in a quote currency, and buyers take from it until it is closed.
//! Every operation is a verified state transition on plain records; the token
//! transfers it asks for are returned as amounts for the host to carry out.
pub mod address;
pub mod error;
pub mod fees;
pub mod instructions;
pub mod laws;
pub mod main_state;
pub mod pod;

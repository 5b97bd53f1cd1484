//! The vault's instructions, each as a function from state and accounts to
//! the next state and the event it emits.
pub mod deposit;
pub mod withdraw;
pub mod compound;
pub mod admin;
pub mod initialize;

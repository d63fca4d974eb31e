pub mod address;
pub mod codec;
pub mod instructions;
pub mod processor;
pub mod state;

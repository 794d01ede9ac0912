pub mod block_data_transfer;
pub mod branch;
pub mod branch_exchange;
pub mod common;
pub mod data_processing;
pub mod halfword_register;
pub mod multiply_long;
pub mod single_data_swap;
pub mod single_data_transfer;
pub mod software_interrupt;

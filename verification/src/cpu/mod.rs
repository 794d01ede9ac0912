
pub mod arm_instr;
pub mod condition;
pub mod cpsr;
pub mod cpu;
pub mod decode_error;



pub mod flags;
pub mod program_status_register;

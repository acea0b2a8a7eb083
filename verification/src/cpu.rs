pub mod alu;
pub mod clock;
pub mod cpu_context;
pub mod handlers;
pub mod machine;
pub mod operands;
pub mod reg_file;

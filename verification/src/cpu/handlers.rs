pub mod arithmetic;
pub mod arithmetic_16;
pub mod bitwise;
pub mod jumps;
pub mod loads;
pub mod loads_16;

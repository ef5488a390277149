pub mod booleans;
pub mod domain;
pub mod function;
pub mod interval;
pub mod value;

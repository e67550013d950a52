//! Values of the Sharky virtual machine and the primitive readers of the
//! Simplex binary format.

pub mod arith;
pub mod data_types;
pub mod decimal;
pub mod real_bits;
pub mod simplex_file_read;
pub mod simplex_laws;
pub mod value_laws;

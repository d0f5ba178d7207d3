//! Names of data size units, in the SI format (steps of 1000) and in the
//! IEC format (steps of 1024), and the correspondence between them.

pub mod iec;
pub mod si;

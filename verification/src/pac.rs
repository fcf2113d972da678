//! Register-level access modules in the reader/writer idiom of generated
//! peripheral access code, one module per register.

pub mod count_dith4;
pub mod evctrl;
pub mod intflagd;
pub mod lc;

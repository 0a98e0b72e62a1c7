//! Semantic types of C declarations: the canonical type representation, its
//! derivation from declaration syntax, typedef resolution, constness, size and
//! alignment.

pub mod error;
pub mod named;
pub mod ast;
pub mod base;
pub mod dtype;
pub mod denotation;
pub mod derivation;
pub mod constness;
pub mod typedefs;
pub mod layout;
pub mod render;

pub use base::BaseDtype;
pub use dtype::{Dtype, DtypeView, HasDtype};
pub use error::DtypeError;
pub use named::Named;
pub use typedefs::Typedefs;

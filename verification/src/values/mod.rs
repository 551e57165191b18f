//! Values that are bound to, or written into, SQL statements.
pub mod datetime;
pub mod time;
pub mod url;
pub mod uuid;
pub mod value;
pub mod values;

pub use value::Value;
pub use values::Values;

//! Build-time generator of Rust struct declarations from database catalog
//! metadata: a total SQL-to-Rust type mapping, snake_case to PascalCase
//! identifier conversion, table-list parsing, and deterministic assembly of
//! one struct declaration per table.

pub mod customer;
pub mod emit;
pub mod strings;
pub mod tables;
pub mod type_map;

pub use customer::Customer;
pub use emit::Field;
pub use emit::gen_struct;
pub use emit::snake_to_camel;
pub use strings::trim_str;
pub use tables::parse_table_name;
pub use type_map::to_rust_type;

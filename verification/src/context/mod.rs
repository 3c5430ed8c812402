//! The data that templates are rendered from, built from the IR.

pub mod params;
pub mod operations;
pub mod hooks;
pub mod imports;
pub mod guards;
pub mod schemas;
pub mod test_cases;
pub mod template;
pub mod to_json;

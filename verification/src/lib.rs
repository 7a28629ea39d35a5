//! Edge log collection: the configuration schema, the processor chain, the
//! exporters and the pipeline that wires them together, written as plain
//! state machines whose every step carries a proved contract.

pub mod collector;
pub mod config;
pub mod crypto;
pub mod db;
pub mod json;
pub mod settings;
pub mod string_map;
pub mod text;

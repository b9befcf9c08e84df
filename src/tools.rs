//! The tools hosted by the shell.
pub mod base64_converter;
pub mod json_beautifier;
pub mod random_data_generator;
pub mod uuid_generator;

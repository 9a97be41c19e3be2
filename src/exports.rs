//! The exports of an image.
pub mod export_directory_table;

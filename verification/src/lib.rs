//! Verified core of an image conversion command: argument handling, path and
//! file-name rules, and the plan of encodings and outputs for each resolution.

pub mod text;
pub mod trim;
pub mod number;
pub mod b64;
pub mod words;
pub mod path_name;
pub mod picture;
pub mod encode;
pub mod cli;
pub mod options;
pub mod convert;

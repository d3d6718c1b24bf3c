pub mod catalog;
pub mod defs;
pub mod import;
pub mod library_reader;
pub mod meta;
pub mod ordering;
pub mod paths;
pub mod playback;
pub mod requests;
pub mod settings;
pub mod text;

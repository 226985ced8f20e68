pub mod update;

pub use update::parse_if_match;

//! What the two stores share with the engine, apart from reading and
//! writing.
pub mod db_persistence;
pub mod file_persistence;

pub use file_persistence::FilePersistence;

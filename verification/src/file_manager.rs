//! The browser's place in the file system: the directory it shows, the records of that
//! directory, and the requests by which both are renewed.

pub mod file_manager;
pub mod file_storage;

pub use crate::file::File;
pub use crate::file::FileType;
pub use file_manager::Consumed;
pub use file_manager::FileManager;
pub use file_manager::FileManagerAction;
pub use file_manager::FileManagerError;
pub use file_manager::FileManagerResponse;
pub use file_storage::FileStorage;
pub use file_storage::StorageAction;
pub use file_storage::StorageResponse;

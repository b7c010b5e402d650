//! A todo list kept in one data file: the store and its rules, the file naming, the
//! JSON-RPC tool server's dispatch, and the tray card's decisions.

pub mod clock;
pub mod desktop;
pub mod ids;
pub mod item;
pub mod laws;
pub mod names;
pub mod rpc;
pub mod store;
pub mod text;

pub use item::{error_message, TodoError, TodoFile, TodoItem, FILE_VERSION};
pub use names::{data_path_override, DATA_PATH_ENV};
pub use store::{StoredFile, TodoStore};

//! A personal to-do list library: named lists of uniquely named items,
//! with creation, lookup, update, deletion, filtering and ordered views.

pub mod date;
pub mod error;
pub mod item;
pub mod laws;
pub mod list;
pub mod priority;
pub mod sorting;
pub mod storage;
pub mod text;

pub use date::Date;
pub use error::ToDoSelectionError;
pub use item::Item;
pub use list::ToDoList;
pub use priority::Priority;
pub use sorting::sort_list;
pub use storage::{list_file_exists, record_file_name, record_path, saved_file_name};

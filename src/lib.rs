//! Notes attached to directories, each kept in a hidden file inside the
//! directory it annotates: where the file lies, the text that `set` stores,
//! how getting and deleting a note decide on the filesystem's answers, and
//! how the notes of a directory's subdirectories are listed.
pub mod fs_model;
pub mod note_path;
pub mod note_text;
pub mod scanner;
pub mod store;

//! Navigation policy of a desktop shell that hosts a web view: it decides
//! whether a URL the view is about to load stays in the view or is handed to
//! the system's default handler.
pub mod bytes;
pub mod navigation;
pub mod window;

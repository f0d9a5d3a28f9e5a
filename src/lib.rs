//! A terminal file browser's state: the directory being shown, its entries,
//! the selection and the preview pane, with the rules that move between them.

pub mod browser;
pub mod keys;
pub mod paths;
pub mod preview;

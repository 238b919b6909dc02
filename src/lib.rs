//! Re-encodes one image at a chosen quality: the format dispatch, the worker's
//! decisions and the state of the single window, with their contracts.

pub mod format;
pub mod status;
pub mod worker;
pub mod ui;
pub mod codec;

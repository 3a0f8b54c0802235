//! The form in which a swap is kept between runs.

pub mod alice;
pub mod bob;
pub mod encoding;
pub mod store;

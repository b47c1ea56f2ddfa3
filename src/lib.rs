//! Project manifest location and the lockfile-contents record protocol.
pub mod json;
pub mod locate;
pub mod marker;
pub mod path;
pub mod protocol;
pub mod search;
pub mod stream;

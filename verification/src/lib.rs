//! Verified decision logic of Phira's home page and ranked page: session gating,
//! character illustration tracking, board rotation, update and font checks,
//! and the routing of a touch through the page's controls.

pub mod text;
pub mod page;
pub mod touch;
pub mod updates;
pub mod session;
pub mod board;
pub mod home;

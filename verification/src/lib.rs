//! A peer-to-peer chat node: decisions on typed input lines and on the peers
//! that local discovery reports, with the floodsub topic handling they drive.

pub mod behaviour;
pub mod commands;
pub mod laws;
pub mod net;
pub mod peers;
pub mod text;

pub use text::{equals, starts_with};

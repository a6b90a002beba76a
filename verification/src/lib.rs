//! Per-monitor desktop wallpaper control: a verified core that validates a
//! user-chosen monitor index against the attached monitors, reads and writes
//! position modes, and dispatches get/set requests, turning every failure
//! into a single descriptive message.

pub mod command;
pub mod dispatch;
pub mod position;
pub mod text;

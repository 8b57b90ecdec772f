//! What each command of the tool decides, apart from what it reads and
//! writes.

pub mod init;
pub mod list;
pub mod upgrade;

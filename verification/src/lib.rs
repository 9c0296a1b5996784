pub mod control;
pub mod frame;
pub mod init;
pub mod messages;
pub mod util;

pub mod cli;
pub mod cmd;
pub mod docker;
pub mod net;
pub mod protocol;

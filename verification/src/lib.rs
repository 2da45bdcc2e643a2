pub mod cbuf;
pub mod cg;
pub mod cl;
pub mod cmd;
pub mod com;
pub mod common;
pub mod conbuf;
pub mod console;
pub mod db;
pub mod dvar;
pub mod fs;
pub mod gfx;
pub mod input;
pub mod key;
pub mod locale;
pub mod net;
pub mod platform;
pub mod sys;
pub mod text;
pub mod vid;

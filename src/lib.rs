//! Signature scanning, address caching and hook bookkeeping for instrumenting
//! a running game process.
pub mod address;
pub mod chat;
pub mod hex;
pub mod hooks;
pub mod key_bind;
pub mod keybind;
pub mod keys;
pub mod keys_ll;
pub mod logger;
pub mod lua_engine;
pub mod memory;
pub mod pattern;
pub mod records;
pub mod resources;
pub mod scan;
pub mod timelock;
pub mod weapon;

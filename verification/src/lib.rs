use vstd::prelude::*;

pub mod app;
pub mod cache;
pub mod conf;
pub mod config;
pub mod dispatch;
pub mod errors;
pub mod files;
pub mod installers;
pub mod net;
pub mod strutil;
pub mod update;
pub mod version;

verus! {

} // verus!

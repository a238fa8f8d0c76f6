use vstd::prelude::*;

pub mod bindings;
pub mod text;
pub mod types;
pub mod player;
pub mod dbus;
pub mod client;
pub mod cache;
pub mod ui;

verus! {

} // verus!

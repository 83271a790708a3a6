use vstd::prelude::*;

pub mod app;
pub mod connect;
pub mod cursor;
pub mod instance;
pub mod ring;
pub mod ssh_keys;
pub mod ssh_user;
pub mod text;
pub mod user_input;

verus! {

} // verus!

use vstd::prelude::*;

pub mod text;
pub mod kodi;
pub mod app;
pub mod search;
pub mod config;
pub mod keys;
pub mod playback;
pub mod rpc;
pub mod musicbrainz;
pub mod layout;
pub mod laws;

verus! {

} // verus!

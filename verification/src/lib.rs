use vstd::prelude::*;

pub mod identifiers;
pub mod web_url;
pub mod text;
pub mod config;
pub mod clock;
pub mod entity;
pub mod stub_source;
pub mod oauth2;
pub mod lifecycle;
pub mod google;
pub mod dependencies;
pub mod main_flow;
pub mod sinks;

verus! {

} // verus!

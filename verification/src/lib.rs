//! codecbridge: finds the media files whose AAC audio needs re-encoding as
//! PCM, decides where the converted copies go, and keeps the queue of
//! conversions.
use vstd::prelude::*;

pub mod text;
pub mod paths;
pub mod output;
pub mod media;
pub mod planner;
pub mod probe;
pub mod app;
pub mod converter;
pub mod view;

verus! {

} // verus!

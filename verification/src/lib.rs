//! Core of a terminal dashboard that tracks the live alert status of 27 fixed
//! administrative regions: decoding the feed's fixed-width status string,
//! holding the canonical region state with its selectable list, indexing the
//! region geography, and serializing every mutation through a single ordered
//! action stream that one controller drains per cycle.

pub mod action;
pub mod component;
pub mod controller;
pub mod geoindex;
pub mod region;
pub mod status;

//! A minimal packet-sniffer library: interface listing, capture-target
//! selection, and classification of raw Ethernet frames, with the
//! formatting of every output line specified and proved.

pub mod capture;
pub mod classify;
pub mod lister;
pub mod render;

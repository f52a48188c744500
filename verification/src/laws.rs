//! What the library promises of its operations, stated over what goes in and what comes out.

pub mod calls;
pub mod comparison;
pub mod daemon;
pub mod directories;
pub mod engine;
pub mod journeys;
pub mod launch;
pub mod pages;
pub mod scripts;
pub mod tables;
pub mod words;

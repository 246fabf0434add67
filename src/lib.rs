//! A discrete-event simulation kernel for a two-inspector, three-workstation
//! manufacturing line, with its state machines and scheduler verified.

pub mod simulation;
pub mod random;
pub mod component;
pub mod product;
pub mod workstation;
pub mod event;
pub mod inspector;
pub mod facility;
pub mod stats;

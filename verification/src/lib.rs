//! The logic of a Dante virtual soundcard controller: what its configuration
//! files say, how it talks to its privileged helper, and what its background
//! worker and its window decide.

pub mod app;
pub mod config;
pub mod helper;
pub mod launch;
pub mod network;
pub mod pipewire;
pub mod procedure;
pub mod protocol;
pub mod ptp;
pub mod start;
pub mod stop;
pub mod text;
pub mod worker;

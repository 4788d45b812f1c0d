pub mod latency;
pub mod registration;
pub mod host;
pub mod control;
pub mod online;
pub mod mediator;
pub mod camera;
pub mod display;

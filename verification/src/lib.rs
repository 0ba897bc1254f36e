//! Core of a camera-actuator manager: the parameter codec, the decisions of
//! the autopilot protocol engine, the actuator configuration sweep, the
//! settings store rules and the control script generator.

pub mod actuators;
pub mod api;
pub mod cache;
pub mod camera;
pub mod cli;
pub mod control;
pub mod discovery;
pub mod error;
pub mod frames;
pub mod manager;
pub mod outside;
pub mod parameters;
pub mod protocol;
pub mod script;
pub mod settings;
pub mod sweep;
pub mod text;
pub mod transport;
pub mod web;
pub mod wire;

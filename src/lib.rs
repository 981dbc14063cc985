//! Render coordination for an addressable LED installation: colour
//! conversion, frame data, the day/night brightness policy and the render
//! coordinator's state machine.

pub mod converter;
pub mod text;
pub mod frame;
pub mod animation;
pub mod config;
pub mod controller;
pub mod timing;

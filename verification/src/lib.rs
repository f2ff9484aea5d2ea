pub mod action;
pub mod actions;
pub mod camera;
pub mod controller;
pub mod device;
pub mod device_actions;
pub mod error;
pub mod esp;
pub mod hazards;
pub mod input;
pub mod named;
pub mod response;
pub mod route;
pub mod server;
pub mod service;
pub mod stack;
pub mod strings;
pub mod text;

//! The decisions of a service that streams a USB camera to browsers.
//!
//! The library holds what the service computes and decides: which format a camera is opened
//! in, what is sent for a sample, when a camera is connected and reconnected, what a viewer
//! is sent, what the settings window shows, what the tray menu stands for and which log is
//! shown. The program around it performs what the library asks for, and hands back what
//! came of it.
pub mod camera;
pub mod capture;
pub mod clock;
pub mod config;
pub mod frame;
pub mod log_viewer;
pub mod manager;
pub mod native_format;
pub mod service;
pub mod settings_app;
pub mod stream;
pub mod text;
pub mod tray;

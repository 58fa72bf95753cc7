//! State synchronisation for a tray indicator that shows and toggles one
//! background service.

pub mod dispatch;
pub mod engine;
pub mod icon;
pub mod kerio;
pub mod laws;
pub mod menu;
pub mod presentation;
pub mod service;

//! Verified core of a terminal front end for NetworkManager: the model of
//! networks and of the user interface state, the decisions that drive the
//! D-Bus conversation, Wi-Fi QR payloads and the text shown on screen.

pub mod text;
pub mod app;
pub mod nm;
pub mod netlist;
pub mod qr;
pub mod control;
pub mod ui;

//! Decision logic of a network, Bluetooth, VPN and audio panel: parsing of
//! the system tools' output, the merging and ordering of scan results, the
//! rules by which rows, labels and commands are chosen, and the small text
//! formats that the panel produces.

pub mod text;
pub mod scan;
pub mod network;
pub mod connection;
pub mod vpn;
pub mod wired;
pub mod audio;
pub mod theme;
pub mod dns;
pub mod qr;
pub mod panel;
pub mod devices;
pub mod layout;
pub mod messages;
pub mod cli;
pub mod events;
pub mod actions;
pub mod privacy;
pub mod startup;
pub mod nm;
pub mod dialogs;

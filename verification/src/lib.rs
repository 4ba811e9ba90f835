//! What a system tray launcher for clashtui decides.
//!
//! The tray shows by the colour of its icon how traffic reaches the core: white for normal, yellow
//! for TUN, blue for the system proxy. A left click toggles clashtui; the menu switches modes and
//! offers the rest.
//!
//! [`application`] is the tray as a machine. It takes events, hands out [`steps`] one by one, and
//! takes the replies to those that are questions. Nothing here touches the desktop: a program
//! around the library carries the steps out, with the commands, addresses, requests and pictures
//! that the other modules give. [`desktop`] models what the steps do to a desktop, [`laws`] states
//! what holds of the tray as a whole, [`outcomes`] what each event comes to, and [`readings`] what
//! its texts, replies and pictures mean.

pub mod application;
pub mod command;
pub mod core_api;
pub mod desktop;
pub mod icon;
pub mod json;
pub mod laws;
pub mod menu;
pub mod mode;
pub mod outcomes;
pub mod paths;
pub mod readings;
pub mod settings;
pub mod steps;
pub mod text;

//! Client side of the link between a driver station and a competition
//! robot controller.
//!
//! The driver station commands the robot with a control packet that it
//! sends over UDP once per period, hears from it through telemetry packets
//! over UDP, and exchanges framed messages with it over TCP.
//!
//! - [`packet`] is the byte codec: big-endian fields, strings of a given
//!   length, a reader and a writer. [`bytes`] has the reader under its
//!   short name.
//! - [`flags`] tells which flags a byte holds.
//! - [`states`] holds the mode, the alliance station and the kind of match.
//! - [`joystick`] holds a joystick snapshot and its tag in the control
//!   packet.
//! - [`messages`] decodes what the robot sends, and [`messages::ds`] frames
//!   the tags that the driver station sends.
//! - [`ds`] is the commanded state and the control packet built from it.
//! - [`connection`] takes the decisions of the worker that runs the link.
//!
//! The library opens no socket, starts no thread and reads no clock but
//! the wall clock for the date tag of the control packet.

pub mod bytes;
pub mod connection;
pub mod ds;
pub mod flags;
pub mod joystick;
pub mod messages;
pub mod packet;
pub mod states;

//! The protocol engine of a driver for cellular modems that speak AT commands over a serial
//! line, without the line itself.
//!
//! The bytes that are read from the line go through [`gsm_modem::FrameDemultiplexer`], which
//! tells notifications from replies to commands. The replies go to
//! [`gsm_modem::Correlator`], which holds the one command that is in flight and says when a
//! reply ends it, and how. [`sms`] reads stored text messages from replies, [`urc`] reads
//! notifications, [`commands`] spells the commands and reads their short replies, and
//! [`utils`] holds the codecs: hex code units, modem timestamps, and the IMEI check.
//!
//! Patterns are matched by the `regex` crate and RFC 3339 timestamps are read by `chrono`.
//! What these give is not proved here: [`pattern`] and [`sms`] name it, and the contracts of
//! this crate say exactly what is done with it.

pub mod commands;
pub mod constants;
pub mod error;
pub mod gsm_modem;
pub mod pattern;
pub mod sms;
pub mod text;
pub mod urc;
pub mod utils;

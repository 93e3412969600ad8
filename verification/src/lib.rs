//! KISS (TNC-2) framing and the host-link logic of an RNode that bridges a USB
//! CDC-ACM host link and an SX1262 LoRa radio.

pub mod kiss;
pub mod frame_buffer;
pub mod radio_params;
pub mod command;
pub mod decoder;
pub mod framing_laws;
pub mod host_link;
pub mod bridge;
pub mod command_laws;

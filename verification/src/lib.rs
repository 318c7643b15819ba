//! Core of a DMX512/RDM (ANSI E1.11 / ANSI E1.20) protocol engine: packet
//! codec, addressing, discovery, and the controller and responder state
//! machines, written against driver traits that host programs implement.

pub mod command_class;
pub mod consts;
pub mod dmx_controller;
pub mod dmx_driver;
pub mod dmx_receiver;
pub mod dmx_uart_driver;
pub mod pids;
pub mod rdm_data;
pub mod rdm_packages;
pub mod rdm_responder;
pub mod rdm_types;
pub mod types;
pub mod unique_identifier;
pub mod utils;

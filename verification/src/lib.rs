//! Manager core for a simulated refrigerated-storage unit.
//!
//! A single unit is watched by sensor devices (temperature, stock level,
//! door) and driven by actuator devices (cooler, light, alarm), all talking
//! to one manager over a line-oriented text protocol. This crate holds the
//! verified core of that manager:
//!
//! - the shared environmental/actuator record ([`estado::EstadoSistema`]),
//! - the device registry that correlates `IDENTIFY` handshakes with pending
//!   registrations ([`registro::Registro`]),
//! - the command router that forwards actuator commands over bounded
//!   channels ([`roteador::Roteador`]),
//! - the control-loop state machine that turns readings into actuator
//!   decisions ([`controle`]),
//! - and the protocol dispatcher that parses requests and builds responses
//!   ([`protocolo`]).
//!
//! Temperatures travel through the protocol with one decimal digit, so the
//! core stores them as whole tenths of a degree Celsius. The surrounding
//! process (TCP transport, task spawning, clocks, simulated sensor drift)
//! stays outside this crate and hands in plain values.

pub mod controle;
pub mod dispositivos;
pub mod estado;
pub mod numero;
pub mod protocolo;
pub mod registro;
pub mod roteador;
pub mod texto;

//! Bring-up sequencing for an STM32F0 board that talks to an ENC28J60 Ethernet
//! controller over SPI.
//!
//! The firmware around this library owns the peripherals. The library owns the
//! decisions: which step comes next, with which parameters, and which failures
//! are fatal. Every decision is a function from plain values to plain values,
//! so that the order of pin and bus activity can be stated and proved for every
//! run, including runs in which the hardware reports a fault.

pub mod board;
pub mod bringup;
pub mod diagnostic;
pub mod fault;
pub mod run;
pub mod wires;

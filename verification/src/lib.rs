//! Fan control for laptops whose embedded controller (EC) is driven over two
//! legacy I/O ports: a bit-level read/write handshake with the EC, and a
//! temperature-driven fan-curve controller on top of it.
//!
//! The library holds the protocol and control logic only. Raw port I/O, port
//! privilege acquisition, sleeping and configuration loading are performed by
//! the embedding program, which runs each hardware operation as a little state
//! machine: it performs the action the machine asks for and feeds the outcome
//! back in.

pub mod auto_control;
pub mod fan_control;


//! A shipping-rate gateway, as pure decisions.
//!
//! The gateway republishes a city directory and a shipping-cost calculation of
//! an upstream rate service. This library holds everything the gateway decides:
//! which upstream request stands for an operation, how an upstream answer is
//! judged, and which response an inbound request receives. Sending and
//! receiving bytes is left to the program around it.
pub mod decimal;
pub mod error;
pub mod gateway;
pub mod model;
pub mod upstream;

//! Core of a sensor station: register transactions on a shared bus, the
//! drivers of an ADC and a thermometer, the hardware facade that composes
//! them, and the binary request/response protocol with its dispatcher.
//!
//! The library performs no transfer itself. An operation that needs the bus
//! is a function of the replies that the bus has given to it so far: it
//! either names the next transfer or gives its result. The program around
//! the library performs the transfer, appends the reply and asks again.

pub mod app_context;
pub mod dispatcher;
pub mod hw;
pub mod msg;
pub mod text;

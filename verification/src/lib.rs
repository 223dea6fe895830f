//! Core of an 8x8 RGB LED matrix controller, together with the two small
//! standalone programs that share its repository: a Fibonacci calculator and
//! a tiny register machine.
//!
//! The controller ingests a framed serial byte stream, buffers completed
//! frames in a fixed pool of three buffers, and emits the bit-banged
//! shift-register pulse train that lights the physical LEDs row by row.

pub mod controller;
pub mod decoder;
pub mod exchange;
pub mod fibo;
pub mod gamma;
pub mod image;
pub mod machine;
pub mod matrix;
pub mod scheduler;

pub use image::{Color, Image};

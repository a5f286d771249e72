//! A small retained-mode GUI core: components stored in a layout, hit-tested
//! against cursor input, synchronised before each frame and drawn in a fixed
//! order. Every coordinate is an integer number of device units, so that all
//! of the rules below are exact.

pub mod components;
pub mod event;
pub mod gui;
pub mod layout;
pub mod rendering;

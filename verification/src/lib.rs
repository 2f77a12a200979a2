//! Instance allocation and batched rendering for a population of typed
//! geometric instances.
//!
//! The table in [`instance_handler`] partitions a fixed number of slots into
//! one contiguous bucket per instance type and tracks which slots changed
//! since the last frame. [`updater`] turns the changed slots into
//! instance-buffer writes, [`renderer`] emits one draw call per bucket, and
//! [`event`] runs the registered handlers of [`listeners`] on the frame state
//! of [`render_state`]. [`table_model`] holds the mathematical model of the
//! table and [`theorems`] what is proved of it.
//!
//! Nothing here touches a window or a device: every function goes from
//! plain values to plain values. Transform components are carried as
//! IEEE-754 single-precision bit patterns, so every record is made of
//! integers.

pub mod instance;
pub mod table_model;
pub mod dirty_queue;
pub mod instance_handler;
pub mod renderer;
pub mod updater;
pub mod theorems;
pub mod key_state;
pub mod camera_controller;
pub mod render_state;
pub mod listeners;
pub mod event;

//! Driver core for a paravirtualized VirtIO sound device.
//!
//! The core holds everything that the driver decides: how records look on
//! the wire, what a queue does with its descriptors, which command a stream
//! accepts in which state, what goes to the device for an operation and
//! what its answer means, how frames are cut into periods. It touches no
//! hardware. The queues and buffers that driver and device share are kept
//! as plain images; the code around the core copies them to and from the
//! device's memory, notifies the device and waits for it.
//!
//! - [`bytes`], [`codes`], [`flags`], [`wire`]: integers, code tables,
//!   capability masks and records as they stand on the wire.
//! - [`config`]: the device's configuration space.
//! - [`queue`]: the split virtqueue.
//! - [`dma`]: images of the buffers that are mapped for the device.
//! - [`pcm`]: the life cycle of a stream and its parameters.
//! - [`model`]: the sound device as a state machine.
//! - [`device`]: the sound device itself.
//! - [`laws`]: what holds of the device whatever happens.
//! - [`error`]: why an operation failed.
//! - [`execve`]: the argument vector of a program to run.

pub mod bytes;
pub mod codes;
pub mod config;
pub mod device;
pub mod dma;
pub mod error;
pub mod execve;
pub mod flags;
pub mod laws;
pub mod model;
pub mod pcm;
pub mod queue;
pub mod wire;

//! The coordination layer of a distributed fractal renderer.
//!
//! A dispatcher cuts the image of a fractal into sixteen tiles and hands
//! them, one at a time, to workers that connect over TCP; a worker computes
//! the intensities of a tile's pixels and sends them back; the dispatcher
//! paints each tile into the image and starts a new image when the last
//! tile has come back.
//!
//! This library holds what both sides decide and compute on bytes and
//! integers, each function with its contract: the frames and envelopes of
//! the wire ([`framing`], [`envelope`], [`wire`]), the pixel stream
//! ([`pixels`]), the tiles ([`tiles`]), the dispatcher's state and its
//! steps ([`dispatcher`]), the painting of tiles ([`canvas`]), the worker's
//! share ([`worker`]) and both command lines ([`server_args`],
//! [`worker_args`]). Real numbers are carried as bit patterns and never
//! computed with; sockets, files and the kernels themselves are the
//! caller's.

pub mod binary64;
pub mod bytes;
pub mod canvas;
pub mod dispatcher;
pub mod envelope;
pub mod fractal;
pub mod framing;
pub mod ids;
pub mod messages;
pub mod pixels;
pub mod server_args;
pub mod text;
pub mod tiles;
pub mod types;
pub mod wire;
pub mod worker;
pub mod worker_args;

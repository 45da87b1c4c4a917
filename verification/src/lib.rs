//! Vertex array objects for a WebGL 1 rendering context: the
//! `OES_vertex_array_object` extension as a verified state machine.
//!
//! A vertex array object is a named bundle of vertex-attribute bindings plus
//! an optional index-buffer binding. The extension creates, binds, deletes
//! and queries such objects. Binding swaps attribute state between the
//! context's current slots and the objects' own storage, and keeps every
//! buffer informed of the vertex arrays that refer to it.
//!
//! The crate does no I/O. The context keeps the commands meant for the
//! renderer in a queue that the embedder drains and sends, and the one
//! synchronous exchange, the allocation of a name, is made by the embedder,
//! who hands the renderer's reply to the library.
//!
//! - [`model`] says what the state of a context is and what each operation
//!   makes of it, as functions on mathematical values;
//! - [`lemmas`] proves what holds of those functions in every state;
//! - [`extension`] holds the operations themselves, each proved to do what
//!   the model says;
//! - [`context`], [`vertex_array`], [`buffer`] and [`attrib_buffers`] hold the
//!   data that the operations work on;
//! - [`registry`] holds the extension registry and the query hook;
//! - [`protocol`] holds the names, commands and error kinds shared with the
//!   renderer.

pub mod attrib_buffers;
pub mod buffer;
pub mod context;
pub mod extension;
pub mod lemmas;
pub mod model;
pub mod protocol;
pub mod registry;
pub mod vertex_array;

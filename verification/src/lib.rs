//! Verified model of an ownership-scoped wrapper layer over a stateful,
//! handle-based graphics device.
//!
//! The device hands out opaque integer handles for every object it creates
//! (buffers, vertex arrays, shader stages, programs, textures), keeps one
//! "currently bound" slot per bind target, and reports compile, link,
//! lookup and mapping outcomes through status values rather than
//! structured errors. This crate models that protocol as verified state:
//! [`device::Device`] tracks which handles are live, what is bound where,
//! and which shader stages are attached to which program, while the
//! wrapper types own exactly one handle each and drive the device through
//! contracts that pin the lifecycle down — every handle is released at
//! most once, releases are explicit and consume their owner, and a failed
//! compile or link never leaks the handles it touched.
//!
//! Replies that only a real driver can produce (compile and link status
//! with their diagnostic logs, uniform lookups, mapping refusals) enter
//! the library as plain values; the decision logic acting on them is
//! verified for every possible reply. An unverified companion can mirror
//! each operation onto a real device, handing the replies back in.

pub mod buffer;
pub mod device;
pub mod error;
pub mod shader;
pub mod texture;
pub mod viewport;

pub use buffer::{ArrayBuffer, Buffer, BufferType, BufferTypeArray, BufferTypeElementArray, ElementArrayBuffer, MappedBuffer, VertexArray};
pub use error::RenderError;
pub use shader::{CompileOutcome, LinkOutcome, Program, Shader, StageKind};
pub use texture::Texture;
pub use viewport::Viewport;

//! Host-side logic of a live fragment-shader player: assembling a complete
//! shader program text from a user fragment, a registry through which new
//! fragments are handed to the render loop, the per-frame resolution of the
//! standard uniforms, and the state kept by a running render session.

pub mod text;
pub mod assembler;
pub mod registry;
pub mod uniforms;
pub mod session;

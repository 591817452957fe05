//! Command-protocol layer for the PICA200 GPU: register command encoding,
//! command buffers, GX queue commands, the shader binary container codec and
//! a small vertex-shader assembler.
pub mod gpucmd;
pub mod shader_unfun;
pub mod shader;
pub mod queue;
pub mod renderbuffer;
pub mod floater;
pub mod texture;
pub mod buffer;

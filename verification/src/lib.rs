//! A WebGL2 toolkit, as far as it decides and computes.
//!
//! The heart of the library is a declarative shader toolchain. A shader
//! program is described as data (`webgl2_shader_definition`), the functions
//! that it declares by reference are resolved against files of definitions
//! (`webgl2_shader_generation`), and the description is rendered,
//! deterministically, into the source text of its vertex stage and of its
//! fragment stage.
//!
//! Around it stands the vocabulary of WebGL2 as types (`constants`,
//! `limits`, `texture`, `framebuffer`), and what a wrapper of a drawing
//! context has to keep track of and to decide: the layout of vertex arrays,
//! where buffers and framebuffers are bound, which texture has which unit,
//! and which uniform values a program still has to be given. Nothing here
//! talks to a context or to the file system; the caller does, and is told
//! what to ask for.

pub mod codes;
pub mod color;
pub mod constants;
pub mod context;
pub mod framebuffer;
pub mod limits;
pub mod renderbuffer;
pub mod shader_functions;
pub mod shader_program;
pub mod texture;
pub mod vertex_array_object;
pub mod webgl2_shader_definition;
pub mod webgl2_shader_generation;
pub mod webgl_objects;

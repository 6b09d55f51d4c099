//! A stack-based bytecode machine for a small statically typed scripting
//! language: values, static types, code blocks, the evaluation loop and the
//! symbolic type checker that re-interprets the same opcodes.

pub mod arith;
pub mod blob;
pub mod block;
pub mod error;
pub mod eval;
pub mod host;
pub mod laws;
pub mod machine;
pub mod model;
pub mod op;
pub mod render;
pub mod run;
pub mod text;
pub mod typecheck;
pub mod types;
pub mod typing;
pub mod value;
pub mod vm;

pub use crate::blob::{Blob, Prog};
pub use crate::block::Block;
pub use crate::error::{Error, ErrorKind};
pub use crate::host::{Host, HostReply, HostRequest};
pub use crate::machine::{Frame, OpResult};
pub use crate::op::Op;
pub use crate::types::Type;
pub use crate::value::{UpValue, Value};
pub use crate::vm::VM;

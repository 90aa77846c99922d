//! The host-facing control surface of a small scripting-language runtime:
//! the result of a compile, the table of native functions a program is
//! compiled against, the marshalling of values across the host boundary, and
//! the state machine of an execution that runs to its end or step by step.

pub mod compile;
pub mod native;
pub mod value;
pub mod vm;

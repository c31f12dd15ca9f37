//! A verified model of a small RISC-V teaching kernel: the framebuffer drawing of
//! its display demos, the tangram shown batch by batch, and the decisions of its
//! batch system around traps and system calls.
pub mod batch;
pub mod display;
pub mod framebuffer;
pub mod pixels;
pub mod syscall;
pub mod tangram;

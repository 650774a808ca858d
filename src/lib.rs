//! Version-aware in-place patching of a process image, the export-forwarding
//! proxy that hosts it, and the injector's run protocol.
pub mod injector;
pub mod memory;
pub mod patch;
pub mod proxy;

//! A guest runtime shell: a bump allocator over a fixed scratch heap, a
//! reader for the invocation the host leaves in memory, a registry of named
//! guest functions, and the dispatcher that turns one invocation into exactly
//! one outcome for the host.

pub mod functions;
pub mod heap;
pub mod image;
pub mod invocation;
pub mod registry;

pub use functions::{add, array_reverse, fibonacci, find_max, prepend_hello, sub};
pub use heap::{BumpAllocator, HEAP_SIZE};
pub use image::{image_registry, ExampleFn};
pub use invocation::read_invocation;
pub use registry::{Category, GuestFunction, Outcome, Registry, RegistryFull};

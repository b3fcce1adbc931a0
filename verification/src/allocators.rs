//! Allocators mint the row handles of a table: permanent handles from
//! [`FixedAllocator`], reusable generational handles from a dynamic allocator.

pub mod dynamic_allocator;
pub mod fixed_allocator;

pub use dynamic_allocator::DynamicAllocator;
pub use dynamic_allocator::Gen;
pub use dynamic_allocator::GenId;
pub use dynamic_allocator::Valid;
pub use fixed_allocator::FixedAllocator;
pub use fixed_allocator::Id;
pub use fixed_allocator::Indexes;

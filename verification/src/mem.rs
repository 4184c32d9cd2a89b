//! Tagged memory accounting: the tags, the ledger of outstanding bytes, the allocation
//! primitives that keep it, and the textual usage report.

pub mod block;
pub mod counter;
pub mod ledger;
pub mod report;
pub mod tag;

pub use block::allocate;
pub use block::dealloc;
pub use block::realloc;
pub use block::unknown_tag_warning;
pub use block::Block;
pub use ledger::close;
pub use ledger::init;
pub use ledger::tagged_allocation;
pub use ledger::total_allocation;
pub use ledger::Ledger;
pub use report::format_bytes;
pub use report::get_memory_usage;
pub use tag::MemoryTag;
pub use tag::TAG_COUNT;

//! Early-boot core of a bare-metal x86_64 kernel: the heap placeholder, the
//! bridge from the boot handoff to virtual addresses, the root page-table
//! inspection and the event dispatch state machine.

pub mod allocator;
pub mod boot;
pub mod page_table;
pub mod dispatch;

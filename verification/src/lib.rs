//! Cycle-counting execution engine for an 8-bit 6502-class microprocessor.
//!
//! The crate models the processor as a mathematical machine state and proves
//! that the executable engine steps that state exactly as the specification
//! functions say: one tick either burns a pending cycle or fetches, decodes
//! and executes the instruction under the program counter.

pub mod instruction;
pub mod laws;
pub mod machine;
pub mod mapper;
pub mod processor;
pub mod status;

pub use instruction::AddressMode;
pub use instruction::Instruction;
pub use instruction::OpKind;
pub use instruction::Register;
pub use instruction::decode;
pub use machine::BoundaryStatus;
pub use machine::Machine;
pub use mapper::Mapper;
pub use processor::Processor;
pub use status::Status;

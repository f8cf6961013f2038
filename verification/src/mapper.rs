//! The cartridge-mapper capability: the interface a bank-switching scheme
//! implements outside the core.  The engine depends only on this interface;
//! concrete mappers are external collaborators chosen at cartridge-load
//! time.

use vstd::prelude::*;

verus! {

/// A cartridge mapper intercepts reads and writes for addresses outside
/// plain RAM.  Each implementation carries a numeric identifier naming its
/// bank-switching scheme.
pub trait Mapper {
    /// The numeric identifier of the bank-switching scheme.
    fn id(&self) -> u8;

    /// The byte served for an address in mapper-controlled space; may
    /// return bank-switched data and change mapper state.
    fn read(&mut self, addr: u16) -> u8;

    /// Notification that an address in mapper-controlled space was read,
    /// for read-triggered state machines.
    fn observe_read(&mut self, addr: u16, value: u8);

    /// Notification that an address in mapper-controlled space was
    /// written; the value is a register poke, not storage.
    fn observe_write(&mut self, addr: u16, value: u8);
}

} // verus!

use vstd::prelude::*;

verus! {

/// Cartridge logic as the bus sees it. The CPU reaches it through the
/// addresses from `$4020` up, the PPU through its pattern tables and
/// nametables.
///
/// A mapper is described by four spec functions of its state: the byte that
/// a read returns on either side, and the state that a write leaves on
/// either side. A read changes nothing. A write may switch banks, store the
/// byte or ignore it: that is the mapper's business, and the bus and the
/// PPU only pass on what its functions say.
pub trait Mapper: Sized {
    /// The byte that a CPU read of `addr` returns.
    spec fn prg(&self, addr: u16) -> u8;

    /// The byte that a PPU read of `addr` returns.
    spec fn chr(&self, addr: u16) -> u8;

    /// The mapper after a CPU write of `value` to `addr`.
    spec fn after_prg_store(&self, addr: u16, value: u8) -> Self;

    /// The mapper after a PPU write of `value` to `addr`.
    spec fn after_chr_store(&self, addr: u16, value: u8) -> Self;

    fn prg_load(&self, addr: u16) -> (value: u8)
        ensures
            value == self.prg(addr),
    ;

    fn prg_store(&mut self, addr: u16, value: u8)
        ensures
            *final(self) == old(self).after_prg_store(addr, value),
    ;

    fn chr_load(&self, addr: u16) -> (value: u8)
        ensures
            value == self.chr(addr),
    ;

    fn chr_store(&mut self, addr: u16, value: u8)
        ensures
            *final(self) == old(self).after_chr_store(addr, value),
    ;
}

} // verus!

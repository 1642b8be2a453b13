//! The assembled console: one processor and one interconnect, built
//! together from a ROM image.

use vstd::prelude::*;

verus! {

use crate::cartridge::{CartridgeError, spec_header_error, spec_header_ok};
use crate::cpu::{Cpu, spec_cpu_initial};
use crate::interconnect::{bus_wf, Interconnect, spec_new_bus};

/// A whole console: the processor and the memory interconnect.
pub struct GameBoy {
    /// The processor.
    pub cpu: Cpu,
    /// The memory interconnect and every device behind it.
    pub interconnect: Interconnect,
}

impl GameBoy {
    /// A console over the given ROM image, at the power-on state. A bad
    /// header is the loader error naming it.
    pub fn new(cart: Vec<u8>) -> (r: Result<GameBoy, CartridgeError>)
        ensures
            spec_header_ok(cart@) <==> r is Ok,
            r is Ok ==> r->Ok_0.cpu == spec_cpu_initial() && r->Ok_0.interconnect@ == spec_new_bus(
                cart@,
            ) && bus_wf(r->Ok_0.interconnect@),
            r is Err ==> r->Err_0 == spec_header_error(cart@),
    {
        let interconnect = match Interconnect::new(cart) {
            Ok(i) => i,
            Err(e) => {
                return Err(e);
            },
        };
        Ok(GameBoy { cpu: Cpu::new(), interconnect })
    }

    /// The processor.
    pub fn cpu(&self) -> (r: &Cpu)
        ensures
            r == &self.cpu,
    {
        &self.cpu
    }

    /// The interconnect.
    pub fn interconnect(&self) -> (r: &Interconnect)
        ensures
            r == &self.interconnect,
    {
        &self.interconnect
    }
}

} // verus!

//! The memory probe: how many bytes of memory are available right now.

use vstd::prelude::*;
use sysinfo::{MemoryRefreshKind, System};

verus! {

#[verifier::external_type_specification]
#[verifier::external_body]
pub struct ExSystem(System);

#[verifier::external_type_specification]
#[verifier::external_body]
pub struct ExMemoryRefreshKind(MemoryRefreshKind);

/// Relies on sysinfo's `System::new`: a handle on the host with nothing
/// loaded yet.
pub assume_specification[ System::new ]() -> System;

/// Relies on sysinfo's `System::refresh_memory_specifics`: reads again the
/// memory figures that `refresh_kind` selects.
pub assume_specification[ System::refresh_memory_specifics ](
    s: &mut System,
    refresh_kind: MemoryRefreshKind,
);

/// Relies on sysinfo's `System::available_memory`: the RAM available for
/// (re)use, in bytes, as of the last refresh.
pub assume_specification[ System::available_memory ](s: &System) -> u64;

/// Relies on sysinfo's `System::free_swap`: the free swap, in bytes, as of the
/// last refresh.
pub assume_specification[ System::free_swap ](s: &System) -> u64;

/// Relies on sysinfo's `MemoryRefreshKind::new`: a selection of nothing.
pub assume_specification[ MemoryRefreshKind::new ]() -> MemoryRefreshKind;

/// Relies on sysinfo's `MemoryRefreshKind::with_ram`: adds RAM to the selection.
pub assume_specification[ MemoryRefreshKind::with_ram ](k: MemoryRefreshKind) -> MemoryRefreshKind;

/// Relies on sysinfo's `MemoryRefreshKind::with_swap`: adds swap to the selection.
pub assume_specification[ MemoryRefreshKind::with_swap ](k: MemoryRefreshKind) -> MemoryRefreshKind;

/// The figure a reading gives: the available RAM `ram`, plus the free swap
/// `swap` where swap counts, saturating at `u64::MAX`.
pub open spec fn memory_figure(ram: u64, swap: u64, swap_check: bool) -> u64 {
    if !swap_check {
        ram
    } else if ram as int + swap as int > u64::MAX as int {
        u64::MAX
    } else {
        (ram + swap) as u64
    }
}

/// A probe of available memory, private to one reader.
///
/// A host probe asks the operating system afresh on every update; a fixed
/// probe always reports the same number of bytes, which makes the sizing of
/// chunks reproducible.
pub struct Memory {
    /// The host handle; `None` for a fixed probe.
    system_info: Option<System>,
    /// The figure of the last update, in bytes.
    ram_available: u64,
    /// Whether free swap counts as available memory.
    swap_check: bool,
}

impl Memory {
    pub closed spec fn is_fixed(&self) -> bool {
        self.system_info is None
    }

    pub closed spec fn spec_available(&self) -> u64 {
        self.ram_available
    }

    pub closed spec fn spec_swap_check(&self) -> bool {
        self.swap_check
    }

    /// A probe of the host's RAM, without swap.
    pub fn new() -> (r: Memory)
        ensures
            !r.is_fixed(),
            !r.spec_swap_check(),
    {
        Memory { system_info: Some(System::new()), ram_available: 0, swap_check: false }
    }

    /// A probe that always reports `bytes`.
    pub fn fixed(bytes: u64) -> (r: Memory)
        ensures
            r.is_fixed(),
            r.spec_available() == bytes,
            !r.spec_swap_check(),
    {
        Memory { system_info: None, ram_available: bytes, swap_check: false }
    }

    /// Counts free swap as available memory from now on.
    pub fn include_swap(&mut self)
        ensures
            final(self).spec_swap_check(),
            final(self).is_fixed() == old(self).is_fixed(),
            final(self).spec_available() == old(self).spec_available(),
    {
        self.swap_check = true;
    }

    /// The figure of the last update, in bytes.
    pub fn available(&self) -> (r: u64)
        ensures
            r == self.spec_available(),
    {
        self.ram_available
    }

    /// Records a reading of `ram` bytes of available RAM and `swap` bytes of
    /// free swap: the figure becomes the RAM, plus the swap where swap counts.
    pub fn record_reading(&mut self, ram: u64, swap: u64)
        ensures
            final(self).is_fixed() == old(self).is_fixed(),
            final(self).spec_swap_check() == old(self).spec_swap_check(),
            final(self).spec_available() == memory_figure(ram, swap, old(self).spec_swap_check()),
    {
        if !self.swap_check {
            self.ram_available = ram;
        } else if ram > u64::MAX - swap {
            self.ram_available = u64::MAX;
        } else {
            self.ram_available = ram + swap;
        }
    }

    /// Takes a fresh reading: for a host probe, the available RAM that the
    /// host reports now, plus its free swap where swap is included; a fixed
    /// probe keeps its figure.
    pub fn update_ram(&mut self)
        ensures
            final(self).is_fixed() == old(self).is_fixed(),
            final(self).spec_swap_check() == old(self).spec_swap_check(),
            old(self).is_fixed() ==> final(self).spec_available() == old(self).spec_available(),
            !old(self).is_fixed() ==> exists|ram: u64, swap: u64|
                final(self).spec_available() == memory_figure(ram, swap, old(self).spec_swap_check()),
    {
        let swap_check = self.swap_check;
        let reading: Option<(u64, u64)> = match &mut self.system_info {
            Some(system) => {
                let ram_only = MemoryRefreshKind::new().with_ram();
                if swap_check {
                    system.refresh_memory_specifics(ram_only.with_swap());
                    Some((system.available_memory(), system.free_swap()))
                } else {
                    system.refresh_memory_specifics(ram_only);
                    Some((system.available_memory(), 0))
                }
            },
            None => None,
        };
        match reading {
            Some((ram, swap)) => self.record_reading(ram, swap),
            None => {},
        }
    }
}

} // verus!

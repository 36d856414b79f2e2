//! The chips and accessories that the cpu and the motherboard talk to: the picture
//! processing unit, the audio processing unit, the cartridge and the controllers.
//!
//! The emulator core is written against these interfaces. Each chip is modelled as a
//! deterministic machine: every operation that the core passes on to it is named by a spec
//! function of the chip's state and the operation's arguments (the ppu cycle also of the
//! motherboard it runs against), giving the chip's next state and its answer. The contracts
//! of the core say what it hands to each chip and what it does with the answer in terms of
//! those names. Of a controller accessory the contracts also assume what [`ControllerDevice`]
//! states of its kind and of the slots of a four score adapter. An implementation has to keep
//! these promises.
use vstd::prelude::*;
use crate::motherboard::NesMotherboard;

verus! {

/// The picture processing unit.
pub trait PpuDevice: Sized {
    /// The ppu and the motherboard after one ppu clock run from these states.
    spec fn spec_cycle<C: CartridgeDevice, K: ControllerDevice>(
        &self,
        bus: NesMotherboard<C, K>,
    ) -> (Self, NesMotherboard<C, K>);

    /// What a side-effect free read of register `addr` gives.
    spec fn spec_dump(&self, addr: u16) -> Option<u8>;

    /// The ppu after a read of register `addr`, and what the read gives.
    spec fn spec_read(&self, addr: u16, palette: [u8; 32]) -> (Self, Option<u8>);

    /// The ppu and the palette ram after a write of `data` to register `addr`.
    spec fn spec_write(&self, addr: u16, data: u8, palette: [u8; 32]) -> (Self, [u8; 32]);

    /// The ppu after the end of frame flag has been polled, and the flag.
    spec fn spec_frame_end(&self) -> (Self, bool);

    /// The ppu after its frame has been taken, and the pixels of the frame.
    spec fn spec_get_frame(&self) -> (Self, [u8; 184320]);

    /// The number of frames rendered so far.
    spec fn spec_frame_number(&self) -> u64;

    /// The state of the interrupt line.
    spec fn spec_irq(&self) -> bool;

    /// The ppu after a reset.
    spec fn spec_reset(&self) -> Self;

    /// Run one ppu clock, using the motherboard for its video memory cycles.
    fn cycle<C: CartridgeDevice, K: ControllerDevice>(&mut self, bus: &mut NesMotherboard<C, K>)
        ensures
            (*final(self), *final(bus)) == old(self).spec_cycle(*old(bus)),
    ;

    /// Read one of the eight ppu registers without side effects.
    fn dump(&self, addr: u16) -> (r: Option<u8>)
        ensures
            r == self.spec_dump(addr),
    ;

    /// Read one of the eight ppu registers.
    fn read(&mut self, addr: u16, palette: &[u8; 32]) -> (r: Option<u8>)
        ensures
            (*final(self), r) == old(self).spec_read(addr, *palette),
    ;

    /// Write one of the eight ppu registers.
    fn write(&mut self, addr: u16, data: u8, palette: &mut [u8; 32])
        ensures
            (*final(self), *final(palette)) == old(self).spec_write(addr, data, *old(palette)),
    ;

    /// True once when a frame has ended.
    fn get_frame_end(&mut self) -> (r: bool)
        ensures
            (*final(self), r) == old(self).spec_frame_end(),
    ;

    /// The rgb pixels of the last frame (256 by 240 pixels, 3 bytes each).
    fn get_frame(&mut self) -> (r: &[u8; 184320])
        ensures
            (*final(self), *r) == old(self).spec_get_frame(),
    ;

    /// The number of frames rendered so far.
    fn frame_number(&self) -> (r: u64)
        ensures
            r == self.spec_frame_number(),
    ;

    /// The state of the interrupt line of the ppu.
    fn irq(&self) -> (r: bool)
        ensures
            r == self.spec_irq(),
    ;

    /// Reset the ppu.
    fn reset(&mut self)
        ensures
            *final(self) == old(self).spec_reset(),
    ;

    /// The current vram address register.
    spec fn spec_vram_address(&self) -> u16;

    /// The current column.
    spec fn spec_column(&self) -> u16;

    /// The current row.
    spec fn spec_row(&self) -> u16;

    /// The current vram address register.
    fn vram_address(&self) -> (r: u16)
        ensures
            r == self.spec_vram_address(),
    ;

    /// The current column of the ppu.
    fn column(&self) -> (r: u16)
        ensures
            r == self.spec_column(),
    ;

    /// The current row of the ppu.
    fn row(&self) -> (r: u16)
        ensures
            r == self.spec_row(),
    ;
}

/// The audio processing unit, including its dma and io registers.
pub trait ApuDevice: Sized {
    /// The apu after a read of register `addr`, and what the read gives.
    spec fn spec_read(&self, addr: u16) -> (Self, u8);

    /// What a side-effect free read of register `addr` gives.
    spec fn spec_dump(&self, addr: u16) -> u8;

    /// The apu after a write of `data` to register `addr`.
    spec fn spec_write(&self, addr: u16, data: u8) -> Self;

    /// The phase of the apu clock half cycle.
    spec fn spec_get_clock(&self) -> bool;

    /// The apu after it was handed the byte of a dmc dma fetch.
    spec fn spec_dma_response(&self, data: u8) -> Self;

    /// The address the dmc channel wants fetched, if any.
    spec fn spec_dma(&self) -> Option<u16>;

    /// The state of the interrupt line.
    spec fn spec_irq(&self) -> bool;

    /// The apu after one cpu clock.
    spec fn spec_clock_slow(&self) -> Self;

    /// The apu after a reset.
    spec fn spec_reset(&self) -> Self;

    /// Read an apu register.
    fn read(&mut self, addr: u16) -> (r: u8)
        ensures
            (*final(self), r) == old(self).spec_read(addr),
    ;

    /// Read an apu register without side effects.
    fn dump(&self, addr: u16) -> (r: u8)
        ensures
            r == self.spec_dump(addr),
    ;

    /// Write an apu register.
    fn write(&mut self, addr: u16, data: u8)
        ensures
            *final(self) == old(self).spec_write(addr, data),
    ;

    /// The state of the apu clock half cycle, used to align dma cycles.
    fn get_clock(&self) -> (r: bool)
        ensures
            r == self.spec_get_clock(),
    ;

    /// Hand the byte fetched by a dmc dma to the apu.
    fn provide_dma_response(&mut self, data: u8)
        ensures
            *final(self) == old(self).spec_dma_response(data),
    ;

    /// The address the dmc channel wants fetched, if any.
    fn dma(&self) -> (r: Option<u16>)
        ensures
            r == self.spec_dma(),
    ;

    /// The state of the interrupt line of the apu.
    fn irq(&self) -> (r: bool)
        ensures
            r == self.spec_irq(),
    ;

    /// Run one cpu clock of the apu, producing audio as needed.
    fn clock_slow(&mut self)
        ensures
            *final(self) == old(self).spec_clock_slow(),
    ;

    /// Reset the apu.
    fn reset(&mut self)
        ensures
            *final(self) == old(self).spec_reset(),
    ;
}

/// A cartridge plugged into the system.
pub trait CartridgeDevice: Sized {
    /// The cartridge after a cpu cycle that does not address it.
    spec fn spec_memory_nop(&self) -> Self;

    /// The cartridge after a cpu read of `addr`, and the byte it drives, if any.
    spec fn spec_memory_read(&self, addr: u16) -> (Self, Option<u8>);

    /// The cartridge after a cpu write of `data` to `addr`.
    spec fn spec_memory_write(&self, addr: u16, data: u8) -> Self;

    /// What a side-effect free cpu read of `addr` gives.
    spec fn spec_memory_dump(&self, addr: u16) -> Option<u8>;

    /// The lines a side-effect free ppu read of `addr` gives: a10, vram enable and data.
    spec fn spec_ppu_peek_1(&self, addr: u16) -> (bool, bool, Option<u8>);

    /// The cartridge after the address part of a ppu cycle at `addr`, and the a10 and vram
    /// enable lines it drives.
    spec fn spec_ppu_cycle_1(&self, addr: u16) -> (Self, (bool, bool));

    /// The cartridge after the write part of a ppu cycle that it answers.
    spec fn spec_ppu_cycle_write(&self, data: u8) -> Self;

    /// The cartridge after the read part of a ppu cycle that it answers, and the byte read.
    spec fn spec_ppu_cycle_read(&self) -> (Self, u8);

    /// A cpu cycle that does not address the cartridge.
    fn memory_nop(&mut self)
        ensures
            *final(self) == old(self).spec_memory_nop(),
    ;

    /// A cpu read of the cartridge address space.
    fn memory_read(&mut self, addr: u16) -> (r: Option<u8>)
        ensures
            (*final(self), r) == old(self).spec_memory_read(addr),
    ;

    /// A cpu write of the cartridge address space.
    fn memory_write(&mut self, addr: u16, data: u8)
        ensures
            *final(self) == old(self).spec_memory_write(addr, data),
    ;

    /// A cpu read of the cartridge address space without side effects.
    fn memory_dump(&self, addr: u16) -> (r: Option<u8>)
        ensures
            r == self.spec_memory_dump(addr),
    ;

    /// A ppu read without side effects: the a10 line, the vram enable line and the data if the
    /// cartridge drives the bus.
    fn ppu_peek_1(&self, addr: u16) -> (r: (bool, bool, Option<u8>))
        ensures
            r == self.spec_ppu_peek_1(addr),
    ;

    /// The address part of a ppu memory cycle: the a10 line and the vram enable line.
    fn ppu_cycle_1(&mut self, addr: u16) -> (r: (bool, bool))
        ensures
            (*final(self), r) == old(self).spec_ppu_cycle_1(addr),
    ;

    /// The write part of a ppu memory cycle that the cartridge answers.
    fn ppu_cycle_write(&mut self, data: u8)
        ensures
            *final(self) == old(self).spec_ppu_cycle_write(data),
    ;

    /// The read part of a ppu memory cycle that the cartridge answers.
    fn ppu_cycle_read(&mut self) -> (r: u8)
        ensures
            (*final(self), r) == old(self).spec_ppu_cycle_read(),
    ;

    /// The name of the rom of the cartridge.
    spec fn spec_rom_name(&self) -> String;

    /// The name of the rom of the cartridge.
    fn rom_name(&self) -> (r: String)
        ensures
            r@ == self.spec_rom_name()@,
    ;
}

/// The kinds of accessories that plug into a controller port.
#[derive(Clone, Copy, Debug, PartialEq, Eq, Structural)]
pub enum ControllerKind {
    /// A standard controller.
    StandardController,
    /// A light gun.
    Zapper,
    /// Nothing plugged in.
    DummyController,
    /// A four score adapter, holding two further controllers.
    FourScore,
}

/// An accessory plugged into a controller port. A four score adapter holds two further
/// accessories in its slots 0 and 1.
pub trait ControllerDevice: Sized {
    /// Which kind of accessory this is.
    spec fn spec_kind(&self) -> ControllerKind;

    /// For a four score adapter: the accessory in its slot `index` (0 or 1).
    spec fn spec_slot(&self, index: u8) -> Self;

    /// Which kind of accessory this is.
    fn kind(&self) -> (r: ControllerKind)
        ensures
            r == self.spec_kind(),
    ;

    /// An empty port.
    fn dummy() -> (r: Self)
        ensures
            r.spec_kind() == ControllerKind::DummyController,
    ;

    /// An empty four score adapter.
    fn four_score() -> (r: Self)
        ensures
            r.spec_kind() == ControllerKind::FourScore,
            r.spec_slot(0).spec_kind() == ControllerKind::DummyController,
            r.spec_slot(1).spec_kind() == ControllerKind::DummyController,
    ;

    /// A copy of this accessory.
    fn clone_controller(&self) -> (r: Self)
        ensures
            r == *self,
    ;

    /// For a four score adapter: a copy of the controller in its slot `index` (0 or 1).
    fn four_score_get(&self, index: u8) -> (r: Self)
        requires
            index < 2,
        ensures
            r == self.spec_slot(index),
    ;

    /// For a four score adapter: the controller in its slot `index` (0 or 1).
    fn four_score_get_mut(&mut self, index: u8) -> (r: &mut Self)
        requires
            index < 2,
        ensures
            *r == old(self).spec_slot(index),
            final(self).spec_kind() == old(self).spec_kind(),
            final(self).spec_slot(index) == *final(r),
            final(self).spec_slot((1 - index) as u8) == old(self).spec_slot((1 - index) as u8),
    ;

    /// For a four score adapter: plug `c` into its slot `index` (0 or 1).
    fn four_score_set(&mut self, index: u8, c: Self)
        requires
            index < 2,
        ensures
            final(self).spec_kind() == old(self).spec_kind(),
            final(self).spec_slot(index) == c,
            final(self).spec_slot((1 - index) as u8) == old(self).spec_slot((1 - index) as u8),
    ;

    /// For a four score adapter: true when something is plugged into its second slot.
    fn has_second_controller(&self) -> (r: bool)
        ensures
            r == (self.spec_slot(1).spec_kind() != ControllerKind::DummyController),
    ;

    /// The accessory after the latch output of the cpu was set to `s`.
    spec fn spec_parallel_signal(&self, s: bool) -> Self;

    /// The accessory after the clock line of the port was set to `s`.
    spec fn spec_clock(&self, s: bool) -> Self;

    /// The latch output of the cpu.
    fn parallel_signal(&mut self, s: bool)
        ensures
            *final(self) == old(self).spec_parallel_signal(s),
    ;

    /// The clock line of the port.
    fn clock(&mut self, s: bool)
        ensures
            *final(self) == old(self).spec_clock(s),
    ;

    /// The accessory after its data lines were read, and the value read.
    spec fn spec_read_data(&self) -> (Self, u8);

    /// What a side-effect free read of the data lines gives.
    spec fn spec_dump_data(&self) -> u8;

    /// Read the five data lines of the port (active low).
    fn read_data(&mut self) -> (r: u8)
        ensures
            (*final(self), r) == old(self).spec_read_data(),
    ;

    /// Read the data lines without side effects.
    fn dump_data(&self) -> (r: u8)
        ensures
            r == self.spec_dump_data(),
    ;
}

} // verus!

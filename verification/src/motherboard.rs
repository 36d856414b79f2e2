//! The wiring and memory of the nes system: cpu ram, video ram, palette ram, the
//! cpu and ppu memory maps and the controller ports.
use vstd::prelude::*;
use crate::cpu::NesCpuPeripherals;
use crate::devices::{ApuDevice, CartridgeDevice, ControllerDevice, ControllerKind, PpuDevice};

verus! {

/// The index of palette ram that a ppu address in 0x3f00..=0x3fff selects: the low five bits,
/// with the background entries of the sprite palettes mirrored onto those of the background palettes.
pub open spec fn palette_index(addr: u16) -> int {
    let a = addr & 0x1f;
    if a == 0x10 {
        0
    } else if a == 0x14 {
        4
    } else if a == 0x18 {
        8
    } else if a == 0x1c {
        0xc
    } else {
        a as int
    }
}

/// The index into the 2k of cpu ram that a cpu address below 0x2000 selects.
pub open spec fn ram_index(addr: u16) -> int {
    (addr & 0x7ff) as int
}

/// The video memory address that a ppu address cycle selects, given the a10 and vram enable
/// lines driven by the cartridge: only the nametable range 0x2000..=0x3fff, and only when the
/// cartridge enables the internal vram (the line is active low).
pub open spec fn vram_target(addr: u16, a10: bool, vram_enable: bool) -> Option<u16> {
    if !vram_enable && 0x2000 <= addr <= 0x3fff {
        Some(addr | ((if a10 { 1u16 } else { 0u16 }) << 10u16))
    } else {
        None
    }
}

/// The byte that the video memory of the motherboard gives at a ppu address: the (mirrored)
/// nametable memory below 0x3f00, the palette ram up to 0x3fff, and 42 above.
pub open spec fn video_value(vram: Seq<u8>, palette: Seq<u8>, addr: u16) -> u8 {
    if addr <= 0x3eff {
        vram[ram_index(addr)]
    } else if addr <= 0x3fff {
        palette[palette_index(addr)]
    } else {
        42
    }
}

/// The byte that a ppu read at `addr` gives when the cartridge answers the address cycle with
/// the lines `a10` and `vram_enable` and, for its own memory, `data`: video memory when the
/// cartridge selects it, else the cartridge's byte, else 42.
pub open spec fn peek_value(
    vram: Seq<u8>,
    palette: Seq<u8>,
    addr: u16,
    a10: bool,
    vram_enable: bool,
    data: Option<u8>,
) -> u8 {
    match vram_target(addr, a10, vram_enable) {
        Some(a) => video_value(vram, palette, a),
        None => match data {
            Some(d) => d,
            None => 42u8,
        },
    }
}

/// The value on the data lines when a controller port is read: the five data lines
/// (inverted, since they are active low) and the three open bus bits from the last cpu data.
pub open spec fn controller_response(data: u8, last: u8) -> u8 {
    ((data & 0x1f) ^ 0x1f) | (last & 0xe0)
}

/// The cartridge slot after a cpu cycle that does not address the cartridge.
pub open spec fn cart_nop<C: CartridgeDevice>(cart: Option<C>) -> Option<C> {
    match cart {
        Some(c) => Some(c.spec_memory_nop()),
        None => None,
    }
}

/// The cartridge slot after a cpu cycle at `addr` that reads the bus: the cartridge answers
/// the reads of its own address space from 0x4020 on, and sees a cycle that does not
/// address it otherwise.
pub open spec fn cart_after_read<C: CartridgeDevice>(cart: Option<C>, addr: u16) -> Option<C> {
    match cart {
        Some(c) => Some(if addr >= 0x4020 { c.spec_memory_read(addr).0 } else { c.spec_memory_nop() }),
        None => None,
    }
}

/// The cartridge slot after a cpu cycle that writes `data` to `addr`.
pub open spec fn cart_after_write<C: CartridgeDevice>(cart: Option<C>, addr: u16, data: u8) -> Option<C> {
    match cart {
        Some(c) => Some(if addr >= 0x4020 { c.spec_memory_write(addr, data) } else { c.spec_memory_nop() }),
        None => None,
    }
}

/// The port that a controller port address selects: 0 for 0x4016, 1 for 0x4017.
pub open spec fn port_index(addr: u16) -> int {
    if addr == 0x4016 {
        0
    } else {
        1
    }
}

/// What a side-effect free read of the cpu bus at `addr` gives: cpu ram below 0x2000; the
/// ppu register `addr & 7` up to 0x3fff, with the palette entry or-ed in when register 7 is
/// read while the ppu addresses the palette; the apu status at 0x4015; the controller ports
/// at 0x4016 and 0x4017; the cartridge from 0x4020 on; nothing elsewhere.
pub open spec fn dump_value<C: CartridgeDevice, K: ControllerDevice, P: PpuDevice, A: ApuDevice>(
    mb: NesMotherboard<C, K>,
    per: NesCpuPeripherals<P, A>,
    addr: u16,
) -> Option<u8> {
    if addr < 0x2000 {
        Some(mb.spec_ram()[ram_index(addr)])
    } else if addr < 0x4000 {
        let va = per.ppu.spec_vram_address();
        match per.ppu.spec_dump(addr & 7) {
            Some(v) => Some(
                if addr & 7 == 7 && va >= 0x3f00 {
                    v | mb.spec_palette()[palette_index(va)]
                } else {
                    v
                },
            ),
            None => None,
        }
    } else if addr <= 0x4014 {
        None
    } else if addr == 0x4015 {
        Some(per.apu.spec_dump(addr & 0x1f))
    } else if addr <= 0x4017 {
        Some(
            controller_response(
                mb.spec_controllers()[port_index(addr)].spec_dump_data() & 0x1f,
                mb.spec_last_cpu_data(),
            ),
        )
    } else if addr < 0x4020 {
        None
    } else {
        match mb.spec_cart() {
            Some(c) => c.spec_memory_dump(addr),
            None => None,
        }
    }
}

/// A cpu read cycle at `addr` takes the motherboard from `mb` to `mb2` and the chips from
/// `per` to `per2`, and gives `r`. Cpu ram answers below 0x2000. Up to 0x3fff the ppu reads
/// register `addr & 7`, and a register that does not drive the bus leaves the last data.
/// The apu answers at 0x4015, the controller in the port at 0x4016 and 0x4017 (five data
/// lines, inverted, under the three open bus bits), the cartridge from 0x4020 on when it
/// drives the bus; other addresses give the last data. The cartridge sees every cycle, the
/// memories of the ppu side stay, and the last data becomes the value read except for a
/// ppu register read.
#[verifier::opaque]
pub open spec fn bus_read<C: CartridgeDevice, K: ControllerDevice, P: PpuDevice, A: ApuDevice>(
    mb: NesMotherboard<C, K>,
    per: NesCpuPeripherals<P, A>,
    addr: u16,
    mb2: NesMotherboard<C, K>,
    per2: NesCpuPeripherals<P, A>,
    r: u8,
) -> bool {
    let last = mb.spec_last_cpu_data();
    let c = mb.spec_controllers();
    &&& mb2.spec_ram() == mb.spec_ram()
    &&& mb2.same_ppu_side(&mb)
    &&& mb2.spec_palette_ram() == mb.spec_palette_ram()
    &&& mb2.spec_cart() == cart_after_read(mb.spec_cart(), addr)
    &&& mb2.spec_last_cpu_data() == if 0x2000 <= addr < 0x4000 { last } else { r }
    &&& (addr != 0x4016 && addr != 0x4017 ==> mb2.spec_controllers() == c)
    &&& if addr < 0x2000 {
        r == mb.spec_ram()[ram_index(addr)] && per2 == per
    } else if addr < 0x4000 {
        let (p, v) = per.ppu.spec_read(addr & 7, mb.spec_palette_ram());
        &&& per2.ppu == p
        &&& per2.apu == per.apu
        &&& r == match v {
            Some(x) => x,
            None => last,
        }
    } else if addr == 0x4015 {
        let (a, v) = per.apu.spec_read(addr & 0x1f);
        per2.apu == a && per2.ppu == per.ppu && r == v
    } else if addr == 0x4016 || addr == 0x4017 {
        let k = port_index(addr);
        let (n, d) = c[k].spec_read_data();
        &&& r == controller_response(d & 0x1f, last)
        &&& mb2.spec_controllers() == c.update(k, n)
        &&& per2 == per
    } else if addr < 0x4020 {
        r == last && per2 == per
    } else {
        &&& per2 == per
        &&& r == match mb.spec_cart() {
            Some(k) => match k.spec_memory_read(addr).1 {
                Some(v) => v,
                None => last,
            },
            None => last,
        }
    }
}

/// A cpu write cycle of `data` at `addr` takes the motherboard from `mb` to `mb2` and the chips
/// from `per` to `per2`. Cpu ram takes it below 0x2000, the ppu register `addr & 7` (with the
/// palette ram) up to 0x3fff, the apu register `addr & 0x1f` from 0x4000 to 0x4017 except the
/// oam dma register 0x4014, and the cartridge from 0x4020 on. The cartridge sees every cycle,
/// the controllers and the memories of the ppu side stay, and the last data becomes `data`.
#[verifier::opaque]
pub open spec fn bus_write<C: CartridgeDevice, K: ControllerDevice, P: PpuDevice, A: ApuDevice>(
    mb: NesMotherboard<C, K>,
    per: NesCpuPeripherals<P, A>,
    addr: u16,
    data: u8,
    mb2: NesMotherboard<C, K>,
    per2: NesCpuPeripherals<P, A>,
) -> bool {
    &&& mb2.spec_last_cpu_data() == data
    &&& mb2.same_ppu_side(&mb)
    &&& mb2.spec_controllers() == mb.spec_controllers()
    &&& mb2.spec_cart() == cart_after_write(mb.spec_cart(), addr, data)
    &&& mb2.spec_ram() == if addr < 0x2000 {
        mb.spec_ram().update(ram_index(addr), data)
    } else {
        mb.spec_ram()
    }
    &&& if 0x2000 <= addr < 0x4000 {
        &&& (per2.ppu, mb2.spec_palette_ram()) == per.ppu.spec_write(addr & 7, data, mb.spec_palette_ram())
        &&& per2.apu == per.apu
    } else {
        &&& mb2.spec_palette_ram() == mb.spec_palette_ram()
        &&& per2.ppu == per.ppu
        &&& per2.apu == if 0x4000 <= addr <= 0x4017 && addr != 0x4014 {
            per.apu.spec_write(addr & 0x1f, data)
        } else {
            per.apu
        }
    }
}

/// A struct for the nes motherboard, containing accessories to the main chips.
pub struct NesMotherboard<C, K> {
    /// The cartridge to use in the system
    cart: Option<C>,
    /// The cpu ram
    ram: [u8; 2048],
    /// The ppu vram, physically outside the ppu, so this makes perfect sense.
    vram: [u8; 2048],
    /// The palette ram for the ppu, technically belongs in the ppu.
    ppu_palette_ram: [u8; 32],
    /// The vram address fromm the last ppu address cycle
    vram_address: Option<u16>,
    /// Used for detecting sequence problems in the ppu
    last_ppu_cycle: u8,
    /// The last coordinates for ppu access
    last_ppu_coordinates: (u16, u16),
    /// Used for open bus implementation of the cpu memory bus
    last_cpu_data: u8,
    /// The controllers for the system
    controllers: [K; 2],
}

/// One random byte, for the contents of memory at power on.
#[verifier::external_body]
pub(crate) fn random_byte() -> u8 {
    rand::random::<u8>()
}

impl<C: CartridgeDevice, K: ControllerDevice> NesMotherboard<C, K> {
    /// The cpu ram.
    pub closed spec fn spec_ram(&self) -> Seq<u8> {
        self.ram@
    }

    /// The video ram.
    pub closed spec fn spec_vram(&self) -> Seq<u8> {
        self.vram@
    }

    /// The palette ram.
    pub closed spec fn spec_palette(&self) -> Seq<u8> {
        self.ppu_palette_ram@
    }

    /// The palette ram, as the array that the ppu registers work on.
    pub closed spec fn spec_palette_ram(&self) -> [u8; 32] {
        self.ppu_palette_ram
    }

    /// The last value driven on the cpu data bus.
    pub closed spec fn spec_last_cpu_data(&self) -> u8 {
        self.last_cpu_data
    }

    /// The video memory address latched by the last ppu address cycle.
    pub closed spec fn spec_vram_address(&self) -> Option<u16> {
        self.vram_address
    }

    /// The phase of the last ppu memory cycle (1 address, 2 data).
    pub closed spec fn spec_last_ppu_cycle(&self) -> u8 {
        self.last_ppu_cycle
    }

    /// The ppu coordinates of the last ppu memory cycle.
    pub closed spec fn spec_last_ppu_coordinates(&self) -> (u16, u16) {
        self.last_ppu_coordinates
    }

    /// The cartridge, if one is inserted.
    pub closed spec fn spec_cart(&self) -> Option<C> {
        self.cart
    }

    /// The accessories plugged into the two controller ports.
    pub closed spec fn spec_controllers(&self) -> Seq<K> {
        self.controllers@
    }

    /// The sizes of the memories.
    pub proof fn lemma_sizes(&self)
        ensures
            self.spec_ram().len() == 2048,
            self.spec_vram().len() == 2048,
            self.spec_palette().len() == 32,
            self.spec_controllers().len() == 2,
            self.spec_palette() == self.spec_palette_ram()@,
    {
    }

    /// Create a new nes motherboard. The memories hold random values at power on.
    pub fn new() -> (r: Self)
        ensures
            r.spec_cart() is None,
            r.spec_vram_address() is None,
            r.spec_last_ppu_cycle() == 2,
            r.spec_last_cpu_data() == 0,
            r.spec_last_ppu_coordinates() == (0u16, 0u16),
            r.spec_controllers().len() == 2,
            r.spec_controllers()[0].spec_kind() == ControllerKind::DummyController,
            r.spec_controllers()[1].spec_kind() == ControllerKind::DummyController,
    {
        let mut main_ram: [u8; 2048] = [0; 2048];
        let mut i: usize = 0;
        while i < 2048
            invariant
                i <= 2048,
            decreases 2048 - i,
        {
            main_ram[i] = random_byte();
            i += 1;
        }
        let mut vram: [u8; 2048] = [0; 2048];
        let mut i: usize = 0;
        while i < 2048
            invariant
                i <= 2048,
            decreases 2048 - i,
        {
            vram[i] = random_byte();
            i += 1;
        }
        let mut pram: [u8; 32] = [0; 32];
        let mut i: usize = 0;
        while i < 32
            invariant
                i <= 32,
            decreases 32 - i,
        {
            pram[i] = random_byte();
            i += 1;
        }
        NesMotherboard {
            cart: None,
            ram: main_ram,
            vram,
            ppu_palette_ram: pram,
            vram_address: None,
            last_ppu_cycle: 2,
            last_cpu_data: 0,
            last_ppu_coordinates: (0, 0),
            controllers: [K::dummy(), K::dummy()],
        }
    }
    /// The parts of the motherboard that only the ppu side changes are the same.
    pub open spec fn same_ppu_side(&self, other: &Self) -> bool {
        &&& self.spec_vram() == other.spec_vram()
        &&& self.spec_vram_address() == other.spec_vram_address()
        &&& self.spec_last_ppu_cycle() == other.spec_last_ppu_cycle()
        &&& self.spec_last_ppu_coordinates() == other.spec_last_ppu_coordinates()
    }

    /// Exchange the controllers of this motherboard with those of `other`.
    pub fn swap_controllers(&mut self, other: &mut Self)
        ensures
            final(self).spec_controllers() == old(other).spec_controllers(),
            final(other).spec_controllers() == old(self).spec_controllers(),
            old(self).same_but_controllers(&*final(self)),
            old(other).same_but_controllers(&*final(other)),
            final(self).spec_cart() == old(self).spec_cart(),
            final(other).spec_cart() == old(other).spec_cart(),
    {
        std::mem::swap(&mut self.controllers, &mut other.controllers);
    }

    /// This motherboard and `other` differ at most in their controllers.
    pub closed spec fn same_but_controllers(&self, other: &Self) -> bool {
        NesMotherboard { controllers: other.controllers, ..*self } == *other
    }

    /// Two motherboards that differ at most in their controllers agree in everything else.
    pub proof fn lemma_same_but_controllers(&self, other: &Self)
        requires
            self.same_but_controllers(other),
        ensures
            other.spec_ram() == self.spec_ram(),
            other.spec_palette() == self.spec_palette(),
            other.spec_palette_ram() == self.spec_palette_ram(),
            other.spec_last_cpu_data() == self.spec_last_cpu_data(),
            other.spec_cart() == self.spec_cart(),
            other.same_ppu_side(self),
    {
    }

    /// Get one of the four possible controllers for the system, cloned
    pub fn get_controller(&self, index: u8) -> (r: K)
        requires
            index < 4 || self.spec_controllers()[1].spec_kind() != ControllerKind::FourScore,
        ensures
            ({
                let c = self.spec_controllers()[port_of(index)];
                &&& c.spec_kind() == ControllerKind::FourScore ==> r == c.spec_slot(index / 2)
                &&& c.spec_kind() != ControllerKind::FourScore && index < 2 ==> r == c
                &&& c.spec_kind() != ControllerKind::FourScore && index >= 2 ==> r.spec_kind()
                    == ControllerKind::DummyController
            }),
    {
        assert(index >> 1u8 == index / 2) by (bit_vector);
        proof {
            self.lemma_sizes();
        }
        if index == 0 || index == 2 {
            if self.controllers[0].kind() == ControllerKind::FourScore {
                self.controllers[0].four_score_get(index >> 1u8)
            } else if index == 0 {
                self.controllers[0].clone_controller()
            } else {
                K::dummy()
            }
        } else {
            if self.controllers[1].kind() == ControllerKind::FourScore {
                self.controllers[1].four_score_get(index >> 1u8)
            } else if index == 1 {
                self.controllers[1].clone_controller()
            } else {
                K::dummy()
            }
        }
    }

    /// Get one of the four possible controllers, mutably
    pub fn get_controller_mut(&mut self, index: u8) -> (r: &mut K)
        requires
            index < 4 || old(self).spec_controllers()[1].spec_kind() != ControllerKind::FourScore,
        ensures
            old(self).same_but_controllers(&*final(self)),
            ({
                let port = port_of(index);
                let c = old(self).spec_controllers()[port];
                let n = final(self).spec_controllers()[port];
                &&& final(self).spec_controllers()[1 - port] == old(self).spec_controllers()[1 - port]
                &&& c.spec_kind() == ControllerKind::FourScore ==> {
                    &&& *r == c.spec_slot(index / 2)
                    &&& n.spec_kind() == ControllerKind::FourScore
                    &&& n.spec_slot(index / 2) == *final(r)
                    &&& n.spec_slot((1 - index / 2) as u8) == c.spec_slot((1 - index / 2) as u8)
                }
                &&& c.spec_kind() != ControllerKind::FourScore ==> *r == c && n == *final(r)
            }),
    {
        assert(index >> 1u8 == index / 2) by (bit_vector);
        proof {
            self.lemma_sizes();
        }
        if index == 0 || index == 2 {
            if self.controllers[0].kind() == ControllerKind::FourScore {
                self.controllers[0].four_score_get_mut(index >> 1u8)
            } else {
                &mut self.controllers[0]
            }
        } else {
            if self.controllers[1].kind() == ControllerKind::FourScore {
                self.controllers[1].four_score_get_mut(index >> 1u8)
            } else {
                &mut self.controllers[1]
            }
        }
    }

    /// Set one of the four possible controllers for the system. Controllers 2 and 3 need four
    /// score adapters: plugging a controller there inserts the adapters, emptying both removes
    /// them. Slots 2 and 3 exist only with the adapters: plugging an empty port or an adapter
    /// there when no adapter is in use, or using a slot above 3 then, is left out.
    pub fn set_controller(&mut self, index: u8, nc: K)
        requires
            ({
                let c = old(self).spec_controllers();
                let p3 = four_score_in_use(c[0]);
                let p4 = four_score_in_use(c[1]);
                index < 2 || p3 || p4 || spec_fourscore_after(index, nc.spec_kind(), p3, p4)
            }),
        ensures
            old(self).same_but_controllers(&*final(self)),
            final(self).spec_controllers().len() == 2,
            ({
                let c = old(self).spec_controllers();
                let n = final(self).spec_controllers();
                let p3 = four_score_in_use(c[0]);
                let p4 = four_score_in_use(c[1]);
                let current = p3 || p4;
                let after = spec_fourscore_after(index, nc.spec_kind(), p3, p4);
                let port = port_of(index);
                let slot: u8 = if index < 2 { 0 } else { 1 };
                &&& !current && after ==> {
                    &&& n[0].spec_kind() == ControllerKind::FourScore
                    &&& n[1].spec_kind() == ControllerKind::FourScore
                    &&& n[0].spec_slot(0) == c[0]
                    &&& n[1].spec_slot(0) == c[1]
                    &&& index == 2 ==> n[0].spec_slot(1) == nc
                    &&& index != 2 ==> n[0].spec_slot(1).spec_kind() == ControllerKind::DummyController
                    &&& index == 3 ==> n[1].spec_slot(1) == nc
                    &&& index != 3 ==> n[1].spec_slot(1).spec_kind() == ControllerKind::DummyController
                }
                &&& current && !after ==> {
                    &&& c[0].spec_kind() == ControllerKind::FourScore ==> n[0] == c[0].spec_slot(0)
                    &&& c[0].spec_kind() != ControllerKind::FourScore ==> n[0].spec_kind()
                        == ControllerKind::DummyController
                    &&& c[1].spec_kind() == ControllerKind::FourScore ==> n[1] == c[1].spec_slot(0)
                    &&& c[1].spec_kind() != ControllerKind::FourScore ==> n[1].spec_kind()
                        == ControllerKind::DummyController
                }
                &&& current && after ==> {
                    &&& n[1 - port] == c[1 - port]
                    &&& c[port].spec_kind() == ControllerKind::FourScore ==> {
                        &&& n[port].spec_kind() == ControllerKind::FourScore
                        &&& n[port].spec_slot(slot) == nc
                        &&& n[port].spec_slot((1 - slot) as u8) == c[port].spec_slot((1 - slot) as u8)
                    }
                    &&& c[port].spec_kind() != ControllerKind::FourScore ==> n[port] == c[port]
                }
                &&& !current && !after ==> n == c.update(index as int, nc)
            }),
    {
        proof {
            self.lemma_sizes();
        }
        let p3_current = if self.controllers[0].kind() == ControllerKind::FourScore {
            self.controllers[0].has_second_controller()
        } else {
            false
        };
        let p4_current = if self.controllers[1].kind() == ControllerKind::FourScore {
            self.controllers[1].has_second_controller()
        } else {
            false
        };
        let fourscore_current = p3_current || p4_current;
        let fourscore_new = fourscore_after(index, nc.kind(), p3_current, p4_current);
        if !fourscore_current && fourscore_new {
            //reconfigure the controllers to insert four score adapters
            let mut fs1 = K::four_score();
            let mut fs2 = K::four_score();
            fs1.four_score_set(0, self.controllers[0].clone_controller());
            fs2.four_score_set(0, self.controllers[1].clone_controller());
            if index == 2 {
                fs1.four_score_set(1, nc);
            } else if index == 3 {
                fs2.four_score_set(1, nc);
            }
            self.controllers[0] = fs1;
            self.controllers[1] = fs2;
        } else if fourscore_current && !fourscore_new {
            //reconfigure the controllers to remove existing four score adapters
            let mut p1 = K::dummy();
            let mut p2 = K::dummy();
            if self.controllers[0].kind() == ControllerKind::FourScore {
                p1 = self.controllers[0].four_score_get(0);
            }
            if self.controllers[1].kind() == ControllerKind::FourScore {
                p2 = self.controllers[1].four_score_get(0);
            }
            self.controllers[0] = p1;
            self.controllers[1] = p2;
        } else if fourscore_current {
            // modify existing four score adapters
            if index == 0 {
                if self.controllers[0].kind() == ControllerKind::FourScore {
                    self.controllers[0].four_score_set(0, nc);
                }
            } else if index == 1 {
                if self.controllers[1].kind() == ControllerKind::FourScore {
                    self.controllers[1].four_score_set(0, nc);
                }
            } else if index == 2 {
                if self.controllers[0].kind() == ControllerKind::FourScore {
                    self.controllers[0].four_score_set(1, nc);
                }
            } else {
                if self.controllers[1].kind() == ControllerKind::FourScore {
                    self.controllers[1].four_score_set(1, nc);
                }
            }
        } else {
            // Modify regular two controller setup
            self.controllers[index as usize] = nc;
        }
    }

    /// Return a mutable reference to the cartridge if it exists
    pub fn cartridge_mut(&mut self) -> (r: Option<&mut C>)
        ensures
            r is Some <==> old(self).spec_cart() is Some,
            r is None ==> *final(self) == *old(self),
            r matches Some(c) ==> old(self).spec_cart() == Some(*c) && *final(self) == old(
                self,
            ).with_cart(Some(*final(c))),
    {
        self.cart.as_mut()
    }

    /// Return a reference to the cartridge if it exists
    pub fn cartridge(&self) -> (r: Option<&C>)
        ensures
            r == match self.spec_cart() {
                Some(c) => Some(&c),
                None => None::<&C>,
            },
    {
        self.cart.as_ref()
    }

    /// Remove any cartridge that may exist in the system.
    pub fn remove_cartridge(&mut self) -> (r: Option<C>)
        ensures
            r == old(self).spec_cart(),
            final(self).spec_cart() is None,
            *final(self) == old(self).with_cart(None),
            final(self).spec_controllers() == old(self).spec_controllers(),
            final(self).spec_ram() == old(self).spec_ram(),
    {
        self.cart.take()
    }

    /// Insert a cartridge into the system, but only if one is not already present
    pub fn insert_cartridge(&mut self, c: C)
        ensures
            old(self).spec_cart() is None ==> *final(self) == old(self).with_cart(Some(c)),
            old(self).spec_cart() is Some ==> *final(self) == *old(self),
    {
        if self.cart.is_none() {
            self.cart = Some(c);
        }
    }

    /// This motherboard with another cartridge slot content.
    pub closed spec fn with_cart(self, c: Option<C>) -> Self {
        NesMotherboard { cart: c, ..self }
    }

    /// A cartridge inserted into an empty slot is the one that is then removed, and removing
    /// it leaves the motherboard as it was before the insertion.
    pub proof fn law_cartridge_round_trip(self, c: C)
        requires
            self.spec_cart() is None,
        ensures
            self.with_cart(Some(c)).spec_cart() == Some(c),
            self.with_cart(Some(c)).with_cart(None) == self,
    {
    }

    /// Used by testing code for automated testing: true when video ram holds `check` from `addr` on.
    pub fn check_vram(&self, addr: u16, check: &[u8]) -> (r: bool)
        requires
            addr + check@.len() <= 2048,
        ensures
            r == (forall|i: int|
                0 <= i < check@.len() ==> self.spec_vram()[addr + i] == #[trigger] check@[i]),
    {
        let mut i: usize = 0;
        while i < check.len()
            invariant
                addr + check@.len() <= 2048,
                i <= check@.len(),
                forall|k: int| 0 <= k < i ==> self.vram@[addr + k] == #[trigger] check@[k],
            decreases check@.len() - i,
        {
            if self.vram[(addr + i as u16) as usize] != check[i] {
                return false;
            }
            i += 1;
        }
        true
    }

    /// Signals a change in the three outputs fromm the cpu related to the controllers
    pub fn joy_out_signal(&mut self, out: [bool; 3])
        ensures
            final(self).spec_ram() == old(self).spec_ram(),
            final(self).spec_palette() == old(self).spec_palette(),
            final(self).spec_last_cpu_data() == old(self).spec_last_cpu_data(),
            final(self).spec_cart() == old(self).spec_cart(),
            final(self).same_ppu_side(old(self)),
            old(self).same_but_controllers(&*final(self)),
            final(self).spec_controllers() == seq![
                old(self).spec_controllers()[0].spec_parallel_signal(out@[0]),
                old(self).spec_controllers()[1].spec_parallel_signal(out@[0]),
            ],
    {
        self.controllers[0].parallel_signal(out[0]);
        self.controllers[1].parallel_signal(out[0]);
    }

    /// Signals a change in signal for the joystick outputs. right true means the right joystick signal. signal is the actual signal level (active level is false).
    pub fn joy_clock_signal(&mut self, right: bool, signal: bool)
        ensures
            final(self).spec_ram() == old(self).spec_ram(),
            final(self).spec_palette() == old(self).spec_palette(),
            final(self).spec_last_cpu_data() == old(self).spec_last_cpu_data(),
            final(self).spec_cart() == old(self).spec_cart(),
            final(self).same_ppu_side(old(self)),
            !right ==> final(self).spec_controllers()[1] == old(self).spec_controllers()[1],
            right ==> final(self).spec_controllers()[0] == old(self).spec_controllers()[0],
            !right ==> final(self).spec_controllers()[0] == old(self).spec_controllers()[0].spec_clock(signal),
            right ==> final(self).spec_controllers()[1] == old(self).spec_controllers()[1].spec_clock(signal),
            final(self).spec_controllers().len() == 2,
            old(self).same_but_controllers(&*final(self)),
    {
        if !right {
            self.controllers[0].clock(signal);
        } else {
            self.controllers[1].clock(signal);
        }
    }

    /// Perform a read operation on the cpu memory bus, but doesn;t have any side effects like a normal read might
    pub fn memory_dump<P: PpuDevice, A: ApuDevice>(
        &self,
        addr: u16,
        per: &NesCpuPeripherals<P, A>,
    ) -> (r: Option<u8>)
        ensures
            r == dump_value(*self, *per, addr),
    {
        let mut response: Option<u8> = None;
        if addr <= 0x1fff {
            response = Some(self.ram[ram_slot(addr)]);
        } else if addr <= 0x3fff {
            let addr = addr & 7;
            if let Some(r) = per.ppu_dump(addr) {
                response = Some(r);
                if addr == 7 {
                    let a = per.ppu.vram_address();
                    if a >= 0x3f00 {
                        let addr2 = palette_mirror(a);
                        let palette_data = self.ppu_palette_ram[addr2 as usize];
                        response = Some(r | palette_data)
                    }
                }
            }
        } else if addr <= 0x4017 {
            if addr <= 0x4014 {
            } else if addr == 0x4015 {
                response = Some(per.apu.dump(addr & 0x1f));
            } else if addr == 0x4016 {
                let d = self.controllers[0].dump_data() & 0x1f;
                response = Some(port_value(d, self.last_cpu_data));
            } else {
                let d = self.controllers[1].dump_data() & 0x1f;
                response = Some(port_value(d, self.last_cpu_data));
            }
        } else if addr <= 0x401f {
        } else {
            if let Some(cart) = &self.cart {
                let resp = cart.memory_dump(addr);
                response = resp;
            }
        }
        response
    }

    /// Perform a read operation on the cpu memory bus
    pub fn memory_cycle_read<P: PpuDevice, A: ApuDevice>(
        &mut self,
        addr: u16,
        _controllers: [bool; 2],
        per: &mut NesCpuPeripherals<P, A>,
    ) -> (r: u8)
        ensures
            bus_read(*old(self), *old(per), addr, *final(self), *final(per), r),
    {
        proof {
            reveal(bus_read);
        }
        let mut response: u8 = self.last_cpu_data;
        if addr <= 0x1fff {
            response = self.ram[ram_slot(addr)];
            self.last_cpu_data = response;
            if let Some(cart) = &mut self.cart {
                cart.memory_nop();
            }
        } else if addr <= 0x3fff {
            let addr = addr & 7;
            if let Some(r) = per.ppu_read(addr, &self.ppu_palette_ram) {
                response = r;
            }
            if let Some(cart) = &mut self.cart {
                cart.memory_nop();
            }
        } else if addr <= 0x4017 {
            if addr <= 0x4014 {
            } else if addr == 0x4015 {
                response = per.apu.read(addr & 0x1f);
                self.last_cpu_data = response;
            } else if addr == 0x4016 {
                let d = self.controllers[0].read_data() & 0x1f;
                response = port_value(d, self.last_cpu_data);
                self.last_cpu_data = response;
            } else {
                let d = self.controllers[1].read_data() & 0x1f;
                response = port_value(d, self.last_cpu_data);
                self.last_cpu_data = response;
            }
            if let Some(cart) = &mut self.cart {
                cart.memory_nop();
            }
        } else if addr <= 0x401f {
            if let Some(cart) = &mut self.cart {
                cart.memory_nop();
            }
        } else {
            if let Some(cart) = &mut self.cart {
                let resp = cart.memory_read(addr);
                if let Some(v) = resp {
                    response = v;
                    self.last_cpu_data = v;
                }
            }
        }
        response
    }

    /// Perform a write operation on the cpu memory bus
    pub fn memory_cycle_write<P: PpuDevice, A: ApuDevice>(
        &mut self,
        addr: u16,
        data: u8,
        _controllers: [bool; 2],
        per: &mut NesCpuPeripherals<P, A>,
    )
        ensures
            bus_write(*old(self), *old(per), addr, data, *final(self), *final(per)),
    {
        proof {
            reveal(bus_write);
        }
        self.last_cpu_data = data;
        if addr <= 0x1fff {
            self.ram[ram_slot(addr)] = data;
            if let Some(cart) = &mut self.cart {
                cart.memory_nop();
            }
        } else if addr <= 0x3fff {
            let addr = addr & 7;
            per.ppu_write(addr, data, &mut self.ppu_palette_ram);
            if let Some(cart) = &mut self.cart {
                cart.memory_nop();
            }
        } else if addr <= 0x4017 {
            if addr != 0x4014 {
                per.apu.write(addr & 0x1f, data);
            }
            if let Some(cart) = &mut self.cart {
                cart.memory_nop();
            }
        } else if addr <= 0x401f {
            if let Some(cart) = &mut self.cart {
                cart.memory_nop();
            }
        } else {
            if let Some(cart) = &mut self.cart {
                cart.memory_write(addr, data);
            }
        }
    }

    /// The value that video memory gives at a ppu address in the nametable or palette range.
    fn vram_read(&self, addr: u16) -> (r: u8)
        ensures
            r == video_value(self.spec_vram(), self.spec_palette(), addr),
    {
        if addr <= 0x3eff {
            self.vram[ram_slot(addr)]
        } else if addr <= 0x3fff {
            let addr2 = palette_mirror(addr);
            self.ppu_palette_ram[addr2 as usize]
        } else {
            42
        }
    }

    /// Performs a non-modifying ppu read: the byte that an address cycle at `addr` followed by
    /// a read cycle would give (the address with bit 0x400 replaced by the cartridge's a10 line,
    /// as [`NesMotherboard::ppu_cycle_1`] forms it), when the cartridge answers as its peek says.
    pub fn ppu_peek(&self, addr: u16) -> (r: u8)
        ensures
            r == match self.spec_cart() {
                Some(c) => {
                    let (a10, vram_enable, data) = c.spec_ppu_peek_1(addr);
                    peek_value(
                        self.spec_vram(),
                        self.spec_palette(),
                        addr & !0x400u16,
                        a10,
                        vram_enable,
                        data,
                    )
                },
                None => 0,
            },
    {
        if let Some(cart) = &self.cart {
            let (a10, vram_enable, data) = cart.ppu_peek_1(addr);
            let vram_address = ppu_vram_target(addr & !0x400u16, a10, vram_enable);
            let r = if let Some(a) = vram_address {
                self.vram_read(a)
            } else if let Some(a) = data {
                a
            } else {
                42
            };
            assert(r == peek_value(self.spec_vram(), self.spec_palette(), addr & !0x400u16, a10, vram_enable, data));
            r
        } else {
            0
        }
    }

    /// Perform the address part of a ppu memory cycle
    pub fn ppu_cycle_1<P: PpuDevice>(&mut self, addr: u16, ppu: &P)
        ensures
            final(self).spec_last_ppu_cycle() == 1,
            final(self).spec_ram() == old(self).spec_ram(),
            final(self).spec_vram() == old(self).spec_vram(),
            final(self).spec_palette() == old(self).spec_palette(),
            final(self).spec_last_cpu_data() == old(self).spec_last_cpu_data(),
            final(self).spec_controllers() == old(self).spec_controllers(),
            final(self).spec_last_ppu_coordinates() == (ppu.spec_column(), ppu.spec_row()),
            match old(self).spec_cart() {
                Some(c) => {
                    let (c2, (a10, vram_enable)) = c.spec_ppu_cycle_1(addr);
                    &&& final(self).spec_cart() == Some(c2)
                    &&& final(self).spec_vram_address() == vram_target(addr & !0x400u16, a10, vram_enable)
                },
                None => {
                    &&& final(self).spec_cart() is None
                    &&& final(self).spec_vram_address() == old(self).spec_vram_address()
                },
            },
    {
        self.last_ppu_coordinates = (ppu.column(), ppu.row());
        self.last_ppu_cycle = 1;
        if let Some(cart) = &mut self.cart {
            let (a10, vram_enable) = cart.ppu_cycle_1(addr);
            let addr = addr & !0x400u16;
            self.vram_address = ppu_vram_target(addr, a10, vram_enable);
        }
    }

    /// Perform the write portion of a ppu memory cycle
    pub fn ppu_cycle_2_write<P: PpuDevice>(&mut self, data: u8, ppu: &P)
        ensures
            final(self).spec_last_ppu_cycle() == 2,
            final(self).spec_ram() == old(self).spec_ram(),
            final(self).spec_last_cpu_data() == old(self).spec_last_cpu_data(),
            final(self).spec_controllers() == old(self).spec_controllers(),
            final(self).spec_vram_address() == old(self).spec_vram_address(),
            match old(self).spec_vram_address() {
                Some(a) => {
                    &&& a <= 0x3eff ==> final(self).spec_vram() == old(self).spec_vram().update(
                        ram_index(a),
                        data,
                    ) && final(self).spec_palette() == old(self).spec_palette()
                    &&& 0x3f00 <= a <= 0x3fff ==> final(self).spec_palette() == old(self).spec_palette().update(palette_index(a), data) && final(self).spec_vram()
                        == old(self).spec_vram()
                    &&& a > 0x3fff ==> final(self).spec_palette() == old(self).spec_palette()
                        && final(self).spec_vram() == old(self).spec_vram()
                    &&& final(self).spec_cart() == old(self).spec_cart()
                },
                None => {
                    &&& final(self).spec_vram() == old(self).spec_vram()
                    &&& final(self).spec_palette() == old(self).spec_palette()
                    &&& final(self).spec_cart() == match old(self).spec_cart() {
                        Some(c) => Some(c.spec_ppu_cycle_write(data)),
                        None => None,
                    }
                },
            },
            final(self).spec_last_ppu_coordinates() == (ppu.spec_column(), ppu.spec_row()),
    {
        self.last_ppu_coordinates = (ppu.column(), ppu.row());
        self.last_ppu_cycle = 2;
        if let Some(addr) = self.vram_address {
            if addr <= 0x3eff {
                self.vram[ram_slot(addr)] = data;
            } else if addr <= 0x3fff {
                let addr2 = palette_mirror(addr);
                self.ppu_palette_ram[addr2 as usize] = data;
            }
        } else if let Some(cart) = &mut self.cart {
            cart.ppu_cycle_write(data);
        }
    }

    /// Perform the read portion of a ppu memory cycle
    pub fn ppu_cycle_2_read<P: PpuDevice>(&mut self, ppu: &P) -> (r: u8)
        ensures
            final(self).spec_last_ppu_cycle() == 2,
            final(self).spec_ram() == old(self).spec_ram(),
            final(self).spec_vram() == old(self).spec_vram(),
            final(self).spec_palette() == old(self).spec_palette(),
            final(self).spec_last_cpu_data() == old(self).spec_last_cpu_data(),
            final(self).spec_controllers() == old(self).spec_controllers(),
            final(self).spec_vram_address() == old(self).spec_vram_address(),
            match old(self).spec_vram_address() {
                Some(a) => {
                    &&& a <= 0x3eff ==> r == old(self).spec_vram()[ram_index(a)]
                    &&& 0x3f00 <= a <= 0x3fff ==> r == old(self).spec_palette()[palette_index(a)]
                    &&& a > 0x3fff ==> r == 42
                    &&& final(self).spec_cart() == old(self).spec_cart()
                },
                None => match old(self).spec_cart() {
                    Some(c) => {
                        let (c2, v) = c.spec_ppu_cycle_read();
                        r == v && final(self).spec_cart() == Some(c2)
                    },
                    None => r == 42 && final(self).spec_cart() is None,
                },
            },
            final(self).spec_last_ppu_coordinates() == (ppu.spec_column(), ppu.spec_row()),
    {
        self.last_ppu_coordinates = (ppu.column(), ppu.row());
        self.last_ppu_cycle = 2;
        if let Some(addr) = self.vram_address {
            self.vram_read(addr)
        } else if let Some(cart) = &mut self.cart {
            cart.ppu_cycle_read()
        } else {
            42
        }
    }

    /// Read a palette address
    pub fn ppu_palette_read(&self, addr: u16) -> (r: u8)
        ensures
            r == self.spec_palette()[(addr & 0x1f) as int],
    {
        let addr2 = addr & 0x1f;
        assert(addr2 < 32) by (bit_vector)
            requires
                addr2 == addr & 0x1f,
        ;
        self.ppu_palette_ram[addr2 as usize]
    }
}

/// The index into a 2k memory that an address selects (see [`ram_index`]).
fn ram_slot(addr: u16) -> (r: usize)
    ensures
        r == ram_index(addr),
        r < 2048,
{
    let a = addr & 0x7ff;
    assert(a < 2048) by (bit_vector)
        requires
            a == addr & 0x7ff,
    ;
    a as usize
}

/// The port that controller `index` is plugged into, directly or through a four score adapter.
pub open spec fn port_of(index: u8) -> int {
    if index == 0 || index == 2 {
        0
    } else {
        1
    }
}

/// The accessory in a port is a four score adapter with something in its second slot.
pub open spec fn four_score_in_use<K: ControllerDevice>(c: K) -> bool {
    c.spec_kind() == ControllerKind::FourScore && c.spec_slot(1).spec_kind()
        != ControllerKind::DummyController
}

/// Whether four score adapters are needed after plugging a controller of kind `kind` into
/// slot `index`, given whether slots 2 and 3 are in use now.
pub open spec fn spec_fourscore_after(index: u8, kind: ControllerKind, p3: bool, p4: bool) -> bool {
    if index == 0 || index == 1 {
        p3 || p4
    } else if index == 2 {
        match kind {
            ControllerKind::StandardController | ControllerKind::Zapper => true,
            ControllerKind::DummyController => p4,
            ControllerKind::FourScore => false,
        }
    } else if index == 3 {
        match kind {
            ControllerKind::StandardController | ControllerKind::Zapper => true,
            ControllerKind::DummyController => p3,
            ControllerKind::FourScore => false,
        }
    } else {
        p3 || p4
    }
}

/// The exec version of [`spec_fourscore_after`].
pub fn fourscore_after(index: u8, kind: ControllerKind, p3: bool, p4: bool) -> (r: bool)
    ensures
        r == spec_fourscore_after(index, kind, p3, p4),
{
    if index == 0 || index == 1 {
        p3 || p4
    } else if index == 2 {
        match kind {
            ControllerKind::StandardController | ControllerKind::Zapper => true,
            ControllerKind::DummyController => p4,
            ControllerKind::FourScore => false,
        }
    } else if index == 3 {
        match kind {
            ControllerKind::StandardController | ControllerKind::Zapper => true,
            ControllerKind::DummyController => p3,
            ControllerKind::FourScore => false,
        }
    } else {
        p3 || p4
    }
}

/// The palette ram index for a ppu address (see [`palette_index`]).
fn palette_mirror(addr: u16) -> (r: u16)
    ensures
        r == palette_index(addr),
        r < 32,
{
    let a = addr & 0x1f;
    assert(a < 32) by (bit_vector)
        requires
            a == addr & 0x1f,
    ;
    if a == 0x10 {
        0
    } else if a == 0x14 {
        4
    } else if a == 0x18 {
        8
    } else if a == 0x1c {
        0xc
    } else {
        a
    }
}

/// The video memory address of a ppu address cycle (see [`vram_target`]).
pub fn ppu_vram_target(addr: u16, a10: bool, vram_enable: bool) -> (r: Option<u16>)
    ensures
        r == vram_target(addr, a10, vram_enable),
{
    if !vram_enable {
        if 0x2000 <= addr && addr <= 0x3fff {
            Some(addr | ((if a10 { 1u16 } else { 0u16 }) << 10u16))
        } else {
            None
        }
    } else {
        None
    }
}

/// The value read from a controller port (see [`controller_response`]).
pub fn port_value(data: u8, last: u8) -> (r: u8)
    ensures
        r == controller_response(data, last),
        r & 0xe0 == last & 0xe0,
{
    let r = ((data & 0x1f) ^ 0x1f) | (last & 0xe0);
    assert(r & 0xe0 == last & 0xe0) by (bit_vector)
        requires
            r == ((data & 0x1f) ^ 0x1f) | (last & 0xe0),
    ;
    r
}



/// Cpu ram is 2k mirrored four times below 0x2000: after a write of `data` at `addr`, a read
/// at `other` gives `data` exactly when the two addresses agree in their low eleven bits, and
/// the old contents otherwise.
pub proof fn law_ram_mirror<C: CartridgeDevice, K: ControllerDevice>(
    before: NesMotherboard<C, K>,
    after: NesMotherboard<C, K>,
    addr: u16,
    data: u8,
    other: u16,
)
    requires
        addr < 0x2000,
        other < 0x2000,
        after.spec_ram() == before.spec_ram().update(ram_index(addr), data),
    ensures
        after.spec_ram()[ram_index(other)] == if other % 0x800 == addr % 0x800 {
            data
        } else {
            before.spec_ram()[ram_index(other)]
        },
{
    before.lemma_sizes();
    assert(addr & 0x7ff == addr % 0x800 && other & 0x7ff == other % 0x800) by (bit_vector);
}

/// The palette ram has 32 entries, repeated over 0x3f00..=0x3fff: two palette addresses share
/// an entry exactly when they agree in their low four bits and either in bit 4 too or in
/// having both low bits clear, so that 0x3f10, 0x3f14, 0x3f18 and 0x3f1c are the entries of
/// 0x3f00, 0x3f04, 0x3f08 and 0x3f0c.
pub proof fn law_palette_mirror(a: u16, b: u16)
    requires
        0x3f00 <= a <= 0x3fff,
        0x3f00 <= b <= 0x3fff,
    ensures
        0 <= palette_index(a) < 32,
        palette_index(a) == palette_index(b) <==> ((a & 0xf) == (b & 0xf) && ((a & 0x10) == (b
            & 0x10) || (a & 3) == 0)),
{
    let x = a & 0x1f;
    let y = b & 0x1f;
    assert(x < 32 && y < 32 && (a & 0xf) == (x & 0xf) && (a & 0x10) == (x & 0x10) && (a & 3) == (x
        & 3) && (b & 0xf) == (y & 0xf) && (b & 0x10) == (y & 0x10)) by (bit_vector)
        requires
            x == a & 0x1f,
            y == b & 0x1f,
    ;
    let px: u16 = if x == 0x10 { 0 } else if x == 0x14 { 4 } else if x == 0x18 { 8 } else if x == 0x1c { 0xc } else { x };
    let py: u16 = if y == 0x10 { 0 } else if y == 0x14 { 4 } else if y == 0x18 { 8 } else if y == 0x1c { 0xc } else { y };
    assert(px == py <==> ((x & 0xf) == (y & 0xf) && ((x & 0x10) == (y & 0x10) || (x & 3) == 0))) by (bit_vector)
        requires
            x < 32,
            y < 32,
            px == if x == 0x10 { 0 } else if x == 0x14 { 4 } else if x == 0x18 { 8 } else if x == 0x1c { 0xc } else { x },
            py == if y == 0x10 { 0 } else if y == 0x14 { 4 } else if y == 0x18 { 8 } else if y == 0x1c { 0xc } else { y },
    ;
    assert(palette_index(a) == px as int);
    assert(palette_index(b) == py as int);
}

} // verus!

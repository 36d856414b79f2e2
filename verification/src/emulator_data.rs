//! This is the main implementation of the nes emulator: the configuration and the glue that
//! clocks the cpu and the ppu from the master clock.
use vstd::prelude::*;
use crate::cpu::{NesCpu, NesCpuPeripherals, clocked_cycle, nmi_sampling, cycle_bus_effect, power_on_state, reset_state, ram_effect};
use crate::devices::{ApuDevice, CartridgeDevice, ControllerDevice, PpuDevice};
use crate::motherboard::{NesMotherboard, random_byte};

verus! {

/// Persistent configuration for the emulator
pub struct EmulatorConfiguration {
    /// Should a rom be persistent from one run to another?
    sticky_rom: bool,
    /// What is the startup rom for the emulator?
    start_rom: Option<String>,
    /// The path for saving and loading
    path: String,
    /// The root path for all roms
    rom_path: String,
}

/// The abstract content of a configuration.
pub struct ConfigurationView {
    pub sticky_rom: bool,
    pub start_rom: Option<Seq<char>>,
    pub path: Seq<char>,
    pub rom_path: Seq<char>,
}

impl View for EmulatorConfiguration {
    type V = ConfigurationView;

    closed spec fn view(&self) -> ConfigurationView {
        ConfigurationView {
            sticky_rom: self.sticky_rom,
            start_rom: match self.start_rom {
                Some(s) => Some(s@),
                None => None,
            },
            path: self.path@,
            rom_path: self.rom_path@,
        }
    }
}

impl Default for EmulatorConfiguration {
    fn default() -> (r: Self)
        ensures
            r@.sticky_rom,
            r@.start_rom is None,
            r@.path == Seq::<char>::empty(),
            r@.rom_path == "./roms"@,
    {
        EmulatorConfiguration {
            sticky_rom: true,
            start_rom: None,
            path: String::new(),
            rom_path: "./roms".to_owned(),
        }
    }
}

impl EmulatorConfiguration {
    /// A configuration made of its parts.
    pub fn from_parts(
        sticky_rom: bool,
        start_rom: Option<String>,
        path: String,
        rom_path: String,
    ) -> (r: Self)
        ensures
            r@ == (ConfigurationView {
                sticky_rom,
                start_rom: match start_rom {
                    Some(s) => Some(s@),
                    None => None,
                },
                path: path@,
                rom_path: rom_path@,
            }),
    {
        EmulatorConfiguration { sticky_rom, start_rom, path, rom_path }
    }

    /// Update startup rom if necessary. Returns true when the configuration changed, so that
    /// it has to be saved.
    pub fn set_startup(&mut self, name: String) -> (changed: bool)
        ensures
            changed == old(self)@.sticky_rom,
            changed ==> final(self)@ == (ConfigurationView {
                start_rom: Some(name@),
                ..old(self)@
            }),
            !changed ==> final(self)@ == old(self)@,
    {
        if self.sticky_rom {
            self.start_rom = Some(name);
            true
        } else {
            false
        }
    }

    /// Retrieve the root path for roms.
    pub fn get_rom_path(&self) -> (r: &str)
        ensures
            r@ == self@.rom_path,
    {
        self.rom_path.as_str()
    }

    ///Retrieve the start rom
    pub fn start_rom(&self) -> (r: Option<String>)
        ensures
            match r {
                Some(s) => self@.start_rom == Some(s@),
                None => self@.start_rom is None,
            },
    {
        match &self.start_rom {
            Some(s) => Some(s.clone()),
            None => None,
        }
    }

    /// Is the start rom kept from one run to another?
    pub fn sticky_rom(&self) -> (r: bool)
        ensures
            r == self@.sticky_rom,
    {
        self.sticky_rom
    }

    /// The path for saving and loading.
    pub fn path(&self) -> (r: &str)
        ensures
            r@ == self@.path,
    {
        self.path.as_str()
    }

    /// Change the path for saving and loading.
    pub fn set_path(&mut self, path: String)
        ensures
            final(self)@ == (ConfigurationView { path: path@, ..old(self)@ }),
    {
        self.path = path;
    }
}

/// The main struct for the nes emulator.
pub struct NesEmulatorData<C, K, P, A> {
    /// The 6502 cpu
    pub cpu: NesCpu,
    /// The peripherals of the cpu for the emulator
    pub cpu_peripherals: NesCpuPeripherals<P, A>,
    /// The motherboard for the emualtor
    pub mb: NesMotherboard<C, K>,
    /// Used for operating the cpu clock divider
    cpu_clock_counter: u8,
    /// Used for operating the ppu clock divider
    ppu_clock_counter: u8,
    /// Indicates that the emulator is paused.
    pub paused: bool,
    /// Indicates that the cpu should be single stepped, used for debugging
    pub single_step: bool,
    /// Used for debugging, to indicate to run to the end of the current frame, then pause.
    pub wait_for_frame_end: bool,
    /// Used for frame timing
    pub last_frame_time: u128,
    /// Used for emulating the proper behavior of the cpu for the nmi interrupt
    nmi: [bool; 3],
    /// Used for triggering the cpu irq line
    prev_irq: bool,
    /// This contains the non-volatile configuration of the emulator
    pub configuration: EmulatorConfiguration,
}

/// The counter of a clock divider after one master cycle, for a divider of the given period.
pub open spec fn divider_next(counter: u8, period: u8) -> u8 {
    if counter + 1 >= period {
        0
    } else {
        (counter + 1) as u8
    }
}

/// The cpu as it takes a dmc dma request from the apu just before its cycle.
pub open spec fn cpu_with_dma(cpu: NesCpu, dma: Option<u16>) -> NesCpu {
    if dma is Some && cpu.spec_dmc_dma() is None {
        cpu.with_dmc_request(dma)
    } else {
        cpu
    }
}

/// The motherboard `mb` and the chips `per` are those between the cpu part and the ppu part
/// of the master cycle from `s` to `t`: those of `s` when the cpu did not run, else those that
/// the bus access of the cpu cycle made from the motherboard of `s` and its chips with the apu
/// clocked; the ppu part then clocks the ppu against them when the ppu divider wraps, and
/// leaves them otherwise.
pub open spec fn chips_between<C: CartridgeDevice, K: ControllerDevice, P: PpuDevice, A: ApuDevice>(
    s: NesEmulatorData<C, K, P, A>,
    t: NesEmulatorData<C, K, P, A>,
    mb: NesMotherboard<C, K>,
    per: NesCpuPeripherals<P, A>,
) -> bool {
    &&& s.spec_cpu_clock_counter() + 1 < 12 ==> mb == s.spec_mb() && per == s.spec_peripherals()
    &&& s.spec_cpu_clock_counter() + 1 >= 12 ==> {
        let apu = s.spec_peripherals().apu.spec_clock_slow();
        let cpu = cpu_with_dma(s.spec_cpu(), apu.spec_dma());
        &&& ram_effect(
            s.spec_mb().spec_ram(),
            mb.spec_ram(),
            t.spec_cpu().spec_bus_used(),
            t.spec_cpu().spec_last_bus(),
        )
        &&& cycle_bus_effect(
            s.spec_mb(),
            NesCpuPeripherals { ppu: s.spec_peripherals().ppu, apu },
            mb,
            per,
            t.spec_cpu().spec_bus_used(),
            t.spec_cpu().spec_last_bus(),
            cpu.spec_dmc_dma() is Some && t.spec_cpu().spec_dmc_dma() is None,
        )
    }
    &&& s.spec_ppu_clock_counter() + 1 >= 4 ==> {
        &&& t.spec_peripherals().ppu == per.ppu.spec_cycle(mb).0
        &&& t.spec_mb() == per.ppu.spec_cycle(mb).1
        &&& t.spec_peripherals().apu == per.apu
    }
    &&& s.spec_ppu_clock_counter() + 1 < 4 ==> t.spec_mb() == mb && t.spec_peripherals() == per
}

/// One master clock cycle from `s` to `t`. The cpu divider has period 12 and the ppu divider
/// period 4. When the cpu divider wraps, the apu runs one clock, and the cpu runs one cycle
/// with the nmi line high only if the last three ppu samples were all high, the irq line as
/// the apu gave it on the previous cpu cycle, the dmc dma request and the clock phase of the
/// apu; the irq line of the apu is kept for the next cpu cycle. Otherwise the cpu is untouched.
/// When the ppu divider wraps, the ppu runs one clock against the motherboard and its
/// interrupt line is sampled as the newest of the three nmi samples; otherwise the samples
/// stay.
pub open spec fn master_step<C: CartridgeDevice, K: ControllerDevice, P: PpuDevice, A: ApuDevice>(
    s: NesEmulatorData<C, K, P, A>,
    t: NesEmulatorData<C, K, P, A>,
) -> bool {
    let nmi = s.spec_nmi();
    let apu = s.spec_peripherals().apu.spec_clock_slow();
    &&& t.spec_cpu_clock_counter() == divider_next(s.spec_cpu_clock_counter(), 12)
    &&& t.spec_ppu_clock_counter() == divider_next(s.spec_ppu_clock_counter(), 4)
    &&& s.spec_cpu_clock_counter() + 1 < 12 ==> t.spec_cpu() == s.spec_cpu() && t.spec_prev_irq()
        == s.spec_prev_irq()
    &&& s.spec_cpu_clock_counter() + 1 >= 12 ==> {
        &&& clocked_cycle(
            cpu_with_dma(s.spec_cpu(), apu.spec_dma()),
            nmi[0] && nmi[1] && nmi[2],
            s.spec_prev_irq(),
            apu.spec_get_clock(),
            t.spec_cpu(),
        )
        &&& t.spec_prev_irq() == apu.spec_irq()
        &&& nmi_sampling(cpu_with_dma(s.spec_cpu(), apu.spec_dma()), nmi[0] && nmi[1] && nmi[2], t.spec_cpu())
    }
    &&& exists|mb: NesMotherboard<C, K>, per: NesCpuPeripherals<P, A>|
        #[trigger] chips_between(s, t, mb, per)
    &&& s.spec_ppu_clock_counter() + 1 < 4 ==> t.spec_nmi() == s.spec_nmi()
    &&& s.spec_ppu_clock_counter() + 1 >= 4 ==> t.spec_nmi() == seq![
        nmi[1],
        nmi[2],
        t.spec_peripherals().ppu.spec_irq(),
    ]
    &&& t.spec_configuration() == s.spec_configuration()
    &&& t.spec_last_frame_time() == s.spec_last_frame_time()
}

/// A master cycle says nothing of the debugger controls: a state that differs from its result
/// only there is a result of it too.
pub proof fn lemma_master_step_flags<C: CartridgeDevice, K: ControllerDevice, P: PpuDevice, A: ApuDevice>(
    s: NesEmulatorData<C, K, P, A>,
    t: NesEmulatorData<C, K, P, A>,
    t2: NesEmulatorData<C, K, P, A>,
)
    requires
        master_step(s, t),
        t2.spec_cpu() == t.spec_cpu(),
        t2.spec_mb() == t.spec_mb(),
        t2.spec_peripherals() == t.spec_peripherals(),
        t2.spec_configuration() == t.spec_configuration(),
        t2.spec_last_frame_time() == t.spec_last_frame_time(),
        t2.spec_cpu_clock_counter() == t.spec_cpu_clock_counter(),
        t2.spec_ppu_clock_counter() == t.spec_ppu_clock_counter(),
        t2.spec_prev_irq() == t.spec_prev_irq(),
        t2.spec_nmi() == t.spec_nmi(),
    ensures
        master_step(s, t2),
{
    let (mb, per) = choose|mb: NesMotherboard<C, K>, per: NesCpuPeripherals<P, A>|
        #[trigger] chips_between(s, t, mb, per);
    assert(chips_between(s, t2, mb, per));
}

/// The debugger stops after a master cycle that clocked the cpu right after it fetched the
/// last byte of an instruction, when a breakpoint is set at that instruction or when it was
/// asked to run a single instruction.
pub open spec fn breaks_at<C: CartridgeDevice, K: ControllerDevice, P: PpuDevice, A: ApuDevice>(
    e: NesEmulatorData<C, K, P, A>,
    single_step: bool,
) -> bool {
    &&& e.spec_cpu_clock_counter() == 0
    &&& e.spec_cpu().spec_done_fetching()
    &&& (e.spec_cpu().spec_breakpoints().contains(e.spec_cpu().spec_debugger().5) || single_step)
}

impl<C: CartridgeDevice, K: ControllerDevice, P: PpuDevice, A: ApuDevice> NesEmulatorData<C, K, P, A> {
    /// The invariant of the emulator: a well formed cpu and clock dividers within their periods.
    pub closed spec fn wf(&self) -> bool {
        &&& self.cpu.wf()
        &&& self.cpu_clock_counter < 16
        &&& self.ppu_clock_counter < 4
    }

    /// The cpu.
    pub closed spec fn spec_cpu(&self) -> NesCpu {
        self.cpu
    }

    /// The motherboard.
    pub closed spec fn spec_mb(&self) -> NesMotherboard<C, K> {
        self.mb
    }

    /// The ppu and the apu.
    pub closed spec fn spec_peripherals(&self) -> NesCpuPeripherals<P, A> {
        self.cpu_peripherals
    }

    /// The configuration.
    pub closed spec fn spec_configuration(&self) -> EmulatorConfiguration {
        self.configuration
    }

    /// The debugger controls: paused, single step, wait for frame end.
    pub closed spec fn spec_debug_flags(&self) -> (bool, bool, bool) {
        (self.paused, self.single_step, self.wait_for_frame_end)
    }

    /// The time of the last frame.
    pub closed spec fn spec_last_frame_time(&self) -> u128 {
        self.last_frame_time
    }

    /// The cpu clock divider.
    pub closed spec fn spec_cpu_clock_counter(&self) -> u8 {
        self.cpu_clock_counter
    }

    /// The ppu clock divider.
    pub closed spec fn spec_ppu_clock_counter(&self) -> u8 {
        self.ppu_clock_counter
    }

    /// The irq line of the apu as the cpu will see it on its next cycle.
    pub closed spec fn spec_prev_irq(&self) -> bool {
        self.prev_irq
    }

    /// The last three samples of the ppu interrupt line, oldest first.
    pub closed spec fn spec_nmi(&self) -> Seq<bool> {
        self.nmi@
    }

    /// This emulator with the ppu `p` in place of its own.
    pub closed spec fn with_ppu(self, p: P) -> Self {
        NesEmulatorData {
            cpu_peripherals: NesCpuPeripherals { ppu: p, apu: self.cpu_peripherals.apu },
            ..self
        }
    }

    /// An emulator with another ppu agrees with it in everything else.
    pub proof fn lemma_with_ppu(self, p: P)
        ensures
            self.with_ppu(p).spec_peripherals().ppu == p,
            self.with_ppu(p).spec_peripherals().apu == self.spec_peripherals().apu,
            self.with_ppu(p).spec_cpu() == self.spec_cpu(),
            self.with_ppu(p).spec_mb() == self.spec_mb(),
            self.with_ppu(p).spec_configuration() == self.spec_configuration(),
            self.with_ppu(p).spec_debug_flags() == self.spec_debug_flags(),
            self.with_ppu(p).spec_last_frame_time() == self.spec_last_frame_time(),
            self.with_ppu(p).spec_cpu_clock_counter() == self.spec_cpu_clock_counter(),
            self.with_ppu(p).spec_ppu_clock_counter() == self.spec_ppu_clock_counter(),
            self.with_ppu(p).spec_prev_irq() == self.spec_prev_irq(),
            self.with_ppu(p).spec_nmi() == self.spec_nmi(),
            self.with_ppu(p).wf() == self.wf(),
    {
    }

    /// Create a new nes emulator from its chips, its configuration and the current time in
    /// milliseconds. The clock dividers start at random phases.
    pub fn new(ppu: P, apu: A, configuration: EmulatorConfiguration, now: u128) -> (r: Self)
        ensures
            r.wf(),
            r.spec_cpu().spec_reset(),
            r.spec_cpu().spec_pc() == 0xfffc,
            r.spec_mb().spec_cart() is None,
            r.spec_peripherals().ppu == ppu,
            r.spec_peripherals().apu == apu,
            r.spec_nmi() == seq![false, false, false],
            r.spec_last_frame_time() == now,
            r.spec_configuration() == configuration,
            r.spec_debug_flags() == (false, false, false),
    {
        let mb: NesMotherboard<C, K> = NesMotherboard::new();
        let c1: u8 = random_byte() % 16;
        let c2: u8 = random_byte() % 4;
        NesEmulatorData {
            cpu: NesCpu::new(),
            cpu_peripherals: NesCpuPeripherals::new(ppu, apu),
            mb,
            paused: false,
            single_step: false,
            wait_for_frame_end: false,
            cpu_clock_counter: c1,
            ppu_clock_counter: c2,
            last_frame_time: now,
            nmi: [false; 3],
            prev_irq: false,
            configuration,
        }
    }

    /// Reset the cpu, ppu, and apu.
    pub fn reset(&mut self)
        requires
            old(self).wf(),
        ensures
            final(self).wf(),
            final(self).spec_cpu().spec_reset(),
            final(self).spec_cpu().spec_pc() == 0xfffc,
            final(self).spec_mb() == old(self).spec_mb(),
            final(self).spec_configuration() == old(self).spec_configuration(),
            reset_state(old(self).spec_cpu(), final(self).spec_cpu()),
            final(self).spec_peripherals().ppu == old(self).spec_peripherals().ppu.spec_reset(),
            final(self).spec_peripherals().apu == old(self).spec_peripherals().apu.spec_reset(),
            final(self).spec_cpu_clock_counter() == old(self).spec_cpu_clock_counter(),
            final(self).spec_ppu_clock_counter() == old(self).spec_ppu_clock_counter(),
            final(self).spec_nmi() == old(self).spec_nmi(),
            final(self).spec_prev_irq() == old(self).spec_prev_irq(),
            final(self).spec_debug_flags() == old(self).spec_debug_flags(),
            final(self).spec_last_frame_time() == old(self).spec_last_frame_time(),
    {
        self.cpu.reset();
        self.cpu_peripherals.ppu_reset();
        self.cpu_peripherals.apu.reset();
    }

    /// Power cycle the emulator: a new motherboard with the same controllers and no cartridge,
    /// a new cpu that keeps its breakpoints, the given fresh ppu and apu, new clock divider
    /// phases and the given time of the last frame. The configuration and the debugger controls
    /// stay. Returns the cartridge that was inserted, for the caller to load anew from its rom
    /// and insert again.
    pub fn power_cycle(&mut self, ppu: P, apu: A, now: u128) -> (cart: Option<C>)
        requires
            old(self).wf(),
        ensures
            final(self).wf(),
            cart == old(self).spec_mb().spec_cart(),
            final(self).spec_mb().spec_cart() is None,
            final(self).spec_mb().spec_controllers() == old(self).spec_mb().spec_controllers(),
            final(self).spec_cpu().spec_reset(),
            final(self).spec_cpu().spec_pc() == 0xfffc,
            final(self).spec_cpu().spec_subcycle() == 0,
            final(self).spec_cpu().spec_opcode() is None,
            final(self).spec_cpu().spec_s() == 0xfd,
            final(self).spec_cpu().spec_a() == 0,
            final(self).spec_cpu().spec_x() == 0,
            final(self).spec_cpu().spec_y() == 0,
            final(self).spec_cpu().spec_breakpoints() == old(self).spec_cpu().spec_breakpoints(),
            power_on_state(final(self).spec_cpu()),
            final(self).spec_peripherals().ppu == ppu,
            final(self).spec_peripherals().apu == apu,
            final(self).spec_nmi() == seq![false, false, false],
            !final(self).spec_prev_irq(),
            final(self).spec_last_frame_time() == now,
            final(self).spec_configuration() == old(self).spec_configuration(),
            final(self).spec_debug_flags() == old(self).spec_debug_flags(),
    {
        let cart = self.mb.remove_cartridge();
        let mut mb: NesMotherboard<C, K> = NesMotherboard::new();
        mb.swap_controllers(&mut self.mb);
        let breakpoints = self.cpu.copy_breakpoints();
        let mut cpu = NesCpu::new();
        cpu.set_breakpoints(breakpoints);
        self.cpu = cpu;
        self.cpu_peripherals = NesCpuPeripherals::new(ppu, apu);
        self.mb = mb;
        self.cpu_clock_counter = random_byte() % 16;
        self.ppu_clock_counter = random_byte() % 4;
        self.last_frame_time = now;
        self.nmi = [false; 3];
        self.prev_irq = false;
        assert(self.nmi@ =~= seq![false, false, false]);
        cart
    }

    /// Remove a cartridge from the motherboard, returning it to the caller.
    pub fn remove_cartridge(&mut self) -> (r: Option<C>)
        ensures
            r == old(self).spec_mb().spec_cart(),
            final(self).spec_mb() == old(self).spec_mb().with_cart(None),
            final(self).spec_cpu() == old(self).spec_cpu(),
            final(self).spec_configuration() == old(self).spec_configuration(),
    {
        self.mb.remove_cartridge()
    }

    /// Insert a cartridge into the motherboard, recording its rom as the startup rom. Returns
    /// true when the configuration changed and has to be saved.
    pub fn insert_cartridge(&mut self, cart: C) -> (changed: bool)
        ensures
            changed == old(self).spec_configuration()@.sticky_rom,
            !changed ==> final(self).spec_configuration()@ == old(self).spec_configuration()@,
            changed ==> final(self).spec_configuration()@ == (ConfigurationView {
                start_rom: Some(cart.spec_rom_name()@),
                ..old(self).spec_configuration()@
            }),
            old(self).spec_mb().spec_cart() is None ==> final(self).spec_mb() == old(self).spec_mb().with_cart(Some(cart)),
            old(self).spec_mb().spec_cart() is Some ==> final(self).spec_mb() == old(self).spec_mb(),
            final(self).spec_cpu() == old(self).spec_cpu(),
            final(self).spec_peripherals() == old(self).spec_peripherals(),
            final(self).spec_cpu_clock_counter() == old(self).spec_cpu_clock_counter(),
            final(self).spec_ppu_clock_counter() == old(self).spec_ppu_clock_counter(),
            final(self).spec_nmi() == old(self).spec_nmi(),
            final(self).spec_prev_irq() == old(self).spec_prev_irq(),
            final(self).spec_debug_flags() == old(self).spec_debug_flags(),
            final(self).spec_last_frame_time() == old(self).spec_last_frame_time(),
    {
        let name = cart.rom_name();
        let changed = self.configuration.set_startup(name);
        self.mb.insert_cartridge(cart);
        changed
    }

    /// Run a single cycle of the master clock: every twelfth cycle clocks the apu and the cpu,
    /// every fourth cycle clocks the ppu. The cpu sees the nmi line when the ppu has held it for
    /// three ppu cycles, and the irq line of the apu one cpu cycle late.
    pub fn cycle_step(&mut self)
        requires
            old(self).wf(),
        ensures
            final(self).wf(),
            master_step(*old(self), *final(self)),
            final(self).spec_debug_flags() == old(self).spec_debug_flags(),
    {
        self.cpu_clock_counter += 1;
        if self.cpu_clock_counter >= 12 {
            self.cpu_clock_counter = 0;
            let nmi = self.nmi[0] && self.nmi[1] && self.nmi[2];
            self.cpu_peripherals.apu.clock_slow();
            let irq = self.cpu_peripherals.apu.irq();
            let dma = self.cpu_peripherals.apu.dma();
            let ghost before = self.cpu;
            self.cpu.set_dma_input(dma);
            assert(self.cpu == cpu_with_dma(before, dma));
            self.cpu.cycle(&mut self.mb, &mut self.cpu_peripherals, nmi, self.prev_irq);
            self.prev_irq = irq;
        }
        let ghost mb_mid = self.mb;
        let ghost per_mid = self.cpu_peripherals;
        self.ppu_clock_counter += 1;
        if self.ppu_clock_counter >= 4 {
            self.ppu_clock_counter = 0;
            self.cpu_peripherals.ppu_cycle(&mut self.mb);
            self.nmi[0] = self.nmi[1];
            self.nmi[1] = self.nmi[2];
            self.nmi[2] = self.cpu_peripherals.ppu_irq();
            assert(self.nmi@ =~= seq![old(self).nmi@[1], old(self).nmi@[2], self.cpu_peripherals.ppu.spec_irq()]);
        }
        assert(chips_between(*old(self), *self, mb_mid, per_mid));
    }

    /// Run one master cycle of a frame, and say whether the frame loop has to stop. Without
    /// the debugger the loop stops at the end of a frame. With it, a paused emulator does not
    /// run and stops at once; otherwise the cycle runs, a breakpoint pauses the emulator and
    /// ends a single step, and the end of a frame stops the loop and pauses the emulator when
    /// it was asked to run to the end of the frame.
    pub fn frame_cycle(&mut self, debugger: bool) -> (done: bool)
        requires
            old(self).wf(),
        ensures
            final(self).wf(),
            debugger && old(self).spec_debug_flags().0 ==> done && *final(self) == *old(self),
            !debugger ==> final(self).spec_debug_flags() == old(self).spec_debug_flags(),
            debugger && !old(self).spec_debug_flags().0 && breaks_at(*final(self), old(self).spec_debug_flags().1) ==> done
                && master_step(*old(self), *final(self))
                && final(self).spec_debug_flags() == (true, false, old(self).spec_debug_flags().2),
            !(debugger && old(self).spec_debug_flags().0) && !(debugger && breaks_at(*final(self), old(self).spec_debug_flags().1)) ==> exists|p: P|
                master_step(*old(self), final(self).with_ppu(p)) && (final(self).spec_peripherals().ppu, done) == #[trigger] p.spec_frame_end(),
            debugger && !old(self).spec_debug_flags().0 && !breaks_at(*final(self), old(self).spec_debug_flags().1) ==> {
                &&& final(self).spec_debug_flags().0 == (done && old(self).spec_debug_flags().2)
                &&& final(self).spec_debug_flags().1 == old(self).spec_debug_flags().1
                &&& final(self).spec_debug_flags().2 == (old(self).spec_debug_flags().2 && !done)
            },
    {
        let ghost mut mid = *self;
        if debugger {
            if !self.paused {
                self.cycle_step();
                proof {
                    mid = *self;
                }
                if self.cpu_clock_counter == 0 && self.cpu.breakpoint_option() && (
                self.cpu.breakpoint() || self.single_step) {
                    self.paused = true;
                    self.single_step = false;
                    proof {
                        lemma_master_step_flags(*old(self), mid, *self);
                    }
                    return true;
                }
            } else {
                return true;
            }
            let ghost p = self.cpu_peripherals.ppu;
            let end = self.cpu_peripherals.ppu_frame_end();
            proof {
                self.lemma_with_ppu(p);
                assert(p.spec_frame_end() == (self.cpu_peripherals.ppu, end));
                lemma_master_step_flags(*old(self), mid, self.with_ppu(p));
            }
            if end {
                if self.wait_for_frame_end {
                    self.paused = true;
                    self.wait_for_frame_end = false;
                }
                proof {
                    self.lemma_with_ppu(p);
                    mid.lemma_with_ppu(p);
                    lemma_master_step_flags(*old(self), mid, self.with_ppu(p));
                }
                return true;
            }
            false
        } else {
            self.cycle_step();
            let ghost p = self.cpu_peripherals.ppu;
            let end = self.cpu_peripherals.ppu_frame_end();
            proof {
                self.lemma_with_ppu(p);
                assert(master_step(*old(self), self.with_ppu(p)));
                assert(p.spec_frame_end() == (self.cpu_peripherals.ppu, end));
            }
            end
        }
    }
}


/// Master cycle `i` of a run of emulator states takes state `i` to state `i + 1`.
pub open spec fn master_step_at<C: CartridgeDevice, K: ControllerDevice, P: PpuDevice, A: ApuDevice>(
    states: Seq<NesEmulatorData<C, K, P, A>>,
    i: int,
) -> bool {
    master_step(states[i], states[i + 1])
}

/// The master clock divides evenly: from a well formed emulator, any twelve consecutive master
/// cycles clock the cpu exactly once and the ppu exactly three times, every fourth cycle from
/// the phase of its divider, keep the dividers within their periods, and bring both back to
/// where they started. (Each of those cycles gives the cpu the nmi line high exactly when the
/// last three ppu samples were high, as [`master_step`] states.)
pub proof fn law_clock_dividers<C: CartridgeDevice, K: ControllerDevice, P: PpuDevice, A: ApuDevice>(states: Seq<NesEmulatorData<C, K, P, A>>)
    requires
        states.len() == 13,
        states[0].wf(),
        forall|i: int| 0 <= i < 12 ==> #[trigger] master_step_at(states, i),
    ensures
        states[12].spec_cpu_clock_counter() == states[0].spec_cpu_clock_counter() || states[0].spec_cpu_clock_counter() >= 12,
        states[12].spec_ppu_clock_counter() == states[0].spec_ppu_clock_counter(),
        exists|k: int|
            0 <= k < 12 && #[trigger] states[k].spec_cpu_clock_counter() + 1 >= 12 && forall|j: int|
                0 <= j < 12 && j != k ==> #[trigger] states[j].spec_cpu_clock_counter() + 1 < 12,
        forall|k: int|
            0 <= k < 12 ==> (#[trigger] states[k].spec_ppu_clock_counter() + 1 >= 4 <==> k == 3
                - states[0].spec_ppu_clock_counter() || k == 7 - states[0].spec_ppu_clock_counter()
                || k == 11 - states[0].spec_ppu_clock_counter()),
        forall|k: int| 1 <= k <= 12 ==> #[trigger] states[k].spec_ppu_clock_counter() < 4,
        states[0].spec_cpu_clock_counter() < 12 ==> forall|k: int|
            0 <= k <= 12 ==> #[trigger] states[k].spec_cpu_clock_counter() < 12,
{
    let p = states[0].spec_ppu_clock_counter();

    let c = states[0].spec_cpu_clock_counter();
    assert(master_step_at(states, 0));
    assert(master_step_at(states, 1));
    assert(master_step_at(states, 2));
    assert(master_step_at(states, 3));
    assert(master_step_at(states, 4));
    assert(master_step_at(states, 5));
    assert(master_step_at(states, 6));
    assert(master_step_at(states, 7));
    assert(master_step_at(states, 8));
    assert(master_step_at(states, 9));
    assert(master_step_at(states, 10));
    assert(master_step_at(states, 11));
    assert(states[0].spec_ppu_clock_counter() == (p + 0) % 4);
    assert(states[1].spec_ppu_clock_counter() == (p + 1) % 4);
    assert(states[2].spec_ppu_clock_counter() == (p + 2) % 4);
    assert(states[3].spec_ppu_clock_counter() == (p + 3) % 4);
    assert(states[4].spec_ppu_clock_counter() == (p + 4) % 4);
    assert(states[5].spec_ppu_clock_counter() == (p + 5) % 4);
    assert(states[6].spec_ppu_clock_counter() == (p + 6) % 4);
    assert(states[7].spec_ppu_clock_counter() == (p + 7) % 4);
    assert(states[8].spec_ppu_clock_counter() == (p + 8) % 4);
    assert(states[9].spec_ppu_clock_counter() == (p + 9) % 4);
    assert(states[10].spec_ppu_clock_counter() == (p + 10) % 4);
    assert(states[11].spec_ppu_clock_counter() == (p + 11) % 4);
    assert(states[12].spec_ppu_clock_counter() == (p + 12) % 4);
    let k: int = if c >= 12 { 0 } else { 11 - c };
    assert(states[k].spec_cpu_clock_counter() + 1 >= 12);
}

/// The cpu sees the interrupt line of the ppu through three samples: on a master cycle that
/// clocks the cpu, the nmi line the cpu sees is high exactly when the last three samples of
/// the ppu interrupt line were all high.
pub proof fn law_cpu_nmi_line<C: CartridgeDevice, K: ControllerDevice, P: PpuDevice, A: ApuDevice>(
    s: NesEmulatorData<C, K, P, A>,
    t: NesEmulatorData<C, K, P, A>,
)
    requires
        master_step(s, t),
        s.spec_cpu_clock_counter() + 1 >= 12,
    ensures
        t.spec_cpu().spec_nmi_line() == (s.spec_nmi()[0] && s.spec_nmi()[1] && s.spec_nmi()[2]),
{
}

} // verus!

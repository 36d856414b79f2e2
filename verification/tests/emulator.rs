use nes_core::cpu::{parse_breakpoint, NesCpu, NesCpuPeripherals};
use nes_core::devices::{ApuDevice, CartridgeDevice, ControllerDevice, ControllerKind, PpuDevice};
use nes_core::emulator_data::{EmulatorConfiguration, NesEmulatorData};
use nes_core::genie::{GameGenieCode, GameGenieError};
use nes_core::motherboard::NesMotherboard;

/// A cartridge with 32k of program rom and no video memory of its own.
#[derive(Clone)]
struct TestCart {
    prg: Vec<u8>,
    name: String,
}

impl TestCart {
    fn new(program: &[u8]) -> Self {
        let mut prg = vec![0xeau8; 0x8000];
        prg[..program.len()].copy_from_slice(program);
        // reset vector 0x8000, irq vector 0x9000, nmi vector 0xa000
        prg[0x7ffc] = 0x00;
        prg[0x7ffd] = 0x80;
        prg[0x7ffe] = 0x00;
        prg[0x7fff] = 0x90;
        prg[0x7ffa] = 0x00;
        prg[0x7ffb] = 0xa0;
        TestCart { prg, name: "test rom".to_string() }
    }
}

impl CartridgeDevice for TestCart {
    fn spec_memory_nop(&self) -> Self {
        self.clone()
    }
    fn spec_memory_read(&self, addr: u16) -> (Self, Option<u8>) {
        (self.clone(), self.memory_dump(addr))
    }
    fn spec_memory_write(&self, _addr: u16, _data: u8) -> Self {
        self.clone()
    }
    fn spec_memory_dump(&self, addr: u16) -> Option<u8> {
        self.memory_dump(addr)
    }
    fn spec_ppu_peek_1(&self, addr: u16) -> (bool, bool, Option<u8>) {
        self.ppu_peek_1(addr)
    }
    fn spec_ppu_cycle_1(&self, addr: u16) -> (Self, (bool, bool)) {
        (self.clone(), ((addr & 0x800) != 0, false))
    }
    fn spec_ppu_cycle_write(&self, _data: u8) -> Self {
        self.clone()
    }
    fn spec_ppu_cycle_read(&self) -> (Self, u8) {
        (self.clone(), 0x55)
    }
    fn spec_rom_name(&self) -> String {
        self.name.clone()
    }
    fn memory_nop(&mut self) {}
    fn memory_read(&mut self, addr: u16) -> Option<u8> {
        if addr >= 0x8000 {
            Some(self.prg[(addr - 0x8000) as usize])
        } else {
            None
        }
    }
    fn memory_write(&mut self, _addr: u16, _data: u8) {}
    fn memory_dump(&self, addr: u16) -> Option<u8> {
        if addr >= 0x8000 {
            Some(self.prg[(addr - 0x8000) as usize])
        } else {
            None
        }
    }
    fn ppu_peek_1(&self, addr: u16) -> (bool, bool, Option<u8>) {
        ((addr & 0x800) != 0, false, None)
    }
    fn ppu_cycle_1(&mut self, addr: u16) -> (bool, bool) {
        ((addr & 0x800) != 0, false)
    }
    fn ppu_cycle_write(&mut self, _data: u8) {}
    fn ppu_cycle_read(&mut self) -> u8 {
        0x55
    }
    fn rom_name(&self) -> String {
        self.name.clone()
    }
}

struct TestPpu {
    frame: Box<[u8; 184320]>,
}

impl PpuDevice for TestPpu {
    fn spec_cycle<C: CartridgeDevice, K: ControllerDevice>(
        &self,
        bus: NesMotherboard<C, K>,
    ) -> (Self, NesMotherboard<C, K>) {
        (TestPpu { frame: self.frame.clone() }, bus)
    }
    fn spec_dump(&self, _addr: u16) -> Option<u8> {
        None
    }
    fn spec_read(&self, _addr: u16, _palette: [u8; 32]) -> (Self, Option<u8>) {
        (TestPpu { frame: self.frame.clone() }, None)
    }
    fn spec_write(&self, _addr: u16, _data: u8, palette: [u8; 32]) -> (Self, [u8; 32]) {
        (TestPpu { frame: self.frame.clone() }, palette)
    }
    fn spec_frame_end(&self) -> (Self, bool) {
        (TestPpu { frame: self.frame.clone() }, false)
    }
    fn spec_get_frame(&self) -> (Self, [u8; 184320]) {
        (TestPpu { frame: self.frame.clone() }, *self.frame)
    }
    fn spec_frame_number(&self) -> u64 {
        0
    }
    fn spec_irq(&self) -> bool {
        false
    }
    fn spec_reset(&self) -> Self {
        TestPpu { frame: self.frame.clone() }
    }
    fn spec_vram_address(&self) -> u16 {
        0
    }
    fn spec_column(&self) -> u16 {
        0
    }
    fn spec_row(&self) -> u16 {
        0
    }
    fn cycle<C: CartridgeDevice, K: ControllerDevice>(&mut self, _bus: &mut NesMotherboard<C, K>) {}
    fn dump(&self, _addr: u16) -> Option<u8> {
        None
    }
    fn read(&mut self, _addr: u16, _palette: &[u8; 32]) -> Option<u8> {
        None
    }
    fn write(&mut self, _addr: u16, _data: u8, _palette: &mut [u8; 32]) {}
    fn get_frame_end(&mut self) -> bool {
        false
    }
    fn get_frame(&mut self) -> &[u8; 184320] {
        &self.frame
    }
    fn frame_number(&self) -> u64 {
        0
    }
    fn irq(&self) -> bool {
        false
    }
    fn reset(&mut self) {}
    fn vram_address(&self) -> u16 {
        0
    }
    fn column(&self) -> u16 {
        0
    }
    fn row(&self) -> u16 {
        0
    }
}

#[derive(Clone)]
struct TestApu {
    writes: Vec<(u16, u8)>,
}

impl ApuDevice for TestApu {
    fn spec_read(&self, _addr: u16) -> (Self, u8) {
        (self.clone(), 0)
    }
    fn spec_dump(&self, _addr: u16) -> u8 {
        0
    }
    fn spec_write(&self, addr: u16, data: u8) -> Self {
        let mut a = self.clone();
        a.writes.push((addr, data));
        a
    }
    fn spec_dma_response(&self, _data: u8) -> Self {
        self.clone()
    }
    fn spec_dma(&self) -> Option<u16> {
        None
    }
    fn spec_irq(&self) -> bool {
        false
    }
    fn spec_clock_slow(&self) -> Self {
        self.clone()
    }
    fn spec_reset(&self) -> Self {
        self.clone()
    }
    fn read(&mut self, _addr: u16) -> u8 {
        0
    }
    fn dump(&self, _addr: u16) -> u8 {
        0
    }
    fn write(&mut self, addr: u16, data: u8) {
        self.writes.push((addr, data));
    }
    fn spec_get_clock(&self) -> bool {
        false
    }
    fn get_clock(&self) -> bool {
        false
    }
    fn provide_dma_response(&mut self, _data: u8) {}
    fn dma(&self) -> Option<u16> {
        None
    }
    fn irq(&self) -> bool {
        false
    }
    fn clock_slow(&mut self) {}
    fn reset(&mut self) {}
}

#[derive(Clone)]
struct TestController {
    kind: ControllerKind,
    slots: Vec<TestController>,
    data: u8,
}

impl ControllerDevice for TestController {
    fn spec_kind(&self) -> ControllerKind {
        self.kind
    }
    fn spec_slot(&self, index: u8) -> Self {
        self.slots[index as usize].clone()
    }
    fn kind(&self) -> ControllerKind {
        self.kind
    }
    fn dummy() -> Self {
        TestController { kind: ControllerKind::DummyController, slots: vec![], data: 0 }
    }
    fn four_score() -> Self {
        TestController {
            kind: ControllerKind::FourScore,
            slots: vec![Self::dummy(), Self::dummy()],
            data: 0,
        }
    }
    fn clone_controller(&self) -> Self {
        self.clone()
    }
    fn four_score_get(&self, index: u8) -> Self {
        self.slots[index as usize].clone()
    }
    fn four_score_get_mut(&mut self, index: u8) -> &mut Self {
        &mut self.slots[index as usize]
    }
    fn four_score_set(&mut self, index: u8, c: Self) {
        self.slots[index as usize] = c;
    }
    fn has_second_controller(&self) -> bool {
        self.slots[1].kind != ControllerKind::DummyController
    }
    fn spec_parallel_signal(&self, _s: bool) -> Self {
        self.clone()
    }
    fn spec_clock(&self, _s: bool) -> Self {
        self.clone()
    }
    fn spec_read_data(&self) -> (Self, u8) {
        (self.clone(), self.data)
    }
    fn spec_dump_data(&self) -> u8 {
        self.data
    }
    fn parallel_signal(&mut self, _s: bool) {}
    fn clock(&mut self, _s: bool) {}
    fn read_data(&mut self) -> u8 {
        self.data
    }
    fn dump_data(&self) -> u8 {
        self.data
    }
}

fn standard(data: u8) -> TestController {
    TestController { kind: ControllerKind::StandardController, slots: vec![], data }
}

type Board = NesMotherboard<TestCart, TestController>;
type Chips = NesCpuPeripherals<TestPpu, TestApu>;

fn system(program: &[u8]) -> (NesCpu, Board, Chips) {
    let mut mb: Board = NesMotherboard::new();
    mb.insert_cartridge(TestCart::new(program));
    let per = NesCpuPeripherals::new(
        TestPpu { frame: Box::new([0u8; 184320]) },
        TestApu { writes: vec![] },
    );
    (NesCpu::new(), mb, per)
}

/// Run cycles until `n` more instructions have completed after the reset sequence.
fn run_instructions(cpu: &mut NesCpu, mb: &mut Board, per: &mut Chips, n: usize) {
    // the reset sequence takes seven cycles
    for _ in 0..7 {
        cpu.cycle(mb, per, false, false);
    }
    assert_eq!(cpu.get_pc(), 0x8000);
    let mut done = 0;
    let mut guard = 0;
    while done < n {
        cpu.cycle(mb, per, false, false);
        if cpu.instruction_start() {
            done += 1;
        }
        guard += 1;
        assert!(guard < 10000);
    }
}

#[test]
fn reset_loads_the_reset_vector() {
    let (mut cpu, mut mb, mut per) = system(&[]);
    assert_eq!(cpu.get_pc(), 0xfffc);
    assert_eq!(cpu.get_sp(), 0xfd);
    assert_eq!(cpu.get_p(), 0x24);
    for _ in 0..7 {
        cpu.cycle(&mut mb, &mut per, false, false);
    }
    assert_eq!(cpu.get_pc(), 0x8000);
    assert!(cpu.instruction_start());
}

#[test]
fn lda_adc_immediate() {
    // LDA #$05; CLC; ADC #$03
    let (mut cpu, mut mb, mut per) = system(&[0xa9, 0x05, 0x18, 0x69, 0x03]);
    run_instructions(&mut cpu, &mut mb, &mut per, 3);
    assert_eq!(cpu.get_a(), 0x08);
    assert_eq!(cpu.get_pc(), 0x8005);
    assert_eq!(cpu.get_p() & 0xc3, 0x00);
}

#[test]
fn adc_signed_overflow_and_carry() {
    // LDA #$7f; CLC; ADC #$01 -> 0x80, overflow and negative set, carry clear
    let (mut cpu, mut mb, mut per) = system(&[0xa9, 0x7f, 0x18, 0x69, 0x01]);
    run_instructions(&mut cpu, &mut mb, &mut per, 3);
    assert_eq!(cpu.get_a(), 0x80);
    assert_eq!(cpu.get_p() & 0xc3, 0xc0);
    // LDA #$ff; SEC; ADC #$01 -> 0x01 with carry
    let (mut cpu, mut mb, mut per) = system(&[0xa9, 0xff, 0x38, 0x69, 0x01]);
    run_instructions(&mut cpu, &mut mb, &mut per, 3);
    assert_eq!(cpu.get_a(), 0x01);
    assert_eq!(cpu.get_p() & 0xc3, 0x01);
}

#[test]
fn sbc_borrow() {
    // LDA #$05; SEC; SBC #$06 -> 0xff, carry clear, negative
    let (mut cpu, mut mb, mut per) = system(&[0xa9, 0x05, 0x38, 0xe9, 0x06]);
    run_instructions(&mut cpu, &mut mb, &mut per, 3);
    assert_eq!(cpu.get_a(), 0xff);
    assert_eq!(cpu.get_p() & 0xc3, 0x80);
    // LDA #$80; SEC; SBC #$01 -> 0x7f, overflow, carry set
    let (mut cpu, mut mb, mut per) = system(&[0xa9, 0x80, 0x38, 0xe9, 0x01]);
    run_instructions(&mut cpu, &mut mb, &mut per, 3);
    assert_eq!(cpu.get_a(), 0x7f);
    assert_eq!(cpu.get_p() & 0xc3, 0x41);
}

#[test]
fn store_and_load_through_ram() {
    // LDA #$42; STA $0310; LDX $0310; LDY $0b10 (mirror of 0x0310)
    let (mut cpu, mut mb, mut per) =
        system(&[0xa9, 0x42, 0x8d, 0x10, 0x03, 0xae, 0x10, 0x03, 0xac, 0x10, 0x0b]);
    run_instructions(&mut cpu, &mut mb, &mut per, 4);
    assert_eq!(cpu.get_x(), 0x42);
    assert_eq!(cpu.get_y(), 0x42);
    assert_eq!(mb.memory_dump(0x0310, &per), Some(0x42));
    assert_eq!(mb.memory_dump(0x1b10, &per), Some(0x42));
}

#[test]
fn jsr_and_rts_return() {
    // JSR $8010; LDX #$01 ... at $8010: LDA #$33; RTS
    let mut program = vec![0x20, 0x10, 0x80, 0xa2, 0x01];
    program.resize(0x10, 0xea);
    program.extend_from_slice(&[0xa9, 0x33, 0x60]);
    let (mut cpu, mut mb, mut per) = system(&program);
    run_instructions(&mut cpu, &mut mb, &mut per, 1);
    assert_eq!(cpu.get_pc(), 0x8010);
    assert_eq!(cpu.get_sp(), 0xfb);
    run_instructions_more(&mut cpu, &mut mb, &mut per, 3);
    assert_eq!(cpu.get_a(), 0x33);
    assert_eq!(cpu.get_x(), 0x01);
    assert_eq!(cpu.get_sp(), 0xfd);
    assert_eq!(cpu.get_pc(), 0x8005);
}

fn run_instructions_more(cpu: &mut NesCpu, mb: &mut Board, per: &mut Chips, n: usize) {
    let mut done = 0;
    while done < n {
        cpu.cycle(mb, per, false, false);
        if cpu.instruction_start() {
            done += 1;
        }
    }
}

#[test]
fn branch_taken_and_not_taken() {
    // LDX #$00; BEQ +2; LDX #$05; INX
    let (mut cpu, mut mb, mut per) = system(&[0xa2, 0x00, 0xf0, 0x02, 0xa2, 0x05, 0xe8]);
    run_instructions(&mut cpu, &mut mb, &mut per, 3);
    assert_eq!(cpu.get_x(), 0x01);
    // LDX #$01; BEQ +2; LDX #$05; INX
    let (mut cpu, mut mb, mut per) = system(&[0xa2, 0x01, 0xf0, 0x02, 0xa2, 0x05, 0xe8]);
    run_instructions(&mut cpu, &mut mb, &mut per, 4);
    assert_eq!(cpu.get_x(), 0x06);
}

#[test]
fn nmi_jumps_to_the_nmi_vector() {
    let (mut cpu, mut mb, mut per) = system(&[0xea, 0xea, 0xea, 0xea]);
    for _ in 0..7 {
        cpu.cycle(&mut mb, &mut per, false, false);
    }
    let mut guard = 0;
    loop {
        cpu.cycle(&mut mb, &mut per, true, false);
        guard += 1;
        if cpu.get_pc() == 0xa000 {
            break;
        }
        assert!(guard < 40);
    }
    // the interrupt pushes the return address and the flags
    assert_eq!(cpu.get_sp(), 0xfa);
    assert_eq!(cpu.get_p() & 0x04, 0x04);
}

#[test]
fn game_genie_six_letters() {
    let c = GameGenieCode::from_str("SXIOPO").ok().unwrap();
    assert_eq!(c.target(), 0x91d9);
    assert_eq!(c.new_value(), 0xad);
    assert_eq!(c.check_value(), None);
    assert_eq!(c.code(), "SXIOPO");
    let c = GameGenieCode::from_str("sxiopo").ok().unwrap();
    assert_eq!(c.target(), 0x91d9);
    let c = GameGenieCode::from_str("NNNNNN").ok().unwrap();
    assert_eq!((c.target(), c.new_value()), (0xffff, 0xff));
}

#[test]
fn game_genie_eight_letters() {
    let c = GameGenieCode::from_str("YEUZUGAA").ok().unwrap();
    assert_eq!(c.target(), 0xacb3);
    assert_eq!(c.new_value(), 0x07);
    assert_eq!(c.check_value(), Some(0x00));
    let c = GameGenieCode::from_str("ZEXPYGLA").ok().unwrap();
    assert_eq!((c.target(), c.new_value(), c.check_value()), (0x94a7, 0x02, Some(0x03)));
}

#[test]
fn game_genie_errors() {
    assert!(matches!(GameGenieCode::from_str("SXIOP"), Err(GameGenieError::InvalidLength)));
    assert!(matches!(GameGenieCode::from_str(""), Err(GameGenieError::InvalidLength)));
    assert!(matches!(GameGenieCode::from_str("SXIOPOX"), Err(GameGenieError::InvalidLength)));
    assert!(matches!(
        GameGenieCode::from_str("SXIOPB"),
        Err(GameGenieError::InvalidCodeCharacters)
    ));
    assert!(matches!(
        GameGenieCode::from_str("SXIO1OAA"),
        Err(GameGenieError::InvalidCodeCharacters)
    ));
    // a multi byte character makes the byte length 6 with 5 characters
    assert!(matches!(
        GameGenieCode::from_str("SXIOé"),
        Err(GameGenieError::InvalidCodeCharacters)
    ));
}

#[test]
fn palette_mirroring_through_ppu_cycles() {
    let (_cpu, mut mb, per) = system(&[]);
    // write 0x21 to 0x3f10, which mirrors 0x3f00
    mb.ppu_cycle_1(0x3f10, &per.ppu);
    mb.ppu_cycle_2_write(0x21, &per.ppu);
    assert_eq!(mb.ppu_palette_read(0x00), 0x21);
    mb.ppu_cycle_1(0x3f00, &per.ppu);
    assert_eq!(mb.ppu_cycle_2_read(&per.ppu), 0x21);
    // a nametable write lands in vram
    mb.ppu_cycle_1(0x2005, &per.ppu);
    mb.ppu_cycle_2_write(0x99, &per.ppu);
    assert!(mb.check_vram(0x005, &[0x99]));
    assert_eq!(mb.ppu_peek(0x2005), 0x99);
    // pattern tables come from the cartridge
    mb.ppu_cycle_1(0x0010, &per.ppu);
    assert_eq!(mb.ppu_cycle_2_read(&per.ppu), 0x55);
}

#[test]
fn controller_port_reads() {
    let (_cpu, mut mb, mut per) = system(&[]);
    mb.set_controller(0, standard(0x01));
    // write 0xe0 to ram so the open bus holds 0xe0 in the top bits
    mb.memory_cycle_write(0x0000, 0xe0, [true; 2], &mut per);
    let v = mb.memory_cycle_read(0x4016, [false, true], &mut per);
    assert_eq!(v, ((0x01 & 0x1f) ^ 0x1f) | 0xe0);
    assert_eq!(mb.memory_dump(0x4016, &per), Some(v));
}

#[test]
fn four_score_is_inserted_and_removed() {
    let (_cpu, mut mb, _per) = system(&[]);
    mb.set_controller(0, standard(1));
    mb.set_controller(2, standard(3));
    assert_eq!(mb.get_controller(0).data, 1);
    assert_eq!(mb.get_controller(2).data, 3);
    mb.get_controller_mut(2).data = 7;
    assert_eq!(mb.get_controller(2).data, 7);
    mb.set_controller(2, TestController::dummy());
    assert_eq!(mb.get_controller(0).data, 1);
    assert_eq!(mb.get_controller(2).kind, ControllerKind::DummyController);
}

#[test]
fn configuration_startup_rom() {
    let mut c = EmulatorConfiguration::default();
    assert_eq!(c.get_rom_path(), "./roms");
    assert_eq!(c.start_rom(), None);
    assert!(c.set_startup("zelda.nes".to_string()));
    assert_eq!(c.start_rom(), Some("zelda.nes".to_string()));
    let mut c = EmulatorConfiguration::from_parts(false, None, "cfg".to_string(), "r".to_string());
    assert!(!c.set_startup("zelda.nes".to_string()));
    assert_eq!(c.start_rom(), None);
}

#[test]
fn emulator_clock_dividers() {
    let ppu = TestPpu { frame: Box::new([0u8; 184320]) };
    let apu = TestApu { writes: vec![] };
    let mut emu: NesEmulatorData<TestCart, TestController, TestPpu, TestApu> =
        NesEmulatorData::new(ppu, apu, EmulatorConfiguration::default(), 5);
    assert!(emu.insert_cartridge(TestCart::new(&[0xa9, 0x07])));
    assert_eq!(emu.configuration.start_rom(), Some("test rom".to_string()));
    // 12 master cycles per cpu cycle: the reset sequence and one instruction take 9 cpu cycles
    for _ in 0..(12 * 10) {
        emu.cycle_step();
    }
    assert_eq!(emu.cpu.get_a(), 0x07);
    assert!(emu.remove_cartridge().is_some());
    assert!(emu.remove_cartridge().is_none());
}

#[test]
fn irq_jumps_to_the_irq_vector() {
    // CLI; NOP...
    let (mut cpu, mut mb, mut per) = system(&[0x58, 0xea, 0xea, 0xea, 0xea]);
    run_instructions(&mut cpu, &mut mb, &mut per, 1);
    let p = cpu.get_p();
    assert_eq!(p & 0x04, 0);
    let mut guard = 0;
    loop {
        cpu.cycle(&mut mb, &mut per, false, true);
        guard += 1;
        if cpu.get_pc() == 0x9000 {
            break;
        }
        assert!(guard < 40);
    }
    assert_eq!(cpu.get_sp(), 0xfa);
    assert_eq!(cpu.get_p(), (p & !0x30) | 0x04);
    // the flags were pushed with both break bits clear
    assert_eq!(mb.memory_dump(0x01fb, &per), Some(p & !0x30));
}

#[test]
fn brk_uses_the_irq_vector() {
    let (mut cpu, mut mb, mut per) = system(&[0x00, 0x00]);
    run_instructions(&mut cpu, &mut mb, &mut per, 1);
    assert_eq!(cpu.get_pc(), 0x9000);
    assert_eq!(cpu.get_sp(), 0xfa);
    assert_eq!(mb.memory_dump(0x01fd, &per), Some(0x80));
    assert_eq!(mb.memory_dump(0x01fc, &per), Some(0x02));
}

#[test]
fn game_genie_mixed_case() {
    let a = GameGenieCode::from_str("SxIoPo").ok().unwrap();
    let b = GameGenieCode::from_str("SXIOPO").ok().unwrap();
    assert_eq!((a.target(), a.new_value(), a.check_value()), (b.target(), b.new_value(), b.check_value()));
    assert_eq!(a.code(), "SxIoPo");
    let a = GameGenieCode::from_str("yeuzugaa").ok().unwrap();
    assert_eq!((a.target(), a.new_value(), a.check_value()), (0xacb3, 0x07, Some(0x00)));
}

#[test]
fn ram_mirror_read_after_write() {
    let (_cpu, mut mb, mut per) = system(&[]);
    mb.memory_cycle_write(0x1abc, 0x5a, [true; 2], &mut per);
    assert_eq!(mb.memory_cycle_read(0x02bc, [true; 2], &mut per), 0x5a);
    assert_eq!(mb.memory_cycle_read(0x0abc, [true; 2], &mut per), 0x5a);
    assert_eq!(mb.memory_cycle_read(0x12bc, [true; 2], &mut per), 0x5a);
    mb.memory_cycle_write(0x02bd, 0x11, [true; 2], &mut per);
    assert_eq!(mb.memory_cycle_read(0x1abc, [true; 2], &mut per), 0x5a);
    assert_eq!(mb.memory_cycle_read(0x1abd, [true; 2], &mut per), 0x11);
}

#[test]
fn palette_entries_of_sprite_palettes() {
    let (_cpu, mut mb, per) = system(&[]);
    for (i, a) in [0x3f04u16, 0x3f08, 0x3f0c].iter().enumerate() {
        mb.ppu_cycle_1(*a, &per.ppu);
        mb.ppu_cycle_2_write(i as u8 + 1, &per.ppu);
    }
    mb.ppu_cycle_1(0x3f14, &per.ppu);
    assert_eq!(mb.ppu_cycle_2_read(&per.ppu), 1);
    mb.ppu_cycle_1(0x3f38, &per.ppu);
    assert_eq!(mb.ppu_cycle_2_read(&per.ppu), 2);
    mb.ppu_cycle_1(0x3f1c, &per.ppu);
    assert_eq!(mb.ppu_cycle_2_read(&per.ppu), 3);
    // 0x3f15 has an entry of its own
    mb.ppu_cycle_1(0x3f15, &per.ppu);
    mb.ppu_cycle_2_write(0x30, &per.ppu);
    assert_eq!(mb.ppu_palette_read(0x15), 0x30);
    assert_eq!(mb.ppu_palette_read(0x04), 1);
}

#[test]
fn cartridge_round_trip() {
    let (_cpu, mut mb, _per) = system(&[]);
    assert!(mb.cartridge().is_some());
    mb.cartridge_mut().unwrap().name = "other".to_string();
    assert_eq!(mb.cartridge().unwrap().rom_name(), "other");
    let c = mb.remove_cartridge().unwrap();
    assert_eq!(c.name, "other");
    assert!(mb.cartridge().is_none());
    assert!(mb.cartridge_mut().is_none());
    mb.insert_cartridge(c);
    assert_eq!(mb.cartridge().unwrap().name, "other");
    mb.insert_cartridge(TestCart::new(&[]));
    assert_eq!(mb.cartridge().unwrap().name, "other");
}

fn emulator() -> NesEmulatorData<TestCart, TestController, TestPpu, TestApu> {
    let ppu = TestPpu { frame: Box::new([0u8; 184320]) };
    let apu = TestApu { writes: vec![] };
    NesEmulatorData::new(ppu, apu, EmulatorConfiguration::default(), 0)
}

#[test]
fn frame_cycle_with_the_debugger() {
    let mut emu = emulator();
    emu.insert_cartridge(TestCart::new(&[0xea, 0xea, 0xea]));
    emu.paused = true;
    assert!(emu.frame_cycle(true));
    assert!(emu.paused);
    // a single step stops at the first instruction fetched
    emu.paused = false;
    emu.single_step = true;
    let mut n = 0;
    while !emu.frame_cycle(true) {
        n += 1;
        assert!(n < 12 * 20);
    }
    assert!(emu.paused);
    assert!(!emu.single_step);
    // without the debugger the loop only stops at the end of a frame, which this ppu never reports
    emu.paused = true;
    assert!(!emu.frame_cycle(false));
    assert!(emu.paused);
}

#[test]
fn clock_dividers_run_the_cpu_every_twelfth_cycle() {
    let mut emu = emulator();
    emu.insert_cartridge(TestCart::new(&[0xa9, 0x07]));
    // the low byte of the reset vector lands one cpu cycle before the high byte
    let mut first = None;
    let mut second = None;
    for m in 0..12 * 10 {
        emu.cycle_step();
        if first.is_none() && emu.cpu.get_pc() == 0xff00 {
            first = Some(m);
        }
        if second.is_none() && emu.cpu.get_pc() == 0x8000 {
            second = Some(m);
        }
    }
    assert_eq!(second.unwrap() - first.unwrap(), 12);
    assert_eq!(emu.cpu.get_a(), 0x07);
}

#[test]
fn read_modify_write_instructions() {
    // LDA #$7f; STA $10; INC $10; LDX $10
    let (mut cpu, mut mb, mut per) = system(&[0xa9, 0x7f, 0x85, 0x10, 0xe6, 0x10, 0xa6, 0x10]);
    run_instructions(&mut cpu, &mut mb, &mut per, 4);
    assert_eq!(cpu.get_x(), 0x80);
    assert_eq!(cpu.get_p() & 0x82, 0x80);
    // SEC; LDA #$81; STA $0200; ROL $0200; LDY $0200
    let (mut cpu, mut mb, mut per) =
        system(&[0x38, 0xa9, 0x81, 0x8d, 0x00, 0x02, 0x2e, 0x00, 0x02, 0xac, 0x00, 0x02]);
    run_instructions(&mut cpu, &mut mb, &mut per, 5);
    assert_eq!(cpu.get_y(), 0x03);
    assert_eq!(cpu.get_p() & 0x01, 0x01);
    assert_eq!(mb.memory_dump(0x0200, &per), Some(0x03));
    // LDX #$01; LDA #$00; STA $11; DEC $10,X -> 0xff at $11, negative set
    let (mut cpu, mut mb, mut per) = system(&[0xa2, 0x01, 0xa9, 0x00, 0x85, 0x11, 0xd6, 0x10]);
    run_instructions(&mut cpu, &mut mb, &mut per, 4);
    assert_eq!(mb.memory_dump(0x0011, &per), Some(0xff));
    assert_eq!(cpu.get_p() & 0x82, 0x80);
}

#[test]
fn undocumented_read_modify_write_instructions() {
    // LDA #$81; STA $20; LDA #$10; SLO $20 -> memory 0x02, a = 0x12, carry set
    let (mut cpu, mut mb, mut per) = system(&[0xa9, 0x81, 0x85, 0x20, 0xa9, 0x10, 0x07, 0x20]);
    run_instructions(&mut cpu, &mut mb, &mut per, 4);
    assert_eq!(mb.memory_dump(0x0020, &per), Some(0x02));
    assert_eq!(cpu.get_a(), 0x12);
    assert_eq!(cpu.get_p() & 0x83, 0x01);
    // LDA #$05; STA $20; LDA #$04; DCP $20 -> memory 0x04, equal: zero and carry
    let (mut cpu, mut mb, mut per) = system(&[0xa9, 0x05, 0x85, 0x20, 0xa9, 0x04, 0xc7, 0x20]);
    run_instructions(&mut cpu, &mut mb, &mut per, 4);
    assert_eq!(mb.memory_dump(0x0020, &per), Some(0x04));
    assert_eq!(cpu.get_a(), 0x04);
    assert_eq!(cpu.get_p() & 0x83, 0x03);
    // LDA #$01; STA $20; LDA #$05; SEC; ISB $20 -> memory 0x02, a = 0x03
    let (mut cpu, mut mb, mut per) =
        system(&[0xa9, 0x01, 0x85, 0x20, 0xa9, 0x05, 0x38, 0xe7, 0x20]);
    run_instructions(&mut cpu, &mut mb, &mut per, 5);
    assert_eq!(mb.memory_dump(0x0020, &per), Some(0x02));
    assert_eq!(cpu.get_a(), 0x03);
    assert_eq!(cpu.get_p() & 0x01, 0x01);
}

#[test]
fn undocumented_immediate_instructions() {
    // LDA #$ff; LDX #$0f; AXS #$05 -> x = 0x0a, carry set
    let (mut cpu, mut mb, mut per) = system(&[0xa9, 0xff, 0xa2, 0x0f, 0xcb, 0x05]);
    run_instructions(&mut cpu, &mut mb, &mut per, 3);
    assert_eq!(cpu.get_x(), 0x0a);
    assert_eq!(cpu.get_a(), 0xff);
    assert_eq!(cpu.get_p() & 0x83, 0x01);
    // SEC; LDA #$ff; ARR #$c0 -> a = (0xc0 >> 1) | 0x80 = 0xe0, carry from bit 7, overflow clear
    let (mut cpu, mut mb, mut per) = system(&[0x38, 0xa9, 0xff, 0x6b, 0xc0]);
    run_instructions(&mut cpu, &mut mb, &mut per, 3);
    assert_eq!(cpu.get_a(), 0xe0);
    assert_eq!(cpu.get_p() & 0xc3, 0x81);
    // CLC; LDA #$ff; ARR #$40 -> a = 0x20, overflow set (bits 7 and 6 differ), carry clear
    let (mut cpu, mut mb, mut per) = system(&[0x18, 0xa9, 0xff, 0x6b, 0x40]);
    run_instructions(&mut cpu, &mut mb, &mut per, 3);
    assert_eq!(cpu.get_a(), 0x20);
    assert_eq!(cpu.get_p() & 0xc3, 0x40);
}

#[test]
fn power_cycle_keeps_controllers_and_returns_the_cartridge() {
    let mut emu = emulator();
    emu.insert_cartridge(TestCart::new(&[0xa9, 0x07]));
    emu.mb.set_controller(0, standard(5));
    for _ in 0..12 * 20 {
        emu.cycle_step();
    }
    assert_eq!(emu.cpu.get_a(), 0x07);
    let ppu = TestPpu { frame: Box::new([0u8; 184320]) };
    let apu = TestApu { writes: vec![] };
    let cart = emu.power_cycle(ppu, apu, 99).unwrap();
    assert_eq!(cart.name, "test rom");
    assert!(emu.mb.cartridge().is_none());
    assert_eq!(emu.mb.get_controller(0).data, 5);
    assert_eq!(emu.cpu.get_a(), 0);
    assert_eq!(emu.cpu.get_pc(), 0xfffc);
    assert_eq!(emu.last_frame_time, 99);
}

#[test]
fn breakpoint_addresses_are_read_in_hexadecimal() {
    assert_eq!(parse_breakpoint("8000"), Some(0x8000));
    assert_eq!(parse_breakpoint("FfFf"), Some(0xffff));
    assert_eq!(parse_breakpoint("+10"), Some(0x10));
    assert_eq!(parse_breakpoint("0000000010"), Some(0x10));
    assert_eq!(parse_breakpoint(""), None);
    assert_eq!(parse_breakpoint("+"), None);
    assert_eq!(parse_breakpoint("10000"), None);
    assert_eq!(parse_breakpoint("-1"), None);
    assert_eq!(parse_breakpoint("12g"), None);
    assert_eq!(parse_breakpoint(" 12"), None);
    for t in ["0", "abc", "+ffff", "10000", "x", "+", "-0", "00ffff"] {
        assert_eq!(parse_breakpoint(t), u16::from_str_radix(t, 16).ok(), "{}", t);
    }
}

#[test]
fn breakpoints_stop_the_debugger() {
    let mut emu = emulator();
    emu.insert_cartridge(TestCart::new(&[0xea, 0xea, 0xea, 0xea]));
    emu.cpu.add_breakpoint(0x8002);
    emu.cpu.add_breakpoint(0x9999);
    assert_eq!(emu.cpu.breakpoints(), &vec![0x8002, 0x9999]);
    emu.cpu.remove_breakpoint(1);
    assert_eq!(emu.cpu.breakpoints(), &vec![0x8002]);
    let mut n = 0;
    while !emu.frame_cycle(true) {
        n += 1;
        assert!(n < 12 * 40);
    }
    assert!(emu.paused);
    // the nop at 0x8002 has just run: its address is the one the debugger shows
    assert_eq!(emu.cpu.get_pc(), 0x8003);
    assert_eq!(emu.cpu.disassemble(), Some("NOP".to_string()));
}

#[test]
fn pull_undoes_push() {
    // LDA #$80; PHA; LDA #$00; ... ; PLA
    let (mut cpu, mut mb, mut per) = system(&[0xa9, 0x80, 0x48, 0x68]);
    run_instructions(&mut cpu, &mut mb, &mut per, 2);
    assert_eq!(cpu.get_sp(), 0xfc);
    assert_eq!(mb.memory_dump(0x01fd, &per), Some(0x80));
    run_instructions_more(&mut cpu, &mut mb, &mut per, 1);
    assert_eq!(cpu.get_a(), 0x80);
    assert_eq!(cpu.get_sp(), 0xfd);
    assert_eq!(cpu.get_p() & 0x82, 0x80);
    assert_eq!(mb.memory_dump(0x01fd, &per), Some(0x80));
}

#[test]
fn return_undoes_call() {
    // JSR $8010 ... at $8010: RTS
    let mut program = vec![0x20, 0x10, 0x80, 0xea];
    program.resize(0x10, 0xea);
    program.push(0x60);
    let (mut cpu, mut mb, mut per) = system(&program);
    run_instructions(&mut cpu, &mut mb, &mut per, 2);
    assert_eq!(cpu.get_pc(), 0x8003);
    assert_eq!(cpu.get_sp(), 0xfd);
    assert_eq!(mb.memory_dump(0x01fd, &per), Some(0x80));
    assert_eq!(mb.memory_dump(0x01fc, &per), Some(0x02));
}

#[test]
fn jmp_indirect_stays_in_the_pointer_page() {
    // LDA #$34; STA $02FF; LDA #$12; STA $0200; LDA #$56; STA $0300; JMP ($02FF)
    let (mut cpu, mut mb, mut per) = system(&[
        0xa9, 0x34, 0x8d, 0xff, 0x02, 0xa9, 0x12, 0x8d, 0x00, 0x02, 0xa9, 0x56, 0x8d, 0x00, 0x03,
        0x6c, 0xff, 0x02,
    ]);
    run_instructions(&mut cpu, &mut mb, &mut per, 7);
    assert_eq!(cpu.get_pc(), 0x1234);
}

#[test]
fn apu_register_writes_reach_the_apu() {
    // LDA #$5a; STA $4000; STA $4014 (oam dma, not for the apu); LDX #$01
    let (mut cpu, mut mb, mut per) =
        system(&[0xa9, 0x5a, 0x8d, 0x00, 0x40, 0x8d, 0x14, 0x40, 0xa2, 0x01]);
    run_instructions(&mut cpu, &mut mb, &mut per, 4);
    assert_eq!(per.apu.writes, vec![(0x00, 0x5a)]);
    assert_eq!(cpu.get_x(), 0x01);
}

#[test]
fn oam_dma_holds_the_cpu_for_the_transfer() {
    // LDA #$02; STA $4014; LDX #$01; then NOPs. The transfer starts after the next read
    // cycle at an instruction boundary and takes 512 steps before the next opcode fetch.
    let (mut cpu, mut mb, mut per) = system(&[0xa9, 0x02, 0x8d, 0x14, 0x40, 0xa2, 0x01]);
    run_instructions(&mut cpu, &mut mb, &mut per, 3);
    assert_eq!(cpu.get_x(), 0x01);
    assert_eq!(cpu.get_pc(), 0x8007);
    let mut cycles = 0;
    while cpu.get_pc() == 0x8007 {
        cpu.cycle(&mut mb, &mut per, false, false);
        cycles += 1;
        assert!(cycles < 2000);
    }
    assert!(cycles >= 514);
    assert!(cycles <= 520);
}

#[test]
fn ppu_peek_forms_the_address_like_an_address_cycle() {
    let (_cpu, mut mb, per) = system(&[]);
    // 0x2400 with a10 low selects the same cell as 0x2000
    mb.ppu_cycle_1(0x2000, &per.ppu);
    mb.ppu_cycle_2_write(0x66, &per.ppu);
    assert_eq!(mb.ppu_peek(0x2400), 0x66);
    mb.ppu_cycle_1(0x2400, &per.ppu);
    assert_eq!(mb.ppu_cycle_2_read(&per.ppu), 0x66);
}

#[test]
fn branch_timing_depends_on_the_page() {
    // LDX #$01; BNE +2; LDY #$05; LDA #$07
    let (mut cpu, mut mb, mut per) = system(&[0xa2, 0x01, 0xd0, 0x02, 0xa0, 0x05, 0xa9, 0x07]);
    run_instructions(&mut cpu, &mut mb, &mut per, 1);
    let mut cycles = 0;
    loop {
        cpu.cycle(&mut mb, &mut per, false, false);
        cycles += 1;
        if cpu.instruction_start() {
            break;
        }
    }
    // opcode fetch, offset read, and one more cycle for a taken branch in the same page
    assert_eq!(cycles, 3);
    assert_eq!(cpu.get_pc(), 0x8006);
    run_instructions_more(&mut cpu, &mut mb, &mut per, 1);
    assert_eq!(cpu.get_a(), 0x07);
    assert_eq!(cpu.get_y(), 0x00);
}

#[test]
fn an_unknown_opcode_jams_the_cpu() {
    let (mut cpu, mut mb, mut per) = system(&[0x02, 0xa9, 0x01]);
    for _ in 0..7 {
        cpu.cycle(&mut mb, &mut per, false, false);
    }
    assert_eq!(cpu.get_pc(), 0x8000);
    for _ in 0..50 {
        cpu.cycle(&mut mb, &mut per, true, true);
        assert!(!cpu.instruction_start());
    }
    assert_eq!(cpu.get_pc(), 0x8000);
    assert_eq!(cpu.get_a(), 0x00);
}

//! This module is responsible for emulating the cpu of the nes, a 6502 without decimal mode,
//! one bus cycle at a time.
use vstd::prelude::*;
use crate::devices::{ApuDevice, CartridgeDevice, ControllerDevice, PpuDevice};
use crate::motherboard::{NesMotherboard, ram_index, bus_read, bus_write};

mod ops_alu;
mod ops_load_store;
mod ops_rmw;
mod ops_control;

verus! {

/// The peripherals for the cpu
pub struct NesCpuPeripherals<P, A> {
    /// The ppu for the nes system
    pub ppu: P,
    /// The apu for the nes system
    pub apu: A,
}

impl<P: PpuDevice, A: ApuDevice> NesCpuPeripherals<P, A> {
    /// Create a new sett of cpu peripherals
    pub fn new(ppu: P, apu: A) -> (r: Self)
        ensures
            r.ppu == ppu,
            r.apu == apu,
    {
        NesCpuPeripherals { ppu, apu }
    }

    /// Run a ppu address cycle
    pub fn ppu_cycle<C: CartridgeDevice, K: ControllerDevice>(
        &mut self,
        bus: &mut NesMotherboard<C, K>,
    )
        ensures
            final(self).ppu == old(self).ppu.spec_cycle(*old(bus)).0,
            *final(bus) == old(self).ppu.spec_cycle(*old(bus)).1,
            final(self).apu == old(self).apu,
    {
        self.ppu.cycle(bus);
    }

    /// A ppu dump cycle, no side effects
    pub fn ppu_dump(&self, addr: u16) -> (r: Option<u8>)
        ensures
            r == self.ppu.spec_dump(addr),
    {
        self.ppu.dump(addr)
    }

    /// Run a ppu read cycle
    pub fn ppu_read(&mut self, addr: u16, palette: &[u8; 32]) -> (r: Option<u8>)
        ensures
            (final(self).ppu, r) == old(self).ppu.spec_read(addr, *palette),
            final(self).apu == old(self).apu,
    {
        self.ppu.read(addr, palette)
    }

    /// Run a ppu write cycle
    pub fn ppu_write(&mut self, addr: u16, data: u8, palette: &mut [u8; 32])
        ensures
            (final(self).ppu, *final(palette)) == old(self).ppu.spec_write(addr, data, *old(palette)),
            final(self).apu == old(self).apu,
    {
        self.ppu.write(addr, data, palette);
    }

    /// Returns true when the frame has ended. USed for synchronizing the emulator to the appropriate frame rate
    pub fn ppu_frame_end(&mut self) -> (r: bool)
        ensures
            (final(self).ppu, r) == old(self).ppu.spec_frame_end(),
            final(self).apu == old(self).apu,
    {
        self.ppu.get_frame_end()
    }

    /// Returns a reference to the frame data for the ppu
    pub fn ppu_get_frame(&mut self) -> (r: &[u8; 184320])
        ensures
            (final(self).ppu, *r) == old(self).ppu.spec_get_frame(),
            final(self).apu == old(self).apu,
    {
        self.ppu.get_frame()
    }

    /// Used for automated testing, to determine how many frames have passed.
    pub fn ppu_frame_number(&self) -> (r: u64)
        ensures
            r == self.ppu.spec_frame_number(),
    {
        self.ppu.frame_number()
    }

    /// Returns the ppu irq line
    pub fn ppu_irq(&self) -> (r: bool)
        ensures
            r == self.ppu.spec_irq(),
    {
        self.ppu.irq()
    }

    /// Reset the ppu
    pub fn ppu_reset(&mut self)
        ensures
            final(self).ppu == old(self).ppu.spec_reset(),
            final(self).apu == old(self).apu,
    {
        self.ppu.reset();
    }
}

/// Stores the state of the cpu at the debugger point.
/// Single byte instructions make debugging without this weird, because the instruction has already taken effect
/// by the time the debugger is presenting the information
pub struct NesCpuDebuggerPoint {
    /// The a register
    pub a: u8,
    /// The x register
    pub x: u8,
    /// The y register
    pub y: u8,
    /// The stack register
    pub s: u8,
    /// The flags register
    pub p: u8,
    /// The program counter
    pub pc: u16,
    /// The string that corresponds to the disassembly for the most recently fetched instruction
    pub disassembly: String,
}

/// One access of the cpu to its bus: the address, the data read or written, and whether
/// it was a write.
pub struct BusAccess {
    pub addr: u16,
    pub data: u8,
    pub write: bool,
}

/// A struct for implementing the nes cpu
pub struct NesCpu {
    /// The a register
    pub(crate) a: u8,
    /// The x register
    pub(crate) x: u8,
    /// The y register
    pub(crate) y: u8,
    /// The stack register
    pub(crate) s: u8,
    /// The flags register
    pub(crate) p: u8,
    /// The program counter
    pub(crate) pc: u16,
    /// The portion of an instruction currently being executed
    pub(crate) subcycle: u8,
    /// Indicates that the reset routine of the cpu should execute
    pub(crate) reset: bool,
    /// The current opcode being executed
    pub(crate) opcode: Option<u8>,
    /// A temporary variable used inn proccessing instructions
    pub(crate) temp: u8,
    /// A temporary variable used inn proccessing instructions
    pub(crate) temp2: u8,
    /// A temporary address used in processing instructions
    pub(crate) tempaddr: u16,
    /// A list of breakpoints for the cpu
    pub breakpoints: Vec<u16>,
    /// True when the last byte of an instruction has been fetched
    pub(crate) done_fetching: bool,
    /// The debugger information
    pub debugger: NesCpuDebuggerPoint,
    /// The status of nmi_detection from last cpu cycle
    pub(crate) prev_nmi: bool,
    /// True when an nmi has been detected
    pub(crate) nmi_detected: bool,
    /// Shift register for the interrupt detection routine
    pub(crate) interrupt_shift: [(bool, bool); 2],
    /// The polled irq enable flag
    pub(crate) polled_irq_flag: bool,
    /// Indicates the type of interrupt, true for nmi, false for irq
    pub(crate) interrupt_type: bool,
    /// Indicates that the cpu is currently interrupting with an interrupt
    pub(crate) interrupting: bool,
    /// The address to use for oam dam
    pub(crate) oamdma: Option<u8>,
    /// The dma counter for oam dma
    pub(crate) dma_counter: u16,
    /// The three outputs used for controller driving
    pub(crate) outs: [bool; 3],
    /// The address for dmc dma
    pub(crate) dmc_dma: Option<u16>,
    /// Counter for doing dmc dma operations, since it takes more than one cycle
    pub(crate) dmc_dma_counter: u8,
    /// The current cycle for the dma access (true indicates write)
    pub(crate) dma_cycle: bool,
    /// Indicates that the dma is running
    pub(crate) dma_running: bool,
    /// The memory access of the last few cycles, true indicates write)
    pub(crate) last_accesses: [bool; 3],
    /// The total number of cycles for dma
    pub(crate) dma_count: u16,
    /// The last read address
    pub(crate) last_read: u16,
    /// The bus access of the last cycle
    pub(crate) last_bus: Ghost<BusAccess>,
    /// Whether the current cycle has used the bus
    pub(crate) bus_used: Ghost<bool>,
}

/// The carry flag for the cpu flags register
pub const CPU_FLAG_CARRY: u8 = 1;
/// The zero flag for the cpu flags register
pub const CPU_FLAG_ZERO: u8 = 2;
/// The interrupt disable flag for the cpu flags register
pub const CPU_FLAG_INT_DISABLE: u8 = 4;
/// The decimal flag for the cpu flags register
pub const CPU_FLAG_DECIMAL: u8 = 8;
/// The b1 flag for the cpu flags register
pub const CPU_FLAG_B1: u8 = 0x10;
/// The b2 flag for the cpu flags register
pub const CPU_FLAG_B2: u8 = 0x20;
/// The overflow flag for the cpu flags register
pub const CPU_FLAG_OVERFLOW: u8 = 0x40;
/// The negative flag for the cpu flags register
pub const CPU_FLAG_NEGATIVE: u8 = 0x80;

/// The flags register after loading `v`: zero and negative describe `v`, the rest is kept.
pub open spec fn nz_flags(p: u8, v: u8) -> u8 {
    (p & !(CPU_FLAG_ZERO | CPU_FLAG_NEGATIVE)) | (if v == 0 { CPU_FLAG_ZERO } else { 0u8 }) | (
    if v & 0x80 != 0 {
        CPU_FLAG_NEGATIVE
    } else {
        0u8
    })
}

/// The value of a byte read as a two's complement number.
pub open spec fn signed(v: u8) -> int {
    if v < 128 {
        v as int
    } else {
        v - 256
    }
}

/// The flags register after an addition of `m` and the carry to the accumulator `a`.
pub open spec fn adc_flags(p: u8, a: u8, m: u8) -> u8 {
    let c: int = if p & CPU_FLAG_CARRY != 0 { 1 } else { 0 };
    let sum: int = a + m + c;
    let r: u8 = (sum % 256) as u8;
    let sr: int = signed(a) + signed(m) + c;
    (p & !(CPU_FLAG_CARRY | CPU_FLAG_ZERO | CPU_FLAG_OVERFLOW | CPU_FLAG_NEGATIVE)) | (if sum
        > 255 {
        CPU_FLAG_CARRY
    } else {
        0u8
    }) | (if r == 0 {
        CPU_FLAG_ZERO
    } else {
        0u8
    }) | (if sr < -128 || sr > 127 {
        CPU_FLAG_OVERFLOW
    } else {
        0u8
    }) | (r & 0x80)
}

/// The accumulator after an addition of `m` and the carry.
pub open spec fn adc_result(p: u8, a: u8, m: u8) -> u8 {
    let c: int = if p & CPU_FLAG_CARRY != 0 { 1 } else { 0 };
    ((a + m + c) % 256) as u8
}

/// The accumulator after a subtraction of `m` and the borrow (the inverted carry).
pub open spec fn sbc_result(p: u8, a: u8, m: u8) -> u8 {
    let b: int = if p & CPU_FLAG_CARRY != 0 { 0 } else { 1 };
    ((a - m - b + 512) % 256) as u8
}

/// The flags register after a subtraction of `m` and the borrow from the accumulator `a`.
pub open spec fn sbc_flags(p: u8, a: u8, m: u8) -> u8 {
    let b: int = if p & CPU_FLAG_CARRY != 0 { 0 } else { 1 };
    let diff: int = a - m - b;
    let r: u8 = sbc_result(p, a, m);
    let sr: int = signed(a) - signed(m) - b;
    (p & !(CPU_FLAG_CARRY | CPU_FLAG_ZERO | CPU_FLAG_OVERFLOW | CPU_FLAG_NEGATIVE)) | (if diff
        >= 0 {
        CPU_FLAG_CARRY
    } else {
        0u8
    }) | (if r == 0 {
        CPU_FLAG_ZERO
    } else {
        0u8
    }) | (if sr < -128 || sr > 127 {
        CPU_FLAG_OVERFLOW
    } else {
        0u8
    }) | (r & 0x80)
}

/// The flags register after a comparison of the register `r` with `m`: carry when `r >= m`,
/// zero when they are equal, negative from bit 7 of `r - m`.
pub open spec fn compare_flags(p: u8, r: u8, m: u8) -> u8 {
    let d: u8 = ((r - m + 256) % 256) as u8;
    (p & !(CPU_FLAG_ZERO | CPU_FLAG_CARRY | CPU_FLAG_NEGATIVE)) | (if r == m {
        CPU_FLAG_ZERO
    } else {
        0u8
    }) | (if r >= m {
        CPU_FLAG_CARRY
    } else {
        0u8
    }) | (d & 0x80)
}

/// The flags register after a bit test of the accumulator `a` with `m`: overflow and negative
/// copied from `m`, zero when `a & m` is zero.
pub open spec fn bit_flags(p: u8, a: u8, m: u8) -> u8 {
    (p & !(CPU_FLAG_ZERO | CPU_FLAG_OVERFLOW | CPU_FLAG_NEGATIVE)) | (m & 0xc0) | (if a & m == 0 {
        CPU_FLAG_ZERO
    } else {
        0u8
    })
}

/// The flags register after a shift or rotation that produced `r` and shifted out `c`.
pub open spec fn shift_flags(p: u8, r: u8, c: bool) -> u8 {
    (p & !(CPU_FLAG_CARRY | CPU_FLAG_ZERO | CPU_FLAG_NEGATIVE)) | (if c {
        CPU_FLAG_CARRY
    } else {
        0u8
    }) | (if r == 0 {
        CPU_FLAG_ZERO
    } else {
        0u8
    }) | (r & 0x80)
}

/// The carry flag of a flags register.
pub open spec fn carry_in(p: u8) -> int {
    if p & CPU_FLAG_CARRY != 0 {
        1
    } else {
        0
    }
}

/// The flags register after a shift whose zero and negative flags a later step sets: the
/// carry from `c`, zero and negative clear, the rest kept.
pub open spec fn carry_flags(p: u8, c: bool) -> u8 {
    (p & !(CPU_FLAG_CARRY | CPU_FLAG_ZERO | CPU_FLAG_NEGATIVE)) | (if c {
        CPU_FLAG_CARRY
    } else {
        0u8
    })
}

/// The flags register with the zero and negative flags of `v` added.
pub open spec fn or_nz(p: u8, v: u8) -> u8 {
    p | (if v == 0 {
        CPU_FLAG_ZERO
    } else {
        0u8
    }) | (v & 0x80)
}

/// The flags register after arr, for `v` the accumulator anded with the operand: carry from
/// bit 7 of `v`, overflow when bits 7 and 6 of `v` differ, zero and negative from the result
/// of the rotation.
pub open spec fn arr_flags(p: u8, v: u8) -> u8 {
    let r = ror_value(p, v);
    (p & !(CPU_FLAG_CARRY | CPU_FLAG_ZERO | CPU_FLAG_OVERFLOW | CPU_FLAG_NEGATIVE)) | (if v
        >= 128 {
        CPU_FLAG_CARRY
    } else {
        0u8
    }) | (if r == 0 {
        CPU_FLAG_ZERO
    } else {
        0u8
    }) | (if (v >= 128) != (v & 0x40 != 0) {
        CPU_FLAG_OVERFLOW
    } else {
        0u8
    }) | (r & 0x80)
}

/// The address that shx and shy write to: the absolute address indexed by `index`, with a
/// high byte one more than the operand's, masked by `reg` in the high byte.
pub open spec fn sh_address(lo: u8, hi: u8, index: u8, reg: u8) -> u16 {
    abs_index(word(lo, ((hi + 1) % 256) as u8), index) & word(0xff, reg)
}

/// The value that shx and shy write: `reg` anded with one more than the high byte of the
/// operand.
pub open spec fn sh_value(hi: u8, reg: u8) -> u8 {
    ((hi + 1) % 256) as u8 & reg
}

/// A byte shifted left.
pub open spec fn asl_value(v: u8) -> u8 {
    ((v * 2) % 256) as u8
}

/// A byte shifted right.
pub open spec fn lsr_value(v: u8) -> u8 {
    v / 2
}

/// A byte rotated left through the carry.
pub open spec fn rol_value(p: u8, v: u8) -> u8 {
    ((v * 2 + carry_in(p)) % 256) as u8
}

/// A byte rotated right through the carry.
pub open spec fn ror_value(p: u8, v: u8) -> u8 {
    (v / 2 + 128 * carry_in(p)) as u8
}

/// The byte after `v`, wrapping.
pub open spec fn inc_value(v: u8) -> u8 {
    ((v + 1) % 256) as u8
}

/// The byte before `v`, wrapping.
pub open spec fn dec_value(v: u8) -> u8 {
    ((v + 255) % 256) as u8
}

/// The target of a relative branch: the offset is a signed byte counted from the next instruction.
pub open spec fn branch_target(pc: u16, offset: u8) -> u16 {
    ((pc + 2 + signed(offset) + 65536) % 65536) as u16
}

/// The zero page address `base + index`, wrapping within the zero page.
pub open spec fn zp_index(base: u8, index: u8) -> u16 {
    ((base + index) % 256) as u16
}

/// The address `base + index`, wrapping within the address space.
pub open spec fn abs_index(base: u16, index: u8) -> u16 {
    ((base + index) % 65536) as u16
}

/// The word at the program counter plus `n`.
pub open spec fn pc_plus(pc: u16, n: int) -> u16 {
    ((pc + n) % 65536) as u16
}

/// The low byte of a word.
pub open spec fn lo_byte(v: u16) -> u8 {
    (v % 256) as u8
}

/// The high byte of a word.
pub open spec fn hi_byte(v: u16) -> u8 {
    (v / 256) as u8
}

/// The word with the given low and high bytes.
pub open spec fn word(lo: u8, hi: u8) -> u16 {
    (hi as int * 256 + lo as int) as u16
}

/// The address of a stack slot.
pub open spec fn stack_addr(s: u8) -> u16 {
    (0x100 + s as int) as u16
}

/// The hexadecimal digit for a value below 16.
pub open spec fn hex_digit(d: int, upper: bool) -> char {
    if d < 10 {
        (('0' as int) + d) as char
    } else if upper {
        (('A' as int) + d - 10) as char
    } else {
        (('a' as int) + d - 10) as char
    }
}

/// The last `width` hexadecimal digits of `v`, most significant first.
pub open spec fn hex_text(v: nat, width: nat, upper: bool) -> Seq<char>
    decreases width,
{
    if width == 0 {
        Seq::empty()
    } else {
        hex_text(v / 16, (width - 1) as nat, upper).push(hex_digit((v % 16) as int, upper))
    }
}

/// The value of a hexadecimal digit, in either case.
pub open spec fn hex_digit_value(c: char) -> Option<nat> {
    if '0' <= c <= '9' {
        Some((c as int - '0' as int) as nat)
    } else if 'a' <= c <= 'f' {
        Some((c as int - 'a' as int + 10) as nat)
    } else if 'A' <= c <= 'F' {
        Some((c as int - 'A' as int + 10) as nat)
    } else {
        None
    }
}

/// The number that a string of hexadecimal digits denotes, most significant first.
pub open spec fn hex_number(s: Seq<char>) -> nat
    decreases s.len(),
{
    if s.len() == 0 {
        0
    } else {
        hex_number(s.drop_last()) * 16 + hex_digit_value(s.last()).unwrap_or(0)
    }
}

/// A breakpoint address typed in hexadecimal, as std's `u16::from_str_radix` with radix 16
/// reads it: an optional `+`, then one or more hexadecimal digits of either case, for a number
/// that fits in 16 bits.
pub open spec fn hex_address(s: Seq<char>) -> Option<u16> {
    let d = without_plus(s);
    if d.len() > 0 && all_hex_digits(d) && hex_number(d) <= 0xffff {
        Some(hex_number(d) as u16)
    } else {
        None
    }
}

/// A text without its leading `+`, if it has one.
pub open spec fn without_plus(s: Seq<char>) -> Seq<char> {
    if s.len() > 0 && s[0] == '+' {
        s.drop_first()
    } else {
        s
    }
}

/// Every character of `d` is a hexadecimal digit.
pub open spec fn all_hex_digits(d: Seq<char>) -> bool {
    forall|k: int| 0 <= k < d.len() ==> (#[trigger] hex_digit_value(d[k])) is Some
}

/// The value of a hexadecimal digit (see [`hex_digit_value`]).
fn hex_char_value(c: char) -> (r: Option<u8>)
    ensures
        match hex_digit_value(c) {
            Some(v) => r == Some(v as u8),
            None => r is None,
        },
{
    if '0' <= c && c <= '9' {
        Some((c as u32 - '0' as u32) as u8)
    } else if 'a' <= c && c <= 'f' {
        Some((c as u32 - 'a' as u32 + 10) as u8)
    } else if 'A' <= c && c <= 'F' {
        Some((c as u32 - 'A' as u32 + 10) as u8)
    } else {
        None
    }
}

/// A number of hexadecimal digits grows with each digit appended.
proof fn lemma_hex_number_grows(s: Seq<char>, k: int)
    requires
        0 <= k <= s.len(),
    ensures
        hex_number(s.take(k)) <= hex_number(s),
    decreases s.len() - k,
{
    if k < s.len() {
        lemma_hex_number_grows(s, k + 1);
        assert(s.take(k + 1).drop_last() =~= s.take(k));
    } else {
        assert(s.take(k) =~= s);
    }
}

/// Read a breakpoint address typed in hexadecimal.
pub fn parse_breakpoint(text: &str) -> (r: Option<u16>)
    ensures
        r == hex_address(text@),
{
    let n = text.unicode_len();
    let mut i: usize = 0;
    if n > 0 && text.get_char(0) == '+' {
        i = 1;
    }
    let start = i;
    let ghost d = text@.subrange(start as int, n as int);
    proof {
        if n > 0 && text@[0] == '+' {
            assert(d =~= text@.drop_first());
        } else {
            assert(d =~= text@);
        }
    }
    if i == n {
        return None;
    }
    let mut acc: u32 = 0;
    while i < n
        invariant
            start <= i <= n,
            n == text@.len(),
            d == text@.subrange(start as int, n as int),
            d == without_plus(text@),
            acc == hex_number(d.take(i - start)),
            acc <= 0xffff,
            forall|k: int| 0 <= k < i - start ==> (#[trigger] hex_digit_value(d[k])) is Some,
        decreases n - i,
    {
        let c = text.get_char(i);
        assert(c == d[i - start]);
        match hex_char_value(c) {
            Some(v) => {
                assert(d.take(i - start + 1).drop_last() =~= d.take(i - start));
                let next: u32 = acc * 16 + v as u32;
                if next > 0xffff {
                    proof {
                        lemma_hex_number_grows(d, i - start + 1);
                    }
                    return None;
                }
                acc = next;
            },
            None => {
                assert(hex_digit_value(d[i - start]) is None);
                return None;
            },
        }
        i += 1;
    }
    assert(d.take(n - start) =~= d);
    Some(acc as u16)
}

/// Format a byte as two lower case hexadecimal digits between two texts (std's `format!` with `{:02x}`).
#[verifier::external_body]
pub(crate) fn hex8_text(prefix: &str, v: u8, suffix: &str) -> (r: String)
    ensures
        r@ == prefix@ + hex_text(v as nat, 2, false) + suffix@,
{
    format!("{}{:02x}{}", prefix, v, suffix)
}

/// Format a word as four lower case hexadecimal digits between two texts (std's `format!` with `{:04x}`).
#[verifier::external_body]
pub(crate) fn hex16_text(prefix: &str, v: u16, suffix: &str) -> (r: String)
    ensures
        r@ == prefix@ + hex_text(v as nat, 4, false) + suffix@,
{
    format!("{}{:04x}{}", prefix, v, suffix)
}

/// Format a word as four upper case hexadecimal digits between two texts (std's `format!` with `{:04X}`).
#[verifier::external_body]
pub(crate) fn hex16_upper_text(prefix: &str, v: u16, suffix: &str) -> (r: String)
    ensures
        r@ == prefix@ + hex_text(v as nat, 4, true) + suffix@,
{
    format!("{}{:04X}{}", prefix, v, suffix)
}

/// The bytes of a word, low byte first.
pub(crate) fn le_bytes(v: u16) -> (r: [u8; 2])
    ensures
        r@ == seq![lo_byte(v), hi_byte(v)],
{
    let lo: u8 = (v & 0xff) as u8;
    let hi: u8 = (v >> 8u16) as u8;
    assert(lo == lo_byte(v) && hi == hi_byte(v)) by (bit_vector)
        requires
            lo == (v & 0xff) as u8,
            hi == (v >> 8u16) as u8,
    ;
    [lo, hi]
}

/// The word made of two bytes, low byte first.
pub(crate) fn from_le_bytes(b: [u8; 2]) -> (r: u16)
    ensures
        r == word(b@[0], b@[1]),
{
    let lo = b[0];
    let hi = b[1];
    let r: u16 = (hi as u16) << 8u16 | (lo as u16);
    assert(r == (hi as int * 256 + lo as int) as u16) by (bit_vector)
        requires
            r == (hi as u16) << 8u16 | (lo as u16),
    ;
    r
}

/// Add two bytes, reporting whether the sum did not fit in a byte.
pub(crate) fn overflowing_add(a: u8, b: u8) -> (r: (u8, bool))
    ensures
        r.0 == ((a + b) % 256) as u8,
        r.1 == (a + b > 255),
{
    let s: u16 = a as u16 + b as u16;
    ((s % 256) as u8, s > 255)
}

/// Subtract two bytes, reporting whether the difference was negative.
pub(crate) fn overflowing_sub(a: u8, b: u8) -> (r: (u8, bool))
    ensures
        r.0 == ((a - b + 256) % 256) as u8,
        r.1 == (a < b),
{
    let s: u16 = (a as u16 + 256) - b as u16;
    ((s % 256) as u8, a < b)
}

impl NesCpu {
    /// The invariant of the cpu state: the instruction step counter stays within the longest
    /// instruction, the reset sequence starts outside any instruction, and the dma counters
    /// stay within their transfers.
    pub closed spec fn wf(&self) -> bool {
        self.inv()
    }

    /// The invariant of the cpu state, for the modules of this crate.
    pub(crate) open spec fn inv(&self) -> bool {
        &&& self.subcycle <= 7
        &&& (self.opcode is None ==> self.subcycle <= 6)
        &&& (self.reset ==> self.opcode is None)
        &&& self.dma_counter < 512
        &&& self.dmc_dma_counter <= 1
    }

    /// The a register.
    pub closed spec fn spec_a(&self) -> u8 {
        self.a
    }

    /// The x register.
    pub closed spec fn spec_x(&self) -> u8 {
        self.x
    }

    /// The y register.
    pub closed spec fn spec_y(&self) -> u8 {
        self.y
    }

    /// The stack register.
    pub closed spec fn spec_s(&self) -> u8 {
        self.s
    }

    /// The flags register.
    pub closed spec fn spec_p(&self) -> u8 {
        self.p
    }

    /// The program counter.
    pub closed spec fn spec_pc(&self) -> u16 {
        self.pc
    }

    /// The step within the current instruction.
    pub closed spec fn spec_subcycle(&self) -> u8 {
        self.subcycle
    }

    /// The opcode of the instruction being executed, if any.
    pub closed spec fn spec_opcode(&self) -> Option<u8> {
        self.opcode
    }

    /// True while the reset sequence runs.
    pub closed spec fn spec_reset(&self) -> bool {
        self.reset
    }

    /// The dmc dma request that is pending.
    pub closed spec fn spec_dmc_dma(&self) -> Option<u16> {
        self.dmc_dma
    }

    /// The counter of the dmc dma.
    pub closed spec fn spec_dmc_dma_counter(&self) -> u8 {
        self.dmc_dma_counter
    }

    /// True when the last byte of an instruction has been fetched.
    pub closed spec fn spec_done_fetching(&self) -> bool {
        self.done_fetching
    }

    /// The breakpoints of the debugger.
    pub closed spec fn spec_breakpoints(&self) -> Seq<u16> {
        self.breakpoints@
    }

    /// The state of the cpu recorded for the debugger.
    pub closed spec fn spec_debugger(&self) -> (u8, u8, u8, u8, u8, u16, Seq<char>) {
        (
            self.debugger.a,
            self.debugger.x,
            self.debugger.y,
            self.debugger.s,
            self.debugger.p,
            self.debugger.pc,
            self.debugger.disassembly@,
        )
    }

    /// This cpu with a new dmc dma request whose transfer has not started.
    pub closed spec fn with_dmc_request(self, data: Option<u16>) -> NesCpu {
        NesCpu { dmc_dma: data, dmc_dma_counter: 0, ..self }
    }

    /// A cpu that takes a dmc request has it pending, from its first step, and is otherwise
    /// the same.
    pub proof fn lemma_with_dmc_request(self, data: Option<u16>)
        ensures
            self.with_dmc_request(data).spec_dmc_dma() == data,
            self.with_dmc_request(data).spec_dmc_dma_counter() == 0,
            self.with_dmc_request(data).spec_a() == self.spec_a(),
            self.with_dmc_request(data).spec_x() == self.spec_x(),
            self.with_dmc_request(data).spec_y() == self.spec_y(),
            self.with_dmc_request(data).spec_s() == self.spec_s(),
            self.with_dmc_request(data).spec_p() == self.spec_p(),
            self.with_dmc_request(data).spec_pc() == self.spec_pc(),
            self.with_dmc_request(data).spec_subcycle() == self.spec_subcycle(),
            self.with_dmc_request(data).spec_opcode() == self.spec_opcode(),
            self.with_dmc_request(data).spec_reset() == self.spec_reset(),
            self.with_dmc_request(data).spec_breakpoints() == self.spec_breakpoints(),
            self.wf() ==> self.with_dmc_request(data).wf(),
    {
    }

    /// The bus access of the last cycle.
    pub closed spec fn spec_last_bus(&self) -> BusAccess {
        self.last_bus@
    }

    /// Whether the last cycle used the bus.
    pub closed spec fn spec_bus_used(&self) -> bool {
        self.bus_used@
    }

    /// True while the interrupt sequence runs.
    pub closed spec fn spec_interrupting(&self) -> bool {
        self.interrupting
    }

    /// The irq line may start an interrupt sequence: the interrupt disable flag was clear when
    /// the cpu last polled it, at the end of an instruction.
    pub closed spec fn spec_irq_enabled(&self) -> bool {
        self.polled_irq_flag
    }

    /// The nmi edge detector had an nmi pending in the last cycle's sample of the interrupt lines.
    pub closed spec fn spec_nmi_sampled(&self) -> bool {
        self.interrupt_shift@[1].1
    }

    /// The irq line was high in the last cycle's sample of the interrupt lines.
    pub closed spec fn spec_irq_sampled(&self) -> bool {
        self.interrupt_shift@[1].0
    }

    /// No dma transfer is running or requested.
    pub closed spec fn spec_dma_idle(&self) -> bool {
        !self.dma_running && self.oamdma is None && self.dmc_dma is None
    }

    /// The level of the nmi line that the last cycle saw.
    pub closed spec fn spec_nmi_line(&self) -> bool {
        self.prev_nmi
    }

    /// A rising edge of the nmi line was seen and its interrupt sequence has not yet taken it.
    pub closed spec fn spec_nmi_pending(&self) -> bool {
        self.nmi_detected
    }

    /// True when the interrupt sequence serves an nmi, false for an irq or a brk.
    pub closed spec fn spec_interrupt_type(&self) -> bool {
        self.interrupt_type
    }

    /// Construct a new cpu instance.
    pub fn new() -> (r: Self)
        ensures
            r.wf(),
            r.spec_a() == 0 && r.spec_x() == 0 && r.spec_y() == 0,
            r.spec_s() == 0xfd,
            r.spec_p() == CPU_FLAG_B2 | CPU_FLAG_INT_DISABLE,
            r.spec_pc() == 0xfffc,
            r.spec_reset(),
            r.spec_subcycle() == 0,
            r.spec_opcode() is None,
            r.spec_dmc_dma() is None,
            !r.spec_done_fetching(),
            r.spec_breakpoints().len() == 0,
            power_on_state(r),
    {
        NesCpu {
            a: 0,
            x: 0,
            y: 0,
            s: 0xfd,
            p: CPU_FLAG_B2 | CPU_FLAG_INT_DISABLE,
            subcycle: 0,
            pc: 0xfffc,
            reset: true,
            opcode: None,
            temp: 0,
            temp2: 0,
            tempaddr: 0,
            breakpoints: Vec::new(),
            debugger: NesCpuDebuggerPoint {
                a: 0,
                x: 0,
                y: 0,
                s: 0xfd,
                p: CPU_FLAG_B2 | CPU_FLAG_INT_DISABLE,
                pc: 0xfffc,
                disassembly: "RESET".to_owned(),
            },
            done_fetching: false,
            prev_nmi: false,
            nmi_detected: false,
            interrupt_shift: [(false, false); 2],
            polled_irq_flag: false,
            interrupt_type: false,
            interrupting: false,
            oamdma: None,
            dma_counter: 0,
            dma_running: false,
            outs: [false; 3],
            dmc_dma: None,
            dmc_dma_counter: 0,
            dma_cycle: false,
            last_accesses: [false; 3],
            dma_count: 0,
            last_read: 0,
            last_bus: Ghost(BusAccess { addr: 0, data: 0, write: false }),
            bus_used: Ghost(false),
        }
    }

    /// Copies current cpu state to the debugger state
    pub(crate) fn copy_debugger(&mut self, s: String)
        ensures
            final(self).debugger.a == old(self).a,
            final(self).debugger.x == old(self).x,
            final(self).debugger.y == old(self).y,
            final(self).debugger.s == old(self).s,
            final(self).debugger.p == old(self).p,
            final(self).debugger.pc == old(self).pc,
            final(self).debugger.disassembly@ == s@,
            final(self).breakpoints == old(self).breakpoints,
            *final(self) == (NesCpu { debugger: final(self).debugger, ..*old(self) }),
    {
        self.debugger.a = self.a;
        self.debugger.x = self.x;
        self.debugger.y = self.y;
        self.debugger.s = self.s;
        self.debugger.p = self.p;
        self.debugger.pc = self.pc;
        self.debugger.disassembly = s;
    }

    /// A copy of the breakpoints of the debugger.
    pub(crate) fn copy_breakpoints(&self) -> (r: Vec<u16>)
        ensures
            r@ == self.spec_breakpoints(),
    {
        let r = self.breakpoints.clone();
        assert(r@ =~= self.breakpoints@);
        r
    }

    /// Replace the breakpoints of the debugger.
    pub(crate) fn set_breakpoints(&mut self, breakpoints: Vec<u16>)
        requires
            old(self).wf(),
        ensures
            final(self).wf(),
            *final(self) == (NesCpu { breakpoints, ..*old(self) }),
            final(self).spec_breakpoints() == breakpoints@,
            final(self).spec_reset() == old(self).spec_reset(),
            final(self).spec_pc() == old(self).spec_pc(),
            final(self).spec_subcycle() == old(self).spec_subcycle(),
            final(self).spec_opcode() == old(self).spec_opcode(),
            final(self).spec_a() == old(self).spec_a(),
            final(self).spec_x() == old(self).spec_x(),
            final(self).spec_y() == old(self).spec_y(),
            final(self).spec_s() == old(self).spec_s(),
            final(self).spec_p() == old(self).spec_p(),
            power_on_state(*final(self)) == power_on_state(*old(self)),
    {
        self.breakpoints = breakpoints;
    }

    /// Returns true at the very start of an instruction
    pub fn instruction_start(&self) -> (r: bool)
        ensures
            r == (self.spec_subcycle() == 0),
    {
        self.subcycle == 0
    }

    /// Returns true when done fetching all bytes for an instruction.
    pub fn breakpoint_option(&self) -> (r: bool)
        ensures
            r == self.spec_done_fetching(),
    {
        self.done_fetching
    }

    /// Returns the pc value
    pub fn get_pc(&self) -> (r: u16)
        ensures
            r == self.spec_pc(),
    {
        self.pc
    }

    /// Returns the a value
    pub fn get_a(&self) -> (r: u8)
        ensures
            r == self.spec_a(),
    {
        self.a
    }

    /// Returns the x value
    pub fn get_x(&self) -> (r: u8)
        ensures
            r == self.spec_x(),
    {
        self.x
    }

    /// Returns the y value
    pub fn get_y(&self) -> (r: u8)
        ensures
            r == self.spec_y(),
    {
        self.y
    }

    /// Returns the p value
    pub fn get_p(&self) -> (r: u8)
        ensures
            r == self.spec_p(),
    {
        self.p
    }

    /// Returns the sp value
    pub fn get_sp(&self) -> (r: u8)
        ensures
            r == self.spec_s(),
    {
        self.s
    }

    /// Reset the cpu
    pub fn reset(&mut self)
        requires
            old(self).wf(),
        ensures
            final(self).wf(),
            final(self).spec_s() == ((old(self).spec_s() - 3 + 256) % 256) as u8,
            final(self).spec_p() == old(self).spec_p() | CPU_FLAG_INT_DISABLE,
            final(self).spec_pc() == 0xfffc,
            final(self).spec_reset(),
            final(self).spec_subcycle() == 0,
            final(self).spec_opcode() is None,
            final(self).spec_a() == old(self).spec_a(),
            final(self).spec_x() == old(self).spec_x(),
            final(self).spec_y() == old(self).spec_y(),
            final(self).spec_breakpoints() == old(self).spec_breakpoints(),
            reset_state(*old(self), *final(self)),
    {
        self.s = self.s.wrapping_sub(3);
        self.p = self.p | CPU_FLAG_INT_DISABLE;
        self.pc = 0xfffc;
        self.reset = true;
        self.subcycle = 0;
        self.opcode = None;
        self.copy_debugger("RESET".to_owned());
    }

    /// signal the end of a cpu instruction
    pub(crate) fn end_instruction(&mut self)
        ensures
            *final(self) == (NesCpu {
                polled_irq_flag: (old(self).p & CPU_FLAG_INT_DISABLE) == 0,
                subcycle: 0,
                opcode: None,
                ..*old(self)
            }),
    {
        self.polled_irq_flag = (self.p & CPU_FLAG_INT_DISABLE) == 0;
        self.subcycle = 0;
        self.opcode = None;
    }

    /// run the sbc calculation
    pub(crate) fn cpu_sbc(&mut self, temp: u8)
        requires
            old(self).temp == temp,
        ensures
            *final(self) == (NesCpu {
                a: sbc_result(old(self).p, old(self).a, temp),
                p: sbc_flags(old(self).p, old(self).a, temp),
                ..*old(self)
            }),
    {
        let olda = self.a;
        let p0 = self.p;
        let (r1, overflow) = overflowing_sub(olda, temp);
        let (r, overflow2) = if (p0 & CPU_FLAG_CARRY) == 0 {
            overflowing_sub(r1, 1)
        } else {
            (r1, false)
        };
        let q0 = p0 & !(CPU_FLAG_CARRY | CPU_FLAG_ZERO | CPU_FLAG_OVERFLOW | CPU_FLAG_NEGATIVE);
        let q1 = if r == 0 { q0 | CPU_FLAG_ZERO } else { q0 };
        let q2 = if (r & 0x80) != 0 { q1 | CPU_FLAG_NEGATIVE } else { q1 };
        let q3 = if !(overflow || overflow2) { q2 | CPU_FLAG_CARRY } else { q2 };
        let ovf = ((olda ^ r) & (self.temp ^ r ^ 0x80) & 0x80) != 0;
        let q4 = if ovf { q3 | CPU_FLAG_OVERFLOW } else { q3 };
        proof {
            let b: u8 = if p0 & CPU_FLAG_CARRY != 0 { 0 } else { 1 };
            lemma_sub_borrow(olda, temp, b);
            lemma_sbc_overflow(olda, temp, b, r);
            lemma_flags4(p0, r, !(overflow || overflow2), ovf);
        }
        self.a = r;
        self.p = q4;
    }

    /// Run the adc calculation
    pub(crate) fn cpu_adc(&mut self, temp: u8)
        requires
            old(self).temp == temp,
        ensures
            *final(self) == (NesCpu {
                a: adc_result(old(self).p, old(self).a, temp),
                p: adc_flags(old(self).p, old(self).a, temp),
                ..*old(self)
            }),
    {
        let olda = self.a;
        let p0 = self.p;
        let (r1, overflow) = overflowing_add(olda, temp);
        let (r, overflow2) = if (p0 & CPU_FLAG_CARRY) != 0 {
            overflowing_add(r1, 1)
        } else {
            (r1, false)
        };
        let q0 = p0 & !(CPU_FLAG_CARRY | CPU_FLAG_ZERO | CPU_FLAG_OVERFLOW | CPU_FLAG_NEGATIVE);
        let q1 = if r == 0 { q0 | CPU_FLAG_ZERO } else { q0 };
        let q2 = if (r & 0x80) != 0 { q1 | CPU_FLAG_NEGATIVE } else { q1 };
        let q3 = if overflow || overflow2 { q2 | CPU_FLAG_CARRY } else { q2 };
        let ovf = ((olda ^ r) & (self.temp ^ r) & 0x80) != 0;
        let q4 = if ovf { q3 | CPU_FLAG_OVERFLOW } else { q3 };
        proof {
            let c: u8 = if p0 & CPU_FLAG_CARRY != 0 { 1 } else { 0 };
            lemma_add_carry(olda, temp, c);
            lemma_adc_overflow(olda, temp, c, r);
            lemma_flags4(p0, r, overflow || overflow2, ovf);
        }
        self.a = r;
        self.p = q4;
    }

    /// Calculate the two output enable outputs
    pub(crate) fn calc_oe(&self, addr: u16) -> (r: [bool; 2])
        ensures
            r@ == seq![addr != 0x4016, addr != 0x4017],
    {
        [addr != 0x4016, addr != 0x4017]
    }

    /// Returns true when a breakpoint is active
    pub fn breakpoint(&self) -> (r: bool)
        ensures
            r == (self.spec_done_fetching() && self.spec_breakpoints().contains(self.spec_debugger().5)),
    {
        let mut b = false;
        if self.done_fetching {
            let mut i: usize = 0;
            while i < self.breakpoints.len()
                invariant
                    i <= self.breakpoints@.len(),
                    b == (exists|k: int| 0 <= k < i && self.breakpoints@[k] == self.debugger.pc),
                decreases self.breakpoints@.len() - i,
            {
                if self.debugger.pc == self.breakpoints[i] {
                    b = true;
                }
                i += 1;
            }
        }
        b
    }

    /// Show the disassembly of the current instruction
    pub fn disassemble(&self) -> (r: Option<String>)
        ensures
            r matches Some(t) && t@ == self.spec_debugger().6,
    {
        Some(self.debugger.disassembly.clone())
    }

    /// This cpu and `other` differ at most in their breakpoints.
    pub closed spec fn same_but_breakpoints(&self, other: &Self) -> bool {
        NesCpu { breakpoints: other.breakpoints, ..*self } == *other
    }

    /// The breakpoints of the debugger.
    pub fn breakpoints(&self) -> (r: &Vec<u16>)
        ensures
            r@ == self.spec_breakpoints(),
    {
        &self.breakpoints
    }

    /// Add a breakpoint at `addr`.
    pub fn add_breakpoint(&mut self, addr: u16)
        requires
            old(self).wf(),
        ensures
            final(self).wf(),
            final(self).spec_breakpoints() == old(self).spec_breakpoints().push(addr),
            old(self).same_but_breakpoints(&*final(self)),
    {
        self.breakpoints.push(addr);
    }

    /// Delete the breakpoint at position `i` of the list.
    pub fn remove_breakpoint(&mut self, i: usize)
        requires
            old(self).wf(),
            i < old(self).spec_breakpoints().len(),
        ensures
            final(self).wf(),
            final(self).spec_breakpoints() == old(self).spec_breakpoints().remove(i as int),
            old(self).same_but_breakpoints(&*final(self)),
    {
        self.breakpoints.remove(i);
    }

    /// Set the dma input for dmc dma
    pub fn set_dma_input(&mut self, data: Option<u16>)
        requires
            old(self).wf(),
        ensures
            final(self).wf(),
            data is Some && old(self).spec_dmc_dma() is None ==> *final(self) == old(self).with_dmc_request(data),
            !(data is Some && old(self).spec_dmc_dma() is None) ==> *final(self) == *old(self),
    {
        if data.is_some() && self.dmc_dma.is_none() {
            self.dmc_dma = data;
            self.dmc_dma_counter = 0;
        }
    }

    /// convenience function for running a read cycle on the bus
    pub(crate) fn memory_cycle_read<C: CartridgeDevice, K: ControllerDevice, P: PpuDevice, A: ApuDevice>(
        &mut self,
        addr: u16,
        bus: &mut NesMotherboard<C, K>,
        cpu_peripherals: &mut NesCpuPeripherals<P, A>,
    ) -> (r: u8)
        ensures
            *final(self) == (NesCpu {
                last_accesses: final(self).last_accesses,
                last_read: addr,
                last_bus: Ghost(BusAccess { addr, data: r, write: false }),
                bus_used: Ghost(true),
                ..*old(self)
            }),
            final(self).last_accesses@ == seq![
                false,
                old(self).last_accesses@[0],
                old(self).last_accesses@[1],
            ],
            final(bus).spec_ram() == old(bus).spec_ram(),
            addr < 0x2000 ==> r == old(bus).spec_ram()[ram_index(addr)],
            addr < 0x2000 ==> final(cpu_peripherals).apu == old(cpu_peripherals).apu,
            bus_read(*old(bus), *old(cpu_peripherals), addr, *final(bus), *final(cpu_peripherals), r),
    {
        proof {
            reveal(bus_read);
        }
        self.last_accesses[2] = self.last_accesses[1];
        self.last_accesses[1] = self.last_accesses[0];
        self.last_accesses[0] = false;
        self.last_read = addr;
        let oe = self.calc_oe(addr);
        let a = bus.memory_cycle_read(addr, oe, cpu_peripherals);
        self.last_bus = Ghost(BusAccess { addr, data: a, write: false });
        self.bus_used = Ghost(true);
        a
    }

    /// Convenience function for running a write cycle on the bus
    pub(crate) fn memory_cycle_write<C: CartridgeDevice, K: ControllerDevice, P: PpuDevice, A: ApuDevice>(
        &mut self,
        addr: u16,
        data: u8,
        bus: &mut NesMotherboard<C, K>,
        cpu_peripherals: &mut NesCpuPeripherals<P, A>,
    )
        ensures
            *final(self) == (NesCpu {
                last_accesses: final(self).last_accesses,
                oamdma: if addr == 0x4014 {
                    Some(data)
                } else {
                    old(self).oamdma
                },
                outs: final(self).outs,
                last_bus: Ghost(BusAccess { addr, data, write: true }),
                bus_used: Ghost(true),
                ..*old(self)
            }),
            final(self).last_accesses@ == seq![
                true,
                old(self).last_accesses@[0],
                old(self).last_accesses@[1],
            ],
            addr == 0x4016 ==> final(self).outs@ == seq![
                data & 1 != 0,
                data & 2 != 0,
                data & 4 != 0,
            ],
            addr != 0x4016 ==> final(self).outs == old(self).outs,
            addr < 0x2000 ==> final(bus).spec_ram() == old(bus).spec_ram().update(
                ram_index(addr),
                data,
            ),
            addr >= 0x2000 ==> final(bus).spec_ram() == old(bus).spec_ram(),
            addr < 0x2000 ==> final(cpu_peripherals).apu == old(cpu_peripherals).apu,
            bus_write(*old(bus), *old(cpu_peripherals), addr, data, *final(bus), *final(cpu_peripherals)),
    {
        proof {
            reveal(bus_write);
        }
        self.last_accesses[2] = self.last_accesses[1];
        self.last_accesses[1] = self.last_accesses[0];
        self.last_accesses[0] = true;
        if addr == 0x4014 {
            self.oamdma = Some(data);
        } else if addr == 0x4016 {
            self.outs[0] = (data & 1) != 0;
            self.outs[1] = (data & 2) != 0;
            self.outs[2] = (data & 4) != 0;
        }
        bus.memory_cycle_write(addr, data, [true;2], cpu_peripherals);
        self.last_bus = Ghost(BusAccess { addr, data, write: true });
        self.bus_used = Ghost(true);
    }

    ///Poll the interrupt line
    pub(crate) fn poll_interrupt_line(&mut self, irq: bool, nmi: bool)
        ensures
            *final(self) == (NesCpu {
                nmi_detected: old(self).nmi_detected || (!old(self).prev_nmi && nmi),
                prev_nmi: nmi,
                interrupt_shift: final(self).interrupt_shift,
                ..*old(self)
            }),
            final(self).interrupt_shift@ == seq![
                old(self).interrupt_shift@[1],
                (irq, old(self).nmi_detected || (!old(self).prev_nmi && nmi)),
            ],
    {
        if !self.prev_nmi && nmi {
            self.nmi_detected = true;
        }
        self.prev_nmi = nmi;
        self.interrupt_shift[0] = self.interrupt_shift[1];
        self.interrupt_shift[1] = (irq, self.nmi_detected);
    }
}

/// The architectural registers of two cpu states are the same.
pub(crate) open spec fn arch_same(s: NesCpu, t: NesCpu) -> bool {
    &&& t.a == s.a
    &&& t.x == s.x
    &&& t.y == s.y
    &&& t.s == s.s
    &&& t.p == s.p
    &&& t.pc == s.pc
}

/// The cpu ram after a cycle that started with `before`: a cycle that did not use the bus, or
/// used it above the ram, leaves the ram as it was; a write below 0x2000 stores its byte in
/// the (mirrored) cell it addresses; a read below 0x2000 leaves the ram and reads the byte in
/// that cell.
pub open spec fn ram_effect(before: Seq<u8>, after: Seq<u8>, used: bool, access: BusAccess) -> bool {
    if used && access.addr < 0x2000 {
        if access.write {
            after == before.update(ram_index(access.addr), access.data)
        } else {
            after == before && access.data == before[ram_index(access.addr)]
        }
    } else {
        after == before
    }
}

/// What a cycle did to the motherboard and the chips: a cycle that did not use the bus left
/// them as they were; one that did made the read or the write it records (see [`bus_read`]
/// and [`bus_write`]).
pub open spec fn bus_effect<C: CartridgeDevice, K: ControllerDevice, P: PpuDevice, A: ApuDevice>(
    mb: NesMotherboard<C, K>,
    per: NesCpuPeripherals<P, A>,
    mb2: NesMotherboard<C, K>,
    per2: NesCpuPeripherals<P, A>,
    used: bool,
    access: BusAccess,
) -> bool {
    if !used {
        mb2 == mb && per2 == per
    } else if access.write {
        bus_write(mb, per, access.addr, access.data, mb2, per2)
    } else {
        bus_read(mb, per, access.addr, mb2, per2, access.data)
    }
}

/// What a cycle of the cpu did to the motherboard and the chips, as [`bus_effect`] says, except
/// that a cycle that ends a dmc fetch (`response`) also hands the byte it read to the apu.
pub open spec fn cycle_bus_effect<C: CartridgeDevice, K: ControllerDevice, P: PpuDevice, A: ApuDevice>(
    mb: NesMotherboard<C, K>,
    per: NesCpuPeripherals<P, A>,
    mb2: NesMotherboard<C, K>,
    per2: NesCpuPeripherals<P, A>,
    used: bool,
    access: BusAccess,
    response: bool,
) -> bool {
    if response {
        &&& used && !access.write
        &&& exists|p: NesCpuPeripherals<P, A>|
            #[trigger] bus_read(mb, per, access.addr, mb2, p, access.data) && per2 == (NesCpuPeripherals {
                ppu: p.ppu,
                apu: p.apu.spec_dma_response(access.data),
            })
    } else {
        bus_effect(mb, per, mb2, per2, used, access)
    }
}

/// The cycle that led to `t` read `addr`.
pub(crate) open spec fn read_at(t: NesCpu, addr: u16) -> bool {
    &&& t.bus_used@
    &&& !t.last_bus@.write
    &&& t.last_bus@.addr == addr
}

/// The cycle that led to `t` wrote `d` to `addr`.
pub(crate) open spec fn write_at(t: NesCpu, addr: u16, d: u8) -> bool {
    &&& t.bus_used@
    &&& t.last_bus@.write
    &&& t.last_bus@.addr == addr
    &&& t.last_bus@.data == d
}

/// The cycle that led to `t` showed the registers of `s` in the debugger, with `text` as the
/// disassembly.
pub(crate) open spec fn shows_text(s: NesCpu, t: NesCpu, text: Seq<char>) -> bool {
    &&& t.debugger.a == s.a
    &&& t.debugger.x == s.x
    &&& t.debugger.y == s.y
    &&& t.debugger.s == s.s
    &&& t.debugger.p == s.p
    &&& t.debugger.pc == s.pc
    &&& t.debugger.disassembly@ == text
}

/// The cycle that led to `t` fetched the last byte of its instruction and showed the
/// instruction in the debugger, as [`shows_text`] says.
pub(crate) open spec fn shows(s: NesCpu, t: NesCpu, text: Seq<char>) -> bool {
    shows_text(s, t, text) && t.done_fetching
}

/// The cycle that led to `t` left the debugger and the fetch mark as they were.
pub(crate) open spec fn keeps_debugger(s: NesCpu, t: NesCpu) -> bool {
    &&& t.debugger == s.debugger
    &&& t.done_fetching == s.done_fetching
}

/// The byte on the data bus in the last access of `t`.
pub(crate) open spec fn data(t: NesCpu) -> u8 {
    t.last_bus@.data
}

/// `t` is between instructions.
pub(crate) open spec fn finished(t: NesCpu) -> bool {
    &&& t.opcode is None
    &&& t.subcycle == 0
}

/// The stack pointer after a pull.
pub open spec fn s_inc(s: u8) -> u8 {
    ((s + 1) % 256) as u8
}

/// The stack pointer after a push.
pub open spec fn s_dec(s: u8) -> u8 {
    ((s + 255) % 256) as u8
}

/// A word made of two bytes is the same whichever way the code assembles it.
pub(crate) proof fn lemma_word(lo: u8, hi: u8)
    ensures
        (hi as u16) << 8u16 | (lo as u16) == word(lo, hi),
        (lo as u16) | (hi as u16) << 8u16 == word(lo, hi),
        ((hi as u16) << 8u16) | (lo as u16) == word(lo, hi),
        lo_byte(word(lo, hi)) == lo,
        hi_byte(word(lo, hi)) == hi,
{
    assert((hi as u16) << 8u16 | (lo as u16) == (hi as int * 256 + lo as int) as u16)
        by (bit_vector);
    assert((lo as u16) | (hi as u16) << 8u16 == (hi as int * 256 + lo as int) as u16)
        by (bit_vector);
}

/// The sign extension of a branch offset.
pub(crate) proof fn lemma_branch(pc: u16, t: u8)
    ensures
        ((if (t & 0x80) != 0 { (t as u16) | 0xff00u16 } else { t as u16 }) + pc_plus(pc, 2))
            % 65536 == branch_target(pc, t) as int,
        pc_plus(pc, 2).wrapping_add(if (t & 0x80) != 0 { (t as u16) | 0xff00u16 } else { t as u16 }) == branch_target(pc, t),
{
    let adj: u16 = if (t & 0x80) != 0 { (t as u16) | 0xff00u16 } else { t as u16 };
    assert(adj as int == if t < 128 { t as int } else { t as int + 0xff00 }) by (bit_vector)
        requires
            adj == (if (t & 0x80) != 0 { (t as u16) | 0xff00u16 } else { t as u16 }),
    ;
}

/// Setting zero and negative one after the other, in either order, gives the flags register
/// described by [`nz_flags`].
pub(crate) proof fn lemma_nz(p: u8, v: u8)
    ensures
        ({
            let q = p & !(CPU_FLAG_ZERO | CPU_FLAG_NEGATIVE);
            let q1 = if v == 0 { q | CPU_FLAG_ZERO } else { q };
            if (v & 0x80) != 0 { q1 | CPU_FLAG_NEGATIVE } else { q1 }
        }) == nz_flags(p, v),
        ({
            let q = p & !(CPU_FLAG_ZERO | CPU_FLAG_NEGATIVE);
            let q1 = if (v & 0x80) != 0 { q | CPU_FLAG_NEGATIVE } else { q };
            if v == 0 { q1 | CPU_FLAG_ZERO } else { q1 }
        }) == nz_flags(p, v),
{
    let q = p & !(2u8 | 0x80u8);
    assert(({
        let q1 = if v == 0 { q | 2u8 } else { q };
        if (v & 0x80) != 0 { q1 | 0x80u8 } else { q1 }
    }) == q | (if v == 0 { 2u8 } else { 0u8 }) | (if v & 0x80 != 0 { 0x80u8 } else { 0u8 }))
        by (bit_vector);
    assert(({
        let q1 = if (v & 0x80) != 0 { q | 0x80u8 } else { q };
        if v == 0 { q1 | 2u8 } else { q1 }
    }) == q | (if v == 0 { 2u8 } else { 0u8 }) | (if v & 0x80 != 0 { 0x80u8 } else { 0u8 }))
        by (bit_vector);
}

/// Masking twice with the same byte is masking once.
pub(crate) proof fn lemma_and_twice(v: u8, m: u8)
    ensures
        (v & m) & m == v & m,
        ((v & m) & m) & 0x80 == (v & m) & 0x80,
{
    assert((v & m) & m == v & m) by (bit_vector);
    assert(((v & m) & m) & 0x80 == (v & m) & 0x80) by (bit_vector);
}

/// Facts about the bit operations that the instructions use on bytes.
pub(crate) proof fn lemma_byte_ops(v: u8, m: u8)
    ensures
        (v & m) & m == v & m,
        ((v & m) & m) & 0x80 == (v & m) & 0x80,
        v << 1u8 == asl_value(v),
        v >> 1u8 == lsr_value(v),
        (v << 1u8) | 1 == ((v * 2 + 1) % 256) as u8,
        (v >> 1u8) | 0x80 == v / 2 + 128,
        (v & 0x80 != 0) == (v >= 128),
        (v & 1 != 0) == (v % 2 == 1),
        v.wrapping_add(1) == inc_value(v),
        v.wrapping_sub(1) == dec_value(v),
{
    assert((v & m) & m == v & m) by (bit_vector);
    assert(((v & m) & m) & 0x80 == (v & m) & 0x80) by (bit_vector);
    assert(v << 1u8 == ((v * 2) % 256) as u8) by (bit_vector);
    assert(v >> 1u8 == v / 2) by (bit_vector);
    assert((v << 1u8) | 1 == ((v * 2 + 1) % 256) as u8) by (bit_vector);
    assert((v >> 1u8) | 0x80 == v / 2 + 128) by (bit_vector);
    assert((v & 0x80 != 0) == (v >= 128)) by (bit_vector);
    assert((v & 1 != 0) == (v % 2 == 1)) by (bit_vector);
}

/// Setting carry, zero and negative one after the other gives the flags register described by
/// [`shift_flags`].
pub(crate) proof fn lemma_shift_flags(p: u8, r: u8, c: bool)
    ensures
        ({
            let q = p & !(CPU_FLAG_CARRY | CPU_FLAG_ZERO | CPU_FLAG_NEGATIVE);
            let q1 = if c { q | CPU_FLAG_CARRY } else { q };
            let q2 = if r == 0 { q1 | CPU_FLAG_ZERO } else { q1 };
            if (r & 0x80) != 0 { q2 | CPU_FLAG_NEGATIVE } else { q2 }
        }) == shift_flags(p, r, c),
{
    let q = p & !(1u8 | 2u8 | 0x80u8);
    assert(({
        let q1 = if c { q | 1u8 } else { q };
        let q2 = if r == 0 { q1 | 2u8 } else { q1 };
        if (r & 0x80) != 0 { q2 | 0x80u8 } else { q2 }
    }) == q | (if c { 1u8 } else { 0u8 }) | (if r == 0 { 2u8 } else { 0u8 }) | (r & 0x80))
        by (bit_vector);
}

/// Clearing carry, zero and negative, in either order of the mask, and then setting the
/// carry gives the flags register described by [`carry_flags`].
pub(crate) proof fn lemma_carry_flags(p: u8, c: bool)
    ensures
        CPU_FLAG_NEGATIVE | CPU_FLAG_ZERO | CPU_FLAG_CARRY == CPU_FLAG_CARRY | CPU_FLAG_ZERO
            | CPU_FLAG_NEGATIVE,
        ({
            let q = p & !(CPU_FLAG_CARRY | CPU_FLAG_ZERO | CPU_FLAG_NEGATIVE);
            if c { q | CPU_FLAG_CARRY } else { q }
        }) == carry_flags(p, c),
{
    assert(0x80u8 | 2u8 | 1u8 == 1u8 | 2u8 | 0x80u8) by (bit_vector);
    let q = p & !(1u8 | 2u8 | 0x80u8);
    assert((if c { q | 1u8 } else { q }) == q | (if c { 1u8 } else { 0u8 })) by (bit_vector);
}

/// Setting zero and then negative for `v` gives the flags register described by [`or_nz`].
pub(crate) proof fn lemma_or_nz(p: u8, v: u8)
    ensures
        ({
            let q1 = if v == 0 { p | CPU_FLAG_ZERO } else { p };
            if (v & 0x80) != 0 { q1 | CPU_FLAG_NEGATIVE } else { q1 }
        }) == or_nz(p, v),
{
    assert(({
        let q1 = if v == 0 { p | 2u8 } else { p };
        if (v & 0x80) != 0 { q1 | 0x80u8 } else { q1 }
    }) == p | (if v == 0 { 2u8 } else { 0u8 }) | (v & 0x80)) by (bit_vector);
}

/// The compare code computes the flags described by [`compare_flags`].
pub(crate) proof fn lemma_compare_flags(p: u8, r: u8, m: u8)
    ensures
        ({
            let q = p & !(CPU_FLAG_ZERO | CPU_FLAG_CARRY | CPU_FLAG_NEGATIVE);
            let q1 = if r == m { q | CPU_FLAG_ZERO } else { q };
            let q2 = if r >= m { q1 | CPU_FLAG_CARRY } else { q1 };
            if (r.wrapping_sub(m) & 0x80) != 0 { q2 | CPU_FLAG_NEGATIVE } else { q2 }
        }) == compare_flags(p, r, m),
{
    let q = p & !(2u8 | 1u8 | 0x80u8);
    let d: u8 = ((r - m + 256) % 256) as u8;
    assert(r.wrapping_sub(m) == d);
    assert(({
        let q1 = if r == m { q | 2u8 } else { q };
        let q2 = if r >= m { q1 | 1u8 } else { q1 };
        if (d & 0x80) != 0 { q2 | 0x80u8 } else { q2 }
    }) == q | (if r == m { 2u8 } else { 0u8 }) | (if r >= m { 1u8 } else { 0u8 }) | (d & 0x80))
        by (bit_vector);
}

/// The bit test code computes the flags described by [`bit_flags`].
pub(crate) proof fn lemma_bit_flags(p: u8, a: u8, m: u8)
    ensures
        ({
            let q = (p & !(CPU_FLAG_OVERFLOW | CPU_FLAG_NEGATIVE)) | (m & (CPU_FLAG_OVERFLOW
                | CPU_FLAG_NEGATIVE));
            let q1 = q & !CPU_FLAG_ZERO;
            if (m & a) == 0 { q1 | CPU_FLAG_ZERO } else { q1 }
        }) == bit_flags(p, a, m),
{
    assert(({
        let q = (p & !(0x40u8 | 0x80u8)) | (m & (0x40u8 | 0x80u8));
        let q1 = q & !2u8;
        if (m & a) == 0 { q1 | 2u8 } else { q1 }
    }) == (p & !(2u8 | 0x40u8 | 0x80u8)) | (m & 0xc0) | (if a & m == 0 { 2u8 } else { 0u8 }))
        by (bit_vector);
}

/// Adding the carry in a second step gives the sum, and one of the steps carries exactly when
/// the sum does not fit in a byte.
pub(crate) proof fn lemma_add_carry(a: u8, m: u8, c: u8)
    requires
        c <= 1,
    ensures
        c == 1 ==> (((a + m) % 256) as u8 + 1) % 256 == (a + m + c) % 256,
        c == 1 ==> (((a + m > 255) || (((a + m) % 256) as u8) + 1 > 255) == (a + m + c > 255)),
        c == 0 ==> ((a + m) % 256) as u8 == (a + m + c) % 256,
        c == 0 ==> (a + m > 255) == (a + m + c > 255),
{
}

/// Subtracting the borrow in a second step gives the difference, and one of the steps borrows
/// exactly when the difference is negative.
pub(crate) proof fn lemma_sub_borrow(a: u8, m: u8, b: u8)
    requires
        b <= 1,
    ensures
        b == 1 ==> ((((a - m + 256) % 256) as u8 - 1 + 256) % 256) == (a - m - b + 512) % 256,
        b == 1 ==> (((a < m) || (((a - m + 256) % 256) as u8) < 1) == (a - m - b < 0)),
        b == 0 ==> ((a - m + 256) % 256) as u8 == (a - m - b + 512) % 256,
        b == 0 ==> (a < m) == (a - m - b < 0),
{
}

/// The overflow test of the adc code is the two's complement overflow of the addition.
pub(crate) proof fn lemma_adc_overflow(a: u8, m: u8, c: u8, r: u8)
    requires
        c <= 1,
        r == ((a + m + c) % 256) as u8,
    ensures
        (((a ^ r) & (m ^ r) & 0x80) != 0) == (signed(a) + signed(m) + c < -128 || signed(a)
            + signed(m) + c > 127),
{
    assert((((a ^ r) & (m ^ r) & 0x80) != 0) == ((if a < 128 { a as int } else { a - 256 }) + (
    if m < 128 { m as int } else { m - 256 }) + c < -128 || (if a < 128 { a as int } else { a
        - 256 }) + (if m < 128 { m as int } else { m - 256 }) + c > 127)) by (bit_vector)
        requires
            c <= 1,
            r == ((a + m + c) % 256) as u8,
    ;
}

/// The overflow test of the sbc code is the two's complement overflow of the subtraction.
pub(crate) proof fn lemma_sbc_overflow(a: u8, m: u8, b: u8, r: u8)
    requires
        b <= 1,
        r == ((a - m - b + 512) % 256) as u8,
    ensures
        (((a ^ r) & (m ^ r ^ 0x80) & 0x80) != 0) == (signed(a) - signed(m) - b < -128 || signed(
            a,
        ) - signed(m) - b > 127),
{
    assert((((a ^ r) & (m ^ r ^ 0x80) & 0x80) != 0) == ((if a < 128 { a as int } else { a
        - 256 }) - (if m < 128 { m as int } else { m - 256 }) - b < -128 || (if a < 128 {
        a as int
    } else {
        a - 256
    }) - (if m < 128 { m as int } else { m - 256 }) - b > 127)) by (bit_vector)
        requires
            b <= 1,
            r == ((a - m - b + 512) % 256) as u8,
    ;
}

/// Setting the four arithmetic flags one by one, as the cpu code does, gives the flags register
/// described by their values.
pub(crate) proof fn lemma_flags4(p: u8, r: u8, carry: bool, ovf: bool)
    ensures
        ({
            let q0 = p & !(CPU_FLAG_CARRY | CPU_FLAG_ZERO | CPU_FLAG_OVERFLOW | CPU_FLAG_NEGATIVE);
            let q1 = if r == 0 { q0 | CPU_FLAG_ZERO } else { q0 };
            let q2 = if (r & 0x80) != 0 { q1 | CPU_FLAG_NEGATIVE } else { q1 };
            let q3 = if carry { q2 | CPU_FLAG_CARRY } else { q2 };
            let q4 = if ovf { q3 | CPU_FLAG_OVERFLOW } else { q3 };
            q4 == (p & !(CPU_FLAG_CARRY | CPU_FLAG_ZERO | CPU_FLAG_OVERFLOW | CPU_FLAG_NEGATIVE))
                | (if carry { CPU_FLAG_CARRY } else { 0u8 }) | (if r == 0 {
                CPU_FLAG_ZERO
            } else {
                0u8
            }) | (if ovf { CPU_FLAG_OVERFLOW } else { 0u8 }) | (r & 0x80)
        }),
{
    let q0 = p & !(1u8 | 2u8 | 0x40u8 | 0x80u8);
    let q1 = if r == 0 { q0 | 2u8 } else { q0 };
    let q2 = if (r & 0x80) != 0 { q1 | 0x80u8 } else { q1 };
    let q3 = if carry { q2 | 1u8 } else { q2 };
    let q4 = if ovf { q3 | 0x40u8 } else { q3 };
    assert(q4 == (p & !(1u8 | 2u8 | 0x40u8 | 0x80u8)) | (if carry { 1u8 } else { 0u8 }) | (if r
        == 0 {
        2u8
    } else {
        0u8
    }) | (if ovf { 0x40u8 } else { 0u8 }) | (r & 0x80)) by (bit_vector)
        requires
            q0 == p & !(1u8 | 2u8 | 0x40u8 | 0x80u8),
            q1 == (if r == 0 { q0 | 2u8 } else { q0 }),
            q2 == (if (r & 0x80) != 0 { q1 | 0x80u8 } else { q1 }),
            q3 == (if carry { q2 | 1u8 } else { q2 }),
            q4 == (if ovf { q3 | 0x40u8 } else { q3 }),
    ;
}

/// The axs code subtracts in sixteen bits: its low byte is the wrapped difference and its
/// flags are those of a comparison of `r` with `m`.
pub(crate) proof fn lemma_axs(p: u8, r: u8, m: u8, d: u16)
    requires
        d as int == if r >= m { r - m } else { r - m + 65536 },
    ensures
        (d & 0xff) as u8 == ((r - m + 256) % 256) as u8,
        ({
            let q = p & !(CPU_FLAG_CARRY | CPU_FLAG_ZERO | CPU_FLAG_NEGATIVE);
            let q1 = if (((d >> 8u16) & 0x01) ^ 0x01) == 0x01 { q | CPU_FLAG_CARRY } else { q };
            let q2 = if (d & 0x80) != 0 { q1 | CPU_FLAG_NEGATIVE } else { q1 };
            if (d & 0xff) == 0 { q2 | CPU_FLAG_ZERO } else { q2 }
        }) == compare_flags(p, r, m),
{
    let dm: u8 = ((r - m + 256) % 256) as u8;
    assert((d & 0xff) as u8 == dm && ((((d >> 8u16) & 0x01) ^ 0x01) == 0x01) == (r >= m) && ((d
        & 0x80) != 0) == ((dm & 0x80) != 0) && ((d & 0xff) == 0) == (r == m)) by (bit_vector)
        requires
            r >= m ==> d == r - m,
            r < m ==> d == r - m + 65536,
            r >= m ==> dm == r - m,
            r < m ==> dm == r - m + 256,
    ;
    let q = p & !(1u8 | 2u8 | 0x80u8);
    let c = r >= m;
    let n = (dm & 0x80) != 0;
    let z = r == m;
    assert(({
        let q1 = if c { q | 1u8 } else { q };
        let q2 = if n { q1 | 0x80u8 } else { q1 };
        if z { q2 | 2u8 } else { q2 }
    }) == (p & !(2u8 | 1u8 | 0x80u8)) | (if z { 2u8 } else { 0u8 }) | (if c { 1u8 } else { 0u8 })
        | (dm & 0x80)) by (bit_vector)
        requires
            q == p & !(1u8 | 2u8 | 0x80u8),
            n == ((dm & 0x80) != 0),
    ;
}

/// The arr code computes the accumulator and the flags described by [`ror_value`] and
/// [`arr_flags`].
pub(crate) proof fn lemma_arr(p: u8, v: u8)
    ensures
        ({
            let p1 = if ((v ^ (v >> 1u8)) & 0x40) == 0x40 {
                (p & !CPU_FLAG_OVERFLOW) | CPU_FLAG_OVERFLOW
            } else {
                p & !CPU_FLAG_OVERFLOW
            };
            let a1 = if (p1 & CPU_FLAG_CARRY) != 0 { (v >> 1u8) | 0x80 } else { v >> 1u8 };
            let q = p1 & !(CPU_FLAG_CARRY | CPU_FLAG_ZERO | CPU_FLAG_NEGATIVE);
            let q1 = if (v & 0x80) != 0 { q | CPU_FLAG_CARRY } else { q };
            let q2 = if a1 == 0 { q1 | CPU_FLAG_ZERO } else { q1 };
            let q3 = if (a1 & 0x80) != 0 { q2 | CPU_FLAG_NEGATIVE } else { q2 };
            a1 == ror_value(p, v) && q3 == arr_flags(p, v)
        }),
{
    let c: bool = p & 1u8 != 0;
    let r: u8 = (v / 2 + 128 * (if c { 1int } else { 0int })) as u8;
    assert(r == ror_value(p, v));
    let p1 = if ((v ^ (v >> 1u8)) & 0x40) == 0x40 {
        (p & !0x40u8) | 0x40u8
    } else {
        p & !0x40u8
    };
    let a1 = if (p1 & 1u8) != 0 { (v >> 1u8) | 0x80 } else { v >> 1u8 };
    let q = p1 & !(1u8 | 2u8 | 0x80u8);
    let q1 = if (v & 0x80) != 0 { q | 1u8 } else { q };
    let q2 = if a1 == 0 { q1 | 2u8 } else { q1 };
    let q3 = if (a1 & 0x80) != 0 { q2 | 0x80u8 } else { q2 };
    assert(a1 == r && q3 == (p & !(1u8 | 2u8 | 0x40u8 | 0x80u8)) | (if v >= 128 { 1u8 } else {
        0u8
    }) | (if r == 0 { 2u8 } else { 0u8 }) | (if (v >= 128) != (v & 0x40 != 0) {
        0x40u8
    } else {
        0u8
    }) | (r & 0x80)) by (bit_vector)
        requires
            c == (p & 1u8 != 0),
            c ==> r == v / 2 + 128,
            !c ==> r == v / 2,
            p1 == (if ((v ^ (v >> 1u8)) & 0x40) == 0x40 {
                (p & !0x40u8) | 0x40u8
            } else {
                p & !0x40u8
            }),
            a1 == (if (p1 & 1u8) != 0 { (v >> 1u8) | 0x80 } else { v >> 1u8 }),
            q == p1 & !(1u8 | 2u8 | 0x80u8),
            q1 == (if (v & 0x80) != 0 { q | 1u8 } else { q }),
            q2 == (if a1 == 0 { q1 | 2u8 } else { q1 }),
            q3 == (if (a1 & 0x80) != 0 { q2 | 0x80u8 } else { q2 }),
    ;
}

/// The shx and shy code computes the address and value described by [`sh_address`] and
/// [`sh_value`].
pub(crate) proof fn lemma_sh(lo: u8, hi: u8, index: u8, reg: u8)
    ensures
        ((((hi as u16).wrapping_add(1) << 8u16) | (lo as u16)).wrapping_add(index as u16) & (((
        reg as u16) << 8u16) | 0xff)) == sh_address(lo, hi, index, reg),
        hi.wrapping_add(1) & reg == sh_value(hi, reg),
{
    let h1: u16 = (hi as u16).wrapping_add(1);
    let b: u16 = (h1 << 8u16) | (lo as u16);
    let hb: u8 = ((hi + 1) % 256) as u8;
    lemma_word(lo, hb);
    lemma_word(0xff, reg);
    assert(b == ((hb as u16) << 8u16) | (lo as u16)) by (bit_vector)
        requires
            h1 == hi + 1,
            b == (h1 << 8u16) | (lo as u16),
            hi == 255 ==> hb == 0,
            hi < 255 ==> hb == hi + 1,
    ;
}

/// One bus cycle of the instruction with opcode `o`, from `s` to `t`.
pub closed spec fn instruction_cycle(o: u8, s: NesCpu, t: NesCpu) -> bool {
    match o {
        0x00u8 => ops_control::step_00(s, t),
        0x29u8 => ops_alu::step_29(s, t),
        0x25u8 => ops_alu::step_25(s, t),
        0x35u8 => ops_alu::step_35(s, t),
        0x2du8 => ops_alu::step_2d(s, t),
        0x3du8 => ops_alu::step_3d(s, t),
        0x39u8 => ops_alu::step_39(s, t),
        0x21u8 => ops_alu::step_21(s, t),
        0x31u8 => ops_alu::step_31(s, t),
        0x09u8 => ops_alu::step_09(s, t),
        0x05u8 => ops_alu::step_05(s, t),
        0x15u8 => ops_alu::step_15(s, t),
        0x0du8 => ops_alu::step_0d(s, t),
        0x1du8 => ops_alu::step_1d(s, t),
        0x19u8 => ops_alu::step_19(s, t),
        0x01u8 => ops_alu::step_01(s, t),
        0x11u8 => ops_alu::step_11(s, t),
        0x49u8 => ops_alu::step_49(s, t),
        0x45u8 => ops_alu::step_45(s, t),
        0x55u8 => ops_alu::step_55(s, t),
        0x4du8 => ops_alu::step_4d(s, t),
        0x5du8 => ops_alu::step_5d(s, t),
        0x59u8 => ops_alu::step_59(s, t),
        0x41u8 => ops_alu::step_41(s, t),
        0x51u8 => ops_alu::step_51(s, t),
        0x69u8 => ops_alu::step_69(s, t),
        0x65u8 => ops_alu::step_65(s, t),
        0x75u8 => ops_alu::step_75(s, t),
        0x6du8 => ops_alu::step_6d(s, t),
        0x7du8 => ops_alu::step_7d(s, t),
        0x79u8 => ops_alu::step_79(s, t),
        0x61u8 => ops_alu::step_61(s, t),
        0x71u8 => ops_alu::step_71(s, t),
        0xe9u8 | 0xebu8 => ops_alu::step_e9(s, t),
        0xe5u8 => ops_alu::step_e5(s, t),
        0xf5u8 => ops_alu::step_f5(s, t),
        0xedu8 => ops_alu::step_ed(s, t),
        0xfdu8 => ops_alu::step_fd(s, t),
        0xf9u8 => ops_alu::step_f9(s, t),
        0xe1u8 => ops_alu::step_e1(s, t),
        0xf1u8 => ops_alu::step_f1(s, t),
        0xe6u8 => ops_rmw::step_e6(s, t),
        0xf6u8 => ops_rmw::step_f6(s, t),
        0xeeu8 => ops_rmw::step_ee(s, t),
        0xfeu8 => ops_rmw::step_fe(s, t),
        0xc8u8 => ops_control::step_c8(s, t),
        0xe8u8 => ops_control::step_e8(s, t),
        0xc6u8 => ops_rmw::step_c6(s, t),
        0xd6u8 => ops_rmw::step_d6(s, t),
        0xceu8 => ops_rmw::step_ce(s, t),
        0xdeu8 => ops_rmw::step_de(s, t),
        0x88u8 => ops_control::step_88(s, t),
        0xcau8 => ops_control::step_ca(s, t),
        0xa8u8 => ops_control::step_a8(s, t),
        0xaau8 => ops_control::step_aa(s, t),
        0x98u8 => ops_control::step_98(s, t),
        0x8au8 => ops_control::step_8a(s, t),
        0xbau8 => ops_control::step_ba(s, t),
        0x9au8 => ops_control::step_9a(s, t),
        0x24u8 => ops_alu::step_24(s, t),
        0x2cu8 => ops_alu::step_2c(s, t),
        0xc9u8 => ops_alu::step_c9(s, t),
        0xc5u8 => ops_alu::step_c5(s, t),
        0xd5u8 => ops_alu::step_d5(s, t),
        0xcdu8 => ops_alu::step_cd(s, t),
        0xddu8 => ops_alu::step_dd(s, t),
        0xd9u8 => ops_alu::step_d9(s, t),
        0xc1u8 => ops_alu::step_c1(s, t),
        0xd1u8 => ops_alu::step_d1(s, t),
        0xc0u8 => ops_alu::step_c0(s, t),
        0xc4u8 => ops_alu::step_c4(s, t),
        0xccu8 => ops_alu::step_cc(s, t),
        0xe0u8 => ops_alu::step_e0(s, t),
        0xe4u8 => ops_alu::step_e4(s, t),
        0xecu8 => ops_alu::step_ec(s, t),
        0x4cu8 => ops_control::step_4c(s, t),
        0x6cu8 => ops_control::step_6c(s, t),
        0x85u8 => ops_load_store::step_85(s, t),
        0x95u8 => ops_load_store::step_95(s, t),
        0x8du8 => ops_load_store::step_8d(s, t),
        0x9du8 => ops_load_store::step_9d(s, t),
        0x99u8 => ops_load_store::step_99(s, t),
        0x81u8 => ops_load_store::step_81(s, t),
        0x91u8 => ops_load_store::step_91(s, t),
        0xa2u8 => ops_load_store::step_a2(s, t),
        0xa6u8 => ops_load_store::step_a6(s, t),
        0xb6u8 => ops_load_store::step_b6(s, t),
        0xaeu8 => ops_load_store::step_ae(s, t),
        0xbeu8 => ops_load_store::step_be(s, t),
        0x84u8 => ops_load_store::step_84(s, t),
        0x94u8 => ops_load_store::step_94(s, t),
        0x8cu8 => ops_load_store::step_8c(s, t),
        0xa0u8 => ops_load_store::step_a0(s, t),
        0xa4u8 => ops_load_store::step_a4(s, t),
        0xb4u8 => ops_load_store::step_b4(s, t),
        0xacu8 => ops_load_store::step_ac(s, t),
        0xbcu8 => ops_load_store::step_bc(s, t),
        0xa9u8 => ops_load_store::step_a9(s, t),
        0xa5u8 => ops_load_store::step_a5(s, t),
        0xb5u8 => ops_load_store::step_b5(s, t),
        0xadu8 => ops_load_store::step_ad(s, t),
        0xa1u8 => ops_load_store::step_a1(s, t),
        0xbdu8 => ops_load_store::step_bd(s, t),
        0xb9u8 => ops_load_store::step_b9(s, t),
        0xb1u8 => ops_load_store::step_b1(s, t),
        0x86u8 => ops_load_store::step_86(s, t),
        0x96u8 => ops_load_store::step_96(s, t),
        0x8eu8 => ops_load_store::step_8e(s, t),
        0x4au8 => ops_control::step_4a(s, t),
        0x46u8 => ops_rmw::step_46(s, t),
        0x56u8 => ops_rmw::step_56(s, t),
        0x4eu8 => ops_rmw::step_4e(s, t),
        0x5eu8 => ops_rmw::step_5e(s, t),
        0x0au8 => ops_control::step_0a(s, t),
        0x06u8 => ops_rmw::step_06(s, t),
        0x16u8 => ops_rmw::step_16(s, t),
        0x0eu8 => ops_rmw::step_0e(s, t),
        0x1eu8 => ops_rmw::step_1e(s, t),
        0x6au8 => ops_control::step_6a(s, t),
        0x66u8 => ops_rmw::step_66(s, t),
        0x76u8 => ops_rmw::step_76(s, t),
        0x6eu8 => ops_rmw::step_6e(s, t),
        0x7eu8 => ops_rmw::step_7e(s, t),
        0x2au8 => ops_control::step_2a(s, t),
        0x26u8 => ops_rmw::step_26(s, t),
        0x36u8 => ops_rmw::step_36(s, t),
        0x2eu8 => ops_rmw::step_2e(s, t),
        0x3eu8 => ops_rmw::step_3e(s, t),
        0x40u8 => ops_control::step_40(s, t),
        0x20u8 => ops_control::step_20(s, t),
        0x1au8 | 0x3au8 | 0x5au8 | 0x7au8 | 0xdau8 | 0xeau8 | 0xfau8 => ops_control::step_1a(s, t),
        0x82u8 | 0xc2u8 | 0xe2u8 => ops_load_store::step_82(s, t),
        0x89u8 => ops_load_store::step_89(s, t),
        0x04u8 | 0x44u8 | 0x64u8 => ops_load_store::step_04(s, t),
        0x0cu8 => ops_load_store::step_0c(s, t),
        0x14u8 | 0x34u8 | 0x54u8 | 0x74u8 | 0xd4u8 | 0xf4u8 => ops_load_store::step_14(s, t),
        0x1cu8 | 0x3cu8 | 0x5cu8 | 0x7cu8 | 0xdcu8 | 0xfcu8 => ops_load_store::step_1c(s, t),
        0x80u8 => ops_load_store::step_80(s, t),
        0xb8u8 => ops_control::step_b8(s, t),
        0x38u8 => ops_control::step_38(s, t),
        0x78u8 => ops_control::step_78(s, t),
        0xf8u8 => ops_control::step_f8(s, t),
        0xd8u8 => ops_control::step_d8(s, t),
        0x18u8 => ops_control::step_18(s, t),
        0x58u8 => ops_control::step_58(s, t),
        0xf0u8 => ops_control::step_f0(s, t),
        0xd0u8 => ops_control::step_d0(s, t),
        0x70u8 => ops_control::step_70(s, t),
        0x50u8 => ops_control::step_50(s, t),
        0x10u8 => ops_control::step_10(s, t),
        0x30u8 => ops_control::step_30(s, t),
        0xb0u8 => ops_control::step_b0(s, t),
        0x90u8 => ops_control::step_90(s, t),
        0x48u8 => ops_control::step_48(s, t),
        0x08u8 => ops_control::step_08(s, t),
        0x28u8 => ops_control::step_28(s, t),
        0x68u8 => ops_control::step_68(s, t),
        0x60u8 => ops_control::step_60(s, t),
        0xa3u8 => ops_load_store::step_a3(s, t),
        0xa7u8 => ops_load_store::step_a7(s, t),
        0xafu8 => ops_load_store::step_af(s, t),
        0xb3u8 => ops_load_store::step_b3(s, t),
        0xb7u8 => ops_load_store::step_b7(s, t),
        0xbfu8 => ops_load_store::step_bf(s, t),
        0x83u8 => ops_load_store::step_83(s, t),
        0x87u8 => ops_load_store::step_87(s, t),
        0x8fu8 => ops_load_store::step_8f(s, t),
        0x97u8 => ops_load_store::step_97(s, t),
        0xc3u8 => ops_rmw::step_c3(s, t),
        0xc7u8 => ops_rmw::step_c7(s, t),
        0xcfu8 => ops_rmw::step_cf(s, t),
        0xd3u8 => ops_rmw::step_d3(s, t),
        0xd7u8 => ops_rmw::step_d7(s, t),
        0xdbu8 => ops_rmw::step_db(s, t),
        0xdfu8 => ops_rmw::step_df(s, t),
        0xe3u8 => ops_rmw::step_e3(s, t),
        0xe7u8 => ops_rmw::step_e7(s, t),
        0xefu8 => ops_rmw::step_ef(s, t),
        0xf3u8 => ops_rmw::step_f3(s, t),
        0xf7u8 => ops_rmw::step_f7(s, t),
        0xfbu8 => ops_rmw::step_fb(s, t),
        0xffu8 => ops_rmw::step_ff(s, t),
        0x03u8 => ops_rmw::step_03(s, t),
        0x07u8 => ops_rmw::step_07(s, t),
        0x0fu8 => ops_rmw::step_0f(s, t),
        0x13u8 => ops_rmw::step_13(s, t),
        0x17u8 => ops_rmw::step_17(s, t),
        0x1bu8 => ops_rmw::step_1b(s, t),
        0x1fu8 => ops_rmw::step_1f(s, t),
        0x23u8 => ops_rmw::step_23(s, t),
        0x27u8 => ops_rmw::step_27(s, t),
        0x2fu8 => ops_rmw::step_2f(s, t),
        0x33u8 => ops_rmw::step_33(s, t),
        0x37u8 => ops_rmw::step_37(s, t),
        0x3bu8 => ops_rmw::step_3b(s, t),
        0x3fu8 => ops_rmw::step_3f(s, t),
        0x43u8 => ops_rmw::step_43(s, t),
        0x47u8 => ops_rmw::step_47(s, t),
        0x4fu8 => ops_rmw::step_4f(s, t),
        0x53u8 => ops_rmw::step_53(s, t),
        0x57u8 => ops_rmw::step_57(s, t),
        0x5bu8 => ops_rmw::step_5b(s, t),
        0x5fu8 => ops_rmw::step_5f(s, t),
        0x63u8 => ops_rmw::step_63(s, t),
        0x67u8 => ops_rmw::step_67(s, t),
        0x6fu8 => ops_rmw::step_6f(s, t),
        0x73u8 => ops_rmw::step_73(s, t),
        0x77u8 => ops_rmw::step_77(s, t),
        0x7bu8 => ops_rmw::step_7b(s, t),
        0x7fu8 => ops_rmw::step_7f(s, t),
        0x0bu8 | 0x2bu8 => ops_alu::step_0b(s, t),
        0x4bu8 => ops_alu::step_4b(s, t),
        0x6bu8 => ops_alu::step_6b(s, t),
        0xabu8 => ops_load_store::step_ab(s, t),
        0xcbu8 => ops_alu::step_cb(s, t),
        0x9cu8 => ops_load_store::step_9c(s, t),
        0x9eu8 => ops_load_store::step_9e(s, t),
        _ => ops_control::step_jam(s, t),
    }
}

/// The work every cycle starts with: the dma phase flips, the debugger point is cleared, the
/// bus is free and the interrupt lines are sampled.
pub closed spec fn prelude(s: NesCpu, nmi: bool, irq: bool, u: NesCpu) -> bool {
    let detected = s.nmi_detected || (!s.prev_nmi && nmi);
    &&& u == NesCpu {
        dma_cycle: !s.dma_cycle,
        done_fetching: false,
        nmi_detected: detected,
        prev_nmi: nmi,
        interrupt_shift: u.interrupt_shift,
        bus_used: Ghost(false),
        ..s
    }
    &&& u.interrupt_shift@ == seq![s.interrupt_shift@[1], (irq, detected)]
}

/// One cycle of the reset sequence: three reads of the stack without writes, then the reset
/// vector at 0xfffc.
pub closed spec fn reset_cycle(s: NesCpu, t: NesCpu) -> bool {
    &&& t.a == s.a && t.x == s.x && t.y == s.y && t.s == s.s && t.p == s.p
    &&& t.opcode == s.opcode
    &&& keeps_debugger(s, t)
    &&& s.subcycle <= 4 ==> {
        &&& t.subcycle == s.subcycle + 1
        &&& t.reset
        &&& t.pc == s.pc
    }
    &&& s.subcycle == 0 ==> read_at(t, s.pc)
    &&& s.subcycle == 1 ==> read_at(t, pc_plus(s.pc, 1))
    &&& s.subcycle == 2 ==> read_at(t, stack_addr(s.s))
    &&& s.subcycle == 3 ==> read_at(t, (s.s + 0xff) as u16)
    &&& s.subcycle == 4 ==> read_at(t, (s.s + 0xfe) as u16)
    &&& s.subcycle == 5 ==> {
        &&& read_at(t, 0xfffc)
        &&& t.pc == word(data(t), hi_byte(s.pc))
        &&& t.subcycle == 6
        &&& t.reset
    }
    &&& s.subcycle >= 6 ==> {
        &&& read_at(t, 0xfffd)
        &&& t.pc == word(lo_byte(s.pc), data(t))
        &&& t.subcycle == 0
        &&& !t.reset
    }
}

/// An interrupt is taken before the next instruction: a pending irq while irqs are enabled,
/// a detected nmi, or an interrupt sequence already running.
pub closed spec fn interrupt_pending(u: NesCpu) -> bool {
    (u.interrupt_shift@[0].0 && u.polled_irq_flag) || u.interrupt_shift@[0].1 || u.interrupting
}

/// One cycle of the interrupt sequence: two reads of the program counter, the program
/// counter and the flags pushed, then the irq (0xfffe) or nmi (0xfffa) vector.
pub closed spec fn interrupt_cycle(s: NesCpu, t: NesCpu) -> bool {
    let lo_vec: u16 = if !s.interrupt_type { 0xfffe } else { 0xfffa };
    let hi_vec: u16 = if !s.interrupt_type { 0xffff } else { 0xfffb };
    &&& t.a == s.a && t.x == s.x && t.y == s.y
    &&& t.opcode is None && !t.reset && !t.polled_irq_flag
    &&& s.subcycle == 0 ==> {
        &&& t.interrupting
        &&& read_at(t, s.pc)
        &&& t.subcycle == 1
        &&& arch_same(s, t)
    }
    &&& s.subcycle == 5 ==> shows(s, t, if !s.interrupt_type { "IRQ"@ } else { "NMI"@ })
    &&& s.subcycle != 5 ==> keeps_debugger(s, t)
    &&& 1 <= s.subcycle <= 5 ==> t.interrupting == s.interrupting
    &&& s.subcycle != 3 ==> t.interrupt_type == s.interrupt_type
    &&& s.subcycle == 1 ==> {
        &&& read_at(t, pc_plus(s.pc, 1))
        &&& t.subcycle == 2
        &&& arch_same(s, t)
    }
    &&& s.subcycle == 2 ==> {
        &&& write_at(t, stack_addr(s.s), hi_byte(s.pc))
        &&& t.s == s_dec(s.s)
        &&& t.subcycle == 3
        &&& t.pc == s.pc && t.p == s.p
    }
    &&& s.subcycle == 3 ==> {
        &&& write_at(t, stack_addr(s.s), lo_byte(s.pc))
        &&& t.s == s_dec(s.s)
        &&& t.interrupt_type == s.nmi_detected
        &&& !t.nmi_detected
        &&& t.subcycle == 4
        &&& t.pc == s.pc && t.p == s.p
    }
    &&& s.subcycle == 4 ==> {
        &&& t.p == s.p & !(CPU_FLAG_B1 | CPU_FLAG_B2)
        &&& write_at(t, stack_addr(s.s), t.p)
        &&& t.s == s_dec(s.s)
        &&& t.subcycle == 5
        &&& t.pc == s.pc
    }
    &&& s.subcycle == 5 ==> {
        &&& read_at(t, lo_vec)
        &&& t.pc == word(data(t), hi_byte(s.pc))
        &&& t.p == s.p | CPU_FLAG_INT_DISABLE
        &&& t.subcycle == 6
        &&& t.s == s.s
    }
    &&& s.subcycle >= 6 ==> {
        &&& read_at(t, hi_vec)
        &&& t.pc == word(lo_byte(s.pc), data(t))
        &&& t.subcycle == 0
        &&& !t.interrupting
        &&& t.s == s.s && t.p == s.p
    }
}

/// The fetch of the opcode of the next instruction.
pub closed spec fn fetch_cycle(s: NesCpu, t: NesCpu) -> bool {
    &&& !t.reset
    &&& read_at(t, s.pc)
    &&& t.opcode == Some(data(t))
    &&& t.subcycle == 1
    &&& arch_same(s, t)
    &&& t.interrupting == s.interrupting
}

/// A cycle in which a dma transfer runs or starts: the registers and the instruction state
/// are untouched.
pub closed spec fn dma_cycle(s: NesCpu, t: NesCpu) -> bool {
    &&& arch_same(s, t)
    &&& t.opcode is None
    &&& t.subcycle == s.subcycle
    &&& !t.reset
}

/// `t` comes from `s` by a read of `addr` on the bus.
pub(crate) open spec fn read_cycle(s: NesCpu, t: NesCpu, addr: u16) -> bool {
    &&& read_at(t, addr)
    &&& t.last_read == addr
    &&& t.last_accesses@ == seq![false, s.last_accesses@[0], s.last_accesses@[1]]
}

/// `t` comes from `s` by a write of `d` to `addr` on the bus.
pub(crate) open spec fn write_cycle(s: NesCpu, t: NesCpu, addr: u16, d: u8) -> bool {
    &&& write_at(t, addr, d)
    &&& t.last_read == s.last_read
    &&& t.last_accesses@ == seq![true, s.last_accesses@[0], s.last_accesses@[1]]
}

/// `s` with the record of the bus access of `t`.
pub(crate) open spec fn with_bus(s: NesCpu, t: NesCpu) -> NesCpu {
    NesCpu {
        last_accesses: t.last_accesses,
        last_read: t.last_read,
        last_bus: t.last_bus,
        bus_used: t.bus_used,
        ..s
    }
}

/// One cycle of a running dma transfer from `s` to `t`, the apu clock being in phase
/// `clock`. A pending dmc fetch goes first: it repeats the last read for a cycle, then
/// until the apu clock phase comes, and then reads its byte and ends the transfer. Otherwise
/// an oam transfer reads the bytes of its page on even steps in the read half of the dma
/// cycle, writes each to the ppu oam register on the odd step in the write half, repeats the
/// last read when step and half do not match, and stops after its 512th step.
pub(crate) open spec fn dma_transfer(s: NesCpu, t: NesCpu, clock: bool) -> bool {
    let b = with_bus(s, t);
    match s.dmc_dma {
        Some(a) => {
            if s.dmc_dma_counter == 0 {
                read_cycle(s, t, s.last_read) && t == (NesCpu { dmc_dma_counter: 1, ..b })
            } else if !clock {
                read_cycle(s, t, s.last_read) && t == b
            } else {
                &&& read_cycle(s, t, a)
                &&& t == (NesCpu { dmc_dma: None, dma_running: false, dmc_dma_counter: 0, ..b })
            }
        },
        None => match s.oamdma {
            Some(page) => {
                let c = s.dma_counter;
                let reading = c % 2 == 0 && !s.dma_cycle;
                let writing = c % 2 == 1 && s.dma_cycle;
                let n: int = if reading || writing { c + 1 } else { c as int };
                let temp = if reading { data(t) } else { s.temp };
                &&& (reading ==> read_cycle(s, t, (page * 256 + c / 2) as u16))
                &&& (writing ==> write_cycle(s, t, 0x2004, s.temp))
                &&& (!reading && !writing ==> read_cycle(s, t, s.last_read))
                &&& if n == 512 {
                    t == (NesCpu {
                        temp,
                        dma_running: false,
                        dma_count: 0,
                        oamdma: None,
                        dma_counter: 0,
                        ..b
                    })
                } else {
                    t == (NesCpu {
                        temp,
                        dma_count: ((s.dma_count + 1) % 65536) as u16,
                        dma_counter: n as u16,
                        ..b
                    })
                }
            },
            None => t == s,
        },
    }
}

/// The address of byte `c / 2` of an oam dma page.
pub(crate) proof fn lemma_dma_address(page: u8, c: u16)
    requires
        c < 512,
    ensures
        (page as u16) << 8u16 | (c >> 1u16) == (page * 256 + c / 2) as u16,
        (c & 1 == 0) == (c % 2 == 0),
{
    assert((page as u16) << 8u16 | (c >> 1u16) == (page * 256 + c / 2) as u16 && (c & 1 == 0)
        == (c % 2 == 0)) by (bit_vector)
        requires
            c < 512,
    ;
}

/// A cycle of the cpu after the prelude, by what the cpu is doing: the reset sequence, an
/// instruction (whose opcode stays until it finishes), an interrupt sequence, a dma transfer, or the fetch of an opcode. Whether a
/// pending dmc transfer starts depends on the apu clock phase.
pub closed spec fn cycle_from(u: NesCpu, t: NesCpu) -> bool {
    if u.reset {
        reset_cycle(u, t)
    } else if u.opcode is Some {
        instruction_cycle(u.opcode.unwrap(), u, t) && (t.opcode == u.opcode || finished(t)) && !t.reset
    } else if interrupt_pending(u) {
        interrupt_cycle(u, t)
    } else if u.dma_running {
        dma_cycle(u, t)
    } else if u.dmc_dma is Some && !u.last_accesses@[0] {
        (dma_cycle(u, t) && t.dma_running && read_at(t, u.last_read)) || (u.oamdma is Some
            && dma_cycle(u, t) && t.dma_running && read_at(t, u.last_read)) || (u.oamdma is None
            && fetch_cycle(u, t))
    } else if u.oamdma is Some && !u.last_accesses@[0] {
        dma_cycle(u, t) && t.dma_running && read_at(t, u.last_read)
    } else {
        fetch_cycle(u, t)
    }
}

/// One cycle of the cpu from `s` to `t` with the given interrupt lines.
pub closed spec fn cycle_relation(s: NesCpu, nmi: bool, irq: bool, t: NesCpu) -> bool {
    exists|u: NesCpu| #[trigger] prelude(s, nmi, irq, u) && cycle_from(u, t)
}

/// A cycle between instructions that runs no interrupt sequence, with the apu clock in phase
/// `clock`: a running dma transfer takes its next step; otherwise a transfer starts, with a
/// repeat of the last read, when an oam transfer is requested, or a dmc fetch is requested in
/// the low apu clock phase, and the last cycle was a read; otherwise the opcode at the program
/// counter is fetched.
pub closed spec fn idle_cycle(u: NesCpu, t: NesCpu, clock: bool) -> bool {
    let b = with_bus(u, t);
    if u.dma_running {
        dma_transfer(u, t, clock)
    } else if ((u.dmc_dma is Some && !clock) || u.oamdma is Some) && !u.last_accesses@[0] {
        &&& read_cycle(u, t, u.last_read)
        &&& t == (NesCpu { dma_running: true, dma_count: ((u.dma_count + 1) % 65536) as u16, ..b })
    } else {
        read_cycle(u, t, u.pc) && t == (NesCpu { opcode: Some(data(t)), subcycle: 1, ..b })
    }
}

/// One cycle of the cpu from `s` to `t` with the given interrupt lines and apu clock phase:
/// as [`cycle_relation`] describes it, with the dma steps and the opcode fetch in full.
pub closed spec fn clocked_cycle(s: NesCpu, nmi: bool, irq: bool, clock: bool, t: NesCpu) -> bool {
    exists|u: NesCpu|
        #[trigger] prelude(s, nmi, irq, u) && cycle_from(u, t) && (!u.reset && u.opcode is None
            && !interrupt_pending(u) ==> idle_cycle(u, t, clock))
}

/// How a cycle from `s` with the nmi line at `nmi` samples the line into `t`: the line is kept
/// for the next cycle, and an nmi becomes pending on a rising edge (the line high after a cycle
/// that saw it low) and stays pending until the interrupt sequence takes it in the cycle in
/// which it pushes the low byte of the program counter.
pub open spec fn nmi_sampling(s: NesCpu, nmi: bool, t: NesCpu) -> bool {
    let taken = !s.spec_reset() && s.spec_opcode() is None && s.spec_subcycle() == 3
        && t.spec_subcycle() == 4;
    &&& t.spec_nmi_line() == nmi
    &&& t.spec_nmi_pending() == ((s.spec_nmi_pending() || (!s.spec_nmi_line() && nmi)) && !taken)
}

/// The cpu state at power on: cleared registers but for the stack pointer 0xfd and the flags
/// b2 and interrupt disable, the reset sequence pending from 0xfffc, no instruction or dmc
/// fetch under way, and the debugger showing that state with the text "RESET".
pub open spec fn power_on_state(c: NesCpu) -> bool {
    &&& c.spec_a() == 0 && c.spec_x() == 0 && c.spec_y() == 0
    &&& c.spec_s() == 0xfd
    &&& c.spec_p() == CPU_FLAG_B2 | CPU_FLAG_INT_DISABLE
    &&& c.spec_pc() == 0xfffc
    &&& c.spec_reset()
    &&& c.spec_subcycle() == 0
    &&& c.spec_opcode() is None
    &&& c.spec_dmc_dma() is None
    &&& c.spec_dmc_dma_counter() == 0
    &&& !c.spec_done_fetching()
    &&& !c.spec_interrupting()
    &&& !c.spec_interrupt_type()
    &&& c.spec_debugger() == (0u8, 0u8, 0u8, 0xfdu8, CPU_FLAG_B2 | CPU_FLAG_INT_DISABLE, 0xfffcu16, "RESET"@)
}

/// `t` is the cpu `s` after a reset: the stack pointer three lower, interrupts disabled, the
/// reset sequence pending from 0xfffc with no instruction under way, the debugger showing the
/// new registers with the text "RESET", and everything else as it was.
pub open spec fn reset_state(s: NesCpu, t: NesCpu) -> bool {
    &&& t.spec_s() == ((s.spec_s() - 3 + 256) % 256) as u8
    &&& t.spec_p() == s.spec_p() | CPU_FLAG_INT_DISABLE
    &&& t.spec_pc() == 0xfffc
    &&& t.spec_reset()
    &&& t.spec_subcycle() == 0
    &&& t.spec_opcode() is None
    &&& t.spec_a() == s.spec_a() && t.spec_x() == s.spec_x() && t.spec_y() == s.spec_y()
    &&& t.spec_breakpoints() == s.spec_breakpoints()
    &&& t.spec_dmc_dma() == s.spec_dmc_dma()
    &&& t.spec_dmc_dma_counter() == s.spec_dmc_dma_counter()
    &&& t.spec_done_fetching() == s.spec_done_fetching()
    &&& t.spec_interrupting() == s.spec_interrupting()
    &&& t.spec_interrupt_type() == s.spec_interrupt_type()
    &&& t.spec_debugger() == (t.spec_a(), t.spec_x(), t.spec_y(), t.spec_s(), t.spec_p(), t.spec_pc(), "RESET"@)
}

impl NesCpu {
    /// Run a single cycle of the cpu
    pub fn cycle<C: CartridgeDevice, K: ControllerDevice, P: PpuDevice, A: ApuDevice>(
        &mut self,
        bus: &mut NesMotherboard<C, K>,
        cpu_peripherals: &mut NesCpuPeripherals<P, A>,
        nmi: bool,
        irq: bool,
    )
        requires
            old(self).wf(),
        ensures
            final(self).wf(),
            cycle_relation(*old(self), nmi, irq, *final(self)),
            clocked_cycle(*old(self), nmi, irq, old(cpu_peripherals).apu.spec_get_clock(), *final(self)),
            nmi_sampling(*old(self), nmi, *final(self)),
            ram_effect(
                old(bus).spec_ram(),
                final(bus).spec_ram(),
                final(self).spec_bus_used(),
                final(self).spec_last_bus(),
            ),
            cycle_bus_effect(
                *old(bus),
                *old(cpu_peripherals),
                *final(bus),
                *final(cpu_peripherals),
                final(self).spec_bus_used(),
                final(self).spec_last_bus(),
                old(self).spec_dmc_dma() is Some && final(self).spec_dmc_dma() is None,
            ),
    {
        self.bus_used = Ghost(false);
        self.dma_cycle = !self.dma_cycle;
        self.done_fetching = false;
        self.poll_interrupt_line(irq, nmi);
        let ghost u = *self;
        assert(prelude(*old(self), nmi, irq, u));
        if self.reset {
            self.reset_step(bus, cpu_peripherals);
        } else if self.opcode.is_none() {
            if (self.interrupt_shift[0].0 && self.polled_irq_flag) || self.interrupt_shift[0].1
                || self.interrupting {
                self.interrupt_step(bus, cpu_peripherals);
            } else if self.dma_running {
                self.dma_step(bus, cpu_peripherals);
            } else if self.dmc_dma.is_some() && !self.dma_running
                && !cpu_peripherals.apu.get_clock() && !self.last_accesses[0] {
                self.dma_running = true;
                self.memory_cycle_read(self.last_read, bus, cpu_peripherals);
                self.dma_count = self.dma_count.wrapping_add(1);
            } else if self.oamdma.is_some() && !self.dma_running && !self.last_accesses[0] {
                self.dma_running = true;
                self.memory_cycle_read(self.last_read, bus, cpu_peripherals);
                self.dma_count = self.dma_count.wrapping_add(1);
            } else {
                self.opcode = Some(self.memory_cycle_read(self.pc, bus, cpu_peripherals));
                self.subcycle = 1;
            }
        } else {
            self.execute_step(bus, cpu_peripherals);
        }
        assert(cycle_from(u, *self));
        assert(!u.reset && u.opcode is None && !interrupt_pending(u) ==> idle_cycle(
            u,
            *self,
            old(cpu_peripherals).apu.spec_get_clock(),
        ));
    }

    /// One cycle of the reset sequence: three reads of the stack without writes, then the
    /// reset vector.
    fn reset_step<C: CartridgeDevice, K: ControllerDevice, P: PpuDevice, A: ApuDevice>(
        &mut self,
        bus: &mut NesMotherboard<C, K>,
        cpu_peripherals: &mut NesCpuPeripherals<P, A>,
    )
        requires
            old(self).wf(),
            old(self).reset,
            !old(self).bus_used@,
        ensures
            final(self).wf(),
            reset_cycle(*old(self), *final(self)),
            ram_effect(old(bus).spec_ram(), final(bus).spec_ram(), final(self).bus_used@, final(self).last_bus@),
            bus_effect(*old(bus), *old(cpu_peripherals), *final(bus), *final(cpu_peripherals), final(self).bus_used@, final(self).last_bus@),
            final(self).dmc_dma == old(self).dmc_dma,
            final(self).nmi_detected == old(self).nmi_detected,
            final(self).prev_nmi == old(self).prev_nmi,
    {
        match self.subcycle {
            0 => {
                self.memory_cycle_read(self.pc, bus, cpu_peripherals);
                self.subcycle += 1;
            },
            1 => {
                self.memory_cycle_read(self.pc.wrapping_add(1), bus, cpu_peripherals);
                self.subcycle += 1;
            },
            2 => {
                self.memory_cycle_read(self.s as u16 + 0x100, bus, cpu_peripherals);
                self.subcycle += 1;
            },
            3 => {
                self.memory_cycle_read(self.s as u16 + 0xff, bus, cpu_peripherals);
                self.subcycle += 1;
            },
            4 => {
                self.memory_cycle_read(self.s as u16 + 0xfe, bus, cpu_peripherals);
                self.subcycle += 1;
            },
            5 => {
                let pcl = self.memory_cycle_read(0xfffc, bus, cpu_peripherals);
                let mut pc = le_bytes(self.pc);
                pc[0] = pcl;
                self.pc = from_le_bytes(pc);
                self.subcycle += 1;
            },
            _ => {
                let pch = self.memory_cycle_read(0xfffd, bus, cpu_peripherals);
                let mut pc = le_bytes(self.pc);
                pc[1] = pch;
                self.pc = from_le_bytes(pc);
                self.subcycle = 0;
                self.reset = false;
            },
        }
    }

    /// One cycle of the interrupt sequence: push the program counter and the flags, then
    /// load the irq or nmi vector.
    #[verifier::spinoff_prover]
    #[verifier::rlimit(40)]
    fn interrupt_step<C: CartridgeDevice, K: ControllerDevice, P: PpuDevice, A: ApuDevice>(
        &mut self,
        bus: &mut NesMotherboard<C, K>,
        cpu_peripherals: &mut NesCpuPeripherals<P, A>,
    )
        requires
            old(self).wf(),
            !old(self).reset,
            old(self).opcode is None,
            !old(self).bus_used@,
        ensures
            final(self).wf(),
            interrupt_cycle(*old(self), *final(self)),
            ram_effect(old(bus).spec_ram(), final(bus).spec_ram(), final(self).bus_used@, final(self).last_bus@),
            bus_effect(*old(bus), *old(cpu_peripherals), *final(bus), *final(cpu_peripherals), final(self).bus_used@, final(self).last_bus@),
            final(self).dmc_dma == old(self).dmc_dma,
            old(self).subcycle != 3 ==> final(self).nmi_detected == old(self).nmi_detected,
            final(self).prev_nmi == old(self).prev_nmi,
    {
        self.polled_irq_flag = false;
        match self.subcycle {
            0 => {
                self.interrupting = true;
                self.memory_cycle_read(self.pc, bus, cpu_peripherals);
                self.subcycle += 1;
            },
            1 => {
                self.memory_cycle_read(self.pc.wrapping_add(1), bus, cpu_peripherals);
                self.subcycle += 1;
            },
            2 => {
                self.memory_cycle_write(self.s as u16 + 0x100, le_bytes(self.pc)[1], bus, cpu_peripherals);
                self.s = self.s.wrapping_sub(1);
                self.subcycle += 1;
            },
            3 => {
                self.memory_cycle_write(self.s as u16 + 0x100, le_bytes(self.pc)[0], bus, cpu_peripherals);
                self.s = self.s.wrapping_sub(1);
                self.interrupt_type = self.nmi_detected;
                self.nmi_detected = false;
                self.subcycle += 1;
            },
            4 => {
                self.p &= !(CPU_FLAG_B1 | CPU_FLAG_B2);
                self.memory_cycle_write(self.s as u16 + 0x100, self.p, bus, cpu_peripherals);
                self.s = self.s.wrapping_sub(1);
                self.subcycle += 1;
            },
            5 => {
                let addr: u16 = if !self.interrupt_type {
                    0xfffe
                } else {
                    0xfffa
                };
                if !self.interrupt_type {
                    self.copy_debugger("IRQ".to_owned());
                } else {
                    self.copy_debugger("NMI".to_owned());
                }
                self.done_fetching = true;
                let pcl = self.memory_cycle_read(addr, bus, cpu_peripherals);
                let mut pc = le_bytes(self.pc);
                pc[0] = pcl;
                self.pc = from_le_bytes(pc);
                self.p |= CPU_FLAG_INT_DISABLE;
                self.subcycle += 1;
            },
            _ => {
                let addr: u16 = if !self.interrupt_type {
                    0xffff
                } else {
                    0xfffb
                };
                let pch = self.memory_cycle_read(addr, bus, cpu_peripherals);
                let mut pc = le_bytes(self.pc);
                pc[1] = pch;
                self.pc = from_le_bytes(pc);
                self.subcycle = 0;
                self.interrupting = false;
            },
        }
    }

    /// One cycle of a running dma transfer: a dmc sample fetch has priority over the oam
    /// transfer, which alternates reads of a page with writes to the ppu oam register.
    #[verifier::rlimit(60)]
    fn dma_step<C: CartridgeDevice, K: ControllerDevice, P: PpuDevice, A: ApuDevice>(
        &mut self,
        bus: &mut NesMotherboard<C, K>,
        cpu_peripherals: &mut NesCpuPeripherals<P, A>,
    )
        requires
            old(self).wf(),
            !old(self).reset,
            old(self).opcode is None,
            !old(self).bus_used@,
        ensures
            final(self).wf(),
            !final(self).reset,
            dma_cycle(*old(self), *final(self)),
            dma_transfer(*old(self), *final(self), old(cpu_peripherals).apu.spec_get_clock()),
            ram_effect(old(bus).spec_ram(), final(bus).spec_ram(), final(self).bus_used@, final(self).last_bus@),
            cycle_bus_effect(
                *old(bus),
                *old(cpu_peripherals),
                *final(bus),
                *final(cpu_peripherals),
                final(self).bus_used@,
                final(self).last_bus@,
                old(self).dmc_dma is Some && final(self).dmc_dma is None,
            ),
            final(self).nmi_detected == old(self).nmi_detected,
            final(self).prev_nmi == old(self).prev_nmi,
    {
        proof {
            lemma_dma_address(0, self.dma_counter);
        }
        if let Some(a) = self.dmc_dma {
            if self.dmc_dma_counter == 0 {
                self.memory_cycle_read(self.last_read, bus, cpu_peripherals);
                self.dmc_dma_counter += 1;
            } else {
                if !cpu_peripherals.apu.get_clock() {
                    self.memory_cycle_read(self.last_read, bus, cpu_peripherals);
                } else {
                    let t = self.memory_cycle_read(a, bus, cpu_peripherals);
                    let ghost pm = *cpu_peripherals;
                    cpu_peripherals.apu.provide_dma_response(t);
                    self.dmc_dma = None;
                    self.dma_running = false;
                    self.dmc_dma_counter = 0;
                    assert(bus_read(
                        *old(bus),
                        *old(cpu_peripherals),
                        self.last_bus@.addr,
                        *bus,
                        pm,
                        self.last_bus@.data,
                    ));
                    assert(*cpu_peripherals == (NesCpuPeripherals {
                        ppu: pm.ppu,
                        apu: pm.apu.spec_dma_response(self.last_bus@.data),
                    }));
                }
            }
        } else if let Some(addr) = self.oamdma {
            self.dma_count = self.dma_count.wrapping_add(1);
            proof {
                lemma_dma_address(addr, self.dma_counter);
            }
            if (self.dma_counter & 1) == 0 && !self.dma_cycle {
                let addr: u16 = (addr as u16) << 8u16 | (self.dma_counter >> 1u16);
                self.temp = self.memory_cycle_read(addr, bus, cpu_peripherals);
                self.dma_counter += 1;
            } else if (self.dma_counter & 1) != 0 && self.dma_cycle {
                self.memory_cycle_write(0x2004, self.temp, bus, cpu_peripherals);
                self.dma_counter += 1;
            } else {
                self.memory_cycle_read(self.last_read, bus, cpu_peripherals);
            }
            if self.dma_counter == 512 {
                self.dma_running = false;
                self.dma_count = 0;
                self.oamdma = None;
                self.dma_counter = 0;
            }
        }
    }

    /// Run one cycle of the instruction being executed.
    fn execute_step<C: CartridgeDevice, K: ControllerDevice, P: PpuDevice, A: ApuDevice>(
        &mut self,
        bus: &mut NesMotherboard<C, K>,
        cpu_peripherals: &mut NesCpuPeripherals<P, A>,
    )
        requires
            old(self).wf(),
            !old(self).reset,
            old(self).opcode is Some,
            !old(self).bus_used@,
        ensures
            final(self).wf(),
            !final(self).reset,
            instruction_cycle(old(self).opcode.unwrap(), *old(self), *final(self)),
            final(self).opcode == old(self).opcode || finished(*final(self)),
            ram_effect(old(bus).spec_ram(), final(bus).spec_ram(), final(self).bus_used@, final(self).last_bus@),
            bus_effect(*old(bus), *old(cpu_peripherals), *final(bus), *final(cpu_peripherals), final(self).bus_used@, final(self).last_bus@),
            final(self).dmc_dma == old(self).dmc_dma,
            final(self).nmi_detected == old(self).nmi_detected,
            final(self).prev_nmi == old(self).prev_nmi,
    {
        let o = self.opcode.unwrap();
        match o {
            0x00 => self.op_00(bus, cpu_peripherals),
            0x29 => self.op_29(bus, cpu_peripherals),
            0x25 => self.op_25(bus, cpu_peripherals),
            0x35 => self.op_35(bus, cpu_peripherals),
            0x2d => self.op_2d(bus, cpu_peripherals),
            0x3d => self.op_3d(bus, cpu_peripherals),
            0x39 => self.op_39(bus, cpu_peripherals),
            0x21 => self.op_21(bus, cpu_peripherals),
            0x31 => self.op_31(bus, cpu_peripherals),
            0x09 => self.op_09(bus, cpu_peripherals),
            0x05 => self.op_05(bus, cpu_peripherals),
            0x15 => self.op_15(bus, cpu_peripherals),
            0x0d => self.op_0d(bus, cpu_peripherals),
            0x1d => self.op_1d(bus, cpu_peripherals),
            0x19 => self.op_19(bus, cpu_peripherals),
            0x01 => self.op_01(bus, cpu_peripherals),
            0x11 => self.op_11(bus, cpu_peripherals),
            0x49 => self.op_49(bus, cpu_peripherals),
            0x45 => self.op_45(bus, cpu_peripherals),
            0x55 => self.op_55(bus, cpu_peripherals),
            0x4d => self.op_4d(bus, cpu_peripherals),
            0x5d => self.op_5d(bus, cpu_peripherals),
            0x59 => self.op_59(bus, cpu_peripherals),
            0x41 => self.op_41(bus, cpu_peripherals),
            0x51 => self.op_51(bus, cpu_peripherals),
            0x69 => self.op_69(bus, cpu_peripherals),
            0x65 => self.op_65(bus, cpu_peripherals),
            0x75 => self.op_75(bus, cpu_peripherals),
            0x6d => self.op_6d(bus, cpu_peripherals),
            0x7d => self.op_7d(bus, cpu_peripherals),
            0x79 => self.op_79(bus, cpu_peripherals),
            0x61 => self.op_61(bus, cpu_peripherals),
            0x71 => self.op_71(bus, cpu_peripherals),
            0xe9 | 0xeb => self.op_e9(bus, cpu_peripherals),
            0xe5 => self.op_e5(bus, cpu_peripherals),
            0xf5 => self.op_f5(bus, cpu_peripherals),
            0xed => self.op_ed(bus, cpu_peripherals),
            0xfd => self.op_fd(bus, cpu_peripherals),
            0xf9 => self.op_f9(bus, cpu_peripherals),
            0xe1 => self.op_e1(bus, cpu_peripherals),
            0xf1 => self.op_f1(bus, cpu_peripherals),
            0xe6 => self.op_e6(bus, cpu_peripherals),
            0xf6 => self.op_f6(bus, cpu_peripherals),
            0xee => self.op_ee(bus, cpu_peripherals),
            0xfe => self.op_fe(bus, cpu_peripherals),
            0xc8 => self.op_c8(bus, cpu_peripherals),
            0xe8 => self.op_e8(bus, cpu_peripherals),
            0xc6 => self.op_c6(bus, cpu_peripherals),
            0xd6 => self.op_d6(bus, cpu_peripherals),
            0xce => self.op_ce(bus, cpu_peripherals),
            0xde => self.op_de(bus, cpu_peripherals),
            0x88 => self.op_88(bus, cpu_peripherals),
            0xca => self.op_ca(bus, cpu_peripherals),
            0xa8 => self.op_a8(bus, cpu_peripherals),
            0xaa => self.op_aa(bus, cpu_peripherals),
            0x98 => self.op_98(bus, cpu_peripherals),
            0x8a => self.op_8a(bus, cpu_peripherals),
            0xba => self.op_ba(bus, cpu_peripherals),
            0x9a => self.op_9a(bus, cpu_peripherals),
            0x24 => self.op_24(bus, cpu_peripherals),
            0x2c => self.op_2c(bus, cpu_peripherals),
            0xc9 => self.op_c9(bus, cpu_peripherals),
            0xc5 => self.op_c5(bus, cpu_peripherals),
            0xd5 => self.op_d5(bus, cpu_peripherals),
            0xcd => self.op_cd(bus, cpu_peripherals),
            0xdd => self.op_dd(bus, cpu_peripherals),
            0xd9 => self.op_d9(bus, cpu_peripherals),
            0xc1 => self.op_c1(bus, cpu_peripherals),
            0xd1 => self.op_d1(bus, cpu_peripherals),
            0xc0 => self.op_c0(bus, cpu_peripherals),
            0xc4 => self.op_c4(bus, cpu_peripherals),
            0xcc => self.op_cc(bus, cpu_peripherals),
            0xe0 => self.op_e0(bus, cpu_peripherals),
            0xe4 => self.op_e4(bus, cpu_peripherals),
            0xec => self.op_ec(bus, cpu_peripherals),
            0x4c => self.op_4c(bus, cpu_peripherals),
            0x6c => self.op_6c(bus, cpu_peripherals),
            0x85 => self.op_85(bus, cpu_peripherals),
            0x95 => self.op_95(bus, cpu_peripherals),
            0x8d => self.op_8d(bus, cpu_peripherals),
            0x9d => self.op_9d(bus, cpu_peripherals),
            0x99 => self.op_99(bus, cpu_peripherals),
            0x81 => self.op_81(bus, cpu_peripherals),
            0x91 => self.op_91(bus, cpu_peripherals),
            0xa2 => self.op_a2(bus, cpu_peripherals),
            0xa6 => self.op_a6(bus, cpu_peripherals),
            0xb6 => self.op_b6(bus, cpu_peripherals),
            0xae => self.op_ae(bus, cpu_peripherals),
            0xbe => self.op_be(bus, cpu_peripherals),
            0x84 => self.op_84(bus, cpu_peripherals),
            0x94 => self.op_94(bus, cpu_peripherals),
            0x8c => self.op_8c(bus, cpu_peripherals),
            0xa0 => self.op_a0(bus, cpu_peripherals),
            0xa4 => self.op_a4(bus, cpu_peripherals),
            0xb4 => self.op_b4(bus, cpu_peripherals),
            0xac => self.op_ac(bus, cpu_peripherals),
            0xbc => self.op_bc(bus, cpu_peripherals),
            0xa9 => self.op_a9(bus, cpu_peripherals),
            0xa5 => self.op_a5(bus, cpu_peripherals),
            0xb5 => self.op_b5(bus, cpu_peripherals),
            0xad => self.op_ad(bus, cpu_peripherals),
            0xa1 => self.op_a1(bus, cpu_peripherals),
            0xbd => self.op_bd(bus, cpu_peripherals),
            0xb9 => self.op_b9(bus, cpu_peripherals),
            0xb1 => self.op_b1(bus, cpu_peripherals),
            0x86 => self.op_86(bus, cpu_peripherals),
            0x96 => self.op_96(bus, cpu_peripherals),
            0x8e => self.op_8e(bus, cpu_peripherals),
            0x4a => self.op_4a(bus, cpu_peripherals),
            0x46 => self.op_46(bus, cpu_peripherals),
            0x56 => self.op_56(bus, cpu_peripherals),
            0x4e => self.op_4e(bus, cpu_peripherals),
            0x5e => self.op_5e(bus, cpu_peripherals),
            0x0a => self.op_0a(bus, cpu_peripherals),
            0x06 => self.op_06(bus, cpu_peripherals),
            0x16 => self.op_16(bus, cpu_peripherals),
            0x0e => self.op_0e(bus, cpu_peripherals),
            0x1e => self.op_1e(bus, cpu_peripherals),
            0x6a => self.op_6a(bus, cpu_peripherals),
            0x66 => self.op_66(bus, cpu_peripherals),
            0x76 => self.op_76(bus, cpu_peripherals),
            0x6e => self.op_6e(bus, cpu_peripherals),
            0x7e => self.op_7e(bus, cpu_peripherals),
            0x2a => self.op_2a(bus, cpu_peripherals),
            0x26 => self.op_26(bus, cpu_peripherals),
            0x36 => self.op_36(bus, cpu_peripherals),
            0x2e => self.op_2e(bus, cpu_peripherals),
            0x3e => self.op_3e(bus, cpu_peripherals),
            0x40 => self.op_40(bus, cpu_peripherals),
            0x20 => self.op_20(bus, cpu_peripherals),
            0x1a | 0x3a | 0x5a | 0x7a | 0xda | 0xea | 0xfa => self.op_1a(bus, cpu_peripherals),
            0x82 | 0xc2 | 0xe2 => self.op_82(bus, cpu_peripherals),
            0x89 => self.op_89(bus, cpu_peripherals),
            0x04 | 0x44 | 0x64 => self.op_04(bus, cpu_peripherals),
            0x0c => self.op_0c(bus, cpu_peripherals),
            0x14 | 0x34 | 0x54 | 0x74 | 0xd4 | 0xf4 => self.op_14(bus, cpu_peripherals),
            0x1c | 0x3c | 0x5c | 0x7c | 0xdc | 0xfc => self.op_1c(bus, cpu_peripherals),
            0x80 => self.op_80(bus, cpu_peripherals),
            0xb8 => self.op_b8(bus, cpu_peripherals),
            0x38 => self.op_38(bus, cpu_peripherals),
            0x78 => self.op_78(bus, cpu_peripherals),
            0xf8 => self.op_f8(bus, cpu_peripherals),
            0xd8 => self.op_d8(bus, cpu_peripherals),
            0x18 => self.op_18(bus, cpu_peripherals),
            0x58 => self.op_58(bus, cpu_peripherals),
            0xf0 => self.op_f0(bus, cpu_peripherals),
            0xd0 => self.op_d0(bus, cpu_peripherals),
            0x70 => self.op_70(bus, cpu_peripherals),
            0x50 => self.op_50(bus, cpu_peripherals),
            0x10 => self.op_10(bus, cpu_peripherals),
            0x30 => self.op_30(bus, cpu_peripherals),
            0xb0 => self.op_b0(bus, cpu_peripherals),
            0x90 => self.op_90(bus, cpu_peripherals),
            0x48 => self.op_48(bus, cpu_peripherals),
            0x08 => self.op_08(bus, cpu_peripherals),
            0x28 => self.op_28(bus, cpu_peripherals),
            0x68 => self.op_68(bus, cpu_peripherals),
            0x60 => self.op_60(bus, cpu_peripherals),
            0xa3 => self.op_a3(bus, cpu_peripherals),
            0xa7 => self.op_a7(bus, cpu_peripherals),
            0xaf => self.op_af(bus, cpu_peripherals),
            0xb3 => self.op_b3(bus, cpu_peripherals),
            0xb7 => self.op_b7(bus, cpu_peripherals),
            0xbf => self.op_bf(bus, cpu_peripherals),
            0x83 => self.op_83(bus, cpu_peripherals),
            0x87 => self.op_87(bus, cpu_peripherals),
            0x8f => self.op_8f(bus, cpu_peripherals),
            0x97 => self.op_97(bus, cpu_peripherals),
            0xc3 => self.op_c3(bus, cpu_peripherals),
            0xc7 => self.op_c7(bus, cpu_peripherals),
            0xcf => self.op_cf(bus, cpu_peripherals),
            0xd3 => self.op_d3(bus, cpu_peripherals),
            0xd7 => self.op_d7(bus, cpu_peripherals),
            0xdb => self.op_db(bus, cpu_peripherals),
            0xdf => self.op_df(bus, cpu_peripherals),
            0xe3 => self.op_e3(bus, cpu_peripherals),
            0xe7 => self.op_e7(bus, cpu_peripherals),
            0xef => self.op_ef(bus, cpu_peripherals),
            0xf3 => self.op_f3(bus, cpu_peripherals),
            0xf7 => self.op_f7(bus, cpu_peripherals),
            0xfb => self.op_fb(bus, cpu_peripherals),
            0xff => self.op_ff(bus, cpu_peripherals),
            0x03 => self.op_03(bus, cpu_peripherals),
            0x07 => self.op_07(bus, cpu_peripherals),
            0x0f => self.op_0f(bus, cpu_peripherals),
            0x13 => self.op_13(bus, cpu_peripherals),
            0x17 => self.op_17(bus, cpu_peripherals),
            0x1b => self.op_1b(bus, cpu_peripherals),
            0x1f => self.op_1f(bus, cpu_peripherals),
            0x23 => self.op_23(bus, cpu_peripherals),
            0x27 => self.op_27(bus, cpu_peripherals),
            0x2f => self.op_2f(bus, cpu_peripherals),
            0x33 => self.op_33(bus, cpu_peripherals),
            0x37 => self.op_37(bus, cpu_peripherals),
            0x3b => self.op_3b(bus, cpu_peripherals),
            0x3f => self.op_3f(bus, cpu_peripherals),
            0x43 => self.op_43(bus, cpu_peripherals),
            0x47 => self.op_47(bus, cpu_peripherals),
            0x4f => self.op_4f(bus, cpu_peripherals),
            0x53 => self.op_53(bus, cpu_peripherals),
            0x57 => self.op_57(bus, cpu_peripherals),
            0x5b => self.op_5b(bus, cpu_peripherals),
            0x5f => self.op_5f(bus, cpu_peripherals),
            0x63 => self.op_63(bus, cpu_peripherals),
            0x67 => self.op_67(bus, cpu_peripherals),
            0x6f => self.op_6f(bus, cpu_peripherals),
            0x73 => self.op_73(bus, cpu_peripherals),
            0x77 => self.op_77(bus, cpu_peripherals),
            0x7b => self.op_7b(bus, cpu_peripherals),
            0x7f => self.op_7f(bus, cpu_peripherals),
            0x0b | 0x2b => self.op_0b(bus, cpu_peripherals),
            0x4b => self.op_4b(bus, cpu_peripherals),
            0x6b => self.op_6b(bus, cpu_peripherals),
            0xab => self.op_ab(bus, cpu_peripherals),
            0xcb => self.op_cb(bus, cpu_peripherals),
            0x9c => self.op_9c(bus, cpu_peripherals),
            0x9e => self.op_9e(bus, cpu_peripherals),
            _ => self.op_jam(bus, cpu_peripherals, o),
        }
    }
}


/// The reset sequence takes seven cycles whatever the interrupt lines do: it writes nothing,
/// keeps the registers, reads the reset vector at 0xfffc and 0xfffd in its last two cycles
/// and leaves the program counter at the address that the vector holds, ready to fetch the
/// first opcode. The cpu ram stays as it was.
pub proof fn law_reset_vector(
    states: Seq<NesCpu>,
    rams: Seq<Seq<u8>>,
    nmi: Seq<bool>,
    irq: Seq<bool>,
)
    requires
        states.len() == 8,
        rams.len() == 8,
        forall|i: int|
            #![trigger rams[i + 1]]
            0 <= i < 7 ==> ram_effect(
                rams[i],
                rams[i + 1],
                states[i + 1].spec_bus_used(),
                states[i + 1].spec_last_bus(),
            ),
        nmi.len() == 7,
        irq.len() == 7,
        states[0].spec_reset(),
        states[0].spec_subcycle() == 0,
        forall|i: int|
            #![trigger nmi[i]]
            0 <= i < 7 ==> cycle_relation(states[i], nmi[i], irq[i], states[i + 1]),
    ensures
        forall|i: int| 1 <= i <= 7 ==> !(#[trigger] states[i].spec_last_bus()).write,
        states[6].spec_last_bus().addr == 0xfffc,
        states[7].spec_last_bus().addr == 0xfffd,
        states[7].spec_pc() == word(states[6].spec_last_bus().data, states[7].spec_last_bus().data),
        !states[7].spec_reset(),
        states[7].spec_opcode() == states[0].spec_opcode(),
        states[7].spec_subcycle() == 0,
        states[7].spec_a() == states[0].spec_a(),
        states[7].spec_x() == states[0].spec_x(),
        states[7].spec_y() == states[0].spec_y(),
        states[7].spec_s() == states[0].spec_s(),
        states[7].spec_p() == states[0].spec_p(),
        rams[7] == rams[0],
        forall|i: int| 1 <= i <= 6 ==> #[trigger] states[i].spec_subcycle() != 0,
        forall|i: int| 1 <= i <= 7 ==> #[trigger] states[i].spec_bus_used(),
{
    assert(cycle_relation(states[0], nmi[0], irq[0], states[1]));
    assert(cycle_relation(states[1], nmi[1], irq[1], states[2]));
    assert(cycle_relation(states[2], nmi[2], irq[2], states[3]));
    assert(cycle_relation(states[3], nmi[3], irq[3], states[4]));
    assert(cycle_relation(states[4], nmi[4], irq[4], states[5]));
    assert(cycle_relation(states[5], nmi[5], irq[5], states[6]));
    assert(cycle_relation(states[6], nmi[6], irq[6], states[7]));
    let lo = data(states[6]);
    assert(lo_byte(word(lo, hi_byte(states[5].pc))) == lo);
    assert(ram_effect(rams[0], rams[1], states[1].bus_used@, states[1].last_bus@));
    assert(ram_effect(rams[1], rams[2], states[2].bus_used@, states[2].last_bus@));
    assert(ram_effect(rams[2], rams[3], states[3].bus_used@, states[3].last_bus@));
    assert(ram_effect(rams[3], rams[4], states[4].bus_used@, states[4].last_bus@));
    assert(ram_effect(rams[4], rams[5], states[5].bus_used@, states[5].last_bus@));
    assert(ram_effect(rams[5], rams[6], states[6].bus_used@, states[6].last_bus@));
    assert(ram_effect(rams[6], rams[7], states[7].bus_used@, states[7].last_bus@));
}

/// An interrupt sequence, once started between instructions, takes seven cycles: it pushes
/// the high and the low byte of the program counter and the flags with both break bits
/// clear, sets the interrupt disable flag and leaves the program counter at the address held
/// by the nmi vector (0xfffa) or the irq vector (0xfffe), whichever the sequence serves. The
/// three stack cells it pushes to are the only cells of the cpu ram that change.
#[verifier::rlimit(100)]
#[verifier::spinoff_prover]
pub proof fn law_interrupt_vector(
    states: Seq<NesCpu>,
    rams: Seq<Seq<u8>>,
    nmi: Seq<bool>,
    irq: Seq<bool>,
)
    requires
        states.len() == 8,
        rams.len() == 8,
        rams[0].len() == 2048,
        forall|i: int|
            #![trigger rams[i + 1]]
            0 <= i < 7 ==> ram_effect(
                rams[i],
                rams[i + 1],
                states[i + 1].spec_bus_used(),
                states[i + 1].spec_last_bus(),
            ),
        nmi.len() == 7,
        irq.len() == 7,
        !states[0].spec_reset(),
        states[0].spec_opcode() is None,
        states[0].spec_subcycle() == 0,
        states[1].spec_opcode() is None,
        states[1].spec_subcycle() == 1,
        forall|i: int|
            #![trigger nmi[i]]
            0 <= i < 7 ==> cycle_relation(states[i], nmi[i], irq[i], states[i + 1]),
    ensures
        ({
            let pc = states[0].spec_pc();
            let s = states[0].spec_s();
            let p = states[0].spec_p() & !(CPU_FLAG_B1 | CPU_FLAG_B2);
            let lo_vec: u16 = if states[7].spec_interrupt_type() { 0xfffa } else { 0xfffe };
            &&& states[3].spec_last_bus() == BusAccess { addr: stack_addr(s), data: hi_byte(pc), write: true }
            &&& states[4].spec_last_bus() == BusAccess { addr: stack_addr(s_dec(s)), data: lo_byte(pc), write: true }
            &&& states[5].spec_last_bus() == BusAccess { addr: stack_addr(s_dec(s_dec(s))), data: p, write: true }
            &&& states[6].spec_last_bus().addr == lo_vec && !states[6].spec_last_bus().write
            &&& states[7].spec_last_bus().addr == lo_vec + 1 && !states[7].spec_last_bus().write
            &&& states[7].spec_pc() == word(states[6].spec_last_bus().data, states[7].spec_last_bus().data)
            &&& states[7].spec_s() == s_dec(s_dec(s_dec(s)))
            &&& states[7].spec_p() == p | CPU_FLAG_INT_DISABLE
            &&& rams[7] == rams[0].update(0x100 + s, hi_byte(pc)).update(
                0x100 + s_dec(s),
                lo_byte(pc),
            ).update(0x100 + s_dec(s_dec(s)), p)
        }),
        states[7].spec_a() == states[0].spec_a(),
        states[7].spec_x() == states[0].spec_x(),
        states[7].spec_y() == states[0].spec_y(),
        states[7].spec_opcode() is None,
        states[7].spec_subcycle() == 0,
        !states[7].spec_reset(),
        !states[7].spec_interrupting(),
{
    assert(cycle_relation(states[0], nmi[0], irq[0], states[1]));
    assert(cycle_relation(states[1], nmi[1], irq[1], states[2]));
    assert(cycle_relation(states[2], nmi[2], irq[2], states[3]));
    assert(cycle_relation(states[3], nmi[3], irq[3], states[4]));
    assert(cycle_relation(states[4], nmi[4], irq[4], states[5]));
    assert(cycle_relation(states[5], nmi[5], irq[5], states[6]));
    assert(cycle_relation(states[6], nmi[6], irq[6], states[7]));
    let lo = data(states[6]);
    assert(lo_byte(word(lo, hi_byte(states[5].pc))) == lo);
    let sp = states[0].s;
    assert(ram_index(stack_addr(sp)) == 0x100 + sp) by (bit_vector);
    assert(ram_index(stack_addr(s_dec(sp))) == 0x100 + s_dec(sp)) by (bit_vector);
    assert(ram_index(stack_addr(s_dec(s_dec(sp)))) == 0x100 + s_dec(s_dec(sp))) by (bit_vector);
    assert(ram_effect(rams[0], rams[1], states[1].bus_used@, states[1].last_bus@));
    assert(ram_effect(rams[1], rams[2], states[2].bus_used@, states[2].last_bus@));
    assert(ram_effect(rams[2], rams[3], states[3].bus_used@, states[3].last_bus@));
    assert(ram_effect(rams[3], rams[4], states[4].bus_used@, states[4].last_bus@));
    assert(ram_effect(rams[4], rams[5], states[5].bus_used@, states[5].last_bus@));
    assert(ram_effect(rams[5], rams[6], states[6].bus_used@, states[6].last_bus@));
    assert(ram_effect(rams[6], rams[7], states[7].bus_used@, states[7].last_bus@));
}


/// The value that the read-modify-write instruction with opcode `op` (asl, lsr, rol, ror, dec
/// or inc on the zero page) writes back for the value `v`, with the flags `p` before it.
pub open spec fn rmw_value(op: u8, p: u8, v: u8) -> u8 {
    if op == 0x06 {
        asl_value(v)
    } else if op == 0x46 {
        lsr_value(v)
    } else if op == 0x26 {
        rol_value(p, v)
    } else if op == 0x66 {
        ror_value(p, v)
    } else if op == 0xc6 {
        dec_value(v)
    } else {
        inc_value(v)
    }
}

/// The flags register after the read-modify-write instruction with opcode `op` on the value
/// `v`, with the flags `p` before it.
pub open spec fn rmw_flags(op: u8, p: u8, v: u8) -> u8 {
    if op == 0x06 {
        shift_flags(p, asl_value(v), v >= 128)
    } else if op == 0x46 {
        shift_flags(p, lsr_value(v), v % 2 == 1)
    } else if op == 0x26 {
        shift_flags(p, rol_value(p, v), v >= 128)
    } else if op == 0x66 {
        shift_flags(p, ror_value(p, v), v % 2 == 1)
    } else {
        nz_flags(p, rmw_value(op, p, v))
    }
}

/// A read-modify-write instruction on the zero page (asl, lsr, rol, ror, dec, inc) takes four
/// cycles after its opcode whatever the interrupt lines do: it reads the address, reads the
/// value there, writes the value back unchanged, then writes the modified value to the same
/// address, sets the flags from it and moves past its two bytes. Over those cycles the cpu
/// ram changes in that one cell only, from the value read to the modified value.
pub proof fn law_rmw_zero_page(
    states: Seq<NesCpu>,
    rams: Seq<Seq<u8>>,
    nmi: Seq<bool>,
    irq: Seq<bool>,
    op: u8,
)
    requires
        states.len() == 5,
        rams.len() == 5,
        rams[0].len() == 2048,
        forall|i: int|
            #![trigger rams[i + 1]]
            0 <= i < 4 ==> ram_effect(
                rams[i],
                rams[i + 1],
                states[i + 1].spec_bus_used(),
                states[i + 1].spec_last_bus(),
            ),
        nmi.len() == 4,
        irq.len() == 4,
        op == 0x06 || op == 0x46 || op == 0x26 || op == 0x66 || op == 0xc6 || op == 0xe6,
        !states[0].spec_reset(),
        states[0].spec_opcode() == Some(op),
        states[0].spec_subcycle() == 1,
        forall|i: int|
            #![trigger nmi[i]]
            0 <= i < 4 ==> cycle_relation(states[i], nmi[i], irq[i], states[i + 1]),
    ensures
        ({
            let pc = states[0].spec_pc();
            let zp = states[1].spec_last_bus().data as u16;
            let v = states[2].spec_last_bus().data;
            let p = states[0].spec_p();
            &&& states[1].spec_last_bus().addr == pc_plus(pc, 1) && !states[1].spec_last_bus().write
            &&& states[2].spec_last_bus().addr == zp && !states[2].spec_last_bus().write
            &&& states[3].spec_last_bus() == BusAccess { addr: zp, data: v, write: true }
            &&& states[4].spec_last_bus() == BusAccess { addr: zp, data: rmw_value(op, p, v), write: true }
            &&& states[4].spec_p() == rmw_flags(op, p, v)
            &&& states[4].spec_pc() == pc_plus(pc, 2)
            &&& states[4].spec_opcode() is None
            &&& states[4].spec_subcycle() == 0
        }),
        states[4].spec_a() == states[0].spec_a(),
        states[4].spec_x() == states[0].spec_x(),
        states[4].spec_y() == states[0].spec_y(),
        states[4].spec_s() == states[0].spec_s(),
        ({
            let zp = states[1].spec_last_bus().data as int;
            let v = states[2].spec_last_bus().data;
            &&& v == rams[0][zp]
            &&& rams[4] == rams[0].update(zp, rmw_value(op, states[0].spec_p(), v))
        }),
{
    assert(cycle_relation(states[0], nmi[0], irq[0], states[1]));
    lemma_rmw_zero_page_cycle(states[0], nmi[0], irq[0], states[1], op);
    assert(cycle_relation(states[1], nmi[1], irq[1], states[2]));
    lemma_rmw_zero_page_cycle(states[1], nmi[1], irq[1], states[2], op);
    assert(cycle_relation(states[2], nmi[2], irq[2], states[3]));
    lemma_rmw_zero_page_cycle(states[2], nmi[2], irq[2], states[3], op);
    assert(cycle_relation(states[3], nmi[3], irq[3], states[4]));
    lemma_rmw_zero_page_cycle(states[3], nmi[3], irq[3], states[4], op);
    let zp = states[1].last_bus@.data;
    assert(ram_index(zp as u16) == zp as int) by (bit_vector);
    assert(ram_effect(rams[0], rams[1], states[1].bus_used@, states[1].last_bus@));
    assert(ram_effect(rams[1], rams[2], states[2].bus_used@, states[2].last_bus@));
    assert(ram_effect(rams[2], rams[3], states[3].bus_used@, states[3].last_bus@));
    assert(ram_effect(rams[3], rams[4], states[4].bus_used@, states[4].last_bus@));
    assert(rams[3] =~= rams[2]);
    assert(rams[4] =~= rams[0].update(zp as int, rmw_value(op, states[0].p, states[2].last_bus@.data)));
}

/// An indirect jump (jmp ($hhll)) takes four cycles after its opcode whatever the interrupt
/// lines do: it reads the two bytes of the pointer after the opcode, then the low byte of the
/// target at the pointer and the high byte at the next address in the same page (the pointer
/// does not carry into the next page, so jmp ($02ff) takes its high byte from 0x0200), and
/// jumps to the target with the registers unchanged.
pub proof fn law_jmp_indirect(states: Seq<NesCpu>, nmi: Seq<bool>, irq: Seq<bool>)
    requires
        states.len() == 5,
        nmi.len() == 4,
        irq.len() == 4,
        !states[0].spec_reset(),
        states[0].spec_opcode() == Some(0x6cu8),
        states[0].spec_subcycle() == 1,
        forall|i: int|
            #![trigger nmi[i]]
            0 <= i < 4 ==> cycle_relation(states[i], nmi[i], irq[i], states[i + 1]),
    ensures
        ({
            let pc = states[0].spec_pc();
            let lo = states[1].spec_last_bus().data;
            let hi = states[2].spec_last_bus().data;
            &&& states[1].spec_last_bus().addr == pc_plus(pc, 1) && !states[1].spec_last_bus().write
            &&& states[2].spec_last_bus().addr == pc_plus(pc, 2) && !states[2].spec_last_bus().write
            &&& states[3].spec_last_bus().addr == word(lo, hi) && !states[3].spec_last_bus().write
            &&& states[4].spec_last_bus().addr == word(((lo + 1) % 256) as u8, hi)
                && !states[4].spec_last_bus().write
            &&& states[4].spec_pc() == word(states[3].spec_last_bus().data, states[4].spec_last_bus().data)
            &&& states[4].spec_opcode() is None
            &&& states[4].spec_subcycle() == 0
        }),
        states[4].spec_a() == states[0].spec_a(),
        states[4].spec_x() == states[0].spec_x(),
        states[4].spec_y() == states[0].spec_y(),
        states[4].spec_s() == states[0].spec_s(),
        states[4].spec_p() == states[0].spec_p(),
{
    assert(cycle_relation(states[0], nmi[0], irq[0], states[1]));
    lemma_jmp_indirect_cycle(states[0], nmi[0], irq[0], states[1]);
    assert(cycle_relation(states[1], nmi[1], irq[1], states[2]));
    lemma_jmp_indirect_cycle(states[1], nmi[1], irq[1], states[2]);
    assert(cycle_relation(states[2], nmi[2], irq[2], states[3]));
    lemma_jmp_indirect_cycle(states[2], nmi[2], irq[2], states[3]);
    assert(cycle_relation(states[3], nmi[3], irq[3], states[4]));
    lemma_jmp_indirect_cycle(states[3], nmi[3], irq[3], states[4]);
}

/// One cycle of an indirect jump.
proof fn lemma_jmp_indirect_cycle(s: NesCpu, nmi: bool, irq: bool, t: NesCpu)
    requires
        !s.reset,
        s.opcode == Some(0x6cu8),
        1 <= s.subcycle <= 4,
        cycle_relation(s, nmi, irq, t),
    ensures
        t.a == s.a && t.x == s.x && t.y == s.y && t.s == s.s && t.p == s.p,
        s.subcycle == 1 ==> {
            &&& t.subcycle == 2 && t.opcode == s.opcode && !t.reset && t.pc == s.pc
            &&& read_at(t, pc_plus(s.pc, 1)) && t.temp == data(t)
        },
        s.subcycle == 2 ==> {
            &&& t.subcycle == 3 && t.opcode == s.opcode && !t.reset && t.pc == s.pc
            &&& read_at(t, pc_plus(s.pc, 2)) && t.temp == s.temp && t.temp2 == data(t)
            &&& t.tempaddr == word(s.temp, data(t))
        },
        s.subcycle == 3 ==> {
            &&& t.subcycle == 4 && t.opcode == s.opcode && !t.reset && t.pc == s.pc
            &&& read_at(t, s.tempaddr) && t.temp == data(t)
            &&& t.tempaddr == word(((s.temp + 1) % 256) as u8, s.temp2)
        },
        s.subcycle == 4 ==> {
            &&& finished(t) && read_at(t, s.tempaddr)
            &&& t.pc == word(s.temp, data(t))
        },
{
    let u = choose|u: NesCpu| #[trigger] prelude(s, nmi, irq, u) && cycle_from(u, t);
    assert(prelude(s, nmi, irq, u) && cycle_from(u, t));
    assert(instruction_cycle(0x6cu8, u, t));
    assert(ops_control::step_6c(u, t));
}

/// One cycle of a zero page read-modify-write instruction.
proof fn lemma_rmw_zero_page_cycle(s: NesCpu, nmi: bool, irq: bool, t: NesCpu, op: u8)
    requires
        op == 0x06 || op == 0x46 || op == 0x26 || op == 0x66 || op == 0xc6 || op == 0xe6,
        !s.reset,
        s.opcode == Some(op),
        1 <= s.subcycle <= 4,
        cycle_relation(s, nmi, irq, t),
    ensures
        t.a == s.a && t.x == s.x && t.y == s.y && t.s == s.s,
        s.subcycle == 1 ==> {
            &&& t.subcycle == 2 && t.opcode == s.opcode && !t.reset && t.pc == s.pc && t.p == s.p
            &&& read_at(t, pc_plus(s.pc, 1)) && t.temp == data(t)
        },
        s.subcycle == 2 ==> {
            &&& t.subcycle == 3 && t.opcode == s.opcode && !t.reset && t.pc == s.pc && t.p == s.p
            &&& t.temp == s.temp && t.temp2 == data(t) && read_at(t, t.temp as u16)
        },
        s.subcycle == 3 ==> {
            &&& t.subcycle == 4 && t.opcode == s.opcode && !t.reset && t.pc == s.pc && t.p == s.p
            &&& t.temp == s.temp && t.temp2 == s.temp2 && write_at(t, s.temp as u16, s.temp2)
        },
        s.subcycle == 4 ==> {
            &&& finished(t) && t.pc == pc_plus(s.pc, 2)
            &&& write_at(t, s.temp as u16, rmw_value(op, s.p, s.temp2))
            &&& t.p == rmw_flags(op, s.p, s.temp2)
        },
{
    let u = choose|u: NesCpu| #[trigger] prelude(s, nmi, irq, u) && cycle_from(u, t);
    assert(prelude(s, nmi, irq, u) && cycle_from(u, t));
    assert(instruction_cycle(op, u, t));
    if op == 0x06 {
        assert(ops_rmw::step_06(u, t));
    } else if op == 0x46 {
        assert(ops_rmw::step_46(u, t));
    } else if op == 0x26 {
        assert(ops_rmw::step_26(u, t));
    } else if op == 0x66 {
        assert(ops_rmw::step_66(u, t));
    } else if op == 0xc6 {
        assert(ops_rmw::step_c6(u, t));
    } else {
        assert(ops_rmw::step_e6(u, t));
    }
}


/// Pushing the accumulator and pulling it again undoes the push: a pha followed, after the
/// fetch of the next opcode, by a pla leaves the accumulator and the stack pointer as they
/// were and the zero and negative flags describing the accumulator. The pushed byte stays in
/// its stack cell of the cpu ram, which is the only cell that changes.
#[verifier::rlimit(100)]
pub proof fn law_push_pull(states: Seq<NesCpu>, rams: Seq<Seq<u8>>, nmi: Seq<bool>, irq: Seq<bool>)
    requires
        states.len() == 7,
        rams.len() == 7,
        rams[0].len() == 2048,
        nmi.len() == 6,
        irq.len() == 6,
        !states[0].spec_reset(),
        states[0].spec_opcode() == Some(0x48u8),
        states[0].spec_subcycle() == 1,
        states[3].spec_opcode() == Some(0x68u8),
        states[3].spec_subcycle() == 1,
        forall|i: int|
            #![trigger nmi[i]]
            0 <= i < 6 ==> cycle_relation(states[i], nmi[i], irq[i], states[i + 1]),
        forall|i: int|
            #![trigger rams[i + 1]]
            0 <= i < 6 ==> ram_effect(
                rams[i],
                rams[i + 1],
                states[i + 1].spec_bus_used(),
                states[i + 1].spec_last_bus(),
            ),
    ensures
        states[6].spec_a() == states[0].spec_a(),
        states[6].spec_s() == states[0].spec_s(),
        states[6].spec_p() == nz_flags(states[0].spec_p(), states[0].spec_a()),
        states[6].spec_opcode() is None,
        rams[6] == rams[0].update(0x100 + states[0].spec_s(), states[0].spec_a()),
{
    let sp = states[0].s;
    let a = states[0].a;
    let p = states[0].p;
    assert(ram_index(stack_addr(sp)) == 0x100 + sp) by (bit_vector);
    assert(cycle_relation(states[0], nmi[0], irq[0], states[1]));
    lemma_push_cycle(states[0], nmi[0], irq[0], states[1]);
    assert(cycle_relation(states[1], nmi[1], irq[1], states[2]));
    lemma_push_cycle(states[1], nmi[1], irq[1], states[2]);
    assert(cycle_relation(states[2], nmi[2], irq[2], states[3]));
    lemma_fetch_cycle(states[2], nmi[2], irq[2], states[3]);
    assert(cycle_relation(states[3], nmi[3], irq[3], states[4]));
    lemma_pull_cycle(states[3], nmi[3], irq[3], states[4]);
    assert(cycle_relation(states[4], nmi[4], irq[4], states[5]));
    lemma_pull_cycle(states[4], nmi[4], irq[4], states[5]);
    assert(cycle_relation(states[5], nmi[5], irq[5], states[6]));
    lemma_pull_cycle(states[5], nmi[5], irq[5], states[6]);
    assert(ram_effect(rams[0], rams[1], states[1].bus_used@, states[1].last_bus@));
    assert(ram_effect(rams[1], rams[2], states[2].bus_used@, states[2].last_bus@));
    assert(ram_effect(rams[2], rams[3], states[3].bus_used@, states[3].last_bus@));
    assert(ram_effect(rams[3], rams[4], states[4].bus_used@, states[4].last_bus@));
    assert(ram_effect(rams[4], rams[5], states[5].bus_used@, states[5].last_bus@));
    assert(ram_effect(rams[5], rams[6], states[6].bus_used@, states[6].last_bus@));
    assert(s_inc(s_dec(sp)) == sp);
    assert(rams[2] == rams[0].update(0x100 + sp, a));
    assert(rams[5] == rams[2]);
}

/// One cycle of pha.
proof fn lemma_push_cycle(s: NesCpu, nmi: bool, irq: bool, t: NesCpu)
    requires
        !s.reset,
        s.opcode == Some(0x48u8),
        1 <= s.subcycle,
        cycle_relation(s, nmi, irq, t),
    ensures
        t.a == s.a && t.p == s.p && !t.reset,
        s.subcycle == 1 ==> t.subcycle == 2 && t.opcode == s.opcode && t.s == s.s && read_at(t, pc_plus(s.pc, 1)),
        s.subcycle != 1 ==> finished(t) && t.s == s_dec(s.s) && write_at(t, stack_addr(s.s), s.a),
{
    let u = choose|u: NesCpu| #[trigger] prelude(s, nmi, irq, u) && cycle_from(u, t);
    assert(prelude(s, nmi, irq, u) && cycle_from(u, t));
    assert(ops_control::step_48(u, t));
}

/// The cycle that fetches an opcode.
proof fn lemma_fetch_cycle(s: NesCpu, nmi: bool, irq: bool, t: NesCpu)
    requires
        finished(s),
        !s.reset,
        t.opcode is Some,
        t.subcycle == 1,
        cycle_relation(s, nmi, irq, t),
    ensures
        t.a == s.a && t.p == s.p && t.s == s.s && !t.reset,
        t.x == s.x && t.y == s.y,
        read_at(t, s.pc),
{
    let u = choose|u: NesCpu| #[trigger] prelude(s, nmi, irq, u) && cycle_from(u, t);
    assert(prelude(s, nmi, irq, u) && cycle_from(u, t));
    assert(fetch_cycle(u, t));
}

/// One cycle of pla.
proof fn lemma_pull_cycle(s: NesCpu, nmi: bool, irq: bool, t: NesCpu)
    requires
        !s.reset,
        s.opcode == Some(0x68u8),
        1 <= s.subcycle,
        cycle_relation(s, nmi, irq, t),
    ensures
        !t.reset,
        s.subcycle == 1 ==> t.subcycle == 2 && t.opcode == s.opcode && arch_same(s, t),
        s.subcycle == 2 ==> t.subcycle == 3 && t.opcode == s.opcode && arch_same(s, t) && read_at(t, stack_addr(s.s)),
        s.subcycle >= 3 ==> {
            &&& finished(t)
            &&& t.s == s_inc(s.s)
            &&& read_at(t, stack_addr(s_inc(s.s)))
            &&& t.a == data(t)
            &&& t.p == nz_flags(s.p, data(t))
        },
{
    let u = choose|u: NesCpu| #[trigger] prelude(s, nmi, irq, u) && cycle_from(u, t);
    assert(prelude(s, nmi, irq, u) && cycle_from(u, t));
    assert(ops_control::step_68(u, t));
}


/// A subroutine call and its return undo each other: a jsr whose subroutine is a single rts
/// comes back, after the rts, to the instruction that follows the jsr, with the stack pointer
/// as it was. The jsr pushes the address of its last byte, high byte first, and those two
/// stack cells of the cpu ram are the only ones that change.
#[verifier::rlimit(100)]
#[verifier::spinoff_prover]
pub proof fn law_call_return(states: Seq<NesCpu>, rams: Seq<Seq<u8>>, nmi: Seq<bool>, irq: Seq<bool>)
    requires
        states.len() == 12,
        rams.len() == 12,
        rams[0].len() == 2048,
        nmi.len() == 11,
        irq.len() == 11,
        !states[0].spec_reset(),
        states[0].spec_opcode() == Some(0x20u8),
        states[0].spec_subcycle() == 1,
        states[6].spec_opcode() == Some(0x60u8),
        states[6].spec_subcycle() == 1,
        forall|i: int|
            #![trigger nmi[i]]
            0 <= i < 11 ==> cycle_relation(states[i], nmi[i], irq[i], states[i + 1]),
        forall|i: int|
            #![trigger rams[i + 1]]
            0 <= i < 11 ==> ram_effect(
                rams[i],
                rams[i + 1],
                states[i + 1].spec_bus_used(),
                states[i + 1].spec_last_bus(),
            ),
    ensures
        ({
            let pc = states[0].spec_pc();
            let sp = states[0].spec_s();
            let ret = pc_plus(pc, 2);
            &&& states[11].spec_pc() == pc_plus(pc, 3)
            &&& states[11].spec_s() == sp
            &&& states[11].spec_opcode() is None
            &&& states[11].spec_subcycle() == 0
            &&& states[11].spec_a() == states[0].spec_a()
            &&& states[11].spec_x() == states[0].spec_x()
            &&& states[11].spec_y() == states[0].spec_y()
            &&& states[11].spec_p() == states[0].spec_p()
            &&& rams[11] == rams[0].update(0x100 + sp, hi_byte(ret)).update(
                0x100 + s_dec(sp),
                lo_byte(ret),
            )
        }),
{
    let pc = states[0].pc;
    let sp = states[0].s;
    let ret = pc_plus(pc, 2);
    assert(ram_index(stack_addr(sp)) == 0x100 + sp) by (bit_vector);
    assert(ram_index(stack_addr(s_dec(sp))) == 0x100 + s_dec(sp)) by (bit_vector);
    assert(s_inc(s_dec(sp)) == sp);
    assert(s_inc(s_dec(s_dec(sp))) == s_dec(sp));
    assert(0x100 + sp != 0x100 + s_dec(sp));
    assert(cycle_relation(states[0], nmi[0], irq[0], states[1]));
    lemma_call_cycle(states[0], nmi[0], irq[0], states[1]);
    assert(cycle_relation(states[1], nmi[1], irq[1], states[2]));
    lemma_call_cycle(states[1], nmi[1], irq[1], states[2]);
    assert(cycle_relation(states[2], nmi[2], irq[2], states[3]));
    lemma_call_cycle(states[2], nmi[2], irq[2], states[3]);
    assert(cycle_relation(states[3], nmi[3], irq[3], states[4]));
    lemma_call_cycle(states[3], nmi[3], irq[3], states[4]);
    assert(cycle_relation(states[4], nmi[4], irq[4], states[5]));
    lemma_call_cycle(states[4], nmi[4], irq[4], states[5]);
    assert(cycle_relation(states[5], nmi[5], irq[5], states[6]));
    lemma_fetch_cycle(states[5], nmi[5], irq[5], states[6]);
    assert(cycle_relation(states[6], nmi[6], irq[6], states[7]));
    lemma_return_cycle(states[6], nmi[6], irq[6], states[7]);
    assert(cycle_relation(states[7], nmi[7], irq[7], states[8]));
    lemma_return_cycle(states[7], nmi[7], irq[7], states[8]);
    assert(cycle_relation(states[8], nmi[8], irq[8], states[9]));
    lemma_return_cycle(states[8], nmi[8], irq[8], states[9]);
    assert(cycle_relation(states[9], nmi[9], irq[9], states[10]));
    lemma_return_cycle(states[9], nmi[9], irq[9], states[10]);
    assert(cycle_relation(states[10], nmi[10], irq[10], states[11]));
    lemma_return_cycle(states[10], nmi[10], irq[10], states[11]);
    assert(ram_effect(rams[0], rams[1], states[1].bus_used@, states[1].last_bus@));
    assert(ram_effect(rams[1], rams[2], states[2].bus_used@, states[2].last_bus@));
    assert(ram_effect(rams[2], rams[3], states[3].bus_used@, states[3].last_bus@));
    assert(ram_effect(rams[3], rams[4], states[4].bus_used@, states[4].last_bus@));
    assert(ram_effect(rams[4], rams[5], states[5].bus_used@, states[5].last_bus@));
    assert(ram_effect(rams[5], rams[6], states[6].bus_used@, states[6].last_bus@));
    assert(ram_effect(rams[6], rams[7], states[7].bus_used@, states[7].last_bus@));
    assert(ram_effect(rams[7], rams[8], states[8].bus_used@, states[8].last_bus@));
    assert(ram_effect(rams[8], rams[9], states[9].bus_used@, states[9].last_bus@));
    assert(ram_effect(rams[9], rams[10], states[10].bus_used@, states[10].last_bus@));
    assert(ram_effect(rams[10], rams[11], states[11].bus_used@, states[11].last_bus@));
    let r = rams[0].update(0x100 + sp, hi_byte(ret)).update(0x100 + s_dec(sp), lo_byte(ret));
    assert(rams[5] == r);
    assert(rams[11] == r);
    assert(states[9].temp == lo_byte(ret));
    assert(states[10].pc == word(lo_byte(ret), hi_byte(ret)));
    assert(word(lo_byte(ret), hi_byte(ret)) == ret);
}

/// One cycle of jsr.
proof fn lemma_call_cycle(s: NesCpu, nmi: bool, irq: bool, t: NesCpu)
    requires
        !s.reset,
        s.opcode == Some(0x20u8),
        1 <= s.subcycle,
        cycle_relation(s, nmi, irq, t),
    ensures
        !t.reset,
        t.a == s.a && t.x == s.x && t.y == s.y && t.p == s.p,
        1 <= s.subcycle <= 4 ==> t.opcode == s.opcode && t.subcycle == s.subcycle + 1 && t.pc == s.pc,
        s.subcycle == 1 || s.subcycle == 2 ==> t.s == s.s,
        s.subcycle == 2 ==> t.temp == s.temp && read_at(t, stack_addr(s.s)),
        s.subcycle == 3 ==> t.temp == s.temp && t.s == s_dec(s.s) && write_at(t, stack_addr(s.s), hi_byte(pc_plus(s.pc, 2))),
        s.subcycle == 4 ==> t.temp == s.temp && t.s == s_dec(s.s) && write_at(t, stack_addr(s.s), lo_byte(pc_plus(s.pc, 2))),
        s.subcycle >= 5 ==> finished(t) && t.s == s.s && read_at(t, pc_plus(s.pc, 2)),
{
    let u = choose|u: NesCpu| #[trigger] prelude(s, nmi, irq, u) && cycle_from(u, t);
    assert(prelude(s, nmi, irq, u) && cycle_from(u, t));
    assert(ops_control::step_20(u, t));
}

/// One cycle of rts.
proof fn lemma_return_cycle(s: NesCpu, nmi: bool, irq: bool, t: NesCpu)
    requires
        !s.reset,
        s.opcode == Some(0x60u8),
        1 <= s.subcycle,
        cycle_relation(s, nmi, irq, t),
    ensures
        !t.reset,
        t.a == s.a && t.x == s.x && t.y == s.y && t.p == s.p,
        1 <= s.subcycle <= 4 ==> t.opcode == s.opcode && t.subcycle == s.subcycle + 1,
        1 <= s.subcycle <= 3 ==> t.pc == s.pc,
        s.subcycle == 1 || s.subcycle == 2 ==> t.s == s.s && !t.last_bus@.write,
        s.subcycle == 3 ==> t.s == s_inc(s.s) && read_at(t, stack_addr(s_inc(s.s))) && t.temp == data(t),
        s.subcycle == 4 ==> t.s == s_inc(s.s) && read_at(t, stack_addr(s_inc(s.s))) && t.pc == word(s.temp, data(t)),
        s.subcycle >= 5 ==> finished(t) && t.s == s.s && t.pc == pc_plus(s.pc, 1) && read_at(t, s.pc),
{
    let u = choose|u: NesCpu| #[trigger] prelude(s, nmi, irq, u) && cycle_from(u, t);
    assert(prelude(s, nmi, irq, u) && cycle_from(u, t));
    assert(ops_control::step_60(u, t));
}

/// A brk instruction takes six cycles after its opcode whatever the interrupt lines do: it
/// reads the byte after the opcode, pushes the address two bytes past the opcode (high byte
/// first) and the flags with b1 set, reads the irq vector at 0xfffe and 0xffff, disables
/// interrupts and jumps to the vector, with a, x and y unchanged.
pub proof fn law_brk(states: Seq<NesCpu>, nmi: Seq<bool>, irq: Seq<bool>)
    requires
        states.len() == 7,
        nmi.len() == 6,
        irq.len() == 6,
        !states[0].spec_reset(),
        states[0].spec_opcode() == Some(0x00u8),
        states[0].spec_subcycle() == 1,
        forall|i: int|
            #![trigger nmi[i]]
            0 <= i < 6 ==> cycle_relation(states[i], nmi[i], irq[i], states[i + 1]),
    ensures
        ({
            let pc = states[0].spec_pc();
            let sp = states[0].spec_s();
            let p = states[0].spec_p();
            let ret = pc_plus(pc, 2);
            &&& states[1].spec_last_bus().addr == pc_plus(pc, 1) && !states[1].spec_last_bus().write
            &&& states[2].spec_last_bus() == BusAccess { addr: stack_addr(sp), data: hi_byte(ret), write: true }
            &&& states[3].spec_last_bus() == BusAccess { addr: stack_addr(s_dec(sp)), data: lo_byte(ret), write: true }
            &&& states[4].spec_last_bus() == BusAccess {
                addr: stack_addr(s_dec(s_dec(sp))),
                data: p | CPU_FLAG_B1,
                write: true,
            }
            &&& states[5].spec_last_bus().addr == 0xfffe && !states[5].spec_last_bus().write
            &&& states[6].spec_last_bus().addr == 0xffff && !states[6].spec_last_bus().write
            &&& states[6].spec_pc() == word(states[5].spec_last_bus().data, states[6].spec_last_bus().data)
            &&& states[6].spec_s() == s_dec(s_dec(s_dec(sp)))
            &&& states[6].spec_p() == p | CPU_FLAG_INT_DISABLE
            &&& states[6].spec_opcode() is None
            &&& states[6].spec_subcycle() == 0
            &&& forall|i: int| 1 <= i <= 5 ==> #[trigger] states[i].spec_subcycle() != 0
        }),
        states[6].spec_a() == states[0].spec_a(),
        states[6].spec_x() == states[0].spec_x(),
        states[6].spec_y() == states[0].spec_y(),
{
    assert(cycle_relation(states[0], nmi[0], irq[0], states[1]));
    lemma_brk_cycle(states[0], nmi[0], irq[0], states[1]);
    assert(cycle_relation(states[1], nmi[1], irq[1], states[2]));
    lemma_brk_cycle(states[1], nmi[1], irq[1], states[2]);
    assert(cycle_relation(states[2], nmi[2], irq[2], states[3]));
    lemma_brk_cycle(states[2], nmi[2], irq[2], states[3]);
    assert(cycle_relation(states[3], nmi[3], irq[3], states[4]));
    lemma_brk_cycle(states[3], nmi[3], irq[3], states[4]);
    assert(cycle_relation(states[4], nmi[4], irq[4], states[5]));
    lemma_brk_cycle(states[4], nmi[4], irq[4], states[5]);
    assert(cycle_relation(states[5], nmi[5], irq[5], states[6]));
    lemma_brk_cycle(states[5], nmi[5], irq[5], states[6]);
}

/// One cycle of brk.
proof fn lemma_brk_cycle(s: NesCpu, nmi: bool, irq: bool, t: NesCpu)
    requires
        !s.reset,
        s.opcode == Some(0x00u8),
        1 <= s.subcycle <= 6,
        cycle_relation(s, nmi, irq, t),
    ensures
        t.a == s.a && t.x == s.x && t.y == s.y,
        s.subcycle <= 5 ==> t.subcycle == s.subcycle + 1 && t.opcode == s.opcode && !t.reset && t.pc == s.pc,
        s.subcycle != 5 ==> t.p == s.p,
        s.subcycle == 1 ==> read_at(t, pc_plus(s.pc, 1)) && t.s == s.s,
        s.subcycle == 2 ==> write_at(t, stack_addr(s.s), hi_byte(pc_plus(s.pc, 2))) && t.s == s_dec(s.s),
        s.subcycle == 3 ==> write_at(t, stack_addr(s.s), lo_byte(pc_plus(s.pc, 2))) && t.s == s_dec(s.s),
        s.subcycle == 4 ==> write_at(t, stack_addr(s.s), s.p | CPU_FLAG_B1) && t.s == s_dec(s.s),
        s.subcycle == 5 ==> read_at(t, 0xfffe) && t.temp == data(t) && t.p == s.p | CPU_FLAG_INT_DISABLE
            && t.s == s.s,
        s.subcycle == 6 ==> finished(t) && read_at(t, 0xffff) && t.pc == word(s.temp, data(t))
            && t.s == s.s,
{
    let u = choose|u: NesCpu| #[trigger] prelude(s, nmi, irq, u) && cycle_from(u, t);
    assert(prelude(s, nmi, irq, u) && cycle_from(u, t));
    assert(instruction_cycle(0x00u8, u, t));
    assert(ops_control::step_00(u, t));
}

/// A bne instruction takes one cycle after its opcode when the zero flag is set, and then
/// continues after its two bytes; otherwise it takes two cycles when the target is in the
/// page of the next instruction and three when it is in another page, and continues at the
/// target (the address after the instruction plus the sign-extended offset). No register
/// changes but the program counter.
pub proof fn law_branch_timing(states: Seq<NesCpu>, nmi: Seq<bool>, irq: Seq<bool>)
    requires
        states.len() == 4,
        nmi.len() == 3,
        irq.len() == 3,
        !states[0].spec_reset(),
        states[0].spec_opcode() == Some(0xd0u8),
        states[0].spec_subcycle() == 1,
        forall|i: int|
            #![trigger nmi[i]]
            0 <= i < 3 ==> cycle_relation(states[i], nmi[i], irq[i], states[i + 1]),
    ensures
        ({
            let pc = states[0].spec_pc();
            let next = pc_plus(pc, 2);
            let target = branch_target(pc, states[1].spec_last_bus().data);
            let z = states[0].spec_p() & CPU_FLAG_ZERO != 0;
            &&& states[1].spec_last_bus().addr == pc_plus(pc, 1) && !states[1].spec_last_bus().write
            &&& z ==> states[1].spec_subcycle() == 0 && states[1].spec_opcode() is None
                && states[1].spec_pc() == next
            &&& !z && hi_byte(next) == hi_byte(target) ==> {
                &&& states[1].spec_subcycle() != 0
                &&& states[2].spec_subcycle() == 0 && states[2].spec_opcode() is None
                &&& states[2].spec_pc() == target
            }
            &&& !z && hi_byte(next) != hi_byte(target) ==> {
                &&& states[1].spec_subcycle() != 0 && states[2].spec_subcycle() != 0
                &&& states[3].spec_subcycle() == 0 && states[3].spec_opcode() is None
                &&& states[3].spec_pc() == target
            }
        }),
        states[1].spec_a() == states[0].spec_a() && states[1].spec_x() == states[0].spec_x()
            && states[1].spec_y() == states[0].spec_y() && states[1].spec_s() == states[0].spec_s()
            && states[1].spec_p() == states[0].spec_p(),
        states[1].spec_subcycle() != 0 ==> states[2].spec_a() == states[0].spec_a()
            && states[2].spec_x() == states[0].spec_x() && states[2].spec_y() == states[0].spec_y()
            && states[2].spec_s() == states[0].spec_s() && states[2].spec_p() == states[0].spec_p(),
        states[1].spec_subcycle() != 0 && states[2].spec_subcycle() != 0 ==> states[3].spec_a()
            == states[0].spec_a() && states[3].spec_x() == states[0].spec_x() && states[3].spec_y()
            == states[0].spec_y() && states[3].spec_s() == states[0].spec_s() && states[3].spec_p()
            == states[0].spec_p(),
{
    assert(cycle_relation(states[0], nmi[0], irq[0], states[1]));
    lemma_bne_cycle(states[0], nmi[0], irq[0], states[1]);
    if states[1].subcycle != 0 {
        assert(cycle_relation(states[1], nmi[1], irq[1], states[2]));
        lemma_bne_cycle(states[1], nmi[1], irq[1], states[2]);
        if states[2].subcycle != 0 {
            assert(cycle_relation(states[2], nmi[2], irq[2], states[3]));
            lemma_bne_cycle(states[2], nmi[2], irq[2], states[3]);
        }
    }
}

/// One cycle of bne.
proof fn lemma_bne_cycle(s: NesCpu, nmi: bool, irq: bool, t: NesCpu)
    requires
        !s.reset,
        s.opcode == Some(0xd0u8),
        1 <= s.subcycle,
        cycle_relation(s, nmi, irq, t),
    ensures
        t.a == s.a && t.x == s.x && t.y == s.y && t.s == s.s && t.p == s.p,
        !finished(t) ==> t.opcode == s.opcode && !t.reset,
        s.subcycle == 1 ==> read_at(t, pc_plus(s.pc, 1)) && t.pc == pc_plus(s.pc, 2),
        s.subcycle == 1 && s.p & CPU_FLAG_ZERO != 0 ==> finished(t),
        s.subcycle == 1 && s.p & CPU_FLAG_ZERO == 0 ==> t.subcycle == 2
            && t.tempaddr == branch_target(s.pc, data(t)),
        s.subcycle == 2 ==> t.pc == s.tempaddr,
        s.subcycle == 2 && hi_byte(s.pc) == hi_byte(s.tempaddr) ==> finished(t),
        s.subcycle == 2 && hi_byte(s.pc) != hi_byte(s.tempaddr) ==> t.subcycle == 3,
        s.subcycle >= 3 ==> finished(t) && t.pc == s.pc,
{
    let u = choose|u: NesCpu| #[trigger] prelude(s, nmi, irq, u) && cycle_from(u, t);
    assert(prelude(s, nmi, irq, u) && cycle_from(u, t));
    assert(instruction_cycle(0xd0u8, u, t));
    assert(ops_control::step_d0(u, t));
}

/// The opcodes that the cpu does not implement.
pub open spec fn jam_opcode(o: u8) -> bool {
    o == 0x02 || o == 0x12 || o == 0x22 || o == 0x32 || o == 0x42 || o == 0x52 || o == 0x62 || o
        == 0x72 || o == 0x8b || o == 0x92 || o == 0x93 || o == 0x9b || o == 0x9f || o == 0xb2 || o
        == 0xbb || o == 0xd2 || o == 0xf2
}

/// An opcode that the cpu does not implement jams it: once the cycle after the opcode fetch
/// has run, every cycle, whatever the interrupt lines, leaves the registers and the program
/// counter as they were, uses no bus, and stays inside the instruction, until a reset.
pub proof fn law_jam(s: NesCpu, nmi: bool, irq: bool, t: NesCpu)
    requires
        !s.spec_reset(),
        s.spec_opcode() matches Some(o) && jam_opcode(o),
        s.spec_subcycle() != 1,
        cycle_relation(s, nmi, irq, t),
    ensures
        t.spec_opcode() == s.spec_opcode(),
        t.spec_subcycle() == s.spec_subcycle(),
        !t.spec_reset(),
        !t.spec_bus_used(),
        t.spec_pc() == s.spec_pc(),
        t.spec_a() == s.spec_a(),
        t.spec_x() == s.spec_x(),
        t.spec_y() == s.spec_y(),
        t.spec_s() == s.spec_s(),
        t.spec_p() == s.spec_p(),
{
    let u = choose|u: NesCpu| #[trigger] prelude(s, nmi, irq, u) && cycle_from(u, t);
    assert(prelude(s, nmi, irq, u) && cycle_from(u, t));
    let o = s.opcode.unwrap();
    assert(instruction_cycle(o, u, t));
    if o == 0x02 { assert(ops_control::step_jam(u, t)); }
    else if o == 0x12 { assert(ops_control::step_jam(u, t)); }
    else if o == 0x22 { assert(ops_control::step_jam(u, t)); }
    else if o == 0x32 { assert(ops_control::step_jam(u, t)); }
    else if o == 0x42 { assert(ops_control::step_jam(u, t)); }
    else if o == 0x52 { assert(ops_control::step_jam(u, t)); }
    else if o == 0x62 { assert(ops_control::step_jam(u, t)); }
    else if o == 0x72 { assert(ops_control::step_jam(u, t)); }
    else if o == 0x8b { assert(ops_control::step_jam(u, t)); }
    else if o == 0x92 { assert(ops_control::step_jam(u, t)); }
    else if o == 0x93 { assert(ops_control::step_jam(u, t)); }
    else if o == 0x9b { assert(ops_control::step_jam(u, t)); }
    else if o == 0x9f { assert(ops_control::step_jam(u, t)); }
    else if o == 0xb2 { assert(ops_control::step_jam(u, t)); }
    else if o == 0xbb { assert(ops_control::step_jam(u, t)); }
    else if o == 0xd2 { assert(ops_control::step_jam(u, t)); }
    else { assert(ops_control::step_jam(u, t)); }
}

/// A rising edge of the nmi line makes an nmi pending: a cycle that sees the line high after
/// one that saw it low leaves an nmi pending, unless it is the cycle in which a running
/// interrupt sequence takes the pending nmi.
pub proof fn law_nmi_edge(s: NesCpu, t: NesCpu)
    requires
        !s.spec_nmi_line(),
        !(!s.spec_reset() && s.spec_opcode() is None && s.spec_subcycle() == 3 && t.spec_subcycle() == 4),
        nmi_sampling(s, true, t),
    ensures
        t.spec_nmi_pending(),
        t.spec_nmi_line(),
{
}

/// An nmi line held high makes no second nmi: from a state that saw the line high with no nmi
/// pending, any number `i` of cycles that keep seeing it high leave no nmi pending.
pub proof fn law_nmi_held(states: Seq<NesCpu>, i: int)
    requires
        0 <= i < states.len(),
        states[0].spec_nmi_line(),
        !states[0].spec_nmi_pending(),
        forall|k: int| 0 <= k < states.len() - 1 ==> #[trigger] nmi_sampling(states[k], true, states[k + 1]),
    ensures
        !states[i].spec_nmi_pending(),
        states[i].spec_nmi_line(),
    decreases i,
{
    if i > 0 {
        law_nmi_held(states, i - 1);
        assert(nmi_sampling(states[i - 1], true, states[(i - 1) + 1]));
    }
}

/// A masked irq starts no interrupt: at an instruction boundary with no dma transfer, no
/// interrupt sequence running and no nmi sampled, when the interrupt disable flag was set as
/// the cpu polled it, the next cycle fetches the opcode at the program counter, whatever the
/// irq line did.
pub proof fn law_irq_masked(s: NesCpu, nmi: bool, irq: bool, t: NesCpu)
    requires
        !s.spec_reset(),
        s.spec_opcode() is None,
        !s.spec_interrupting(),
        !s.spec_irq_enabled(),
        !s.spec_nmi_sampled(),
        s.spec_dma_idle(),
        cycle_relation(s, nmi, irq, t),
    ensures
        t.spec_last_bus().addr == s.spec_pc(),
        !t.spec_last_bus().write,
        t.spec_bus_used(),
        t.spec_opcode() == Some(t.spec_last_bus().data),
        t.spec_subcycle() == 1,
        !t.spec_interrupting(),
        t.spec_pc() == s.spec_pc(),
{
    let u = choose|u: NesCpu| #[trigger] prelude(s, nmi, irq, u) && cycle_from(u, t);
    assert(prelude(s, nmi, irq, u) && cycle_from(u, t));
    assert(!interrupt_pending(u));
    assert(fetch_cycle(u, t));
}

/// Adc absolute,x (opcode 0x7d) reads the two bytes after its opcode as an address, adds x to
/// it (wrapping at 16 bits) and reads its operand there, one cycle later when adding x to the
/// low byte carries into the high byte; then a is a plus the operand plus the carry, modulo 256,
/// the program counter is three past the opcode, and x, y and s are unchanged.
pub proof fn law_adc_absolute_x(states: Seq<NesCpu>, nmi: Seq<bool>, irq: Seq<bool>)
    requires
        states.len() == 5,
        nmi.len() == 4,
        irq.len() == 4,
        !states[0].spec_reset(),
        states[0].spec_opcode() == Some(0x7du8),
        states[0].spec_subcycle() == 1,
        forall|i: int|
            #![trigger nmi[i]]
            0 <= i < 4 ==> cycle_relation(states[i], nmi[i], irq[i], states[i + 1]),
    ensures
        ({
            let pc = states[0].spec_pc();
            let x = states[0].spec_x();
            let lo = states[1].spec_last_bus().data;
            let hi = states[2].spec_last_bus().data;
            let addr = ((hi as int * 256 + lo as int + x as int) % 65536) as u16;
            let n: int = if lo as int + x as int >= 256 { 4 } else { 3 };
            let v = states[n].spec_last_bus().data;
            let c: int = if states[0].spec_p() & 1 != 0 { 1 } else { 0 };
            &&& states[1].spec_last_bus().addr == pc_plus(pc, 1) && !states[1].spec_last_bus().write
            &&& states[2].spec_last_bus().addr == pc_plus(pc, 2) && !states[2].spec_last_bus().write
            &&& states[1].spec_subcycle() != 0 && states[2].spec_subcycle() != 0
            &&& n == 4 ==> states[3].spec_subcycle() != 0
            &&& states[n].spec_last_bus().addr == addr && !states[n].spec_last_bus().write
            &&& states[n].spec_a() == ((states[0].spec_a() as int + v as int + c) % 256) as u8
            &&& states[n].spec_pc() == pc_plus(pc, 3)
            &&& states[n].spec_subcycle() == 0 && states[n].spec_opcode() is None
            &&& states[n].spec_x() == x
            &&& states[n].spec_y() == states[0].spec_y()
            &&& states[n].spec_s() == states[0].spec_s()
        }),
{
    assert(cycle_relation(states[0], nmi[0], irq[0], states[1]));
    lemma_adc_absolute_x_cycle(states[0], nmi[0], irq[0], states[1]);
    assert(cycle_relation(states[1], nmi[1], irq[1], states[2]));
    lemma_adc_absolute_x_cycle(states[1], nmi[1], irq[1], states[2]);
    assert(cycle_relation(states[2], nmi[2], irq[2], states[3]));
    lemma_adc_absolute_x_cycle(states[2], nmi[2], irq[2], states[3]);
    if states[3].subcycle != 0 {
        assert(cycle_relation(states[3], nmi[3], irq[3], states[4]));
        lemma_adc_absolute_x_cycle(states[3], nmi[3], irq[3], states[4]);
    }
}

/// One cycle of adc absolute,x.
proof fn lemma_adc_absolute_x_cycle(s: NesCpu, nmi: bool, irq: bool, t: NesCpu)
    requires
        !s.reset,
        s.opcode == Some(0x7du8),
        1 <= s.subcycle <= 4,
        cycle_relation(s, nmi, irq, t),
    ensures
        t.x == s.x && t.y == s.y && t.s == s.s,
        s.subcycle == 1 ==> t.subcycle == 2 && t.opcode == s.opcode && !t.reset && t.pc == s.pc
            && t.a == s.a && t.p == s.p && read_at(t, pc_plus(s.pc, 1)) && t.temp == data(t),
        s.subcycle == 2 ==> t.subcycle == 3 && t.opcode == s.opcode && !t.reset && t.pc == s.pc
            && t.a == s.a && t.p == s.p && read_at(t, pc_plus(s.pc, 2)) && t.temp2 == data(t)
            && t.temp == s.temp,
        s.subcycle == 3 && s.temp + s.x >= 256 ==> t.subcycle == 4 && t.opcode == s.opcode
            && !t.reset && t.pc == s.pc && t.a == s.a && t.p == s.p && t.temp == s.temp
            && t.temp2 == s.temp2,
        (s.subcycle == 3 && s.temp + s.x < 256) || s.subcycle == 4 ==> {
            &&& finished(t)
            &&& read_at(t, abs_index(word(s.temp, s.temp2), s.x))
            &&& t.pc == pc_plus(s.pc, 3)
            &&& t.a == adc_result(s.p, s.a, data(t))
        },
{
    let u = choose|u: NesCpu| #[trigger] prelude(s, nmi, irq, u) && cycle_from(u, t);
    assert(prelude(s, nmi, irq, u) && cycle_from(u, t));
    assert(instruction_cycle(0x7du8, u, t));
    assert(ops_alu::step_7d(u, t));
}

/// The register that an instruction reading its operand at an absolute address plus an index
/// register adds: x (`Some(true)`) for ora, and, eor, adc, cmp, sbc, lda, ldy and nop absolute,x;
/// y (`Some(false)`) for ora, and, eor, adc, cmp, sbc and lda absolute,y.
pub open spec fn absolute_index_register(o: u8) -> Option<bool> {
    if o == 0x1d || o == 0x3d || o == 0x5d || o == 0x7d || o == 0xdd || o == 0xfd || o == 0xbd || o == 0xbc || o == 0x1c {
        Some(true)
    } else if o == 0x19 || o == 0x39 || o == 0x59 || o == 0x79 || o == 0xd9 || o == 0xf9 || o == 0xb9 {
        Some(false)
    } else {
        None
    }
}

/// An instruction that reads its operand at an absolute address plus an index register reads
/// the two bytes after its opcode as the address, adds the index register it names (x or y,
/// see [`absolute_index_register`]) with a 16 bit wrap, and reads the operand there, one cycle
/// later when adding the index to the low byte carries into the high byte; it then ends, three
/// bytes past the opcode.
pub proof fn law_absolute_indexed(states: Seq<NesCpu>, nmi: Seq<bool>, irq: Seq<bool>, o: u8)
    requires
        states.len() == 5,
        nmi.len() == 4,
        irq.len() == 4,
        absolute_index_register(o) is Some,
        !states[0].spec_reset(),
        states[0].spec_opcode() == Some(o),
        states[0].spec_subcycle() == 1,
        forall|i: int|
            #![trigger nmi[i]]
            0 <= i < 4 ==> cycle_relation(states[i], nmi[i], irq[i], states[i + 1]),
    ensures
        ({
            let pc = states[0].spec_pc();
            let r = if absolute_index_register(o) == Some(true) {
                states[0].spec_x()
            } else {
                states[0].spec_y()
            };
            let lo = states[1].spec_last_bus().data;
            let hi = states[2].spec_last_bus().data;
            let addr = ((hi as int * 256 + lo as int + r as int) % 65536) as u16;
            let n: int = if lo as int + r as int >= 256 { 4 } else { 3 };
            &&& states[1].spec_last_bus().addr == pc_plus(pc, 1) && !states[1].spec_last_bus().write
            &&& states[2].spec_last_bus().addr == pc_plus(pc, 2) && !states[2].spec_last_bus().write
            &&& states[1].spec_subcycle() != 0 && states[2].spec_subcycle() != 0
            &&& n == 4 ==> states[3].spec_subcycle() != 0
            &&& states[n].spec_last_bus().addr == addr && !states[n].spec_last_bus().write
            &&& states[n].spec_pc() == pc_plus(pc, 3)
            &&& states[n].spec_subcycle() == 0 && states[n].spec_opcode() is None
        }),
{
    assert(cycle_relation(states[0], nmi[0], irq[0], states[1]));
    lemma_absolute_indexed_cycle(states[0], nmi[0], irq[0], states[1], o);
    assert(cycle_relation(states[1], nmi[1], irq[1], states[2]));
    lemma_absolute_indexed_cycle(states[1], nmi[1], irq[1], states[2], o);
    assert(cycle_relation(states[2], nmi[2], irq[2], states[3]));
    lemma_absolute_indexed_cycle(states[2], nmi[2], irq[2], states[3], o);
    if states[3].subcycle != 0 {
        assert(cycle_relation(states[3], nmi[3], irq[3], states[4]));
        lemma_absolute_indexed_cycle(states[3], nmi[3], irq[3], states[4], o);
    }
}

/// One cycle of an instruction that reads at an absolute address plus an index register.
proof fn lemma_absolute_indexed_cycle(s: NesCpu, nmi: bool, irq: bool, t: NesCpu, o: u8)
    requires
        !s.reset,
        s.opcode == Some(o),
        absolute_index_register(o) is Some,
        1 <= s.subcycle <= 4,
        cycle_relation(s, nmi, irq, t),
    ensures
        ({
            let r = if absolute_index_register(o) == Some(true) { s.x } else { s.y };
            &&& !finished(t) ==> t.x == s.x && t.y == s.y && t.pc == s.pc && t.opcode == s.opcode
                && !t.reset
            &&& s.subcycle == 1 ==> t.subcycle == 2 && read_at(t, pc_plus(s.pc, 1)) && t.temp == data(t)
            &&& s.subcycle == 2 ==> t.subcycle == 3 && read_at(t, pc_plus(s.pc, 2)) && t.temp2 == data(t)
                && t.temp == s.temp
            &&& s.subcycle == 3 && s.temp + r >= 256 ==> t.subcycle == 4 && t.temp == s.temp
                && t.temp2 == s.temp2
            &&& (s.subcycle == 3 && s.temp + r < 256) || s.subcycle == 4 ==> finished(t) && read_at(
                t,
                abs_index(word(s.temp, s.temp2), r),
            ) && t.pc == pc_plus(s.pc, 3)
        }),
{
    let u = choose|u: NesCpu| #[trigger] prelude(s, nmi, irq, u) && cycle_from(u, t);
    assert(prelude(s, nmi, irq, u) && cycle_from(u, t));
    if o == 0x1d {
        assert(instruction_cycle(0x1du8, u, t));
        assert(ops_alu::step_1d(u, t));
    } else if o == 0x3d {
        assert(instruction_cycle(0x3du8, u, t));
        assert(ops_alu::step_3d(u, t));
    } else if o == 0x5d {
        assert(instruction_cycle(0x5du8, u, t));
        assert(ops_alu::step_5d(u, t));
    } else if o == 0x7d {
        assert(instruction_cycle(0x7du8, u, t));
        assert(ops_alu::step_7d(u, t));
    } else if o == 0xdd {
        assert(instruction_cycle(0xddu8, u, t));
        assert(ops_alu::step_dd(u, t));
    } else if o == 0xfd {
        assert(instruction_cycle(0xfdu8, u, t));
        assert(ops_alu::step_fd(u, t));
    } else if o == 0xbd {
        assert(instruction_cycle(0xbdu8, u, t));
        assert(ops_load_store::step_bd(u, t));
    } else if o == 0xbc {
        assert(instruction_cycle(0xbcu8, u, t));
        assert(ops_load_store::step_bc(u, t));
    } else if o == 0x1c {
        assert(instruction_cycle(0x1cu8, u, t));
        assert(ops_load_store::step_1c(u, t));
    } else if o == 0x19 {
        assert(instruction_cycle(0x19u8, u, t));
        assert(ops_alu::step_19(u, t));
    } else if o == 0x39 {
        assert(instruction_cycle(0x39u8, u, t));
        assert(ops_alu::step_39(u, t));
    } else if o == 0x59 {
        assert(instruction_cycle(0x59u8, u, t));
        assert(ops_alu::step_59(u, t));
    } else if o == 0x79 {
        assert(instruction_cycle(0x79u8, u, t));
        assert(ops_alu::step_79(u, t));
    } else if o == 0xd9 {
        assert(instruction_cycle(0xd9u8, u, t));
        assert(ops_alu::step_d9(u, t));
    } else if o == 0xf9 {
        assert(instruction_cycle(0xf9u8, u, t));
        assert(ops_alu::step_f9(u, t));
    } else if o == 0xb9 {
        assert(instruction_cycle(0xb9u8, u, t));
        assert(ops_load_store::step_b9(u, t));
    }
}

/// The register that an instruction reading its operand at a zero page address plus an index
/// register adds: x (`Some(true)`) for ora, and, eor, adc, cmp, sbc, lda and ldy zero page,x;
/// y (`Some(false)`) for lax zero page,y.
pub open spec fn zero_page_index_register(o: u8) -> Option<bool> {
    if o == 0x15 || o == 0x35 || o == 0x55 || o == 0x75 || o == 0xd5 || o == 0xf5 || o == 0xb4 || o == 0xb5 {
        Some(true)
    } else if o == 0xb7 {
        Some(false)
    } else {
        None
    }
}

/// An instruction that reads its operand at a zero page address plus an index register reads
/// the byte after its opcode as the address, reads that address once while adding the index
/// register it names (see [`zero_page_index_register`]), and reads its operand at the sum,
/// wrapped within the zero page; it then ends, two bytes past the opcode.
pub proof fn law_zero_page_indexed(states: Seq<NesCpu>, nmi: Seq<bool>, irq: Seq<bool>, o: u8)
    requires
        states.len() == 4,
        nmi.len() == 3,
        irq.len() == 3,
        zero_page_index_register(o) is Some,
        !states[0].spec_reset(),
        states[0].spec_opcode() == Some(o),
        states[0].spec_subcycle() == 1,
        forall|i: int|
            #![trigger nmi[i]]
            0 <= i < 3 ==> cycle_relation(states[i], nmi[i], irq[i], states[i + 1]),
    ensures
        ({
            let pc = states[0].spec_pc();
            let r = if zero_page_index_register(o) == Some(true) {
                states[0].spec_x()
            } else {
                states[0].spec_y()
            };
            let zp = states[1].spec_last_bus().data;
            &&& states[1].spec_last_bus().addr == pc_plus(pc, 1) && !states[1].spec_last_bus().write
            &&& states[2].spec_last_bus().addr == zp as u16 && !states[2].spec_last_bus().write
            &&& states[1].spec_subcycle() != 0 && states[2].spec_subcycle() != 0
            &&& states[3].spec_last_bus().addr == ((zp as int + r as int) % 256) as u16
                && !states[3].spec_last_bus().write
            &&& states[3].spec_pc() == pc_plus(pc, 2)
            &&& states[3].spec_subcycle() == 0 && states[3].spec_opcode() is None
        }),
{
    assert(cycle_relation(states[0], nmi[0], irq[0], states[1]));
    lemma_zero_page_indexed_cycle(states[0], nmi[0], irq[0], states[1], o);
    assert(cycle_relation(states[1], nmi[1], irq[1], states[2]));
    lemma_zero_page_indexed_cycle(states[1], nmi[1], irq[1], states[2], o);
    assert(cycle_relation(states[2], nmi[2], irq[2], states[3]));
    lemma_zero_page_indexed_cycle(states[2], nmi[2], irq[2], states[3], o);
}

/// One cycle of an instruction that reads at a zero page address plus an index register.
proof fn lemma_zero_page_indexed_cycle(s: NesCpu, nmi: bool, irq: bool, t: NesCpu, o: u8)
    requires
        !s.reset,
        s.opcode == Some(o),
        zero_page_index_register(o) is Some,
        1 <= s.subcycle <= 3,
        cycle_relation(s, nmi, irq, t),
    ensures
        ({
            let r = if zero_page_index_register(o) == Some(true) { s.x } else { s.y };
            &&& !finished(t) ==> t.x == s.x && t.y == s.y && t.pc == s.pc && t.opcode == s.opcode
                && !t.reset
            &&& s.subcycle == 1 ==> t.subcycle == 2 && read_at(t, pc_plus(s.pc, 1)) && t.temp == data(t)
            &&& s.subcycle == 2 ==> t.subcycle == 3 && read_at(t, s.temp as u16) && t.temp == s.temp
            &&& s.subcycle == 3 ==> finished(t) && read_at(t, zp_index(s.temp, r)) && t.pc == pc_plus(
                s.pc,
                2,
            )
        }),
{
    let u = choose|u: NesCpu| #[trigger] prelude(s, nmi, irq, u) && cycle_from(u, t);
    assert(prelude(s, nmi, irq, u) && cycle_from(u, t));
    if o == 0x15 {
        assert(instruction_cycle(0x15u8, u, t));
        assert(ops_alu::step_15(u, t));
    } else if o == 0x35 {
        assert(instruction_cycle(0x35u8, u, t));
        assert(ops_alu::step_35(u, t));
    } else if o == 0x55 {
        assert(instruction_cycle(0x55u8, u, t));
        assert(ops_alu::step_55(u, t));
    } else if o == 0x75 {
        assert(instruction_cycle(0x75u8, u, t));
        assert(ops_alu::step_75(u, t));
    } else if o == 0xd5 {
        assert(instruction_cycle(0xd5u8, u, t));
        assert(ops_alu::step_d5(u, t));
    } else if o == 0xf5 {
        assert(instruction_cycle(0xf5u8, u, t));
        assert(ops_alu::step_f5(u, t));
    } else if o == 0xb4 {
        assert(instruction_cycle(0xb4u8, u, t));
        assert(ops_load_store::step_b4(u, t));
    } else if o == 0xb5 {
        assert(instruction_cycle(0xb5u8, u, t));
        assert(ops_load_store::step_b5(u, t));
    } else if o == 0xb7 {
        assert(instruction_cycle(0xb7u8, u, t));
        assert(ops_load_store::step_b7(u, t));
    }
}

/// A sampled interrupt is taken at an instruction boundary: when the last sample of the
/// interrupt lines holds an nmi, or holds a high irq line while the interrupt disable flag was
/// clear as the cpu polled it, the next cycle between instructions starts the interrupt
/// sequence, with a dummy read at the program counter, whatever the lines do now.
pub proof fn law_interrupt_taken(s: NesCpu, nmi: bool, irq: bool, t: NesCpu)
    requires
        !s.spec_reset(),
        s.spec_opcode() is None,
        s.spec_subcycle() == 0,
        s.spec_nmi_sampled() || (s.spec_irq_sampled() && s.spec_irq_enabled()),
        cycle_relation(s, nmi, irq, t),
    ensures
        t.spec_interrupting(),
        t.spec_subcycle() == 1,
        t.spec_opcode() is None,
        t.spec_last_bus().addr == s.spec_pc(),
        !t.spec_last_bus().write,
        t.spec_pc() == s.spec_pc(),
{
    let u = choose|u: NesCpu| #[trigger] prelude(s, nmi, irq, u) && cycle_from(u, t);
    assert(prelude(s, nmi, irq, u) && cycle_from(u, t));
    assert(interrupt_pending(u));
    assert(interrupt_cycle(u, t));
}

/// Subtracting with borrow is adding the complement: sbc of `m` gives the result and the flags
/// that adc of `255 - m` gives, from the same accumulator and flags. With the carry set (no
/// borrow), its result is `a - m` modulo 256.
pub proof fn law_sbc_is_adc_of_complement(p: u8, a: u8, m: u8)
    ensures
        sbc_result(p, a, m) == adc_result(p, a, (255 - m) as u8),
        sbc_flags(p, a, m) == adc_flags(p, a, (255 - m) as u8),
        p & CPU_FLAG_CARRY != 0 ==> sbc_result(p, a, m) as int == (a as int - m as int + 256) % 256,
{
    let n: u8 = (255 - m) as u8;
    assert(signed(n) == -signed(m) - 1);
}

} // verus!

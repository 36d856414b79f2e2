//! The control flow, stack, flag and register transfer instructions of the cpu, one bus cycle at a time.
use vstd::prelude::*;
use crate::cpu::{
    NesCpu, NesCpuPeripherals, CPU_FLAG_CARRY, CPU_FLAG_ZERO, CPU_FLAG_INT_DISABLE, CPU_FLAG_DECIMAL,
    CPU_FLAG_B1, CPU_FLAG_B2, CPU_FLAG_OVERFLOW, CPU_FLAG_NEGATIVE, hex8_text, hex16_text,
    hex16_upper_text, le_bytes, from_le_bytes, overflowing_add,
};
use crate::devices::{ApuDevice, CartridgeDevice, ControllerDevice, PpuDevice};
use crate::motherboard::NesMotherboard;

verus! {

/// One bus cycle of brk instruction.
pub(crate) open spec fn step_00(s: NesCpu, t: NesCpu) -> bool {
    &&& s.subcycle == 1 ==> super::shows(s, t, "BRK"@)
    &&& s.subcycle != 1 ==> super::keeps_debugger(s, t)
    &&& s.subcycle == 1 ==> {
        &&& t.subcycle == 2
        &&& super::read_at(t, super::pc_plus(s.pc, 1))
    }
    &&& s.subcycle == 2 ==> {
        &&& t.subcycle == 3
        &&& super::write_at(t, super::stack_addr(s.s), super::hi_byte(super::pc_plus(s.pc, 2)))
        &&& t.s == super::s_dec(s.s)
    }
    &&& s.subcycle == 3 ==> {
        &&& t.subcycle == 4
        &&& super::write_at(t, super::stack_addr(s.s), super::lo_byte(super::pc_plus(s.pc, 2)))
        &&& t.s == super::s_dec(s.s)
    }
    &&& s.subcycle == 4 ==> {
        &&& t.subcycle == 5
        &&& super::write_at(t, super::stack_addr(s.s), s.p | CPU_FLAG_B1)
        &&& t.s == super::s_dec(s.s)
    }
    &&& s.subcycle == 5 ==> {
        &&& t.subcycle == 6
        &&& super::read_at(t, 0xfffe)
        &&& t.temp == super::data(t)
        &&& t.p == s.p | CPU_FLAG_INT_DISABLE
    }
    &&& !(1 <= s.subcycle <= 5) ==> {
        &&& super::finished(t)
        &&& super::read_at(t, 0xffff)
        &&& t.pc == super::word(s.temp, super::data(t))
    }
    &&& !super::finished(t) ==> t.pc == s.pc
    &&& s.subcycle != 5 ==> t.p == s.p
    &&& (s.subcycle == 1 || !(1 <= s.subcycle <= 4)) ==> t.s == s.s
    &&& t.a == s.a
    &&& t.x == s.x
    &&& t.y == s.y
}

/// One bus cycle of iny, increment y.
pub(crate) open spec fn step_c8(s: NesCpu, t: NesCpu) -> bool {
    &&& super::shows(s, t, "INY"@)
    &&& super::finished(t)
    &&& super::read_at(t, super::pc_plus(s.pc, 1))
    &&& t.pc == super::pc_plus(s.pc, 1)
    &&& t.y == super::inc_value(s.y)
    &&& t.p == super::nz_flags(s.p, super::inc_value(s.y))
    &&& t.a == s.a
    &&& t.x == s.x
    &&& t.s == s.s
}

/// One bus cycle of inx, increment x.
pub(crate) open spec fn step_e8(s: NesCpu, t: NesCpu) -> bool {
    &&& super::shows(s, t, "INX"@)
    &&& super::finished(t)
    &&& super::read_at(t, super::pc_plus(s.pc, 1))
    &&& t.pc == super::pc_plus(s.pc, 1)
    &&& t.x == super::inc_value(s.x)
    &&& t.p == super::nz_flags(s.p, super::inc_value(s.x))
    &&& t.a == s.a
    &&& t.y == s.y
    &&& t.s == s.s
}

/// One bus cycle of dey, decrement y.
pub(crate) open spec fn step_88(s: NesCpu, t: NesCpu) -> bool {
    &&& super::shows(s, t, "DEY"@)
    &&& super::finished(t)
    &&& super::read_at(t, super::pc_plus(s.pc, 1))
    &&& t.pc == super::pc_plus(s.pc, 1)
    &&& t.y == super::dec_value(s.y)
    &&& t.p == super::nz_flags(s.p, super::dec_value(s.y))
    &&& t.a == s.a
    &&& t.x == s.x
    &&& t.s == s.s
}

/// One bus cycle of dex, decrement x.
pub(crate) open spec fn step_ca(s: NesCpu, t: NesCpu) -> bool {
    &&& super::shows(s, t, "DEX"@)
    &&& super::finished(t)
    &&& super::read_at(t, super::pc_plus(s.pc, 1))
    &&& t.pc == super::pc_plus(s.pc, 1)
    &&& t.x == super::dec_value(s.x)
    &&& t.p == super::nz_flags(s.p, super::dec_value(s.x))
    &&& t.a == s.a
    &&& t.y == s.y
    &&& t.s == s.s
}

/// One bus cycle of tay, transfer accumulator to y.
pub(crate) open spec fn step_a8(s: NesCpu, t: NesCpu) -> bool {
    &&& super::shows(s, t, "TAY"@)
    &&& super::finished(t)
    &&& super::read_at(t, super::pc_plus(s.pc, 1))
    &&& t.pc == super::pc_plus(s.pc, 1)
    &&& t.y == s.a
    &&& t.p == super::nz_flags(s.p, s.a)
    &&& t.a == s.a
    &&& t.x == s.x
    &&& t.s == s.s
}

/// One bus cycle of tax, transfer accumulator to x.
pub(crate) open spec fn step_aa(s: NesCpu, t: NesCpu) -> bool {
    &&& super::shows(s, t, "TAX"@)
    &&& super::finished(t)
    &&& super::read_at(t, super::pc_plus(s.pc, 1))
    &&& t.pc == super::pc_plus(s.pc, 1)
    &&& t.x == s.a
    &&& t.p == super::nz_flags(s.p, s.a)
    &&& t.a == s.a
    &&& t.y == s.y
    &&& t.s == s.s
}

/// One bus cycle of tya, transfer y to accumulator.
pub(crate) open spec fn step_98(s: NesCpu, t: NesCpu) -> bool {
    &&& super::shows(s, t, "TYA"@)
    &&& super::finished(t)
    &&& super::read_at(t, super::pc_plus(s.pc, 1))
    &&& t.pc == super::pc_plus(s.pc, 1)
    &&& t.a == s.y
    &&& t.p == super::nz_flags(s.p, s.y)
    &&& t.x == s.x
    &&& t.y == s.y
    &&& t.s == s.s
}

/// One bus cycle of txa, transfer x to accumulator.
pub(crate) open spec fn step_8a(s: NesCpu, t: NesCpu) -> bool {
    &&& super::shows(s, t, "TXA"@)
    &&& super::finished(t)
    &&& super::read_at(t, super::pc_plus(s.pc, 1))
    &&& t.pc == super::pc_plus(s.pc, 1)
    &&& t.a == s.x
    &&& t.p == super::nz_flags(s.p, s.x)
    &&& t.x == s.x
    &&& t.y == s.y
    &&& t.s == s.s
}

/// One bus cycle of tsx, transfer stack pointer to x.
pub(crate) open spec fn step_ba(s: NesCpu, t: NesCpu) -> bool {
    &&& super::shows(s, t, "TSX"@)
    &&& super::finished(t)
    &&& super::read_at(t, super::pc_plus(s.pc, 1))
    &&& t.pc == super::pc_plus(s.pc, 1)
    &&& t.x == s.s
    &&& t.p == super::nz_flags(s.p, s.s)
    &&& t.a == s.a
    &&& t.y == s.y
    &&& t.s == s.s
}

/// One bus cycle of txs, transfer x to stack pointer.
pub(crate) open spec fn step_9a(s: NesCpu, t: NesCpu) -> bool {
    &&& super::shows(s, t, "TXS"@)
    &&& super::finished(t)
    &&& super::read_at(t, super::pc_plus(s.pc, 1))
    &&& t.pc == super::pc_plus(s.pc, 1)
    &&& t.s == s.x
    &&& t.a == s.a
    &&& t.x == s.x
    &&& t.y == s.y
    &&& t.p == s.p
}

/// One bus cycle of jmp absolute.
pub(crate) open spec fn step_4c(s: NesCpu, t: NesCpu) -> bool {
    &&& !(s.subcycle == 1) ==> super::shows(s, t, "JMP $"@ + super::hex_text(super::word(s.temp, super::data(t)) as nat, 4, false) + ""@)
    &&& (s.subcycle == 1) ==> super::keeps_debugger(s, t)
    &&& s.subcycle == 1 ==> {
        &&& t.subcycle == 2
        &&& super::read_at(t, super::pc_plus(s.pc, 1))
        &&& t.temp == super::data(t)
    }
    &&& s.subcycle != 1 ==> {
        &&& super::finished(t)
        &&& super::read_at(t, super::pc_plus(s.pc, 2))
        &&& t.pc == super::word(s.temp, super::data(t))
    }
    &&& !super::finished(t) ==> t.pc == s.pc
    &&& t.a == s.a
    &&& t.x == s.x
    &&& t.y == s.y
    &&& t.s == s.s
    &&& t.p == s.p
}

/// One bus cycle of jmp indirect.
pub(crate) open spec fn step_6c(s: NesCpu, t: NesCpu) -> bool {
    &&& s.subcycle == 2 ==> super::shows(s, t, "JMP ($"@ + super::hex_text(super::word(t.temp, t.temp2) as nat, 4, false) + ")"@)
    &&& s.subcycle != 2 ==> super::keeps_debugger(s, t)
    &&& s.subcycle == 1 ==> {
        &&& t.subcycle == 2
        &&& super::read_at(t, super::pc_plus(s.pc, 1))
        &&& t.temp == super::data(t)
    }
    &&& s.subcycle == 2 ==> {
        &&& t.subcycle == 3
        &&& super::read_at(t, super::pc_plus(s.pc, 2))
        &&& t.tempaddr == super::word(s.temp, super::data(t))
        &&& t.temp2 == super::data(t)
        &&& t.temp == s.temp
    }
    &&& s.subcycle == 3 ==> {
        &&& t.subcycle == 4
        &&& super::read_at(t, s.tempaddr)
        &&& t.temp == super::data(t)
        &&& t.tempaddr == super::word(((s.temp + 1) % 256) as u8, s.temp2)
        &&& t.temp2 == s.temp2
    }
    &&& !(1 <= s.subcycle <= 3) ==> {
        &&& super::finished(t)
        &&& super::read_at(t, s.tempaddr)
        &&& t.pc == super::word(s.temp, super::data(t))
    }
    &&& !super::finished(t) ==> t.pc == s.pc
    &&& t.a == s.a
    &&& t.x == s.x
    &&& t.y == s.y
    &&& t.s == s.s
    &&& t.p == s.p
}

/// One bus cycle of lsr logical shift right, accumulator.
pub(crate) open spec fn step_4a(s: NesCpu, t: NesCpu) -> bool {
    &&& super::shows(s, t, "LSR A"@)
    &&& super::finished(t)
    &&& super::read_at(t, super::pc_plus(s.pc, 1))
    &&& t.pc == super::pc_plus(s.pc, 1)
    &&& t.a == super::lsr_value(s.a)
    &&& t.p == super::shift_flags(s.p, super::lsr_value(s.a), s.a % 2 == 1)
    &&& t.x == s.x
    &&& t.y == s.y
    &&& t.s == s.s
}

/// One bus cycle of asl, arithmetic shift left accumulator.
pub(crate) open spec fn step_0a(s: NesCpu, t: NesCpu) -> bool {
    &&& super::shows(s, t, "ASL A"@)
    &&& super::finished(t)
    &&& super::read_at(t, super::pc_plus(s.pc, 1))
    &&& t.pc == super::pc_plus(s.pc, 1)
    &&& t.a == super::asl_value(s.a)
    &&& t.p == super::shift_flags(s.p, super::asl_value(s.a), s.a >= 128)
    &&& t.x == s.x
    &&& t.y == s.y
    &&& t.s == s.s
}

/// One bus cycle of ror rotate right accumulator.
pub(crate) open spec fn step_6a(s: NesCpu, t: NesCpu) -> bool {
    &&& super::shows(s, t, "ROR A"@)
    &&& super::finished(t)
    &&& super::read_at(t, super::pc_plus(s.pc, 1))
    &&& t.pc == super::pc_plus(s.pc, 1)
    &&& t.a == super::ror_value(s.p, s.a)
    &&& t.p == super::shift_flags(s.p, super::ror_value(s.p, s.a), s.a % 2 == 1)
    &&& t.x == s.x
    &&& t.y == s.y
    &&& t.s == s.s
}

/// One bus cycle of rol accumulator.
pub(crate) open spec fn step_2a(s: NesCpu, t: NesCpu) -> bool {
    &&& super::shows(s, t, "ROL A"@)
    &&& super::finished(t)
    &&& super::read_at(t, super::pc_plus(s.pc, 1))
    &&& t.pc == super::pc_plus(s.pc, 1)
    &&& t.a == super::rol_value(s.p, s.a)
    &&& t.p == super::shift_flags(s.p, super::rol_value(s.p, s.a), s.a >= 128)
    &&& t.x == s.x
    &&& t.y == s.y
    &&& t.s == s.s
}

/// One bus cycle of rti, return from interrupt.
pub(crate) open spec fn step_40(s: NesCpu, t: NesCpu) -> bool {
    &&& s.subcycle == 1 ==> super::shows(s, t, "RTI"@)
    &&& s.subcycle != 1 ==> super::keeps_debugger(s, t)
    &&& s.subcycle == 1 ==> {
        &&& t.subcycle == 2
        &&& super::read_at(t, super::pc_plus(s.pc, 1))
    }
    &&& s.subcycle == 2 ==> {
        &&& t.subcycle == 3
        &&& super::read_at(t, super::stack_addr(s.s))
        &&& t.s == super::s_inc(s.s)
    }
    &&& s.subcycle == 3 ==> {
        &&& t.subcycle == 4
        &&& super::read_at(t, super::stack_addr(s.s))
        &&& t.s == super::s_inc(s.s)
        &&& t.p == (super::data(t) & !CPU_FLAG_B1) | CPU_FLAG_B2
    }
    &&& s.subcycle == 4 ==> {
        &&& t.subcycle == 5
        &&& super::read_at(t, super::stack_addr(s.s))
        &&& t.s == super::s_inc(s.s)
        &&& t.temp == super::data(t)
    }
    &&& !(1 <= s.subcycle <= 4) ==> {
        &&& super::finished(t)
        &&& super::read_at(t, super::stack_addr(s.s))
        &&& t.pc == super::word(s.temp, super::data(t))
    }
    &&& t.a == s.a
    &&& t.x == s.x
    &&& t.y == s.y
}

/// One bus cycle of jsr absolute.
pub(crate) open spec fn step_20(s: NesCpu, t: NesCpu) -> bool {
    &&& !(s.subcycle == 1 || s.subcycle == 2 || s.subcycle == 3 || s.subcycle == 4) ==> super::shows(s, t, "JSR $"@ + super::hex_text(super::word(s.temp, super::data(t)) as nat, 4, false) + ""@)
    &&& (s.subcycle == 1 || s.subcycle == 2 || s.subcycle == 3 || s.subcycle == 4) ==> super::keeps_debugger(s, t)
    &&& s.subcycle == 1 ==> {
        &&& t.subcycle == 2
        &&& super::read_at(t, super::pc_plus(s.pc, 1))
        &&& t.temp == super::data(t)
    }
    &&& s.subcycle == 2 ==> {
        &&& t.subcycle == 3
        &&& super::read_at(t, super::stack_addr(s.s))
    }
    &&& s.subcycle == 3 ==> {
        &&& t.subcycle == 4
        &&& super::write_at(t, super::stack_addr(s.s), super::hi_byte(super::pc_plus(s.pc, 2)))
        &&& t.s == super::s_dec(s.s)
    }
    &&& s.subcycle == 4 ==> {
        &&& t.subcycle == 5
        &&& super::write_at(t, super::stack_addr(s.s), super::lo_byte(super::pc_plus(s.pc, 2)))
        &&& t.s == super::s_dec(s.s)
    }
    &&& !(1 <= s.subcycle <= 4) ==> {
        &&& super::finished(t)
        &&& super::read_at(t, super::pc_plus(s.pc, 2))
        &&& t.pc == super::word(s.temp, super::data(t))
    }
    &&& !super::finished(t) ==> t.pc == s.pc
    &&& t.a == s.a
    &&& t.x == s.x
    &&& t.y == s.y
    &&& t.p == s.p
    &&& s.subcycle == 1 || s.subcycle == 2 || !(1 <= s.subcycle <= 4) ==> t.s == s.s
    &&& s.subcycle == 2 || s.subcycle == 3 || s.subcycle == 4 ==> t.temp == s.temp
}

/// One bus cycle of nop.
pub(crate) open spec fn step_1a(s: NesCpu, t: NesCpu) -> bool {
    &&& super::shows(s, t, "NOP"@)
    &&& super::finished(t)
    &&& super::read_at(t, super::pc_plus(s.pc, 1))
    &&& t.pc == super::pc_plus(s.pc, 1)
    &&& t.a == s.a
    &&& t.x == s.x
    &&& t.y == s.y
    &&& t.s == s.s
    &&& t.p == s.p
}

/// One bus cycle of clv, clear overflow flag.
pub(crate) open spec fn step_b8(s: NesCpu, t: NesCpu) -> bool {
    &&& super::shows(s, t, "CLV"@)
    &&& super::finished(t)
    &&& super::read_at(t, super::pc_plus(s.pc, 1))
    &&& t.pc == super::pc_plus(s.pc, 1)
    &&& t.p == s.p & !CPU_FLAG_OVERFLOW
    &&& t.a == s.a
    &&& t.x == s.x
    &&& t.y == s.y
    &&& t.s == s.s
}

/// One bus cycle of sec set carry flag.
pub(crate) open spec fn step_38(s: NesCpu, t: NesCpu) -> bool {
    &&& super::shows(s, t, "SEC"@)
    &&& super::finished(t)
    &&& super::read_at(t, super::pc_plus(s.pc, 1))
    &&& t.pc == super::pc_plus(s.pc, 1)
    &&& t.p == s.p | CPU_FLAG_CARRY
    &&& t.a == s.a
    &&& t.x == s.x
    &&& t.y == s.y
    &&& t.s == s.s
}

/// One bus cycle of sei set interrupt disable flag.
pub(crate) open spec fn step_78(s: NesCpu, t: NesCpu) -> bool {
    &&& super::shows(s, t, "SEI"@)
    &&& super::finished(t)
    &&& super::read_at(t, super::pc_plus(s.pc, 1))
    &&& t.pc == super::pc_plus(s.pc, 1)
    &&& t.p == s.p | CPU_FLAG_INT_DISABLE
    &&& t.a == s.a
    &&& t.x == s.x
    &&& t.y == s.y
    &&& t.s == s.s
}

/// One bus cycle of sed set decimal flag.
pub(crate) open spec fn step_f8(s: NesCpu, t: NesCpu) -> bool {
    &&& super::shows(s, t, "SED"@)
    &&& super::finished(t)
    &&& super::read_at(t, super::pc_plus(s.pc, 1))
    &&& t.pc == super::pc_plus(s.pc, 1)
    &&& t.p == s.p | CPU_FLAG_DECIMAL
    &&& t.a == s.a
    &&& t.x == s.x
    &&& t.y == s.y
    &&& t.s == s.s
}

/// One bus cycle of cld, clear decimal flag.
pub(crate) open spec fn step_d8(s: NesCpu, t: NesCpu) -> bool {
    &&& super::shows(s, t, "CLD"@)
    &&& super::finished(t)
    &&& super::read_at(t, super::pc_plus(s.pc, 1))
    &&& t.pc == super::pc_plus(s.pc, 1)
    &&& t.p == s.p & !CPU_FLAG_DECIMAL
    &&& t.a == s.a
    &&& t.x == s.x
    &&& t.y == s.y
    &&& t.s == s.s
}

/// One bus cycle of clc clear carry flag.
pub(crate) open spec fn step_18(s: NesCpu, t: NesCpu) -> bool {
    &&& super::shows(s, t, "CLC"@)
    &&& super::finished(t)
    &&& super::read_at(t, super::pc_plus(s.pc, 1))
    &&& t.pc == super::pc_plus(s.pc, 1)
    &&& t.p == s.p & !CPU_FLAG_CARRY
    &&& t.a == s.a
    &&& t.x == s.x
    &&& t.y == s.y
    &&& t.s == s.s
}

/// One bus cycle of cli clear interrupt disable.
pub(crate) open spec fn step_58(s: NesCpu, t: NesCpu) -> bool {
    &&& super::shows(s, t, "CLI"@)
    &&& super::finished(t)
    &&& super::read_at(t, super::pc_plus(s.pc, 1))
    &&& t.pc == super::pc_plus(s.pc, 1)
    &&& t.p == s.p & !CPU_FLAG_INT_DISABLE
    &&& t.a == s.a
    &&& t.x == s.x
    &&& t.y == s.y
    &&& t.s == s.s
}

/// One bus cycle of beq, branch if equal (zero flag set).
pub(crate) open spec fn step_f0(s: NesCpu, t: NesCpu) -> bool {
    &&& s.subcycle == 1 ==> super::shows(s, t, "BEQ $"@ + super::hex_text(super::branch_target(s.pc, super::data(t)) as nat, 4, true) + ""@)
    &&& s.subcycle != 1 ==> super::keeps_debugger(s, t)
    &&& s.subcycle == 1 ==> {
        &&& super::read_at(t, super::pc_plus(s.pc, 1))
        &&& t.pc == super::pc_plus(s.pc, 2)
    }
    &&& s.subcycle == 1 && !(s.p & CPU_FLAG_ZERO != 0) ==> super::finished(t)
    &&& s.subcycle == 1 && (s.p & CPU_FLAG_ZERO != 0) ==> {
        &&& t.subcycle == 2
        &&& t.tempaddr == super::branch_target(s.pc, super::data(t))
    }
    &&& s.subcycle == 2 ==> t.pc == s.tempaddr
    &&& s.subcycle == 2 && super::hi_byte(s.pc) == super::hi_byte(s.tempaddr) ==> super::finished(t)
    &&& s.subcycle == 2 && super::hi_byte(s.pc) != super::hi_byte(s.tempaddr) ==> t.subcycle == 3
    &&& !(1 <= s.subcycle <= 2) ==> {
        &&& super::finished(t)
        &&& t.pc == s.pc
        &&& super::read_at(t, s.pc)
    }
    &&& t.a == s.a
    &&& t.x == s.x
    &&& t.y == s.y
    &&& t.s == s.s
    &&& t.p == s.p
}

/// One bus cycle of bne, branch if not equal (zero flag not set).
pub(crate) open spec fn step_d0(s: NesCpu, t: NesCpu) -> bool {
    &&& s.subcycle == 1 ==> super::shows(s, t, "BNE $"@ + super::hex_text(super::branch_target(s.pc, super::data(t)) as nat, 4, true) + ""@)
    &&& s.subcycle != 1 ==> super::keeps_debugger(s, t)
    &&& s.subcycle == 1 ==> {
        &&& super::read_at(t, super::pc_plus(s.pc, 1))
        &&& t.pc == super::pc_plus(s.pc, 2)
    }
    &&& s.subcycle == 1 && !(s.p & CPU_FLAG_ZERO == 0) ==> super::finished(t)
    &&& s.subcycle == 1 && (s.p & CPU_FLAG_ZERO == 0) ==> {
        &&& t.subcycle == 2
        &&& t.tempaddr == super::branch_target(s.pc, super::data(t))
    }
    &&& s.subcycle == 2 ==> t.pc == s.tempaddr
    &&& s.subcycle == 2 && super::hi_byte(s.pc) == super::hi_byte(s.tempaddr) ==> super::finished(t)
    &&& s.subcycle == 2 && super::hi_byte(s.pc) != super::hi_byte(s.tempaddr) ==> t.subcycle == 3
    &&& !(1 <= s.subcycle <= 2) ==> {
        &&& super::finished(t)
        &&& t.pc == s.pc
        &&& super::read_at(t, s.pc)
    }
    &&& t.a == s.a
    &&& t.x == s.x
    &&& t.y == s.y
    &&& t.s == s.s
    &&& t.p == s.p
}

/// One bus cycle of bvs, branch if overflow set.
pub(crate) open spec fn step_70(s: NesCpu, t: NesCpu) -> bool {
    &&& s.subcycle == 1 ==> super::shows(s, t, "BVS $"@ + super::hex_text(super::branch_target(s.pc, super::data(t)) as nat, 4, true) + ""@)
    &&& s.subcycle != 1 ==> super::keeps_debugger(s, t)
    &&& s.subcycle == 1 ==> {
        &&& super::read_at(t, super::pc_plus(s.pc, 1))
        &&& t.pc == super::pc_plus(s.pc, 2)
    }
    &&& s.subcycle == 1 && !(s.p & CPU_FLAG_OVERFLOW != 0) ==> super::finished(t)
    &&& s.subcycle == 1 && (s.p & CPU_FLAG_OVERFLOW != 0) ==> {
        &&& t.subcycle == 2
        &&& t.tempaddr == super::branch_target(s.pc, super::data(t))
    }
    &&& s.subcycle == 2 ==> t.pc == s.tempaddr
    &&& s.subcycle == 2 && super::hi_byte(s.pc) == super::hi_byte(s.tempaddr) ==> super::finished(t)
    &&& s.subcycle == 2 && super::hi_byte(s.pc) != super::hi_byte(s.tempaddr) ==> t.subcycle == 3
    &&& !(1 <= s.subcycle <= 2) ==> {
        &&& super::finished(t)
        &&& t.pc == s.pc
        &&& super::read_at(t, s.pc)
    }
    &&& t.a == s.a
    &&& t.x == s.x
    &&& t.y == s.y
    &&& t.s == s.s
    &&& t.p == s.p
}

/// One bus cycle of bvc branch if overflow clear.
pub(crate) open spec fn step_50(s: NesCpu, t: NesCpu) -> bool {
    &&& s.subcycle == 1 ==> super::shows(s, t, "BVC $"@ + super::hex_text(super::branch_target(s.pc, super::data(t)) as nat, 4, true) + ""@)
    &&& s.subcycle != 1 ==> super::keeps_debugger(s, t)
    &&& s.subcycle == 1 ==> {
        &&& super::read_at(t, super::pc_plus(s.pc, 1))
        &&& t.pc == super::pc_plus(s.pc, 2)
    }
    &&& s.subcycle == 1 && !(s.p & CPU_FLAG_OVERFLOW == 0) ==> super::finished(t)
    &&& s.subcycle == 1 && (s.p & CPU_FLAG_OVERFLOW == 0) ==> {
        &&& t.subcycle == 2
        &&& t.tempaddr == super::branch_target(s.pc, super::data(t))
    }
    &&& s.subcycle == 2 ==> t.pc == s.tempaddr
    &&& s.subcycle == 2 && super::hi_byte(s.pc) == super::hi_byte(s.tempaddr) ==> super::finished(t)
    &&& s.subcycle == 2 && super::hi_byte(s.pc) != super::hi_byte(s.tempaddr) ==> t.subcycle == 3
    &&& !(1 <= s.subcycle <= 2) ==> {
        &&& super::finished(t)
        &&& t.pc == s.pc
        &&& super::read_at(t, s.pc)
    }
    &&& t.a == s.a
    &&& t.x == s.x
    &&& t.y == s.y
    &&& t.s == s.s
    &&& t.p == s.p
}

/// One bus cycle of bpl, branch if negative clear.
pub(crate) open spec fn step_10(s: NesCpu, t: NesCpu) -> bool {
    &&& s.subcycle == 1 ==> super::shows(s, t, "BPL $"@ + super::hex_text(super::branch_target(s.pc, super::data(t)) as nat, 4, true) + ""@)
    &&& s.subcycle != 1 ==> super::keeps_debugger(s, t)
    &&& s.subcycle == 1 ==> {
        &&& super::read_at(t, super::pc_plus(s.pc, 1))
        &&& t.pc == super::pc_plus(s.pc, 2)
    }
    &&& s.subcycle == 1 && !(s.p & CPU_FLAG_NEGATIVE == 0) ==> super::finished(t)
    &&& s.subcycle == 1 && (s.p & CPU_FLAG_NEGATIVE == 0) ==> {
        &&& t.subcycle == 2
        &&& t.tempaddr == super::branch_target(s.pc, super::data(t))
    }
    &&& s.subcycle == 2 ==> t.pc == s.tempaddr
    &&& s.subcycle == 2 && super::hi_byte(s.pc) == super::hi_byte(s.tempaddr) ==> super::finished(t)
    &&& s.subcycle == 2 && super::hi_byte(s.pc) != super::hi_byte(s.tempaddr) ==> t.subcycle == 3
    &&& !(1 <= s.subcycle <= 2) ==> {
        &&& super::finished(t)
        &&& t.pc == s.pc
        &&& super::read_at(t, s.pc)
    }
    &&& t.a == s.a
    &&& t.x == s.x
    &&& t.y == s.y
    &&& t.s == s.s
    &&& t.p == s.p
}

/// One bus cycle of bmi branch if negative flag set.
pub(crate) open spec fn step_30(s: NesCpu, t: NesCpu) -> bool {
    &&& s.subcycle == 1 ==> super::shows(s, t, "BMI $"@ + super::hex_text(super::branch_target(s.pc, super::data(t)) as nat, 4, true) + ""@)
    &&& s.subcycle != 1 ==> super::keeps_debugger(s, t)
    &&& s.subcycle == 1 ==> {
        &&& super::read_at(t, super::pc_plus(s.pc, 1))
        &&& t.pc == super::pc_plus(s.pc, 2)
    }
    &&& s.subcycle == 1 && !(s.p & CPU_FLAG_NEGATIVE != 0) ==> super::finished(t)
    &&& s.subcycle == 1 && (s.p & CPU_FLAG_NEGATIVE != 0) ==> {
        &&& t.subcycle == 2
        &&& t.tempaddr == super::branch_target(s.pc, super::data(t))
    }
    &&& s.subcycle == 2 ==> t.pc == s.tempaddr
    &&& s.subcycle == 2 && super::hi_byte(s.pc) == super::hi_byte(s.tempaddr) ==> super::finished(t)
    &&& s.subcycle == 2 && super::hi_byte(s.pc) != super::hi_byte(s.tempaddr) ==> t.subcycle == 3
    &&& !(1 <= s.subcycle <= 2) ==> {
        &&& super::finished(t)
        &&& t.pc == s.pc
        &&& super::read_at(t, s.pc)
    }
    &&& t.a == s.a
    &&& t.x == s.x
    &&& t.y == s.y
    &&& t.s == s.s
    &&& t.p == s.p
}

/// One bus cycle of bcs, branch if carry set.
pub(crate) open spec fn step_b0(s: NesCpu, t: NesCpu) -> bool {
    &&& s.subcycle == 1 ==> super::shows(s, t, "BCS $"@ + super::hex_text(super::branch_target(s.pc, super::data(t)) as nat, 4, true) + ""@)
    &&& s.subcycle != 1 ==> super::keeps_debugger(s, t)
    &&& s.subcycle == 1 ==> {
        &&& super::read_at(t, super::pc_plus(s.pc, 1))
        &&& t.pc == super::pc_plus(s.pc, 2)
    }
    &&& s.subcycle == 1 && !(s.p & CPU_FLAG_CARRY != 0) ==> super::finished(t)
    &&& s.subcycle == 1 && (s.p & CPU_FLAG_CARRY != 0) ==> {
        &&& t.subcycle == 2
        &&& t.tempaddr == super::branch_target(s.pc, super::data(t))
    }
    &&& s.subcycle == 2 ==> t.pc == s.tempaddr
    &&& s.subcycle == 2 && super::hi_byte(s.pc) == super::hi_byte(s.tempaddr) ==> super::finished(t)
    &&& s.subcycle == 2 && super::hi_byte(s.pc) != super::hi_byte(s.tempaddr) ==> t.subcycle == 3
    &&& !(1 <= s.subcycle <= 2) ==> {
        &&& super::finished(t)
        &&& t.pc == s.pc
        &&& super::read_at(t, s.pc)
    }
    &&& t.a == s.a
    &&& t.x == s.x
    &&& t.y == s.y
    &&& t.s == s.s
    &&& t.p == s.p
}

/// One bus cycle of bcc branch if carry flag clear.
pub(crate) open spec fn step_90(s: NesCpu, t: NesCpu) -> bool {
    &&& s.subcycle == 1 ==> super::shows(s, t, "BCC $"@ + super::hex_text(super::branch_target(s.pc, super::data(t)) as nat, 4, true) + ""@)
    &&& s.subcycle != 1 ==> super::keeps_debugger(s, t)
    &&& s.subcycle == 1 ==> {
        &&& super::read_at(t, super::pc_plus(s.pc, 1))
        &&& t.pc == super::pc_plus(s.pc, 2)
    }
    &&& s.subcycle == 1 && !(s.p & CPU_FLAG_CARRY == 0) ==> super::finished(t)
    &&& s.subcycle == 1 && (s.p & CPU_FLAG_CARRY == 0) ==> {
        &&& t.subcycle == 2
        &&& t.tempaddr == super::branch_target(s.pc, super::data(t))
    }
    &&& s.subcycle == 2 ==> t.pc == s.tempaddr
    &&& s.subcycle == 2 && super::hi_byte(s.pc) == super::hi_byte(s.tempaddr) ==> super::finished(t)
    &&& s.subcycle == 2 && super::hi_byte(s.pc) != super::hi_byte(s.tempaddr) ==> t.subcycle == 3
    &&& !(1 <= s.subcycle <= 2) ==> {
        &&& super::finished(t)
        &&& t.pc == s.pc
        &&& super::read_at(t, s.pc)
    }
    &&& t.a == s.a
    &&& t.x == s.x
    &&& t.y == s.y
    &&& t.s == s.s
    &&& t.p == s.p
}

/// One bus cycle of pha push accumulator.
pub(crate) open spec fn step_48(s: NesCpu, t: NesCpu) -> bool {
    &&& s.subcycle == 1 ==> super::shows(s, t, "PHA"@)
    &&& s.subcycle != 1 ==> super::keeps_debugger(s, t)
    &&& s.subcycle == 1 ==> {
        &&& t.subcycle == 2
        &&& super::read_at(t, super::pc_plus(s.pc, 1))
        &&& super::arch_same(s, t)
    }
    &&& s.subcycle != 1 ==> {
        &&& super::finished(t)
        &&& super::write_at(t, super::stack_addr(s.s), s.a)
        &&& t.s == super::s_dec(s.s)
        &&& t.pc == super::pc_plus(s.pc, 1)
    }
    &&& t.a == s.a
    &&& t.x == s.x
    &&& t.y == s.y
    &&& t.p == s.p
}

/// One bus cycle of php push processor status.
pub(crate) open spec fn step_08(s: NesCpu, t: NesCpu) -> bool {
    &&& s.subcycle == 1 ==> super::shows(s, t, "PHP"@)
    &&& s.subcycle != 1 ==> super::keeps_debugger(s, t)
    &&& s.subcycle == 1 ==> {
        &&& t.subcycle == 2
        &&& super::read_at(t, super::pc_plus(s.pc, 1))
        &&& super::arch_same(s, t)
    }
    &&& s.subcycle != 1 ==> {
        &&& super::finished(t)
        &&& super::write_at(t, super::stack_addr(s.s), (s.p | CPU_FLAG_B1))
        &&& t.s == super::s_dec(s.s)
        &&& t.pc == super::pc_plus(s.pc, 1)
    }
    &&& t.a == s.a
    &&& t.x == s.x
    &&& t.y == s.y
    &&& t.p == s.p
}

/// One bus cycle of plp, pull processor status.
pub(crate) open spec fn step_28(s: NesCpu, t: NesCpu) -> bool {
    &&& s.subcycle == 1 ==> super::shows(s, t, "PLP"@)
    &&& s.subcycle != 1 ==> super::keeps_debugger(s, t)
    &&& s.subcycle == 1 ==> {
        &&& t.subcycle == 2
        &&& super::read_at(t, super::pc_plus(s.pc, 1))
        &&& super::arch_same(s, t)
    }
    &&& s.subcycle == 2 ==> {
        &&& t.subcycle == 3
        &&& super::read_at(t, super::stack_addr(s.s))
        &&& super::arch_same(s, t)
    }
    &&& !(1 <= s.subcycle <= 2) ==> {
        &&& super::finished(t)
        &&& t.s == super::s_inc(s.s)
        &&& super::read_at(t, super::stack_addr(super::s_inc(s.s)))
        &&& t.pc == super::pc_plus(s.pc, 1)
        &&& t.p == (super::data(t) & !CPU_FLAG_B1) | CPU_FLAG_B2
    }
    &&& t.a == s.a
    &&& t.x == s.x
    &&& t.y == s.y
}

/// One bus cycle of pla, pull accumulator.
pub(crate) open spec fn step_68(s: NesCpu, t: NesCpu) -> bool {
    &&& s.subcycle == 1 ==> super::shows(s, t, "PLA"@)
    &&& s.subcycle != 1 ==> super::keeps_debugger(s, t)
    &&& s.subcycle == 1 ==> {
        &&& t.subcycle == 2
        &&& super::read_at(t, super::pc_plus(s.pc, 1))
        &&& super::arch_same(s, t)
    }
    &&& s.subcycle == 2 ==> {
        &&& t.subcycle == 3
        &&& super::read_at(t, super::stack_addr(s.s))
        &&& super::arch_same(s, t)
    }
    &&& !(1 <= s.subcycle <= 2) ==> {
        &&& super::finished(t)
        &&& t.s == super::s_inc(s.s)
        &&& super::read_at(t, super::stack_addr(super::s_inc(s.s)))
        &&& t.pc == super::pc_plus(s.pc, 1)
        &&& t.a == super::data(t)
        &&& t.p == super::nz_flags(s.p, super::data(t))
    }
    &&& t.x == s.x
    &&& t.y == s.y
}

/// One bus cycle of rts, return from subroutine.
pub(crate) open spec fn step_60(s: NesCpu, t: NesCpu) -> bool {
    &&& s.subcycle == 1 ==> super::shows(s, t, "RTS"@)
    &&& s.subcycle != 1 ==> super::keeps_debugger(s, t)
    &&& s.subcycle == 1 ==> {
        &&& t.subcycle == 2
        &&& super::read_at(t, super::pc_plus(s.pc, 1))
    }
    &&& s.subcycle == 2 ==> {
        &&& t.subcycle == 3
        &&& super::read_at(t, super::stack_addr(s.s))
    }
    &&& s.subcycle == 3 ==> {
        &&& t.subcycle == 4
        &&& t.s == super::s_inc(s.s)
        &&& super::read_at(t, super::stack_addr(super::s_inc(s.s)))
        &&& t.temp == super::data(t)
    }
    &&& s.subcycle == 4 ==> {
        &&& t.subcycle == 5
        &&& t.s == super::s_inc(s.s)
        &&& super::read_at(t, super::stack_addr(super::s_inc(s.s)))
        &&& t.pc == super::word(s.temp, super::data(t))
    }
    &&& !(1 <= s.subcycle <= 4) ==> {
        &&& super::finished(t)
        &&& super::read_at(t, s.pc)
        &&& t.pc == super::pc_plus(s.pc, 1)
    }
    &&& t.a == s.a
    &&& t.x == s.x
    &&& t.y == s.y
    &&& t.p == s.p
    &&& s.subcycle == 1 || s.subcycle == 2 || !(1 <= s.subcycle <= 4) ==> t.s == s.s
    &&& 1 <= s.subcycle <= 3 ==> t.pc == s.pc
}

/// One bus cycle of An opcode that jams the cpu..
pub(crate) open spec fn step_jam(s: NesCpu, t: NesCpu) -> bool {
    &&& s.subcycle == 1 ==> super::shows_text(s, t, "*JAM $"@ + super::hex_text(s.opcode.unwrap() as nat, 2, false) + ""@)
    &&& s.subcycle != 1 ==> super::keeps_debugger(s, t)
    &&& s.subcycle == 1 ==> {
        &&& t.subcycle == 2
        &&& super::arch_same(s, t)
    }
    &&& s.subcycle != 1 ==> t == s
}

impl NesCpu {
    /// brk instruction
    #[verifier::rlimit(100)]
    #[verifier::spinoff_prover]
    pub(crate) fn op_00<C: CartridgeDevice, K: ControllerDevice, P: PpuDevice, A: ApuDevice>(
        &mut self,
        bus: &mut NesMotherboard<C, K>,
        cpu_peripherals: &mut NesCpuPeripherals<P, A>,
    )
        requires
            old(self).inv(),
            !old(self).reset,
            old(self).opcode == Some(0x00u8),
            !old(self).bus_used@,
        ensures
            final(self).inv(),
            !final(self).reset,
            step_00(*old(self), *final(self)),
            final(self).opcode == old(self).opcode || super::finished(*final(self)),
            super::ram_effect(old(bus).spec_ram(), final(bus).spec_ram(), final(self).bus_used@, final(self).last_bus@),
            super::bus_effect(*old(bus), *old(cpu_peripherals), *final(bus), *final(cpu_peripherals), final(self).bus_used@, final(self).last_bus@),
            final(self).dmc_dma == old(self).dmc_dma,
            final(self).nmi_detected == old(self).nmi_detected,
            final(self).prev_nmi == old(self).prev_nmi,
    {
        {
            match self.subcycle {
                1 => {
                    {
                        self.copy_debugger("BRK".to_owned());
                        self.done_fetching = true;
                    }
                    self.memory_cycle_read(self.pc.wrapping_add(1),
                        bus,
                        cpu_peripherals,
                    );
                    self.subcycle = 2;
                }
                2 => {
                    let temp = self.pc.wrapping_add(2);
                    let pc = le_bytes(temp);
                    self.memory_cycle_write(0x100 + self.s as u16, pc[1], bus, cpu_peripherals);
                    self.s = self.s.wrapping_sub(1);
                    self.subcycle = 3;
                }
                3 => {
                    let temp = self.pc.wrapping_add(2);
                    let pc = le_bytes(temp);
                    self.memory_cycle_write(0x100 + self.s as u16, pc[0], bus, cpu_peripherals);
                    self.s = self.s.wrapping_sub(1);
                    self.subcycle = 4;
                }
                4 => {
                    //self.p |= CPU_FLAG_B1;
                    self.memory_cycle_write(
                        0x100 + self.s as u16,
                        self.p | CPU_FLAG_B1,
                        bus,
                        cpu_peripherals,
                    );
                    self.s = self.s.wrapping_sub(1);
                    self.subcycle = 5;
                }
                5 => {
                    self.temp = self.memory_cycle_read(0xfffe, bus, cpu_peripherals);
                    self.p |= CPU_FLAG_INT_DISABLE;
                    self.subcycle = 6;
                }
                _ => {
                    self.temp2 = self.memory_cycle_read(0xffff, bus, cpu_peripherals);
                    let addr: u16 = (self.temp as u16) | (self.temp2 as u16) << 8;
                    self.pc = addr;
                    self.end_instruction();
                }
            }
        }
        proof {
            super::lemma_word(old(self).temp, self.last_bus@.data);
            super::lemma_word(old(self).temp, old(self).temp2);
            super::lemma_word((((old(self).temp as int + 1) % 256) as u8), old(self).temp2);
        }
    }

    /// iny, increment y
    #[verifier::rlimit(100)]
    #[verifier::spinoff_prover]
    pub(crate) fn op_c8<C: CartridgeDevice, K: ControllerDevice, P: PpuDevice, A: ApuDevice>(
        &mut self,
        bus: &mut NesMotherboard<C, K>,
        cpu_peripherals: &mut NesCpuPeripherals<P, A>,
    )
        requires
            old(self).inv(),
            !old(self).reset,
            old(self).opcode == Some(0xc8u8),
            !old(self).bus_used@,
        ensures
            final(self).inv(),
            !final(self).reset,
            step_c8(*old(self), *final(self)),
            final(self).opcode == old(self).opcode || super::finished(*final(self)),
            super::ram_effect(old(bus).spec_ram(), final(bus).spec_ram(), final(self).bus_used@, final(self).last_bus@),
            super::bus_effect(*old(bus), *old(cpu_peripherals), *final(bus), *final(cpu_peripherals), final(self).bus_used@, final(self).last_bus@),
            final(self).dmc_dma == old(self).dmc_dma,
            final(self).nmi_detected == old(self).nmi_detected,
            final(self).prev_nmi == old(self).prev_nmi,
    {
        {
            {
                self.copy_debugger("INY".to_owned());
                self.done_fetching = true;
            }
            self.memory_cycle_read(self.pc.wrapping_add(1), bus, cpu_peripherals);
            self.y = self.y.wrapping_add(1);
            self.p &= !(CPU_FLAG_ZERO | CPU_FLAG_NEGATIVE);
            if (self.y & 0x80) != 0 {
                self.p |= CPU_FLAG_NEGATIVE;
            }
            if self.y == 0 {
                self.p |= CPU_FLAG_ZERO;
            }
            self.pc = self.pc.wrapping_add(1);
            self.end_instruction();
        }
        proof {
            super::lemma_nz(old(self).p, self.y);
        }
    }

    /// inx, increment x
    #[verifier::rlimit(100)]
    #[verifier::spinoff_prover]
    pub(crate) fn op_e8<C: CartridgeDevice, K: ControllerDevice, P: PpuDevice, A: ApuDevice>(
        &mut self,
        bus: &mut NesMotherboard<C, K>,
        cpu_peripherals: &mut NesCpuPeripherals<P, A>,
    )
        requires
            old(self).inv(),
            !old(self).reset,
            old(self).opcode == Some(0xe8u8),
            !old(self).bus_used@,
        ensures
            final(self).inv(),
            !final(self).reset,
            step_e8(*old(self), *final(self)),
            final(self).opcode == old(self).opcode || super::finished(*final(self)),
            super::ram_effect(old(bus).spec_ram(), final(bus).spec_ram(), final(self).bus_used@, final(self).last_bus@),
            super::bus_effect(*old(bus), *old(cpu_peripherals), *final(bus), *final(cpu_peripherals), final(self).bus_used@, final(self).last_bus@),
            final(self).dmc_dma == old(self).dmc_dma,
            final(self).nmi_detected == old(self).nmi_detected,
            final(self).prev_nmi == old(self).prev_nmi,
    {
        {
            {
                self.copy_debugger("INX".to_owned());
                self.done_fetching = true;
            }
            self.memory_cycle_read(self.pc.wrapping_add(1), bus, cpu_peripherals);
            self.x = self.x.wrapping_add(1);
            self.p &= !(CPU_FLAG_ZERO | CPU_FLAG_NEGATIVE);
            if (self.x & 0x80) != 0 {
                self.p |= CPU_FLAG_NEGATIVE;
            }
            if self.x == 0 {
                self.p |= CPU_FLAG_ZERO;
            }
            self.pc = self.pc.wrapping_add(1);
            self.end_instruction();
        }
        proof {
            super::lemma_nz(old(self).p, self.x);
        }
    }

    /// dey, decrement y
    #[verifier::rlimit(100)]
    #[verifier::spinoff_prover]
    pub(crate) fn op_88<C: CartridgeDevice, K: ControllerDevice, P: PpuDevice, A: ApuDevice>(
        &mut self,
        bus: &mut NesMotherboard<C, K>,
        cpu_peripherals: &mut NesCpuPeripherals<P, A>,
    )
        requires
            old(self).inv(),
            !old(self).reset,
            old(self).opcode == Some(0x88u8),
            !old(self).bus_used@,
        ensures
            final(self).inv(),
            !final(self).reset,
            step_88(*old(self), *final(self)),
            final(self).opcode == old(self).opcode || super::finished(*final(self)),
            super::ram_effect(old(bus).spec_ram(), final(bus).spec_ram(), final(self).bus_used@, final(self).last_bus@),
            super::bus_effect(*old(bus), *old(cpu_peripherals), *final(bus), *final(cpu_peripherals), final(self).bus_used@, final(self).last_bus@),
            final(self).dmc_dma == old(self).dmc_dma,
            final(self).nmi_detected == old(self).nmi_detected,
            final(self).prev_nmi == old(self).prev_nmi,
    {
        {
            {
                self.copy_debugger("DEY".to_owned());
                self.done_fetching = true;
            }
            self.memory_cycle_read(self.pc.wrapping_add(1), bus, cpu_peripherals);
            self.y = self.y.wrapping_sub(1);
            self.p &= !(CPU_FLAG_ZERO | CPU_FLAG_NEGATIVE);
            if (self.y & 0x80) != 0 {
                self.p |= CPU_FLAG_NEGATIVE;
            }
            if self.y == 0 {
                self.p |= CPU_FLAG_ZERO;
            }
            self.pc = self.pc.wrapping_add(1);
            self.end_instruction();
        }
        proof {
            super::lemma_nz(old(self).p, self.y);
        }
    }

    /// dex, decrement x
    #[verifier::rlimit(100)]
    #[verifier::spinoff_prover]
    pub(crate) fn op_ca<C: CartridgeDevice, K: ControllerDevice, P: PpuDevice, A: ApuDevice>(
        &mut self,
        bus: &mut NesMotherboard<C, K>,
        cpu_peripherals: &mut NesCpuPeripherals<P, A>,
    )
        requires
            old(self).inv(),
            !old(self).reset,
            old(self).opcode == Some(0xcau8),
            !old(self).bus_used@,
        ensures
            final(self).inv(),
            !final(self).reset,
            step_ca(*old(self), *final(self)),
            final(self).opcode == old(self).opcode || super::finished(*final(self)),
            super::ram_effect(old(bus).spec_ram(), final(bus).spec_ram(), final(self).bus_used@, final(self).last_bus@),
            super::bus_effect(*old(bus), *old(cpu_peripherals), *final(bus), *final(cpu_peripherals), final(self).bus_used@, final(self).last_bus@),
            final(self).dmc_dma == old(self).dmc_dma,
            final(self).nmi_detected == old(self).nmi_detected,
            final(self).prev_nmi == old(self).prev_nmi,
    {
        {
            {
                self.copy_debugger("DEX".to_owned());
                self.done_fetching = true;
            }
            self.memory_cycle_read(self.pc.wrapping_add(1), bus, cpu_peripherals);
            self.x = self.x.wrapping_sub(1);
            self.p &= !(CPU_FLAG_ZERO | CPU_FLAG_NEGATIVE);
            if (self.x & 0x80) != 0 {
                self.p |= CPU_FLAG_NEGATIVE;
            }
            if self.x == 0 {
                self.p |= CPU_FLAG_ZERO;
            }
            self.pc = self.pc.wrapping_add(1);
            self.end_instruction();
        }
        proof {
            super::lemma_nz(old(self).p, self.x);
        }
    }

    /// tay, transfer accumulator to y
    #[verifier::rlimit(100)]
    #[verifier::spinoff_prover]
    pub(crate) fn op_a8<C: CartridgeDevice, K: ControllerDevice, P: PpuDevice, A: ApuDevice>(
        &mut self,
        bus: &mut NesMotherboard<C, K>,
        cpu_peripherals: &mut NesCpuPeripherals<P, A>,
    )
        requires
            old(self).inv(),
            !old(self).reset,
            old(self).opcode == Some(0xa8u8),
            !old(self).bus_used@,
        ensures
            final(self).inv(),
            !final(self).reset,
            step_a8(*old(self), *final(self)),
            final(self).opcode == old(self).opcode || super::finished(*final(self)),
            super::ram_effect(old(bus).spec_ram(), final(bus).spec_ram(), final(self).bus_used@, final(self).last_bus@),
            super::bus_effect(*old(bus), *old(cpu_peripherals), *final(bus), *final(cpu_peripherals), final(self).bus_used@, final(self).last_bus@),
            final(self).dmc_dma == old(self).dmc_dma,
            final(self).nmi_detected == old(self).nmi_detected,
            final(self).prev_nmi == old(self).prev_nmi,
    {
        {
            {
                self.copy_debugger("TAY".to_owned());
                self.done_fetching = true;
            }
            self.memory_cycle_read(self.pc.wrapping_add(1), bus, cpu_peripherals);
            self.y = self.a;
            self.p &= !(CPU_FLAG_ZERO | CPU_FLAG_NEGATIVE);
            if (self.y & 0x80) != 0 {
                self.p |= CPU_FLAG_NEGATIVE;
            }
            if self.y == 0 {
                self.p |= CPU_FLAG_ZERO;
            }
            self.pc = self.pc.wrapping_add(1);
            self.end_instruction();
        }
        proof {
            super::lemma_nz(old(self).p, old(self).a);
        }
    }

    /// tax, transfer accumulator to x
    #[verifier::rlimit(100)]
    #[verifier::spinoff_prover]
    pub(crate) fn op_aa<C: CartridgeDevice, K: ControllerDevice, P: PpuDevice, A: ApuDevice>(
        &mut self,
        bus: &mut NesMotherboard<C, K>,
        cpu_peripherals: &mut NesCpuPeripherals<P, A>,
    )
        requires
            old(self).inv(),
            !old(self).reset,
            old(self).opcode == Some(0xaau8),
            !old(self).bus_used@,
        ensures
            final(self).inv(),
            !final(self).reset,
            step_aa(*old(self), *final(self)),
            final(self).opcode == old(self).opcode || super::finished(*final(self)),
            super::ram_effect(old(bus).spec_ram(), final(bus).spec_ram(), final(self).bus_used@, final(self).last_bus@),
            super::bus_effect(*old(bus), *old(cpu_peripherals), *final(bus), *final(cpu_peripherals), final(self).bus_used@, final(self).last_bus@),
            final(self).dmc_dma == old(self).dmc_dma,
            final(self).nmi_detected == old(self).nmi_detected,
            final(self).prev_nmi == old(self).prev_nmi,
    {
        {
            {
                self.copy_debugger("TAX".to_owned());
                self.done_fetching = true;
            }
            self.memory_cycle_read(self.pc.wrapping_add(1), bus, cpu_peripherals);
            self.x = self.a;
            self.p &= !(CPU_FLAG_ZERO | CPU_FLAG_NEGATIVE);
            if (self.x & 0x80) != 0 {
                self.p |= CPU_FLAG_NEGATIVE;
            }
            if self.x == 0 {
                self.p |= CPU_FLAG_ZERO;
            }
            self.pc = self.pc.wrapping_add(1);
            self.end_instruction();
        }
        proof {
            super::lemma_nz(old(self).p, old(self).a);
        }
    }

    /// tya, transfer y to accumulator
    #[verifier::rlimit(100)]
    #[verifier::spinoff_prover]
    pub(crate) fn op_98<C: CartridgeDevice, K: ControllerDevice, P: PpuDevice, A: ApuDevice>(
        &mut self,
        bus: &mut NesMotherboard<C, K>,
        cpu_peripherals: &mut NesCpuPeripherals<P, A>,
    )
        requires
            old(self).inv(),
            !old(self).reset,
            old(self).opcode == Some(0x98u8),
            !old(self).bus_used@,
        ensures
            final(self).inv(),
            !final(self).reset,
            step_98(*old(self), *final(self)),
            final(self).opcode == old(self).opcode || super::finished(*final(self)),
            super::ram_effect(old(bus).spec_ram(), final(bus).spec_ram(), final(self).bus_used@, final(self).last_bus@),
            super::bus_effect(*old(bus), *old(cpu_peripherals), *final(bus), *final(cpu_peripherals), final(self).bus_used@, final(self).last_bus@),
            final(self).dmc_dma == old(self).dmc_dma,
            final(self).nmi_detected == old(self).nmi_detected,
            final(self).prev_nmi == old(self).prev_nmi,
    {
        {
            {
                self.copy_debugger("TYA".to_owned());
                self.done_fetching = true;
            }
            self.memory_cycle_read(self.pc.wrapping_add(1), bus, cpu_peripherals);
            self.a = self.y;
            self.p &= !(CPU_FLAG_ZERO | CPU_FLAG_NEGATIVE);
            if (self.a & 0x80) != 0 {
                self.p |= CPU_FLAG_NEGATIVE;
            }
            if self.a == 0 {
                self.p |= CPU_FLAG_ZERO;
            }
            self.pc = self.pc.wrapping_add(1);
            self.end_instruction();
        }
        proof {
            super::lemma_nz(old(self).p, old(self).y);
        }
    }

    /// txa, transfer x to accumulator
    #[verifier::rlimit(100)]
    #[verifier::spinoff_prover]
    pub(crate) fn op_8a<C: CartridgeDevice, K: ControllerDevice, P: PpuDevice, A: ApuDevice>(
        &mut self,
        bus: &mut NesMotherboard<C, K>,
        cpu_peripherals: &mut NesCpuPeripherals<P, A>,
    )
        requires
            old(self).inv(),
            !old(self).reset,
            old(self).opcode == Some(0x8au8),
            !old(self).bus_used@,
        ensures
            final(self).inv(),
            !final(self).reset,
            step_8a(*old(self), *final(self)),
            final(self).opcode == old(self).opcode || super::finished(*final(self)),
            super::ram_effect(old(bus).spec_ram(), final(bus).spec_ram(), final(self).bus_used@, final(self).last_bus@),
            super::bus_effect(*old(bus), *old(cpu_peripherals), *final(bus), *final(cpu_peripherals), final(self).bus_used@, final(self).last_bus@),
            final(self).dmc_dma == old(self).dmc_dma,
            final(self).nmi_detected == old(self).nmi_detected,
            final(self).prev_nmi == old(self).prev_nmi,
    {
        {
            {
                self.copy_debugger("TXA".to_owned());
                self.done_fetching = true;
            }
            self.memory_cycle_read(self.pc.wrapping_add(1), bus, cpu_peripherals);
            self.a = self.x;
            self.p &= !(CPU_FLAG_ZERO | CPU_FLAG_NEGATIVE);
            if (self.a & 0x80) != 0 {
                self.p |= CPU_FLAG_NEGATIVE;
            }
            if self.a == 0 {
                self.p |= CPU_FLAG_ZERO;
            }
            self.pc = self.pc.wrapping_add(1);
            self.end_instruction();
        }
        proof {
            super::lemma_nz(old(self).p, old(self).x);
        }
    }

    /// tsx, transfer stack pointer to x
    #[verifier::rlimit(100)]
    #[verifier::spinoff_prover]
    pub(crate) fn op_ba<C: CartridgeDevice, K: ControllerDevice, P: PpuDevice, A: ApuDevice>(
        &mut self,
        bus: &mut NesMotherboard<C, K>,
        cpu_peripherals: &mut NesCpuPeripherals<P, A>,
    )
        requires
            old(self).inv(),
            !old(self).reset,
            old(self).opcode == Some(0xbau8),
            !old(self).bus_used@,
        ensures
            final(self).inv(),
            !final(self).reset,
            step_ba(*old(self), *final(self)),
            final(self).opcode == old(self).opcode || super::finished(*final(self)),
            super::ram_effect(old(bus).spec_ram(), final(bus).spec_ram(), final(self).bus_used@, final(self).last_bus@),
            super::bus_effect(*old(bus), *old(cpu_peripherals), *final(bus), *final(cpu_peripherals), final(self).bus_used@, final(self).last_bus@),
            final(self).dmc_dma == old(self).dmc_dma,
            final(self).nmi_detected == old(self).nmi_detected,
            final(self).prev_nmi == old(self).prev_nmi,
    {
        {
            {
                self.copy_debugger("TSX".to_owned());
                self.done_fetching = true;
            }
            self.memory_cycle_read(self.pc.wrapping_add(1), bus, cpu_peripherals);
            self.x = self.s;
            self.p &= !(CPU_FLAG_ZERO | CPU_FLAG_NEGATIVE);
            if (self.x & 0x80) != 0 {
                self.p |= CPU_FLAG_NEGATIVE;
            }
            if self.x == 0 {
                self.p |= CPU_FLAG_ZERO;
            }
            self.pc = self.pc.wrapping_add(1);
            self.end_instruction();
        }
        proof {
            super::lemma_nz(old(self).p, old(self).s);
        }
    }

    /// txs, transfer x to stack pointer
    #[verifier::rlimit(100)]
    #[verifier::spinoff_prover]
    pub(crate) fn op_9a<C: CartridgeDevice, K: ControllerDevice, P: PpuDevice, A: ApuDevice>(
        &mut self,
        bus: &mut NesMotherboard<C, K>,
        cpu_peripherals: &mut NesCpuPeripherals<P, A>,
    )
        requires
            old(self).inv(),
            !old(self).reset,
            old(self).opcode == Some(0x9au8),
            !old(self).bus_used@,
        ensures
            final(self).inv(),
            !final(self).reset,
            step_9a(*old(self), *final(self)),
            final(self).opcode == old(self).opcode || super::finished(*final(self)),
            super::ram_effect(old(bus).spec_ram(), final(bus).spec_ram(), final(self).bus_used@, final(self).last_bus@),
            super::bus_effect(*old(bus), *old(cpu_peripherals), *final(bus), *final(cpu_peripherals), final(self).bus_used@, final(self).last_bus@),
            final(self).dmc_dma == old(self).dmc_dma,
            final(self).nmi_detected == old(self).nmi_detected,
            final(self).prev_nmi == old(self).prev_nmi,
    {
        {
            {
                self.copy_debugger("TXS".to_owned());
                self.done_fetching = true;
            }
            self.memory_cycle_read(self.pc.wrapping_add(1), bus, cpu_peripherals);
            self.s = self.x;
            self.pc = self.pc.wrapping_add(1);
            self.end_instruction();
        }
    }

    /// jmp absolute
    #[verifier::rlimit(100)]
    #[verifier::spinoff_prover]
    pub(crate) fn op_4c<C: CartridgeDevice, K: ControllerDevice, P: PpuDevice, A: ApuDevice>(
        &mut self,
        bus: &mut NesMotherboard<C, K>,
        cpu_peripherals: &mut NesCpuPeripherals<P, A>,
    )
        requires
            old(self).inv(),
            !old(self).reset,
            old(self).opcode == Some(0x4cu8),
            !old(self).bus_used@,
        ensures
            final(self).inv(),
            !final(self).reset,
            step_4c(*old(self), *final(self)),
            final(self).opcode == old(self).opcode || super::finished(*final(self)),
            super::ram_effect(old(bus).spec_ram(), final(bus).spec_ram(), final(self).bus_used@, final(self).last_bus@),
            super::bus_effect(*old(bus), *old(cpu_peripherals), *final(bus), *final(cpu_peripherals), final(self).bus_used@, final(self).last_bus@),
            final(self).dmc_dma == old(self).dmc_dma,
            final(self).nmi_detected == old(self).nmi_detected,
            final(self).prev_nmi == old(self).prev_nmi,
    {
        {
            match self.subcycle {
                1 => {
                    self.temp = self.memory_cycle_read(self.pc.wrapping_add(1),
                        bus,
                        cpu_peripherals,
                    );
                    self.subcycle = 2;
                }
                _ => {
                    let t2 = self.memory_cycle_read(self.pc.wrapping_add(2),
                        bus,
                        cpu_peripherals,
                    );
                    let newpc: u16 = (self.temp as u16) | (t2 as u16) << 8;
                    {
                        self.copy_debugger(hex16_text("JMP $", newpc, ""));
                        self.done_fetching = true;
                    }
                    self.pc = newpc;
                    self.end_instruction();
                }
            }
        }
        proof {
            super::lemma_word(old(self).temp, old(self).temp2);
            super::lemma_word(old(self).temp, self.last_bus@.data);
            super::lemma_word(old(self).temp, old(self).temp2);
            super::lemma_word((((old(self).temp as int + 1) % 256) as u8), old(self).temp2);
        }
    }

    /// jmp indirect
    #[verifier::rlimit(100)]
    #[verifier::spinoff_prover]
    pub(crate) fn op_6c<C: CartridgeDevice, K: ControllerDevice, P: PpuDevice, A: ApuDevice>(
        &mut self,
        bus: &mut NesMotherboard<C, K>,
        cpu_peripherals: &mut NesCpuPeripherals<P, A>,
    )
        requires
            old(self).inv(),
            !old(self).reset,
            old(self).opcode == Some(0x6cu8),
            !old(self).bus_used@,
        ensures
            final(self).inv(),
            !final(self).reset,
            step_6c(*old(self), *final(self)),
            final(self).opcode == old(self).opcode || super::finished(*final(self)),
            super::ram_effect(old(bus).spec_ram(), final(bus).spec_ram(), final(self).bus_used@, final(self).last_bus@),
            super::bus_effect(*old(bus), *old(cpu_peripherals), *final(bus), *final(cpu_peripherals), final(self).bus_used@, final(self).last_bus@),
            final(self).dmc_dma == old(self).dmc_dma,
            final(self).nmi_detected == old(self).nmi_detected,
            final(self).prev_nmi == old(self).prev_nmi,
    {
        {
            match self.subcycle {
                1 => {
                    self.temp = self.memory_cycle_read(self.pc.wrapping_add(1),
                        bus,
                        cpu_peripherals,
                    );
                    self.subcycle = 2;
                }
                2 => {
                    self.temp2 = self.memory_cycle_read(self.pc.wrapping_add(2),
                        bus,
                        cpu_peripherals,
                    );
                    {
                        let temp = (self.temp2 as u16) << 8 | self.temp as u16;
                        self.copy_debugger(hex16_text("JMP ($", temp, ")"));
                        self.done_fetching = true;
                    }
                    proof {
                        super::lemma_word(self.temp, self.temp2);
                    }
                    self.tempaddr = (self.temp2 as u16) << 8 | (self.temp as u16);
                    self.subcycle = 3;
                }
                3 => {
                    let temp = self.temp;
                    self.temp =
                    self.memory_cycle_read(self.tempaddr, bus, cpu_peripherals);
                    self.tempaddr = (self.temp2 as u16) << 8 | (temp.wrapping_add(1) as u16);
                    self.subcycle = 4;
                }
                _ => {
                    self.temp2 =
                    self.memory_cycle_read(self.tempaddr, bus, cpu_peripherals);
                    self.pc = (self.temp2 as u16) << 8 | (self.temp as u16);
                    self.end_instruction();
                }
            }
        }
        proof {
            super::lemma_word(old(self).temp, self.last_bus@.data);
            super::lemma_word(old(self).temp, old(self).temp2);
            super::lemma_word((((old(self).temp as int + 1) % 256) as u8), old(self).temp2);
        }
    }

    /// lsr logical shift right, accumulator
    #[verifier::rlimit(100)]
    #[verifier::spinoff_prover]
    pub(crate) fn op_4a<C: CartridgeDevice, K: ControllerDevice, P: PpuDevice, A: ApuDevice>(
        &mut self,
        bus: &mut NesMotherboard<C, K>,
        cpu_peripherals: &mut NesCpuPeripherals<P, A>,
    )
        requires
            old(self).inv(),
            !old(self).reset,
            old(self).opcode == Some(0x4au8),
            !old(self).bus_used@,
        ensures
            final(self).inv(),
            !final(self).reset,
            step_4a(*old(self), *final(self)),
            final(self).opcode == old(self).opcode || super::finished(*final(self)),
            super::ram_effect(old(bus).spec_ram(), final(bus).spec_ram(), final(self).bus_used@, final(self).last_bus@),
            super::bus_effect(*old(bus), *old(cpu_peripherals), *final(bus), *final(cpu_peripherals), final(self).bus_used@, final(self).last_bus@),
            final(self).dmc_dma == old(self).dmc_dma,
            final(self).nmi_detected == old(self).nmi_detected,
            final(self).prev_nmi == old(self).prev_nmi,
    {
        {
            {
                self.copy_debugger("LSR A".to_owned());
                self.done_fetching = true;
            }
            self.memory_cycle_read(self.pc.wrapping_add(1), bus, cpu_peripherals);
            self.p &= !(CPU_FLAG_CARRY | CPU_FLAG_ZERO | CPU_FLAG_NEGATIVE);
            if (self.a & 1) != 0 {
                self.p |= CPU_FLAG_CARRY;
            }
            self.a >>= 1;
            if self.a == 0 {
                self.p |= CPU_FLAG_ZERO;
            }
            if (self.a & 0x80) != 0 {
                self.p |= CPU_FLAG_NEGATIVE;
            }
            self.pc = self.pc.wrapping_add(1);
            self.end_instruction();
        }
        proof {
            super::lemma_byte_ops(old(self).a, self.last_bus@.data);
            super::lemma_shift_flags(old(self).p, self.a, (old(self).a & 0x80) != 0);
            super::lemma_shift_flags(old(self).p, self.a, (old(self).a & 1) != 0);
        }
    }

    /// asl, arithmetic shift left accumulator
    #[verifier::rlimit(100)]
    #[verifier::spinoff_prover]
    pub(crate) fn op_0a<C: CartridgeDevice, K: ControllerDevice, P: PpuDevice, A: ApuDevice>(
        &mut self,
        bus: &mut NesMotherboard<C, K>,
        cpu_peripherals: &mut NesCpuPeripherals<P, A>,
    )
        requires
            old(self).inv(),
            !old(self).reset,
            old(self).opcode == Some(0x0au8),
            !old(self).bus_used@,
        ensures
            final(self).inv(),
            !final(self).reset,
            step_0a(*old(self), *final(self)),
            final(self).opcode == old(self).opcode || super::finished(*final(self)),
            super::ram_effect(old(bus).spec_ram(), final(bus).spec_ram(), final(self).bus_used@, final(self).last_bus@),
            super::bus_effect(*old(bus), *old(cpu_peripherals), *final(bus), *final(cpu_peripherals), final(self).bus_used@, final(self).last_bus@),
            final(self).dmc_dma == old(self).dmc_dma,
            final(self).nmi_detected == old(self).nmi_detected,
            final(self).prev_nmi == old(self).prev_nmi,
    {
        {
            {
                self.copy_debugger("ASL A".to_owned());
                self.done_fetching = true;
            }
            self.memory_cycle_read(self.pc.wrapping_add(1), bus, cpu_peripherals);
            self.p &= !(CPU_FLAG_CARRY | CPU_FLAG_ZERO | CPU_FLAG_NEGATIVE);
            if (self.a & 0x80) != 0 {
                self.p |= CPU_FLAG_CARRY;
            }
            self.a <<= 1;
            if self.a == 0 {
                self.p |= CPU_FLAG_ZERO;
            }
            if (self.a & 0x80) != 0 {
                self.p |= CPU_FLAG_NEGATIVE;
            }
            self.pc = self.pc.wrapping_add(1);
            self.end_instruction();
        }
        proof {
            super::lemma_byte_ops(old(self).a, self.last_bus@.data);
            super::lemma_shift_flags(old(self).p, self.a, (old(self).a & 0x80) != 0);
            super::lemma_shift_flags(old(self).p, self.a, (old(self).a & 1) != 0);
        }
    }

    /// ror rotate right accumulator
    #[verifier::rlimit(100)]
    #[verifier::spinoff_prover]
    pub(crate) fn op_6a<C: CartridgeDevice, K: ControllerDevice, P: PpuDevice, A: ApuDevice>(
        &mut self,
        bus: &mut NesMotherboard<C, K>,
        cpu_peripherals: &mut NesCpuPeripherals<P, A>,
    )
        requires
            old(self).inv(),
            !old(self).reset,
            old(self).opcode == Some(0x6au8),
            !old(self).bus_used@,
        ensures
            final(self).inv(),
            !final(self).reset,
            step_6a(*old(self), *final(self)),
            final(self).opcode == old(self).opcode || super::finished(*final(self)),
            super::ram_effect(old(bus).spec_ram(), final(bus).spec_ram(), final(self).bus_used@, final(self).last_bus@),
            super::bus_effect(*old(bus), *old(cpu_peripherals), *final(bus), *final(cpu_peripherals), final(self).bus_used@, final(self).last_bus@),
            final(self).dmc_dma == old(self).dmc_dma,
            final(self).nmi_detected == old(self).nmi_detected,
            final(self).prev_nmi == old(self).prev_nmi,
    {
        {
            self.memory_cycle_read(self.pc.wrapping_add(1), bus, cpu_peripherals);
            {
                self.copy_debugger("ROR A".to_owned());
                self.done_fetching = true;
            }
            let old_carry = (self.p & CPU_FLAG_CARRY) != 0;
            self.p &= !(CPU_FLAG_CARRY | CPU_FLAG_ZERO | CPU_FLAG_NEGATIVE);
            if (self.a & 1) != 0 {
                self.p |= CPU_FLAG_CARRY;
            }
            self.a >>= 1;
            if old_carry {
                self.a |= 0x80;
            }
            if self.a == 0 {
                self.p |= CPU_FLAG_ZERO;
            }
            if (self.a & 0x80) != 0 {
                self.p |= CPU_FLAG_NEGATIVE;
            }
            self.pc = self.pc.wrapping_add(1);
            self.end_instruction();
        }
        proof {
            super::lemma_byte_ops(old(self).a, self.last_bus@.data);
            super::lemma_shift_flags(old(self).p, self.a, (old(self).a & 0x80) != 0);
            super::lemma_shift_flags(old(self).p, self.a, (old(self).a & 1) != 0);
        }
    }

    /// rol accumulator
    #[verifier::rlimit(100)]
    #[verifier::spinoff_prover]
    pub(crate) fn op_2a<C: CartridgeDevice, K: ControllerDevice, P: PpuDevice, A: ApuDevice>(
        &mut self,
        bus: &mut NesMotherboard<C, K>,
        cpu_peripherals: &mut NesCpuPeripherals<P, A>,
    )
        requires
            old(self).inv(),
            !old(self).reset,
            old(self).opcode == Some(0x2au8),
            !old(self).bus_used@,
        ensures
            final(self).inv(),
            !final(self).reset,
            step_2a(*old(self), *final(self)),
            final(self).opcode == old(self).opcode || super::finished(*final(self)),
            super::ram_effect(old(bus).spec_ram(), final(bus).spec_ram(), final(self).bus_used@, final(self).last_bus@),
            super::bus_effect(*old(bus), *old(cpu_peripherals), *final(bus), *final(cpu_peripherals), final(self).bus_used@, final(self).last_bus@),
            final(self).dmc_dma == old(self).dmc_dma,
            final(self).nmi_detected == old(self).nmi_detected,
            final(self).prev_nmi == old(self).prev_nmi,
    {
        {
            self.memory_cycle_read(self.pc.wrapping_add(1), bus, cpu_peripherals);
            {
                self.copy_debugger("ROL A".to_owned());
                self.done_fetching = true;
            }
            let old_carry = (self.p & CPU_FLAG_CARRY) != 0;
            self.p &= !(CPU_FLAG_CARRY | CPU_FLAG_ZERO | CPU_FLAG_NEGATIVE);
            if (self.a & 0x80) != 0 {
                self.p |= CPU_FLAG_CARRY;
            }
            self.a <<= 1;
            if old_carry {
                self.a |= 0x1;
            }
            if self.a == 0 {
                self.p |= CPU_FLAG_ZERO;
            }
            if (self.a & 0x80) != 0 {
                self.p |= CPU_FLAG_NEGATIVE;
            }
            self.pc = self.pc.wrapping_add(1);
            self.end_instruction();
        }
        proof {
            super::lemma_byte_ops(old(self).a, self.last_bus@.data);
            super::lemma_shift_flags(old(self).p, self.a, (old(self).a & 0x80) != 0);
            super::lemma_shift_flags(old(self).p, self.a, (old(self).a & 1) != 0);
        }
    }

    /// rti, return from interrupt
    #[verifier::rlimit(100)]
    #[verifier::spinoff_prover]
    pub(crate) fn op_40<C: CartridgeDevice, K: ControllerDevice, P: PpuDevice, A: ApuDevice>(
        &mut self,
        bus: &mut NesMotherboard<C, K>,
        cpu_peripherals: &mut NesCpuPeripherals<P, A>,
    )
        requires
            old(self).inv(),
            !old(self).reset,
            old(self).opcode == Some(0x40u8),
            !old(self).bus_used@,
        ensures
            final(self).inv(),
            !final(self).reset,
            step_40(*old(self), *final(self)),
            final(self).opcode == old(self).opcode || super::finished(*final(self)),
            super::ram_effect(old(bus).spec_ram(), final(bus).spec_ram(), final(self).bus_used@, final(self).last_bus@),
            super::bus_effect(*old(bus), *old(cpu_peripherals), *final(bus), *final(cpu_peripherals), final(self).bus_used@, final(self).last_bus@),
            final(self).dmc_dma == old(self).dmc_dma,
            final(self).nmi_detected == old(self).nmi_detected,
            final(self).prev_nmi == old(self).prev_nmi,
    {
        {
            match self.subcycle {
                1 => {
                    {
                        self.copy_debugger("RTI".to_owned());
                        self.done_fetching = true;
                    }
                    self.memory_cycle_read(self.pc.wrapping_add(1),
                        bus,
                        cpu_peripherals,
                    );

                    self.subcycle = 2;
                }
                2 => {
                    self.memory_cycle_read(0x100 + self.s as u16, bus, cpu_peripherals);
                    self.s = self.s.wrapping_add(1);
                    self.subcycle = 3;
                }
                3 => {
                    self.p = self.memory_cycle_read(0x100 + self.s as u16,
                        bus,
                        cpu_peripherals,
                    );
                    self.p &= !CPU_FLAG_B1;
                    self.p |= CPU_FLAG_B2;
                    self.s = self.s.wrapping_add(1);
                    self.subcycle = 4;
                }
                4 => {
                    self.temp = self.memory_cycle_read(0x100 + self.s as u16,
                        bus,
                        cpu_peripherals,
                    );
                    self.s = self.s.wrapping_add(1);
                    self.subcycle = 5;
                }
                _ => {
                    self.temp2 = self.memory_cycle_read(0x100 + self.s as u16,
                        bus,
                        cpu_peripherals,
                    );
                    self.pc = (self.temp2 as u16) << 8 | self.temp as u16;
                    self.end_instruction();
                }
            }
        }
        proof {
            super::lemma_word(old(self).temp, self.last_bus@.data);
            super::lemma_word(old(self).temp, old(self).temp2);
            super::lemma_word((((old(self).temp as int + 1) % 256) as u8), old(self).temp2);
        }
    }

    /// jsr absolute
    #[verifier::rlimit(100)]
    #[verifier::spinoff_prover]
    pub(crate) fn op_20<C: CartridgeDevice, K: ControllerDevice, P: PpuDevice, A: ApuDevice>(
        &mut self,
        bus: &mut NesMotherboard<C, K>,
        cpu_peripherals: &mut NesCpuPeripherals<P, A>,
    )
        requires
            old(self).inv(),
            !old(self).reset,
            old(self).opcode == Some(0x20u8),
            !old(self).bus_used@,
        ensures
            final(self).inv(),
            !final(self).reset,
            step_20(*old(self), *final(self)),
            final(self).opcode == old(self).opcode || super::finished(*final(self)),
            super::ram_effect(old(bus).spec_ram(), final(bus).spec_ram(), final(self).bus_used@, final(self).last_bus@),
            super::bus_effect(*old(bus), *old(cpu_peripherals), *final(bus), *final(cpu_peripherals), final(self).bus_used@, final(self).last_bus@),
            final(self).dmc_dma == old(self).dmc_dma,
            final(self).nmi_detected == old(self).nmi_detected,
            final(self).prev_nmi == old(self).prev_nmi,
    {
        {
            match self.subcycle {
                1 => {
                    self.temp = self.memory_cycle_read(self.pc.wrapping_add(1),
                        bus,
                        cpu_peripherals,
                    );
                    self.subcycle = 2;
                }
                2 => {
                    self.memory_cycle_read(0x100 + self.s as u16, bus, cpu_peripherals);
                    self.subcycle = 3;
                }
                3 => {
                    let pc = le_bytes(self.pc.wrapping_add(2));
                    self.memory_cycle_write(0x100 + self.s as u16, pc[1], bus, cpu_peripherals);
                    self.s = self.s.wrapping_sub(1);
                    self.subcycle = 4;
                }
                4 => {
                    let pc = le_bytes(self.pc.wrapping_add(2));
                    self.memory_cycle_write(0x100 + self.s as u16, pc[0], bus, cpu_peripherals);
                    self.s = self.s.wrapping_sub(1);
                    self.subcycle = 5;
                }
                _ => {
                    let t2 = self.memory_cycle_read(self.pc.wrapping_add(2),
                        bus,
                        cpu_peripherals,
                    );
                    let newpc: u16 = (self.temp as u16) | (t2 as u16) << 8;
                    {
                        self.copy_debugger(hex16_text("JSR $", newpc, ""));
                        self.done_fetching = true;
                    }
                    self.pc = newpc;
                    self.end_instruction();
                }
            }
        }
        proof {
            super::lemma_word(old(self).temp, old(self).temp2);
            super::lemma_word(old(self).temp, self.last_bus@.data);
            super::lemma_word(old(self).temp, old(self).temp2);
            super::lemma_word((((old(self).temp as int + 1) % 256) as u8), old(self).temp2);
        }
    }

    /// nop
    #[verifier::rlimit(100)]
    #[verifier::spinoff_prover]
    pub(crate) fn op_1a<C: CartridgeDevice, K: ControllerDevice, P: PpuDevice, A: ApuDevice>(
        &mut self,
        bus: &mut NesMotherboard<C, K>,
        cpu_peripherals: &mut NesCpuPeripherals<P, A>,
    )
        requires
            old(self).inv(),
            !old(self).reset,
            old(self).opcode is Some,
            !old(self).bus_used@,
        ensures
            final(self).inv(),
            !final(self).reset,
            step_1a(*old(self), *final(self)),
            final(self).opcode == old(self).opcode || super::finished(*final(self)),
            super::ram_effect(old(bus).spec_ram(), final(bus).spec_ram(), final(self).bus_used@, final(self).last_bus@),
            super::bus_effect(*old(bus), *old(cpu_peripherals), *final(bus), *final(cpu_peripherals), final(self).bus_used@, final(self).last_bus@),
            final(self).dmc_dma == old(self).dmc_dma,
            final(self).nmi_detected == old(self).nmi_detected,
            final(self).prev_nmi == old(self).prev_nmi,
    {
        {
            {
                self.copy_debugger("NOP".to_owned());
                self.done_fetching = true;
            }
            self.memory_cycle_read(self.pc.wrapping_add(1), bus, cpu_peripherals);
            self.pc = self.pc.wrapping_add(1);
            self.end_instruction();
        }
    }

    /// clv, clear overflow flag
    #[verifier::rlimit(100)]
    #[verifier::spinoff_prover]
    pub(crate) fn op_b8<C: CartridgeDevice, K: ControllerDevice, P: PpuDevice, A: ApuDevice>(
        &mut self,
        bus: &mut NesMotherboard<C, K>,
        cpu_peripherals: &mut NesCpuPeripherals<P, A>,
    )
        requires
            old(self).inv(),
            !old(self).reset,
            old(self).opcode == Some(0xb8u8),
            !old(self).bus_used@,
        ensures
            final(self).inv(),
            !final(self).reset,
            step_b8(*old(self), *final(self)),
            final(self).opcode == old(self).opcode || super::finished(*final(self)),
            super::ram_effect(old(bus).spec_ram(), final(bus).spec_ram(), final(self).bus_used@, final(self).last_bus@),
            super::bus_effect(*old(bus), *old(cpu_peripherals), *final(bus), *final(cpu_peripherals), final(self).bus_used@, final(self).last_bus@),
            final(self).dmc_dma == old(self).dmc_dma,
            final(self).nmi_detected == old(self).nmi_detected,
            final(self).prev_nmi == old(self).prev_nmi,
    {
        {
            {
                self.copy_debugger("CLV".to_owned());
                self.done_fetching = true;
            }
            self.memory_cycle_read(self.pc.wrapping_add(1), bus, cpu_peripherals);
            self.p &= !CPU_FLAG_OVERFLOW;
            self.pc = self.pc.wrapping_add(1);
            self.end_instruction();
        }
    }

    /// sec set carry flag
    #[verifier::rlimit(100)]
    #[verifier::spinoff_prover]
    pub(crate) fn op_38<C: CartridgeDevice, K: ControllerDevice, P: PpuDevice, A: ApuDevice>(
        &mut self,
        bus: &mut NesMotherboard<C, K>,
        cpu_peripherals: &mut NesCpuPeripherals<P, A>,
    )
        requires
            old(self).inv(),
            !old(self).reset,
            old(self).opcode == Some(0x38u8),
            !old(self).bus_used@,
        ensures
            final(self).inv(),
            !final(self).reset,
            step_38(*old(self), *final(self)),
            final(self).opcode == old(self).opcode || super::finished(*final(self)),
            super::ram_effect(old(bus).spec_ram(), final(bus).spec_ram(), final(self).bus_used@, final(self).last_bus@),
            super::bus_effect(*old(bus), *old(cpu_peripherals), *final(bus), *final(cpu_peripherals), final(self).bus_used@, final(self).last_bus@),
            final(self).dmc_dma == old(self).dmc_dma,
            final(self).nmi_detected == old(self).nmi_detected,
            final(self).prev_nmi == old(self).prev_nmi,
    {
        {
            {
                self.copy_debugger("SEC".to_owned());
                self.done_fetching = true;
            }
            self.memory_cycle_read(self.pc.wrapping_add(1), bus, cpu_peripherals);
            self.p |= CPU_FLAG_CARRY;
            self.pc = self.pc.wrapping_add(1);
            self.end_instruction();
        }
    }

    /// sei set interrupt disable flag
    #[verifier::rlimit(100)]
    #[verifier::spinoff_prover]
    pub(crate) fn op_78<C: CartridgeDevice, K: ControllerDevice, P: PpuDevice, A: ApuDevice>(
        &mut self,
        bus: &mut NesMotherboard<C, K>,
        cpu_peripherals: &mut NesCpuPeripherals<P, A>,
    )
        requires
            old(self).inv(),
            !old(self).reset,
            old(self).opcode == Some(0x78u8),
            !old(self).bus_used@,
        ensures
            final(self).inv(),
            !final(self).reset,
            step_78(*old(self), *final(self)),
            final(self).opcode == old(self).opcode || super::finished(*final(self)),
            super::ram_effect(old(bus).spec_ram(), final(bus).spec_ram(), final(self).bus_used@, final(self).last_bus@),
            super::bus_effect(*old(bus), *old(cpu_peripherals), *final(bus), *final(cpu_peripherals), final(self).bus_used@, final(self).last_bus@),
            final(self).dmc_dma == old(self).dmc_dma,
            final(self).nmi_detected == old(self).nmi_detected,
            final(self).prev_nmi == old(self).prev_nmi,
    {
        {
            {
                self.copy_debugger("SEI".to_owned());
                self.done_fetching = true;
            }
            self.memory_cycle_read(self.pc.wrapping_add(1), bus, cpu_peripherals);
            self.pc = self.pc.wrapping_add(1);
            self.end_instruction();
            self.p |= CPU_FLAG_INT_DISABLE;
        }
    }

    /// sed set decimal flag
    #[verifier::rlimit(100)]
    #[verifier::spinoff_prover]
    pub(crate) fn op_f8<C: CartridgeDevice, K: ControllerDevice, P: PpuDevice, A: ApuDevice>(
        &mut self,
        bus: &mut NesMotherboard<C, K>,
        cpu_peripherals: &mut NesCpuPeripherals<P, A>,
    )
        requires
            old(self).inv(),
            !old(self).reset,
            old(self).opcode == Some(0xf8u8),
            !old(self).bus_used@,
        ensures
            final(self).inv(),
            !final(self).reset,
            step_f8(*old(self), *final(self)),
            final(self).opcode == old(self).opcode || super::finished(*final(self)),
            super::ram_effect(old(bus).spec_ram(), final(bus).spec_ram(), final(self).bus_used@, final(self).last_bus@),
            super::bus_effect(*old(bus), *old(cpu_peripherals), *final(bus), *final(cpu_peripherals), final(self).bus_used@, final(self).last_bus@),
            final(self).dmc_dma == old(self).dmc_dma,
            final(self).nmi_detected == old(self).nmi_detected,
            final(self).prev_nmi == old(self).prev_nmi,
    {
        {
            {
                self.copy_debugger("SED".to_owned());
                self.done_fetching = true;
            }
            self.memory_cycle_read(self.pc.wrapping_add(1), bus, cpu_peripherals);
            self.p |= CPU_FLAG_DECIMAL;
            self.pc = self.pc.wrapping_add(1);
            self.end_instruction();
        }
    }

    /// cld, clear decimal flag
    #[verifier::rlimit(100)]
    #[verifier::spinoff_prover]
    pub(crate) fn op_d8<C: CartridgeDevice, K: ControllerDevice, P: PpuDevice, A: ApuDevice>(
        &mut self,
        bus: &mut NesMotherboard<C, K>,
        cpu_peripherals: &mut NesCpuPeripherals<P, A>,
    )
        requires
            old(self).inv(),
            !old(self).reset,
            old(self).opcode == Some(0xd8u8),
            !old(self).bus_used@,
        ensures
            final(self).inv(),
            !final(self).reset,
            step_d8(*old(self), *final(self)),
            final(self).opcode == old(self).opcode || super::finished(*final(self)),
            super::ram_effect(old(bus).spec_ram(), final(bus).spec_ram(), final(self).bus_used@, final(self).last_bus@),
            super::bus_effect(*old(bus), *old(cpu_peripherals), *final(bus), *final(cpu_peripherals), final(self).bus_used@, final(self).last_bus@),
            final(self).dmc_dma == old(self).dmc_dma,
            final(self).nmi_detected == old(self).nmi_detected,
            final(self).prev_nmi == old(self).prev_nmi,
    {
        {
            {
                self.copy_debugger("CLD".to_owned());
                self.done_fetching = true;
            }
            self.memory_cycle_read(self.pc.wrapping_add(1), bus, cpu_peripherals);
            self.p &= !CPU_FLAG_DECIMAL;
            self.pc = self.pc.wrapping_add(1);
            self.end_instruction();
        }
    }

    /// clc clear carry flag
    #[verifier::rlimit(100)]
    #[verifier::spinoff_prover]
    pub(crate) fn op_18<C: CartridgeDevice, K: ControllerDevice, P: PpuDevice, A: ApuDevice>(
        &mut self,
        bus: &mut NesMotherboard<C, K>,
        cpu_peripherals: &mut NesCpuPeripherals<P, A>,
    )
        requires
            old(self).inv(),
            !old(self).reset,
            old(self).opcode == Some(0x18u8),
            !old(self).bus_used@,
        ensures
            final(self).inv(),
            !final(self).reset,
            step_18(*old(self), *final(self)),
            final(self).opcode == old(self).opcode || super::finished(*final(self)),
            super::ram_effect(old(bus).spec_ram(), final(bus).spec_ram(), final(self).bus_used@, final(self).last_bus@),
            super::bus_effect(*old(bus), *old(cpu_peripherals), *final(bus), *final(cpu_peripherals), final(self).bus_used@, final(self).last_bus@),
            final(self).dmc_dma == old(self).dmc_dma,
            final(self).nmi_detected == old(self).nmi_detected,
            final(self).prev_nmi == old(self).prev_nmi,
    {
        {
            {
                self.copy_debugger("CLC".to_owned());
                self.done_fetching = true;
            }
            self.memory_cycle_read(self.pc.wrapping_add(1), bus, cpu_peripherals);
            self.p &= !CPU_FLAG_CARRY;
            self.pc = self.pc.wrapping_add(1);
            self.end_instruction();
        }
    }

    /// cli clear interrupt disable
    #[verifier::rlimit(100)]
    #[verifier::spinoff_prover]
    pub(crate) fn op_58<C: CartridgeDevice, K: ControllerDevice, P: PpuDevice, A: ApuDevice>(
        &mut self,
        bus: &mut NesMotherboard<C, K>,
        cpu_peripherals: &mut NesCpuPeripherals<P, A>,
    )
        requires
            old(self).inv(),
            !old(self).reset,
            old(self).opcode == Some(0x58u8),
            !old(self).bus_used@,
        ensures
            final(self).inv(),
            !final(self).reset,
            step_58(*old(self), *final(self)),
            final(self).opcode == old(self).opcode || super::finished(*final(self)),
            super::ram_effect(old(bus).spec_ram(), final(bus).spec_ram(), final(self).bus_used@, final(self).last_bus@),
            super::bus_effect(*old(bus), *old(cpu_peripherals), *final(bus), *final(cpu_peripherals), final(self).bus_used@, final(self).last_bus@),
            final(self).dmc_dma == old(self).dmc_dma,
            final(self).nmi_detected == old(self).nmi_detected,
            final(self).prev_nmi == old(self).prev_nmi,
    {
        {
            {
                self.copy_debugger("CLI".to_owned());
                self.done_fetching = true;
            }
            self.memory_cycle_read(self.pc.wrapping_add(1), bus, cpu_peripherals);
            self.end_instruction();
            self.p &= !CPU_FLAG_INT_DISABLE;
            self.pc = self.pc.wrapping_add(1);
        }
    }

    /// beq, branch if equal (zero flag set)
    #[verifier::rlimit(100)]
    #[verifier::spinoff_prover]
    pub(crate) fn op_f0<C: CartridgeDevice, K: ControllerDevice, P: PpuDevice, A: ApuDevice>(
        &mut self,
        bus: &mut NesMotherboard<C, K>,
        cpu_peripherals: &mut NesCpuPeripherals<P, A>,
    )
        requires
            old(self).inv(),
            !old(self).reset,
            old(self).opcode == Some(0xf0u8),
            !old(self).bus_used@,
        ensures
            final(self).inv(),
            !final(self).reset,
            step_f0(*old(self), *final(self)),
            final(self).opcode == old(self).opcode || super::finished(*final(self)),
            super::ram_effect(old(bus).spec_ram(), final(bus).spec_ram(), final(self).bus_used@, final(self).last_bus@),
            super::bus_effect(*old(bus), *old(cpu_peripherals), *final(bus), *final(cpu_peripherals), final(self).bus_used@, final(self).last_bus@),
            final(self).dmc_dma == old(self).dmc_dma,
            final(self).nmi_detected == old(self).nmi_detected,
            final(self).prev_nmi == old(self).prev_nmi,
    {
        {
            match self.subcycle {
                1 => {
                    self.temp = self.memory_cycle_read(self.pc.wrapping_add(1),
                        bus,
                        cpu_peripherals,
                    );
                    {
                        let mut adjust = self.temp as u16;
                        if (self.temp & 0x80) != 0 {
                            adjust |= 0xff00;
                        }
                        let tempaddr = self.pc.wrapping_add(2).wrapping_add(adjust);
                        self.copy_debugger(hex16_upper_text("BEQ $", tempaddr, ""));
                        self.done_fetching = true;
                    }
                    if (self.p & CPU_FLAG_ZERO) != 0 {
                        self.pc = self.pc.wrapping_add(2);
                        let mut adjust = self.temp as u16;
                        if (self.temp & 0x80) != 0 {
                            adjust |= 0xff00;
                        }
                        self.tempaddr = self.pc.wrapping_add(adjust);
                        self.subcycle = 2;
                    } else {
                        self.pc = self.pc.wrapping_add(2);
                        self.end_instruction();
                    }
                }
                2 => {
                    self.memory_cycle_read(self.pc.wrapping_add(2),
                        bus,
                        cpu_peripherals,
                    );
                    let pc = le_bytes(self.pc);
                    let pc2 = le_bytes(self.tempaddr);
                    self.pc = self.tempaddr;
                    if pc[1] != pc2[1] {
                        self.subcycle = 3;
                    } else {
                        self.end_instruction();
                    }
                }
                _ => {
                    self.memory_cycle_read(self.pc, bus, cpu_peripherals);
                    self.end_instruction();
                }
            }
        }
        proof {
            super::lemma_branch(old(self).pc, self.last_bus@.data);
        }
    }

    /// bne, branch if not equal (zero flag not set)
    #[verifier::rlimit(100)]
    #[verifier::spinoff_prover]
    pub(crate) fn op_d0<C: CartridgeDevice, K: ControllerDevice, P: PpuDevice, A: ApuDevice>(
        &mut self,
        bus: &mut NesMotherboard<C, K>,
        cpu_peripherals: &mut NesCpuPeripherals<P, A>,
    )
        requires
            old(self).inv(),
            !old(self).reset,
            old(self).opcode == Some(0xd0u8),
            !old(self).bus_used@,
        ensures
            final(self).inv(),
            !final(self).reset,
            step_d0(*old(self), *final(self)),
            final(self).opcode == old(self).opcode || super::finished(*final(self)),
            super::ram_effect(old(bus).spec_ram(), final(bus).spec_ram(), final(self).bus_used@, final(self).last_bus@),
            super::bus_effect(*old(bus), *old(cpu_peripherals), *final(bus), *final(cpu_peripherals), final(self).bus_used@, final(self).last_bus@),
            final(self).dmc_dma == old(self).dmc_dma,
            final(self).nmi_detected == old(self).nmi_detected,
            final(self).prev_nmi == old(self).prev_nmi,
    {
        {
            match self.subcycle {
                1 => {
                    self.temp = self.memory_cycle_read(self.pc.wrapping_add(1),
                        bus,
                        cpu_peripherals,
                    );
                    {
                        let mut adjust = self.temp as u16;
                        if (self.temp & 0x80) != 0 {
                            adjust |= 0xff00;
                        }
                        let tempaddr = self.pc.wrapping_add(2).wrapping_add(adjust);
                        self.copy_debugger(hex16_upper_text("BNE $", tempaddr, ""));
                        self.done_fetching = true;
                    }
                    if (self.p & CPU_FLAG_ZERO) == 0 {
                        self.pc = self.pc.wrapping_add(2);
                        let mut adjust = self.temp as u16;
                        if (self.temp & 0x80) != 0 {
                            adjust |= 0xff00;
                        }
                        self.tempaddr = self.pc.wrapping_add(adjust);
                        self.subcycle = 2;
                    } else {
                        self.pc = self.pc.wrapping_add(2);
                        self.end_instruction();
                    }
                }
                2 => {
                    self.memory_cycle_read(self.pc.wrapping_add(2),
                        bus,
                        cpu_peripherals,
                    );
                    let pc = le_bytes(self.pc);
                    let pc2 = le_bytes(self.tempaddr);
                    self.pc = self.tempaddr;
                    if pc[1] != pc2[1] {
                        self.subcycle = 3;
                    } else {
                        self.end_instruction();
                    }
                }
                _ => {
                    self.memory_cycle_read(self.pc, bus, cpu_peripherals);
                    self.end_instruction();
                }
            }
        }
        proof {
            super::lemma_branch(old(self).pc, self.last_bus@.data);
        }
    }

    /// bvs, branch if overflow set
    #[verifier::rlimit(100)]
    #[verifier::spinoff_prover]
    pub(crate) fn op_70<C: CartridgeDevice, K: ControllerDevice, P: PpuDevice, A: ApuDevice>(
        &mut self,
        bus: &mut NesMotherboard<C, K>,
        cpu_peripherals: &mut NesCpuPeripherals<P, A>,
    )
        requires
            old(self).inv(),
            !old(self).reset,
            old(self).opcode == Some(0x70u8),
            !old(self).bus_used@,
        ensures
            final(self).inv(),
            !final(self).reset,
            step_70(*old(self), *final(self)),
            final(self).opcode == old(self).opcode || super::finished(*final(self)),
            super::ram_effect(old(bus).spec_ram(), final(bus).spec_ram(), final(self).bus_used@, final(self).last_bus@),
            super::bus_effect(*old(bus), *old(cpu_peripherals), *final(bus), *final(cpu_peripherals), final(self).bus_used@, final(self).last_bus@),
            final(self).dmc_dma == old(self).dmc_dma,
            final(self).nmi_detected == old(self).nmi_detected,
            final(self).prev_nmi == old(self).prev_nmi,
    {
        {
            match self.subcycle {
                1 => {
                    self.temp = self.memory_cycle_read(self.pc.wrapping_add(1),
                        bus,
                        cpu_peripherals,
                    );
                    {
                        let mut adjust = self.temp as u16;
                        if (self.temp & 0x80) != 0 {
                            adjust |= 0xff00;
                        }
                        let tempaddr = self.pc.wrapping_add(2).wrapping_add(adjust);
                        self.copy_debugger(hex16_upper_text("BVS $", tempaddr, ""));
                        self.done_fetching = true;
                    }
                    if (self.p & CPU_FLAG_OVERFLOW) != 0 {
                        self.pc = self.pc.wrapping_add(2);
                        let mut adjust = self.temp as u16;
                        if (self.temp & 0x80) != 0 {
                            adjust |= 0xff00;
                        }
                        self.tempaddr = self.pc.wrapping_add(adjust);
                        self.subcycle = 2;
                    } else {
                        self.pc = self.pc.wrapping_add(2);
                        self.end_instruction();
                    }
                }
                2 => {
                    self.memory_cycle_read(self.pc.wrapping_add(2),
                        bus,
                        cpu_peripherals,
                    );
                    let pc = le_bytes(self.pc);
                    let pc2 = le_bytes(self.tempaddr);
                    self.pc = self.tempaddr;
                    if pc[1] != pc2[1] {
                        self.subcycle = 3;
                    } else {
                        self.end_instruction();
                    }
                }
                _ => {
                    self.memory_cycle_read(self.pc, bus, cpu_peripherals);
                    self.end_instruction();
                }
            }
        }
        proof {
            super::lemma_branch(old(self).pc, self.last_bus@.data);
        }
    }

    /// bvc branch if overflow clear
    #[verifier::rlimit(100)]
    #[verifier::spinoff_prover]
    pub(crate) fn op_50<C: CartridgeDevice, K: ControllerDevice, P: PpuDevice, A: ApuDevice>(
        &mut self,
        bus: &mut NesMotherboard<C, K>,
        cpu_peripherals: &mut NesCpuPeripherals<P, A>,
    )
        requires
            old(self).inv(),
            !old(self).reset,
            old(self).opcode == Some(0x50u8),
            !old(self).bus_used@,
        ensures
            final(self).inv(),
            !final(self).reset,
            step_50(*old(self), *final(self)),
            final(self).opcode == old(self).opcode || super::finished(*final(self)),
            super::ram_effect(old(bus).spec_ram(), final(bus).spec_ram(), final(self).bus_used@, final(self).last_bus@),
            super::bus_effect(*old(bus), *old(cpu_peripherals), *final(bus), *final(cpu_peripherals), final(self).bus_used@, final(self).last_bus@),
            final(self).dmc_dma == old(self).dmc_dma,
            final(self).nmi_detected == old(self).nmi_detected,
            final(self).prev_nmi == old(self).prev_nmi,
    {
        {
            match self.subcycle {
                1 => {
                    self.temp = self.memory_cycle_read(self.pc.wrapping_add(1),
                        bus,
                        cpu_peripherals,
                    );
                    {
                        let mut adjust = self.temp as u16;
                        if (self.temp & 0x80) != 0 {
                            adjust |= 0xff00;
                        }
                        let tempaddr = self.pc.wrapping_add(2).wrapping_add(adjust);
                        self.copy_debugger(hex16_upper_text("BVC $", tempaddr, ""));
                        self.done_fetching = true;
                    }
                    if (self.p & CPU_FLAG_OVERFLOW) == 0 {
                        self.pc = self.pc.wrapping_add(2);
                        let mut adjust = self.temp as u16;
                        if (self.temp & 0x80) != 0 {
                            adjust |= 0xff00;
                        }
                        self.tempaddr = self.pc.wrapping_add(adjust);
                        self.subcycle = 2;
                    } else {
                        self.pc = self.pc.wrapping_add(2);
                        self.end_instruction();
                    }
                }
                2 => {
                    self.memory_cycle_read(self.pc.wrapping_add(2),
                        bus,
                        cpu_peripherals,
                    );
                    let pc = le_bytes(self.pc);
                    let pc2 = le_bytes(self.tempaddr);
                    self.pc = self.tempaddr;
                    if pc[1] != pc2[1] {
                        self.subcycle = 3;
                    } else {
                        self.end_instruction();
                    }
                }
                _ => {
                    self.memory_cycle_read(self.pc, bus, cpu_peripherals);
                    self.end_instruction();
                }
            }
        }
        proof {
            super::lemma_branch(old(self).pc, self.last_bus@.data);
        }
    }

    /// bpl, branch if negative clear
    #[verifier::rlimit(100)]
    #[verifier::spinoff_prover]
    pub(crate) fn op_10<C: CartridgeDevice, K: ControllerDevice, P: PpuDevice, A: ApuDevice>(
        &mut self,
        bus: &mut NesMotherboard<C, K>,
        cpu_peripherals: &mut NesCpuPeripherals<P, A>,
    )
        requires
            old(self).inv(),
            !old(self).reset,
            old(self).opcode == Some(0x10u8),
            !old(self).bus_used@,
        ensures
            final(self).inv(),
            !final(self).reset,
            step_10(*old(self), *final(self)),
            final(self).opcode == old(self).opcode || super::finished(*final(self)),
            super::ram_effect(old(bus).spec_ram(), final(bus).spec_ram(), final(self).bus_used@, final(self).last_bus@),
            super::bus_effect(*old(bus), *old(cpu_peripherals), *final(bus), *final(cpu_peripherals), final(self).bus_used@, final(self).last_bus@),
            final(self).dmc_dma == old(self).dmc_dma,
            final(self).nmi_detected == old(self).nmi_detected,
            final(self).prev_nmi == old(self).prev_nmi,
    {
        {
            match self.subcycle {
                1 => {
                    self.temp = self.memory_cycle_read(self.pc.wrapping_add(1),
                        bus,
                        cpu_peripherals,
                    );
                    {
                        let mut adjust = self.temp as u16;
                        if (self.temp & 0x80) != 0 {
                            adjust |= 0xff00;
                        }
                        let tempaddr = self.pc.wrapping_add(2).wrapping_add(adjust);
                        self.copy_debugger(hex16_upper_text("BPL $", tempaddr, ""));
                        self.done_fetching = true;
                    }
                    if (self.p & CPU_FLAG_NEGATIVE) == 0 {
                        self.pc = self.pc.wrapping_add(2);
                        let mut adjust = self.temp as u16;
                        if (self.temp & 0x80) != 0 {
                            adjust |= 0xff00;
                        }
                        self.tempaddr = self.pc.wrapping_add(adjust);
                        self.subcycle = 2;
                    } else {
                        self.pc = self.pc.wrapping_add(2);
                        self.end_instruction();
                    }
                }
                2 => {
                    self.memory_cycle_read(self.pc.wrapping_add(2),
                        bus,
                        cpu_peripherals,
                    );
                    let pc = le_bytes(self.pc);
                    let pc2 = le_bytes(self.tempaddr);
                    self.pc = self.tempaddr;
                    if pc[1] != pc2[1] {
                        self.subcycle = 3;
                    } else {
                        self.end_instruction();
                    }
                }
                _ => {
                    self.memory_cycle_read(self.pc, bus, cpu_peripherals);
                    self.end_instruction();
                }
            }
        }
        proof {
            super::lemma_branch(old(self).pc, self.last_bus@.data);
        }
    }

    /// bmi branch if negative flag set
    #[verifier::rlimit(100)]
    #[verifier::spinoff_prover]
    pub(crate) fn op_30<C: CartridgeDevice, K: ControllerDevice, P: PpuDevice, A: ApuDevice>(
        &mut self,
        bus: &mut NesMotherboard<C, K>,
        cpu_peripherals: &mut NesCpuPeripherals<P, A>,
    )
        requires
            old(self).inv(),
            !old(self).reset,
            old(self).opcode == Some(0x30u8),
            !old(self).bus_used@,
        ensures
            final(self).inv(),
            !final(self).reset,
            step_30(*old(self), *final(self)),
            final(self).opcode == old(self).opcode || super::finished(*final(self)),
            super::ram_effect(old(bus).spec_ram(), final(bus).spec_ram(), final(self).bus_used@, final(self).last_bus@),
            super::bus_effect(*old(bus), *old(cpu_peripherals), *final(bus), *final(cpu_peripherals), final(self).bus_used@, final(self).last_bus@),
            final(self).dmc_dma == old(self).dmc_dma,
            final(self).nmi_detected == old(self).nmi_detected,
            final(self).prev_nmi == old(self).prev_nmi,
    {
        {
            match self.subcycle {
                1 => {
                    self.temp = self.memory_cycle_read(self.pc.wrapping_add(1),
                        bus,
                        cpu_peripherals,
                    );
                    {
                        let mut adjust = self.temp as u16;
                        if (self.temp & 0x80) != 0 {
                            adjust |= 0xff00;
                        }
                        let tempaddr = self.pc.wrapping_add(2).wrapping_add(adjust);
                        self.copy_debugger(hex16_upper_text("BMI $", tempaddr, ""));
                        self.done_fetching = true;
                    }
                    if (self.p & CPU_FLAG_NEGATIVE) != 0 {
                        self.pc = self.pc.wrapping_add(2);
                        let mut adjust = self.temp as u16;
                        if (self.temp & 0x80) != 0 {
                            adjust |= 0xff00;
                        }
                        self.tempaddr = self.pc.wrapping_add(adjust);
                        self.subcycle = 2;
                    } else {
                        self.pc = self.pc.wrapping_add(2);
                        self.end_instruction();
                    }
                }
                2 => {
                    self.memory_cycle_read(self.pc.wrapping_add(2),
                        bus,
                        cpu_peripherals,
                    );
                    let pc = le_bytes(self.pc);
                    let pc2 = le_bytes(self.tempaddr);
                    self.pc = self.tempaddr;
                    if pc[1] != pc2[1] {
                        self.subcycle = 3;
                    } else {
                        self.end_instruction();
                    }
                }
                _ => {
                    self.memory_cycle_read(self.pc, bus, cpu_peripherals);
                    self.end_instruction();
                }
            }
        }
        proof {
            super::lemma_branch(old(self).pc, self.last_bus@.data);
        }
    }

    /// bcs, branch if carry set
    #[verifier::rlimit(100)]
    #[verifier::spinoff_prover]
    pub(crate) fn op_b0<C: CartridgeDevice, K: ControllerDevice, P: PpuDevice, A: ApuDevice>(
        &mut self,
        bus: &mut NesMotherboard<C, K>,
        cpu_peripherals: &mut NesCpuPeripherals<P, A>,
    )
        requires
            old(self).inv(),
            !old(self).reset,
            old(self).opcode == Some(0xb0u8),
            !old(self).bus_used@,
        ensures
            final(self).inv(),
            !final(self).reset,
            step_b0(*old(self), *final(self)),
            final(self).opcode == old(self).opcode || super::finished(*final(self)),
            super::ram_effect(old(bus).spec_ram(), final(bus).spec_ram(), final(self).bus_used@, final(self).last_bus@),
            super::bus_effect(*old(bus), *old(cpu_peripherals), *final(bus), *final(cpu_peripherals), final(self).bus_used@, final(self).last_bus@),
            final(self).dmc_dma == old(self).dmc_dma,
            final(self).nmi_detected == old(self).nmi_detected,
            final(self).prev_nmi == old(self).prev_nmi,
    {
        {
            match self.subcycle {
                1 => {
                    self.temp = self.memory_cycle_read(self.pc.wrapping_add(1),
                        bus,
                        cpu_peripherals,
                    );
                    {
                        let mut adjust = self.temp as u16;
                        if (self.temp & 0x80) != 0 {
                            adjust |= 0xff00;
                        }
                        let tempaddr = self.pc.wrapping_add(2).wrapping_add(adjust);
                        self.copy_debugger(hex16_upper_text("BCS $", tempaddr, ""));
                        self.done_fetching = true;
                    }
                    if (self.p & CPU_FLAG_CARRY) != 0 {
                        self.pc = self.pc.wrapping_add(2);
                        let mut adjust = self.temp as u16;
                        if (self.temp & 0x80) != 0 {
                            adjust |= 0xff00;
                        }
                        self.tempaddr = self.pc.wrapping_add(adjust);
                        self.subcycle = 2;
                    } else {
                        self.pc = self.pc.wrapping_add(2);
                        self.end_instruction();
                    }
                }
                2 => {
                    self.memory_cycle_read(self.pc.wrapping_add(2),
                        bus,
                        cpu_peripherals,
                    );
                    let pc = le_bytes(self.pc);
                    let pc2 = le_bytes(self.tempaddr);
                    self.pc = self.tempaddr;
                    if pc[1] != pc2[1] {
                        self.subcycle = 3;
                    } else {
                        self.end_instruction();
                    }
                }
                _ => {
                    self.memory_cycle_read(self.pc, bus, cpu_peripherals);
                    self.end_instruction();
                }
            }
        }
        proof {
            super::lemma_branch(old(self).pc, self.last_bus@.data);
        }
    }

    /// bcc branch if carry flag clear
    #[verifier::rlimit(100)]
    #[verifier::spinoff_prover]
    pub(crate) fn op_90<C: CartridgeDevice, K: ControllerDevice, P: PpuDevice, A: ApuDevice>(
        &mut self,
        bus: &mut NesMotherboard<C, K>,
        cpu_peripherals: &mut NesCpuPeripherals<P, A>,
    )
        requires
            old(self).inv(),
            !old(self).reset,
            old(self).opcode == Some(0x90u8),
            !old(self).bus_used@,
        ensures
            final(self).inv(),
            !final(self).reset,
            step_90(*old(self), *final(self)),
            final(self).opcode == old(self).opcode || super::finished(*final(self)),
            super::ram_effect(old(bus).spec_ram(), final(bus).spec_ram(), final(self).bus_used@, final(self).last_bus@),
            super::bus_effect(*old(bus), *old(cpu_peripherals), *final(bus), *final(cpu_peripherals), final(self).bus_used@, final(self).last_bus@),
            final(self).dmc_dma == old(self).dmc_dma,
            final(self).nmi_detected == old(self).nmi_detected,
            final(self).prev_nmi == old(self).prev_nmi,
    {
        {
            match self.subcycle {
                1 => {
                    self.temp = self.memory_cycle_read(self.pc.wrapping_add(1),
                        bus,
                        cpu_peripherals,
                    );
                    {
                        let mut adjust = self.temp as u16;
                        if (self.temp & 0x80) != 0 {
                            adjust |= 0xff00;
                        }
                        let tempaddr = self.pc.wrapping_add(2).wrapping_add(adjust);
                        self.copy_debugger(hex16_upper_text("BCC $", tempaddr, ""));
                        self.done_fetching = true;
                    }
                    if (self.p & CPU_FLAG_CARRY) == 0 {
                        self.pc = self.pc.wrapping_add(2);
                        let mut adjust = self.temp as u16;
                        if (self.temp & 0x80) != 0 {
                            adjust |= 0xff00;
                        }
                        self.tempaddr = self.pc.wrapping_add(adjust);
                        self.subcycle = 2;
                    } else {
                        self.pc = self.pc.wrapping_add(2);
                        self.end_instruction();
                    }
                }
                2 => {
                    self.memory_cycle_read(self.pc.wrapping_add(2),
                        bus,
                        cpu_peripherals,
                    );
                    let pc = le_bytes(self.pc);
                    let pc2 = le_bytes(self.tempaddr);
                    self.pc = self.tempaddr;
                    if pc[1] != pc2[1] {
                        self.subcycle = 3;
                    } else {
                        self.end_instruction();
                    }
                }
                _ => {
                    self.memory_cycle_read(self.pc, bus, cpu_peripherals);
                    self.end_instruction();
                }
            }
        }
        proof {
            super::lemma_branch(old(self).pc, self.last_bus@.data);
        }
    }

    /// pha push accumulator
    #[verifier::rlimit(100)]
    #[verifier::spinoff_prover]
    pub(crate) fn op_48<C: CartridgeDevice, K: ControllerDevice, P: PpuDevice, A: ApuDevice>(
        &mut self,
        bus: &mut NesMotherboard<C, K>,
        cpu_peripherals: &mut NesCpuPeripherals<P, A>,
    )
        requires
            old(self).inv(),
            !old(self).reset,
            old(self).opcode == Some(0x48u8),
            !old(self).bus_used@,
        ensures
            final(self).inv(),
            !final(self).reset,
            step_48(*old(self), *final(self)),
            final(self).opcode == old(self).opcode || super::finished(*final(self)),
            super::ram_effect(old(bus).spec_ram(), final(bus).spec_ram(), final(self).bus_used@, final(self).last_bus@),
            super::bus_effect(*old(bus), *old(cpu_peripherals), *final(bus), *final(cpu_peripherals), final(self).bus_used@, final(self).last_bus@),
            final(self).dmc_dma == old(self).dmc_dma,
            final(self).nmi_detected == old(self).nmi_detected,
            final(self).prev_nmi == old(self).prev_nmi,
    {
        {
            match self.subcycle {
                1 => {
                    {
                        self.copy_debugger("PHA".to_owned());
                        self.done_fetching = true;
                    }
                    self.memory_cycle_read(self.pc.wrapping_add(1),
                        bus,
                        cpu_peripherals,
                    );
                    self.subcycle = 2;
                }
                _ => {
                    self.memory_cycle_write(
                        0x100 + self.s as u16,
                        self.a,
                        bus,
                        cpu_peripherals,
                    );
                    self.s = self.s.wrapping_sub(1);
                    self.pc = self.pc.wrapping_add(1);
                    self.end_instruction();
                }
            }
        }
    }

    /// php push processor status
    #[verifier::rlimit(100)]
    #[verifier::spinoff_prover]
    pub(crate) fn op_08<C: CartridgeDevice, K: ControllerDevice, P: PpuDevice, A: ApuDevice>(
        &mut self,
        bus: &mut NesMotherboard<C, K>,
        cpu_peripherals: &mut NesCpuPeripherals<P, A>,
    )
        requires
            old(self).inv(),
            !old(self).reset,
            old(self).opcode == Some(0x08u8),
            !old(self).bus_used@,
        ensures
            final(self).inv(),
            !final(self).reset,
            step_08(*old(self), *final(self)),
            final(self).opcode == old(self).opcode || super::finished(*final(self)),
            super::ram_effect(old(bus).spec_ram(), final(bus).spec_ram(), final(self).bus_used@, final(self).last_bus@),
            super::bus_effect(*old(bus), *old(cpu_peripherals), *final(bus), *final(cpu_peripherals), final(self).bus_used@, final(self).last_bus@),
            final(self).dmc_dma == old(self).dmc_dma,
            final(self).nmi_detected == old(self).nmi_detected,
            final(self).prev_nmi == old(self).prev_nmi,
    {
        {
            match self.subcycle {
                1 => {
                    {
                        self.copy_debugger("PHP".to_owned());
                        self.done_fetching = true;
                    }
                    self.memory_cycle_read(self.pc.wrapping_add(1),
                        bus,
                        cpu_peripherals,
                    );
                    self.subcycle = 2;
                }
                _ => {
                    self.memory_cycle_write(
                        0x100 + self.s as u16,
                        self.p | CPU_FLAG_B1,
                        bus,
                        cpu_peripherals,
                    );
                    self.s = self.s.wrapping_sub(1);
                    self.pc = self.pc.wrapping_add(1);
                    self.end_instruction();
                }
            }
        }
    }

    /// plp, pull processor status
    #[verifier::rlimit(100)]
    #[verifier::spinoff_prover]
    pub(crate) fn op_28<C: CartridgeDevice, K: ControllerDevice, P: PpuDevice, A: ApuDevice>(
        &mut self,
        bus: &mut NesMotherboard<C, K>,
        cpu_peripherals: &mut NesCpuPeripherals<P, A>,
    )
        requires
            old(self).inv(),
            !old(self).reset,
            old(self).opcode == Some(0x28u8),
            !old(self).bus_used@,
        ensures
            final(self).inv(),
            !final(self).reset,
            step_28(*old(self), *final(self)),
            final(self).opcode == old(self).opcode || super::finished(*final(self)),
            super::ram_effect(old(bus).spec_ram(), final(bus).spec_ram(), final(self).bus_used@, final(self).last_bus@),
            super::bus_effect(*old(bus), *old(cpu_peripherals), *final(bus), *final(cpu_peripherals), final(self).bus_used@, final(self).last_bus@),
            final(self).dmc_dma == old(self).dmc_dma,
            final(self).nmi_detected == old(self).nmi_detected,
            final(self).prev_nmi == old(self).prev_nmi,
    {
        {
            match self.subcycle {
                1 => {
                    {
                        self.copy_debugger("PLP".to_owned());
                        self.done_fetching = true;
                    }
                    self.memory_cycle_read(self.pc.wrapping_add(1),
                        bus,
                        cpu_peripherals,
                    );

                    self.subcycle = 2;
                }
                2 => {
                    self.memory_cycle_read(0x100 + self.s as u16, bus, cpu_peripherals);
                    self.subcycle = 3;
                }
                _ => {
                    self.s = self.s.wrapping_add(1);
                    self.temp = self.memory_cycle_read(0x100 + self.s as u16,
                        bus,
                        cpu_peripherals,
                    );
                    self.pc = self.pc.wrapping_add(1);
                    self.end_instruction();
                    self.p = self.temp;
                    self.p &= !CPU_FLAG_B1;
                    self.p |= CPU_FLAG_B2;
                }
            }
        }
    }

    /// pla, pull accumulator
    #[verifier::rlimit(100)]
    #[verifier::spinoff_prover]
    pub(crate) fn op_68<C: CartridgeDevice, K: ControllerDevice, P: PpuDevice, A: ApuDevice>(
        &mut self,
        bus: &mut NesMotherboard<C, K>,
        cpu_peripherals: &mut NesCpuPeripherals<P, A>,
    )
        requires
            old(self).inv(),
            !old(self).reset,
            old(self).opcode == Some(0x68u8),
            !old(self).bus_used@,
        ensures
            final(self).inv(),
            !final(self).reset,
            step_68(*old(self), *final(self)),
            final(self).opcode == old(self).opcode || super::finished(*final(self)),
            super::ram_effect(old(bus).spec_ram(), final(bus).spec_ram(), final(self).bus_used@, final(self).last_bus@),
            super::bus_effect(*old(bus), *old(cpu_peripherals), *final(bus), *final(cpu_peripherals), final(self).bus_used@, final(self).last_bus@),
            final(self).dmc_dma == old(self).dmc_dma,
            final(self).nmi_detected == old(self).nmi_detected,
            final(self).prev_nmi == old(self).prev_nmi,
    {
        {
            match self.subcycle {
                1 => {
                    {
                        self.copy_debugger("PLA".to_owned());
                        self.done_fetching = true;
                    }
                    self.memory_cycle_read(self.pc.wrapping_add(1),
                        bus,
                        cpu_peripherals,
                    );
                    self.subcycle = 2;
                }
                2 => {
                    self.memory_cycle_read(0x100 + self.s as u16, bus, cpu_peripherals);
                    self.subcycle = 3;
                }
                _ => {
                    self.s = self.s.wrapping_add(1);
                    self.a = self.memory_cycle_read(0x100 + self.s as u16,
                        bus,
                        cpu_peripherals,
                    );
                    self.p &= !(CPU_FLAG_ZERO | CPU_FLAG_NEGATIVE);
                    if self.a == 0 {
                        self.p |= CPU_FLAG_ZERO;
                    }
                    if (self.a & 0x80) != 0 {
                        self.p |= CPU_FLAG_NEGATIVE;
                    }
                    self.pc = self.pc.wrapping_add(1);
                    self.end_instruction();
                }
            }
        }
        proof {
            super::lemma_nz(old(self).p, self.last_bus@.data);
        }
    }

    /// rts, return from subroutine
    #[verifier::rlimit(100)]
    #[verifier::spinoff_prover]
    pub(crate) fn op_60<C: CartridgeDevice, K: ControllerDevice, P: PpuDevice, A: ApuDevice>(
        &mut self,
        bus: &mut NesMotherboard<C, K>,
        cpu_peripherals: &mut NesCpuPeripherals<P, A>,
    )
        requires
            old(self).inv(),
            !old(self).reset,
            old(self).opcode == Some(0x60u8),
            !old(self).bus_used@,
        ensures
            final(self).inv(),
            !final(self).reset,
            step_60(*old(self), *final(self)),
            final(self).opcode == old(self).opcode || super::finished(*final(self)),
            super::ram_effect(old(bus).spec_ram(), final(bus).spec_ram(), final(self).bus_used@, final(self).last_bus@),
            super::bus_effect(*old(bus), *old(cpu_peripherals), *final(bus), *final(cpu_peripherals), final(self).bus_used@, final(self).last_bus@),
            final(self).dmc_dma == old(self).dmc_dma,
            final(self).nmi_detected == old(self).nmi_detected,
            final(self).prev_nmi == old(self).prev_nmi,
    {
        {
            match self.subcycle {
                1 => {
                    {
                        self.copy_debugger("RTS".to_owned());
                        self.done_fetching = true;
                    }
                    self.memory_cycle_read(self.pc.wrapping_add(1),
                        bus,
                        cpu_peripherals,
                    );
                    self.subcycle = 2;
                }
                2 => {
                    self.memory_cycle_read(self.s as u16 + 0x100, bus, cpu_peripherals);
                    self.subcycle = 3;
                }
                3 => {
                    self.s = self.s.wrapping_add(1);
                    self.temp = self.memory_cycle_read(self.s as u16 + 0x100,
                        bus,
                        cpu_peripherals,
                    );
                    self.subcycle = 4;
                }
                4 => {
                    self.pc = self.temp as u16;
                    self.s = self.s.wrapping_add(1);
                    self.pc |= (self.memory_cycle_read(self.s as u16 + 0x100,
                            bus,
                            cpu_peripherals,
                        ) as u16)
                    << 8;
                    self.subcycle = 5;
                }
                _ => {
                    self.memory_cycle_read(self.pc, bus, cpu_peripherals);
                    self.pc = self.pc.wrapping_add(1);
                    self.end_instruction();
                }
            }
        }
        proof {
            super::lemma_word(old(self).temp, self.last_bus@.data);
            super::lemma_word(old(self).temp, old(self).temp2);
            super::lemma_word((((old(self).temp as int + 1) % 256) as u8), old(self).temp2);
        }
    }

    /// An opcode that jams the cpu.
    #[verifier::rlimit(100)]
    #[verifier::spinoff_prover]
    pub(crate) fn op_jam<C: CartridgeDevice, K: ControllerDevice, P: PpuDevice, A: ApuDevice>(
        &mut self,
        bus: &mut NesMotherboard<C, K>,
        cpu_peripherals: &mut NesCpuPeripherals<P, A>,
        o: u8,
    )
        requires
            old(self).opcode == Some(o),
            old(self).inv(),
            !old(self).reset,
            old(self).opcode is Some,
            !old(self).bus_used@,
        ensures
            final(self).inv(),
            !final(self).reset,
            step_jam(*old(self), *final(self)),
            final(self).opcode == old(self).opcode || super::finished(*final(self)),
            super::ram_effect(old(bus).spec_ram(), final(bus).spec_ram(), final(self).bus_used@, final(self).last_bus@),
            super::bus_effect(*old(bus), *old(cpu_peripherals), *final(bus), *final(cpu_peripherals), final(self).bus_used@, final(self).last_bus@),
            final(self).dmc_dma == old(self).dmc_dma,
            final(self).nmi_detected == old(self).nmi_detected,
            final(self).prev_nmi == old(self).prev_nmi,
    {
        {
            match self.subcycle {
                1 => {
                    self.copy_debugger(hex8_text("*JAM $", o, ""));
                    self.subcycle = 2;
                }
                _ => {}
            }
        }
    }
}

} // verus!

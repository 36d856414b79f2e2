//! The logic, arithmetic, compare and bit test instructions of the cpu, one bus cycle at a time.
use vstd::prelude::*;
use crate::cpu::{
    NesCpu, NesCpuPeripherals, CPU_FLAG_CARRY, CPU_FLAG_ZERO, CPU_FLAG_INT_DISABLE, CPU_FLAG_DECIMAL,
    CPU_FLAG_B1, CPU_FLAG_B2, CPU_FLAG_OVERFLOW, CPU_FLAG_NEGATIVE, hex8_text, hex16_text,
    hex16_upper_text, le_bytes, from_le_bytes, overflowing_add,
};
use crate::devices::{ApuDevice, CartridgeDevice, ControllerDevice, PpuDevice};
use crate::motherboard::NesMotherboard;

verus! {

/// One bus cycle of and immediate.
pub(crate) open spec fn step_29(s: NesCpu, t: NesCpu) -> bool {
    &&& super::shows(s, t, "AND #$"@ + super::hex_text(t.temp as nat, 2, false) + ""@)
    &&& !super::finished(t) ==> super::arch_same(s, t)
    &&& super::finished(t)
    &&& super::read_at(t, super::pc_plus(s.pc, 1))
    &&& t.pc == super::pc_plus(s.pc, 2)
    &&& t.a == (s.a & super::data(t))
    &&& t.p == super::nz_flags(s.p, s.a & super::data(t))
    &&& t.x == s.x
    &&& t.y == s.y
    &&& t.s == s.s
}

/// One bus cycle of and zero page.
pub(crate) open spec fn step_25(s: NesCpu, t: NesCpu) -> bool {
    &&& s.subcycle == 1 ==> super::shows(s, t, "AND $"@ + super::hex_text(t.temp as nat, 2, false) + ""@)
    &&& s.subcycle != 1 ==> super::keeps_debugger(s, t)
    &&& s.subcycle == 1 ==> {
        &&& t.subcycle == 2
        &&& super::read_at(t, super::pc_plus(s.pc, 1))
        &&& t.temp == super::data(t)
    }
    &&& !super::finished(t) ==> super::arch_same(s, t)
    &&& s.subcycle != 1 ==> {
        &&& super::finished(t)
        &&& super::read_at(t, s.temp as u16)
        &&& t.pc == super::pc_plus(s.pc, 2)
        &&& t.a == (s.a & super::data(t))
        &&& t.p == super::nz_flags(s.p, s.a & super::data(t))
        &&& t.x == s.x
        &&& t.y == s.y
        &&& t.s == s.s
    }
    &&& !(s.subcycle != 1) ==> !super::finished(t)
}

/// One bus cycle of and zero page x.
pub(crate) open spec fn step_35(s: NesCpu, t: NesCpu) -> bool {
    &&& s.subcycle == 1 ==> super::shows(s, t, "AND $"@ + super::hex_text(t.temp as nat, 2, false) + ",X"@)
    &&& s.subcycle != 1 ==> super::keeps_debugger(s, t)
    &&& s.subcycle == 1 ==> {
        &&& t.subcycle == 2
        &&& super::read_at(t, super::pc_plus(s.pc, 1))
        &&& t.temp == super::data(t)
    }
    &&& s.subcycle == 2 ==> {
        &&& t.subcycle == 3
        &&& super::read_at(t, s.temp as u16)
        &&& t.temp == s.temp
    }
    &&& !super::finished(t) ==> super::arch_same(s, t)
    &&& !(1 <= s.subcycle <= 2) ==> {
        &&& super::finished(t)
        &&& super::read_at(t, super::zp_index(s.temp, s.x))
        &&& t.pc == super::pc_plus(s.pc, 2)
        &&& t.a == (s.a & super::data(t))
        &&& t.p == super::nz_flags(s.p, s.a & super::data(t))
        &&& t.x == s.x
        &&& t.y == s.y
        &&& t.s == s.s
    }
    &&& !(!(1 <= s.subcycle <= 2)) ==> !super::finished(t)
}

/// One bus cycle of and absolute.
pub(crate) open spec fn step_2d(s: NesCpu, t: NesCpu) -> bool {
    &&& s.subcycle == 2 ==> super::shows(s, t, "AND $"@ + super::hex_text(super::word(t.temp, t.temp2) as nat, 4, false) + ""@)
    &&& s.subcycle != 2 ==> super::keeps_debugger(s, t)
    &&& s.subcycle == 1 ==> {
        &&& t.subcycle == 2
        &&& super::read_at(t, super::pc_plus(s.pc, 1))
        &&& t.temp == super::data(t)
    }
    &&& s.subcycle == 2 ==> {
        &&& t.subcycle == 3
        &&& super::read_at(t, super::pc_plus(s.pc, 2))
        &&& t.temp2 == super::data(t)
        &&& t.temp == s.temp
    }
    &&& !super::finished(t) ==> super::arch_same(s, t)
    &&& !(1 <= s.subcycle <= 2) ==> {
        &&& super::finished(t)
        &&& super::read_at(t, super::word(s.temp, s.temp2))
        &&& t.pc == super::pc_plus(s.pc, 3)
        &&& t.a == (s.a & super::data(t))
        &&& t.p == super::nz_flags(s.p, s.a & super::data(t))
        &&& t.x == s.x
        &&& t.y == s.y
        &&& t.s == s.s
    }
    &&& !(!(1 <= s.subcycle <= 2)) ==> !super::finished(t)
}

/// One bus cycle of and absolute x.
pub(crate) open spec fn step_3d(s: NesCpu, t: NesCpu) -> bool {
    &&& s.subcycle == 2 ==> super::shows(s, t, "AND $"@ + super::hex_text(super::word(t.temp, t.temp2) as nat, 4, false) + ",X"@)
    &&& s.subcycle != 2 ==> super::keeps_debugger(s, t)
    &&& s.subcycle == 1 ==> {
        &&& t.subcycle == 2
        &&& super::read_at(t, super::pc_plus(s.pc, 1))
        &&& t.temp == super::data(t)
    }
    &&& s.subcycle == 2 ==> {
        &&& t.subcycle == 3
        &&& super::read_at(t, super::pc_plus(s.pc, 2))
        &&& t.temp2 == super::data(t)
        &&& t.temp == s.temp
    }
    &&& s.subcycle == 3 && s.temp + s.x >= 256 ==> {
        &&& t.subcycle == 4
        &&& super::read_at(t, super::word(((s.temp + s.x) % 256) as u8, s.temp2))
        &&& t.temp == s.temp && t.temp2 == s.temp2
    }
    &&& !super::finished(t) ==> super::arch_same(s, t)
    &&& (s.subcycle == 3 && s.temp + s.x < 256) || (!(1 <= s.subcycle <= 3)) ==> {
        &&& super::finished(t)
        &&& super::read_at(t, super::abs_index(super::word(s.temp, s.temp2), s.x))
        &&& t.pc == super::pc_plus(s.pc, 3)
        &&& t.a == (s.a & super::data(t))
        &&& t.p == super::nz_flags(s.p, s.a & super::data(t))
        &&& t.x == s.x
        &&& t.y == s.y
        &&& t.s == s.s
    }
    &&& !((s.subcycle == 3 && s.temp + s.x < 256) || (!(1 <= s.subcycle <= 3))) ==> !super::finished(t)
}

/// One bus cycle of and absolute y.
pub(crate) open spec fn step_39(s: NesCpu, t: NesCpu) -> bool {
    &&& s.subcycle == 2 ==> super::shows(s, t, "AND $"@ + super::hex_text(super::word(t.temp, t.temp2) as nat, 4, false) + ",Y"@)
    &&& s.subcycle != 2 ==> super::keeps_debugger(s, t)
    &&& s.subcycle == 1 ==> {
        &&& t.subcycle == 2
        &&& super::read_at(t, super::pc_plus(s.pc, 1))
        &&& t.temp == super::data(t)
    }
    &&& s.subcycle == 2 ==> {
        &&& t.subcycle == 3
        &&& super::read_at(t, super::pc_plus(s.pc, 2))
        &&& t.temp2 == super::data(t)
        &&& t.temp == s.temp
    }
    &&& s.subcycle == 3 && s.temp + s.y >= 256 ==> {
        &&& t.subcycle == 4
        &&& super::read_at(t, super::word(((s.temp + s.y) % 256) as u8, s.temp2))
        &&& t.temp == s.temp && t.temp2 == s.temp2
    }
    &&& !super::finished(t) ==> super::arch_same(s, t)
    &&& (s.subcycle == 3 && s.temp + s.y < 256) || (!(1 <= s.subcycle <= 3)) ==> {
        &&& super::finished(t)
        &&& super::read_at(t, super::abs_index(super::word(s.temp, s.temp2), s.y))
        &&& t.pc == super::pc_plus(s.pc, 3)
        &&& t.a == (s.a & super::data(t))
        &&& t.p == super::nz_flags(s.p, s.a & super::data(t))
        &&& t.x == s.x
        &&& t.y == s.y
        &&& t.s == s.s
    }
    &&& !((s.subcycle == 3 && s.temp + s.y < 256) || (!(1 <= s.subcycle <= 3))) ==> !super::finished(t)
}

/// One bus cycle of and indirect x.
pub(crate) open spec fn step_21(s: NesCpu, t: NesCpu) -> bool {
    &&& s.subcycle == 1 ==> super::shows(s, t, "AND ($"@ + super::hex_text(t.temp as nat, 2, false) + ",X)"@)
    &&& s.subcycle != 1 ==> super::keeps_debugger(s, t)
    &&& s.subcycle == 3 ==> t.temp == s.temp && t.temp2 == s.temp2
    &&& s.subcycle == 1 ==> {
        &&& t.subcycle == 2
        &&& super::read_at(t, super::pc_plus(s.pc, 1))
        &&& t.temp == super::data(t)
    }
    &&& s.subcycle == 2 ==> {
        &&& t.subcycle == 3
        &&& t.temp == ((s.temp + s.x) % 256) as u8
        &&& super::read_at(t, super::zp_index(s.temp, s.x))
        &&& t.temp2 == super::data(t)
    }
    &&& s.subcycle == 3 ==> {
        &&& t.subcycle == 4
        &&& super::read_at(t, s.temp as u16)
    }
    &&& s.subcycle == 4 ==> {
        &&& t.subcycle == 5
        &&& super::read_at(t, super::zp_index(s.temp, 1))
        &&& t.temp == super::data(t)
        &&& t.temp2 == s.temp2
    }
    &&& !super::finished(t) ==> super::arch_same(s, t)
    &&& !(1 <= s.subcycle <= 4) ==> {
        &&& super::finished(t)
        &&& super::read_at(t, super::word(s.temp2, s.temp))
        &&& t.pc == super::pc_plus(s.pc, 2)
        &&& t.a == (s.a & super::data(t))
        &&& t.p == super::nz_flags(s.p, s.a & super::data(t))
        &&& t.x == s.x
        &&& t.y == s.y
        &&& t.s == s.s
    }
    &&& !(!(1 <= s.subcycle <= 4)) ==> !super::finished(t)
}

/// One bus cycle of and indirect y.
pub(crate) open spec fn step_31(s: NesCpu, t: NesCpu) -> bool {
    &&& s.subcycle == 1 ==> super::shows(s, t, "AND ($"@ + super::hex_text(t.temp as nat, 2, false) + "),Y"@)
    &&& s.subcycle != 1 ==> super::keeps_debugger(s, t)
    &&& s.subcycle == 1 ==> {
        &&& t.subcycle == 2
        &&& super::read_at(t, super::pc_plus(s.pc, 1))
        &&& t.temp == super::data(t)
    }
    &&& s.subcycle == 2 ==> {
        &&& t.subcycle == 3
        &&& super::read_at(t, s.temp as u16)
        &&& t.temp2 == super::data(t)
        &&& t.temp == s.temp
    }
    &&& s.subcycle == 3 ==> {
        &&& t.subcycle == 4
        &&& super::read_at(t, super::zp_index(s.temp, 1))
        &&& t.temp == super::data(t)
        &&& t.temp2 == s.temp2
    }
    &&& s.subcycle == 4 && s.temp2 + s.y >= 256 ==> {
        &&& t.subcycle == 5
        &&& super::read_at(t, super::word(((s.temp2 + s.y) % 256) as u8, s.temp))
    }
    &&& !super::finished(t) ==> super::arch_same(s, t)
    &&& (s.subcycle == 4 && s.temp2 + s.y < 256) || (!(1 <= s.subcycle <= 4)) ==> {
        &&& super::finished(t)
        &&& super::read_at(t, super::abs_index(super::word(s.temp2, s.temp), s.y))
        &&& t.pc == super::pc_plus(s.pc, 2)
        &&& t.a == (s.a & super::data(t))
        &&& t.p == super::nz_flags(s.p, s.a & super::data(t))
        &&& t.x == s.x
        &&& t.y == s.y
        &&& t.s == s.s
    }
    &&& !((s.subcycle == 4 && s.temp2 + s.y < 256) || (!(1 <= s.subcycle <= 4))) ==> !super::finished(t)
}

/// One bus cycle of ora or immediate.
pub(crate) open spec fn step_09(s: NesCpu, t: NesCpu) -> bool {
    &&& super::shows(s, t, "ORA #$"@ + super::hex_text(t.temp as nat, 2, false) + ""@)
    &&& !super::finished(t) ==> super::arch_same(s, t)
    &&& super::finished(t)
    &&& super::read_at(t, super::pc_plus(s.pc, 1))
    &&& t.pc == super::pc_plus(s.pc, 2)
    &&& t.a == (s.a | super::data(t))
    &&& t.p == super::nz_flags(s.p, s.a | super::data(t))
    &&& t.x == s.x
    &&& t.y == s.y
    &&& t.s == s.s
}

/// One bus cycle of ora zero page.
pub(crate) open spec fn step_05(s: NesCpu, t: NesCpu) -> bool {
    &&& s.subcycle == 1 ==> super::shows(s, t, "ORA $"@ + super::hex_text(t.temp as nat, 2, false) + ""@)
    &&& s.subcycle != 1 ==> super::keeps_debugger(s, t)
    &&& s.subcycle == 1 ==> {
        &&& t.subcycle == 2
        &&& super::read_at(t, super::pc_plus(s.pc, 1))
        &&& t.temp == super::data(t)
    }
    &&& !super::finished(t) ==> super::arch_same(s, t)
    &&& s.subcycle != 1 ==> {
        &&& super::finished(t)
        &&& super::read_at(t, s.temp as u16)
        &&& t.pc == super::pc_plus(s.pc, 2)
        &&& t.a == (s.a | super::data(t))
        &&& t.p == super::nz_flags(s.p, s.a | super::data(t))
        &&& t.x == s.x
        &&& t.y == s.y
        &&& t.s == s.s
    }
    &&& !(s.subcycle != 1) ==> !super::finished(t)
}

/// One bus cycle of ora zero page x.
pub(crate) open spec fn step_15(s: NesCpu, t: NesCpu) -> bool {
    &&& s.subcycle == 1 ==> super::shows(s, t, "ORA $"@ + super::hex_text(t.temp as nat, 2, false) + ",X"@)
    &&& s.subcycle != 1 ==> super::keeps_debugger(s, t)
    &&& s.subcycle == 1 ==> {
        &&& t.subcycle == 2
        &&& super::read_at(t, super::pc_plus(s.pc, 1))
        &&& t.temp == super::data(t)
    }
    &&& s.subcycle == 2 ==> {
        &&& t.subcycle == 3
        &&& super::read_at(t, s.temp as u16)
        &&& t.temp == s.temp
    }
    &&& !super::finished(t) ==> super::arch_same(s, t)
    &&& !(1 <= s.subcycle <= 2) ==> {
        &&& super::finished(t)
        &&& super::read_at(t, super::zp_index(s.temp, s.x))
        &&& t.pc == super::pc_plus(s.pc, 2)
        &&& t.a == (s.a | super::data(t))
        &&& t.p == super::nz_flags(s.p, s.a | super::data(t))
        &&& t.x == s.x
        &&& t.y == s.y
        &&& t.s == s.s
    }
    &&& !(!(1 <= s.subcycle <= 2)) ==> !super::finished(t)
}

/// One bus cycle of ora absolute.
pub(crate) open spec fn step_0d(s: NesCpu, t: NesCpu) -> bool {
    &&& s.subcycle == 2 ==> super::shows(s, t, "ORA $"@ + super::hex_text(super::word(t.temp, t.temp2) as nat, 4, false) + ""@)
    &&& s.subcycle != 2 ==> super::keeps_debugger(s, t)
    &&& s.subcycle == 1 ==> {
        &&& t.subcycle == 2
        &&& super::read_at(t, super::pc_plus(s.pc, 1))
        &&& t.temp == super::data(t)
    }
    &&& s.subcycle == 2 ==> {
        &&& t.subcycle == 3
        &&& super::read_at(t, super::pc_plus(s.pc, 2))
        &&& t.temp2 == super::data(t)
        &&& t.temp == s.temp
    }
    &&& !super::finished(t) ==> super::arch_same(s, t)
    &&& !(1 <= s.subcycle <= 2) ==> {
        &&& super::finished(t)
        &&& super::read_at(t, super::word(s.temp, s.temp2))
        &&& t.pc == super::pc_plus(s.pc, 3)
        &&& t.a == (s.a | super::data(t))
        &&& t.p == super::nz_flags(s.p, s.a | super::data(t))
        &&& t.x == s.x
        &&& t.y == s.y
        &&& t.s == s.s
    }
    &&& !(!(1 <= s.subcycle <= 2)) ==> !super::finished(t)
}

/// One bus cycle of ora absolute x.
pub(crate) open spec fn step_1d(s: NesCpu, t: NesCpu) -> bool {
    &&& s.subcycle == 2 ==> super::shows(s, t, "ORA $"@ + super::hex_text(super::word(t.temp, t.temp2) as nat, 4, false) + ",X"@)
    &&& s.subcycle != 2 ==> super::keeps_debugger(s, t)
    &&& s.subcycle == 1 ==> {
        &&& t.subcycle == 2
        &&& super::read_at(t, super::pc_plus(s.pc, 1))
        &&& t.temp == super::data(t)
    }
    &&& s.subcycle == 2 ==> {
        &&& t.subcycle == 3
        &&& super::read_at(t, super::pc_plus(s.pc, 2))
        &&& t.temp2 == super::data(t)
        &&& t.temp == s.temp
    }
    &&& s.subcycle == 3 && s.temp + s.x >= 256 ==> {
        &&& t.subcycle == 4
        &&& super::read_at(t, super::word(((s.temp + s.x) % 256) as u8, s.temp2))
        &&& t.temp == s.temp && t.temp2 == s.temp2
    }
    &&& !super::finished(t) ==> super::arch_same(s, t)
    &&& (s.subcycle == 3 && s.temp + s.x < 256) || (!(1 <= s.subcycle <= 3)) ==> {
        &&& super::finished(t)
        &&& super::read_at(t, super::abs_index(super::word(s.temp, s.temp2), s.x))
        &&& t.pc == super::pc_plus(s.pc, 3)
        &&& t.a == (s.a | super::data(t))
        &&& t.p == super::nz_flags(s.p, s.a | super::data(t))
        &&& t.x == s.x
        &&& t.y == s.y
        &&& t.s == s.s
    }
    &&& !((s.subcycle == 3 && s.temp + s.x < 256) || (!(1 <= s.subcycle <= 3))) ==> !super::finished(t)
}

/// One bus cycle of ora absolute y.
pub(crate) open spec fn step_19(s: NesCpu, t: NesCpu) -> bool {
    &&& s.subcycle == 2 ==> super::shows(s, t, "ORA $"@ + super::hex_text(super::word(t.temp, t.temp2) as nat, 4, false) + ",Y"@)
    &&& s.subcycle != 2 ==> super::keeps_debugger(s, t)
    &&& s.subcycle == 1 ==> {
        &&& t.subcycle == 2
        &&& super::read_at(t, super::pc_plus(s.pc, 1))
        &&& t.temp == super::data(t)
    }
    &&& s.subcycle == 2 ==> {
        &&& t.subcycle == 3
        &&& super::read_at(t, super::pc_plus(s.pc, 2))
        &&& t.temp2 == super::data(t)
        &&& t.temp == s.temp
    }
    &&& s.subcycle == 3 && s.temp + s.y >= 256 ==> {
        &&& t.subcycle == 4
        &&& super::read_at(t, super::word(((s.temp + s.y) % 256) as u8, s.temp2))
        &&& t.temp == s.temp && t.temp2 == s.temp2
    }
    &&& !super::finished(t) ==> super::arch_same(s, t)
    &&& (s.subcycle == 3 && s.temp + s.y < 256) || (!(1 <= s.subcycle <= 3)) ==> {
        &&& super::finished(t)
        &&& super::read_at(t, super::abs_index(super::word(s.temp, s.temp2), s.y))
        &&& t.pc == super::pc_plus(s.pc, 3)
        &&& t.a == (s.a | super::data(t))
        &&& t.p == super::nz_flags(s.p, s.a | super::data(t))
        &&& t.x == s.x
        &&& t.y == s.y
        &&& t.s == s.s
    }
    &&& !((s.subcycle == 3 && s.temp + s.y < 256) || (!(1 <= s.subcycle <= 3))) ==> !super::finished(t)
}

/// One bus cycle of ora indirect x.
pub(crate) open spec fn step_01(s: NesCpu, t: NesCpu) -> bool {
    &&& s.subcycle == 1 ==> super::shows(s, t, "ORA ($"@ + super::hex_text(t.temp as nat, 2, false) + ",X)"@)
    &&& s.subcycle != 1 ==> super::keeps_debugger(s, t)
    &&& s.subcycle == 3 ==> t.temp == s.temp && t.temp2 == s.temp2
    &&& s.subcycle == 1 ==> {
        &&& t.subcycle == 2
        &&& super::read_at(t, super::pc_plus(s.pc, 1))
        &&& t.temp == super::data(t)
    }
    &&& s.subcycle == 2 ==> {
        &&& t.subcycle == 3
        &&& t.temp == ((s.temp + s.x) % 256) as u8
        &&& super::read_at(t, super::zp_index(s.temp, s.x))
        &&& t.temp2 == super::data(t)
    }
    &&& s.subcycle == 3 ==> {
        &&& t.subcycle == 4
        &&& super::read_at(t, s.temp as u16)
    }
    &&& s.subcycle == 4 ==> {
        &&& t.subcycle == 5
        &&& super::read_at(t, super::zp_index(s.temp, 1))
        &&& t.temp == super::data(t)
        &&& t.temp2 == s.temp2
    }
    &&& !super::finished(t) ==> super::arch_same(s, t)
    &&& !(1 <= s.subcycle <= 4) ==> {
        &&& super::finished(t)
        &&& super::read_at(t, super::word(s.temp2, s.temp))
        &&& t.pc == super::pc_plus(s.pc, 2)
        &&& t.a == (s.a | super::data(t))
        &&& t.p == super::nz_flags(s.p, s.a | super::data(t))
        &&& t.x == s.x
        &&& t.y == s.y
        &&& t.s == s.s
    }
    &&& !(!(1 <= s.subcycle <= 4)) ==> !super::finished(t)
}

/// One bus cycle of ora indirect y.
pub(crate) open spec fn step_11(s: NesCpu, t: NesCpu) -> bool {
    &&& s.subcycle == 1 ==> super::shows(s, t, "ORA ($"@ + super::hex_text(t.temp as nat, 2, false) + "),Y"@)
    &&& s.subcycle != 1 ==> super::keeps_debugger(s, t)
    &&& s.subcycle == 1 ==> {
        &&& t.subcycle == 2
        &&& super::read_at(t, super::pc_plus(s.pc, 1))
        &&& t.temp == super::data(t)
    }
    &&& s.subcycle == 2 ==> {
        &&& t.subcycle == 3
        &&& super::read_at(t, s.temp as u16)
        &&& t.temp2 == super::data(t)
        &&& t.temp == s.temp
    }
    &&& s.subcycle == 3 ==> {
        &&& t.subcycle == 4
        &&& super::read_at(t, super::zp_index(s.temp, 1))
        &&& t.temp == super::data(t)
        &&& t.temp2 == s.temp2
    }
    &&& s.subcycle == 4 && s.temp2 + s.y >= 256 ==> {
        &&& t.subcycle == 5
        &&& super::read_at(t, super::word(((s.temp2 + s.y) % 256) as u8, s.temp))
    }
    &&& !super::finished(t) ==> super::arch_same(s, t)
    &&& (s.subcycle == 4 && s.temp2 + s.y < 256) || (!(1 <= s.subcycle <= 4)) ==> {
        &&& super::finished(t)
        &&& super::read_at(t, super::abs_index(super::word(s.temp2, s.temp), s.y))
        &&& t.pc == super::pc_plus(s.pc, 2)
        &&& t.a == (s.a | super::data(t))
        &&& t.p == super::nz_flags(s.p, s.a | super::data(t))
        &&& t.x == s.x
        &&& t.y == s.y
        &&& t.s == s.s
    }
    &&& !((s.subcycle == 4 && s.temp2 + s.y < 256) || (!(1 <= s.subcycle <= 4))) ==> !super::finished(t)
}

/// One bus cycle of eor xor immediate.
pub(crate) open spec fn step_49(s: NesCpu, t: NesCpu) -> bool {
    &&& super::shows(s, t, "EOR #$"@ + super::hex_text(t.temp as nat, 2, false) + ""@)
    &&& !super::finished(t) ==> super::arch_same(s, t)
    &&& super::finished(t)
    &&& super::read_at(t, super::pc_plus(s.pc, 1))
    &&& t.pc == super::pc_plus(s.pc, 2)
    &&& t.a == (s.a ^ super::data(t))
    &&& t.p == super::nz_flags(s.p, s.a ^ super::data(t))
    &&& t.x == s.x
    &&& t.y == s.y
    &&& t.s == s.s
}

/// One bus cycle of eor zero page.
pub(crate) open spec fn step_45(s: NesCpu, t: NesCpu) -> bool {
    &&& s.subcycle == 1 ==> super::shows(s, t, "EOR $"@ + super::hex_text(t.temp as nat, 2, false) + ""@)
    &&& s.subcycle != 1 ==> super::keeps_debugger(s, t)
    &&& s.subcycle == 1 ==> {
        &&& t.subcycle == 2
        &&& super::read_at(t, super::pc_plus(s.pc, 1))
        &&& t.temp == super::data(t)
    }
    &&& !super::finished(t) ==> super::arch_same(s, t)
    &&& s.subcycle != 1 ==> {
        &&& super::finished(t)
        &&& super::read_at(t, s.temp as u16)
        &&& t.pc == super::pc_plus(s.pc, 2)
        &&& t.a == (s.a ^ super::data(t))
        &&& t.p == super::nz_flags(s.p, s.a ^ super::data(t))
        &&& t.x == s.x
        &&& t.y == s.y
        &&& t.s == s.s
    }
    &&& !(s.subcycle != 1) ==> !super::finished(t)
}

/// One bus cycle of eor zero page x.
pub(crate) open spec fn step_55(s: NesCpu, t: NesCpu) -> bool {
    &&& s.subcycle == 1 ==> super::shows(s, t, "EOR $"@ + super::hex_text(t.temp as nat, 2, false) + ",X"@)
    &&& s.subcycle != 1 ==> super::keeps_debugger(s, t)
    &&& s.subcycle == 1 ==> {
        &&& t.subcycle == 2
        &&& super::read_at(t, super::pc_plus(s.pc, 1))
        &&& t.temp == super::data(t)
    }
    &&& s.subcycle == 2 ==> {
        &&& t.subcycle == 3
        &&& super::read_at(t, s.temp as u16)
        &&& t.temp == s.temp
    }
    &&& !super::finished(t) ==> super::arch_same(s, t)
    &&& !(1 <= s.subcycle <= 2) ==> {
        &&& super::finished(t)
        &&& super::read_at(t, super::zp_index(s.temp, s.x))
        &&& t.pc == super::pc_plus(s.pc, 2)
        &&& t.a == (s.a ^ super::data(t))
        &&& t.p == super::nz_flags(s.p, s.a ^ super::data(t))
        &&& t.x == s.x
        &&& t.y == s.y
        &&& t.s == s.s
    }
    &&& !(!(1 <= s.subcycle <= 2)) ==> !super::finished(t)
}

/// One bus cycle of eor absolute.
pub(crate) open spec fn step_4d(s: NesCpu, t: NesCpu) -> bool {
    &&& s.subcycle == 2 ==> super::shows(s, t, "EOR $"@ + super::hex_text(super::word(t.temp, t.temp2) as nat, 4, false) + ""@)
    &&& s.subcycle != 2 ==> super::keeps_debugger(s, t)
    &&& s.subcycle == 1 ==> {
        &&& t.subcycle == 2
        &&& super::read_at(t, super::pc_plus(s.pc, 1))
        &&& t.temp == super::data(t)
    }
    &&& s.subcycle == 2 ==> {
        &&& t.subcycle == 3
        &&& super::read_at(t, super::pc_plus(s.pc, 2))
        &&& t.temp2 == super::data(t)
        &&& t.temp == s.temp
    }
    &&& !super::finished(t) ==> super::arch_same(s, t)
    &&& !(1 <= s.subcycle <= 2) ==> {
        &&& super::finished(t)
        &&& super::read_at(t, super::word(s.temp, s.temp2))
        &&& t.pc == super::pc_plus(s.pc, 3)
        &&& t.a == (s.a ^ super::data(t))
        &&& t.p == super::nz_flags(s.p, s.a ^ super::data(t))
        &&& t.x == s.x
        &&& t.y == s.y
        &&& t.s == s.s
    }
    &&& !(!(1 <= s.subcycle <= 2)) ==> !super::finished(t)
}

/// One bus cycle of eor absolute x.
pub(crate) open spec fn step_5d(s: NesCpu, t: NesCpu) -> bool {
    &&& s.subcycle == 2 ==> super::shows(s, t, "EOR $"@ + super::hex_text(super::word(t.temp, t.temp2) as nat, 4, false) + ",X"@)
    &&& s.subcycle != 2 ==> super::keeps_debugger(s, t)
    &&& s.subcycle == 1 ==> {
        &&& t.subcycle == 2
        &&& super::read_at(t, super::pc_plus(s.pc, 1))
        &&& t.temp == super::data(t)
    }
    &&& s.subcycle == 2 ==> {
        &&& t.subcycle == 3
        &&& super::read_at(t, super::pc_plus(s.pc, 2))
        &&& t.temp2 == super::data(t)
        &&& t.temp == s.temp
    }
    &&& s.subcycle == 3 && s.temp + s.x >= 256 ==> {
        &&& t.subcycle == 4
        &&& super::read_at(t, super::word(((s.temp + s.x) % 256) as u8, s.temp2))
        &&& t.temp == s.temp && t.temp2 == s.temp2
    }
    &&& !super::finished(t) ==> super::arch_same(s, t)
    &&& (s.subcycle == 3 && s.temp + s.x < 256) || (!(1 <= s.subcycle <= 3)) ==> {
        &&& super::finished(t)
        &&& super::read_at(t, super::abs_index(super::word(s.temp, s.temp2), s.x))
        &&& t.pc == super::pc_plus(s.pc, 3)
        &&& t.a == (s.a ^ super::data(t))
        &&& t.p == super::nz_flags(s.p, s.a ^ super::data(t))
        &&& t.x == s.x
        &&& t.y == s.y
        &&& t.s == s.s
    }
    &&& !((s.subcycle == 3 && s.temp + s.x < 256) || (!(1 <= s.subcycle <= 3))) ==> !super::finished(t)
}

/// One bus cycle of eor absolute y.
pub(crate) open spec fn step_59(s: NesCpu, t: NesCpu) -> bool {
    &&& s.subcycle == 2 ==> super::shows(s, t, "EOR $"@ + super::hex_text(super::word(t.temp, t.temp2) as nat, 4, false) + ",Y"@)
    &&& s.subcycle != 2 ==> super::keeps_debugger(s, t)
    &&& s.subcycle == 1 ==> {
        &&& t.subcycle == 2
        &&& super::read_at(t, super::pc_plus(s.pc, 1))
        &&& t.temp == super::data(t)
    }
    &&& s.subcycle == 2 ==> {
        &&& t.subcycle == 3
        &&& super::read_at(t, super::pc_plus(s.pc, 2))
        &&& t.temp2 == super::data(t)
        &&& t.temp == s.temp
    }
    &&& s.subcycle == 3 && s.temp + s.y >= 256 ==> {
        &&& t.subcycle == 4
        &&& super::read_at(t, super::word(((s.temp + s.y) % 256) as u8, s.temp2))
        &&& t.temp == s.temp && t.temp2 == s.temp2
    }
    &&& !super::finished(t) ==> super::arch_same(s, t)
    &&& (s.subcycle == 3 && s.temp + s.y < 256) || (!(1 <= s.subcycle <= 3)) ==> {
        &&& super::finished(t)
        &&& super::read_at(t, super::abs_index(super::word(s.temp, s.temp2), s.y))
        &&& t.pc == super::pc_plus(s.pc, 3)
        &&& t.a == (s.a ^ super::data(t))
        &&& t.p == super::nz_flags(s.p, s.a ^ super::data(t))
        &&& t.x == s.x
        &&& t.y == s.y
        &&& t.s == s.s
    }
    &&& !((s.subcycle == 3 && s.temp + s.y < 256) || (!(1 <= s.subcycle <= 3))) ==> !super::finished(t)
}

/// One bus cycle of eor xor indirect x.
pub(crate) open spec fn step_41(s: NesCpu, t: NesCpu) -> bool {
    &&& s.subcycle == 1 ==> super::shows(s, t, "EOR ($"@ + super::hex_text(t.temp as nat, 2, false) + ",X)"@)
    &&& s.subcycle != 1 ==> super::keeps_debugger(s, t)
    &&& s.subcycle == 3 ==> t.temp == s.temp && t.temp2 == s.temp2
    &&& s.subcycle == 1 ==> {
        &&& t.subcycle == 2
        &&& super::read_at(t, super::pc_plus(s.pc, 1))
        &&& t.temp == super::data(t)
    }
    &&& s.subcycle == 2 ==> {
        &&& t.subcycle == 3
        &&& t.temp == ((s.temp + s.x) % 256) as u8
        &&& super::read_at(t, super::zp_index(s.temp, s.x))
        &&& t.temp2 == super::data(t)
    }
    &&& s.subcycle == 3 ==> {
        &&& t.subcycle == 4
        &&& super::read_at(t, s.temp as u16)
    }
    &&& s.subcycle == 4 ==> {
        &&& t.subcycle == 5
        &&& super::read_at(t, super::zp_index(s.temp, 1))
        &&& t.temp == super::data(t)
        &&& t.temp2 == s.temp2
    }
    &&& !super::finished(t) ==> super::arch_same(s, t)
    &&& !(1 <= s.subcycle <= 4) ==> {
        &&& super::finished(t)
        &&& super::read_at(t, super::word(s.temp2, s.temp))
        &&& t.pc == super::pc_plus(s.pc, 2)
        &&& t.a == (s.a ^ super::data(t))
        &&& t.p == super::nz_flags(s.p, s.a ^ super::data(t))
        &&& t.x == s.x
        &&& t.y == s.y
        &&& t.s == s.s
    }
    &&& !(!(1 <= s.subcycle <= 4)) ==> !super::finished(t)
}

/// One bus cycle of eor indirect y.
pub(crate) open spec fn step_51(s: NesCpu, t: NesCpu) -> bool {
    &&& s.subcycle == 1 ==> super::shows(s, t, "EOR ($"@ + super::hex_text(t.temp as nat, 2, false) + "),Y"@)
    &&& s.subcycle != 1 ==> super::keeps_debugger(s, t)
    &&& s.subcycle == 1 ==> {
        &&& t.subcycle == 2
        &&& super::read_at(t, super::pc_plus(s.pc, 1))
        &&& t.temp == super::data(t)
    }
    &&& s.subcycle == 2 ==> {
        &&& t.subcycle == 3
        &&& super::read_at(t, s.temp as u16)
        &&& t.temp2 == super::data(t)
        &&& t.temp == s.temp
    }
    &&& s.subcycle == 3 ==> {
        &&& t.subcycle == 4
        &&& super::read_at(t, super::zp_index(s.temp, 1))
        &&& t.temp == super::data(t)
        &&& t.temp2 == s.temp2
    }
    &&& s.subcycle == 4 && s.temp2 + s.y >= 256 ==> {
        &&& t.subcycle == 5
        &&& super::read_at(t, super::word(((s.temp2 + s.y) % 256) as u8, s.temp))
    }
    &&& !super::finished(t) ==> super::arch_same(s, t)
    &&& (s.subcycle == 4 && s.temp2 + s.y < 256) || (!(1 <= s.subcycle <= 4)) ==> {
        &&& super::finished(t)
        &&& super::read_at(t, super::abs_index(super::word(s.temp2, s.temp), s.y))
        &&& t.pc == super::pc_plus(s.pc, 2)
        &&& t.a == (s.a ^ super::data(t))
        &&& t.p == super::nz_flags(s.p, s.a ^ super::data(t))
        &&& t.x == s.x
        &&& t.y == s.y
        &&& t.s == s.s
    }
    &&& !((s.subcycle == 4 && s.temp2 + s.y < 256) || (!(1 <= s.subcycle <= 4))) ==> !super::finished(t)
}

/// One bus cycle of adc immediate, add with carry.
pub(crate) open spec fn step_69(s: NesCpu, t: NesCpu) -> bool {
    &&& super::shows(s, t, "ADC #$"@ + super::hex_text(t.temp as nat, 2, false) + ""@)
    &&& !super::finished(t) ==> super::arch_same(s, t)
    &&& super::finished(t)
    &&& super::read_at(t, super::pc_plus(s.pc, 1))
    &&& t.pc == super::pc_plus(s.pc, 2)
    &&& t.a == super::adc_result(s.p, s.a, super::data(t))
    &&& t.p == super::adc_flags(s.p, s.a, super::data(t))
    &&& t.x == s.x
    &&& t.y == s.y
    &&& t.s == s.s
}

/// One bus cycle of adc zero page.
pub(crate) open spec fn step_65(s: NesCpu, t: NesCpu) -> bool {
    &&& s.subcycle == 1 ==> super::shows(s, t, "ADC $"@ + super::hex_text(t.temp as nat, 2, false) + ""@)
    &&& s.subcycle != 1 ==> super::keeps_debugger(s, t)
    &&& s.subcycle == 1 ==> {
        &&& t.subcycle == 2
        &&& super::read_at(t, super::pc_plus(s.pc, 1))
        &&& t.temp == super::data(t)
    }
    &&& !super::finished(t) ==> super::arch_same(s, t)
    &&& s.subcycle != 1 ==> {
        &&& super::finished(t)
        &&& super::read_at(t, s.temp as u16)
        &&& t.pc == super::pc_plus(s.pc, 2)
        &&& t.a == super::adc_result(s.p, s.a, super::data(t))
        &&& t.p == super::adc_flags(s.p, s.a, super::data(t))
        &&& t.x == s.x
        &&& t.y == s.y
        &&& t.s == s.s
    }
    &&& !(s.subcycle != 1) ==> !super::finished(t)
}

/// One bus cycle of adc zero page x.
pub(crate) open spec fn step_75(s: NesCpu, t: NesCpu) -> bool {
    &&& s.subcycle == 1 ==> super::shows(s, t, "ADC $"@ + super::hex_text(t.temp as nat, 2, false) + ",X"@)
    &&& s.subcycle != 1 ==> super::keeps_debugger(s, t)
    &&& s.subcycle == 1 ==> {
        &&& t.subcycle == 2
        &&& super::read_at(t, super::pc_plus(s.pc, 1))
        &&& t.temp == super::data(t)
    }
    &&& s.subcycle == 2 ==> {
        &&& t.subcycle == 3
        &&& super::read_at(t, s.temp as u16)
        &&& t.temp == s.temp
    }
    &&& !super::finished(t) ==> super::arch_same(s, t)
    &&& !(1 <= s.subcycle <= 2) ==> {
        &&& super::finished(t)
        &&& super::read_at(t, super::zp_index(s.temp, s.x))
        &&& t.pc == super::pc_plus(s.pc, 2)
        &&& t.a == super::adc_result(s.p, s.a, super::data(t))
        &&& t.p == super::adc_flags(s.p, s.a, super::data(t))
        &&& t.x == s.x
        &&& t.y == s.y
        &&& t.s == s.s
    }
    &&& !(!(1 <= s.subcycle <= 2)) ==> !super::finished(t)
}

/// One bus cycle of adc absolute.
pub(crate) open spec fn step_6d(s: NesCpu, t: NesCpu) -> bool {
    &&& s.subcycle == 2 ==> super::shows(s, t, "ADC $"@ + super::hex_text(super::word(t.temp, t.temp2) as nat, 4, false) + ""@)
    &&& s.subcycle != 2 ==> super::keeps_debugger(s, t)
    &&& s.subcycle == 1 ==> {
        &&& t.subcycle == 2
        &&& super::read_at(t, super::pc_plus(s.pc, 1))
        &&& t.temp == super::data(t)
    }
    &&& s.subcycle == 2 ==> {
        &&& t.subcycle == 3
        &&& super::read_at(t, super::pc_plus(s.pc, 2))
        &&& t.temp2 == super::data(t)
        &&& t.temp == s.temp
    }
    &&& !super::finished(t) ==> super::arch_same(s, t)
    &&& !(1 <= s.subcycle <= 2) ==> {
        &&& super::finished(t)
        &&& super::read_at(t, super::word(s.temp, s.temp2))
        &&& t.pc == super::pc_plus(s.pc, 3)
        &&& t.a == super::adc_result(s.p, s.a, super::data(t))
        &&& t.p == super::adc_flags(s.p, s.a, super::data(t))
        &&& t.x == s.x
        &&& t.y == s.y
        &&& t.s == s.s
    }
    &&& !(!(1 <= s.subcycle <= 2)) ==> !super::finished(t)
}

/// One bus cycle of adc absolute x.
pub(crate) open spec fn step_7d(s: NesCpu, t: NesCpu) -> bool {
    &&& s.subcycle == 2 ==> super::shows(s, t, "ADC $"@ + super::hex_text(super::word(t.temp, t.temp2) as nat, 4, false) + ",X"@)
    &&& s.subcycle != 2 ==> super::keeps_debugger(s, t)
    &&& s.subcycle == 1 ==> {
        &&& t.subcycle == 2
        &&& super::read_at(t, super::pc_plus(s.pc, 1))
        &&& t.temp == super::data(t)
    }
    &&& s.subcycle == 2 ==> {
        &&& t.subcycle == 3
        &&& super::read_at(t, super::pc_plus(s.pc, 2))
        &&& t.temp2 == super::data(t)
        &&& t.temp == s.temp
    }
    &&& s.subcycle == 3 && s.temp + s.x >= 256 ==> {
        &&& t.subcycle == 4
        &&& super::read_at(t, super::word(((s.temp + s.x) % 256) as u8, s.temp2))
        &&& t.temp == s.temp && t.temp2 == s.temp2
    }
    &&& !super::finished(t) ==> super::arch_same(s, t)
    &&& (s.subcycle == 3 && s.temp + s.x < 256) || (!(1 <= s.subcycle <= 3)) ==> {
        &&& super::finished(t)
        &&& super::read_at(t, super::abs_index(super::word(s.temp, s.temp2), s.x))
        &&& t.pc == super::pc_plus(s.pc, 3)
        &&& t.a == super::adc_result(s.p, s.a, super::data(t))
        &&& t.p == super::adc_flags(s.p, s.a, super::data(t))
        &&& t.x == s.x
        &&& t.y == s.y
        &&& t.s == s.s
    }
    &&& !((s.subcycle == 3 && s.temp + s.x < 256) || (!(1 <= s.subcycle <= 3))) ==> !super::finished(t)
}

/// One bus cycle of adc absolute y.
pub(crate) open spec fn step_79(s: NesCpu, t: NesCpu) -> bool {
    &&& s.subcycle == 2 ==> super::shows(s, t, "ADC $"@ + super::hex_text(super::word(t.temp, t.temp2) as nat, 4, false) + ",Y"@)
    &&& s.subcycle != 2 ==> super::keeps_debugger(s, t)
    &&& s.subcycle == 1 ==> {
        &&& t.subcycle == 2
        &&& super::read_at(t, super::pc_plus(s.pc, 1))
        &&& t.temp == super::data(t)
    }
    &&& s.subcycle == 2 ==> {
        &&& t.subcycle == 3
        &&& super::read_at(t, super::pc_plus(s.pc, 2))
        &&& t.temp2 == super::data(t)
        &&& t.temp == s.temp
    }
    &&& s.subcycle == 3 && s.temp + s.y >= 256 ==> {
        &&& t.subcycle == 4
        &&& super::read_at(t, super::word(((s.temp + s.y) % 256) as u8, s.temp2))
        &&& t.temp == s.temp && t.temp2 == s.temp2
    }
    &&& !super::finished(t) ==> super::arch_same(s, t)
    &&& (s.subcycle == 3 && s.temp + s.y < 256) || (!(1 <= s.subcycle <= 3)) ==> {
        &&& super::finished(t)
        &&& super::read_at(t, super::abs_index(super::word(s.temp, s.temp2), s.y))
        &&& t.pc == super::pc_plus(s.pc, 3)
        &&& t.a == super::adc_result(s.p, s.a, super::data(t))
        &&& t.p == super::adc_flags(s.p, s.a, super::data(t))
        &&& t.x == s.x
        &&& t.y == s.y
        &&& t.s == s.s
    }
    &&& !((s.subcycle == 3 && s.temp + s.y < 256) || (!(1 <= s.subcycle <= 3))) ==> !super::finished(t)
}

/// One bus cycle of adc adc indirect x.
pub(crate) open spec fn step_61(s: NesCpu, t: NesCpu) -> bool {
    &&& s.subcycle == 1 ==> super::shows(s, t, "ADC ($"@ + super::hex_text(t.temp as nat, 2, false) + ",X)"@)
    &&& s.subcycle != 1 ==> super::keeps_debugger(s, t)
    &&& s.subcycle == 3 ==> t.temp == s.temp && t.temp2 == s.temp2
    &&& s.subcycle == 1 ==> {
        &&& t.subcycle == 2
        &&& super::read_at(t, super::pc_plus(s.pc, 1))
        &&& t.temp == super::data(t)
    }
    &&& s.subcycle == 2 ==> {
        &&& t.subcycle == 3
        &&& t.temp == ((s.temp + s.x) % 256) as u8
        &&& super::read_at(t, super::zp_index(s.temp, s.x))
        &&& t.temp2 == super::data(t)
    }
    &&& s.subcycle == 3 ==> {
        &&& t.subcycle == 4
        &&& super::read_at(t, s.temp as u16)
    }
    &&& s.subcycle == 4 ==> {
        &&& t.subcycle == 5
        &&& super::read_at(t, super::zp_index(s.temp, 1))
        &&& t.temp == super::data(t)
        &&& t.temp2 == s.temp2
    }
    &&& !super::finished(t) ==> super::arch_same(s, t)
    &&& !(1 <= s.subcycle <= 4) ==> {
        &&& super::finished(t)
        &&& super::read_at(t, super::word(s.temp2, s.temp))
        &&& t.pc == super::pc_plus(s.pc, 2)
        &&& t.a == super::adc_result(s.p, s.a, super::data(t))
        &&& t.p == super::adc_flags(s.p, s.a, super::data(t))
        &&& t.x == s.x
        &&& t.y == s.y
        &&& t.s == s.s
    }
    &&& !(!(1 <= s.subcycle <= 4)) ==> !super::finished(t)
}

/// One bus cycle of adc indirect y.
pub(crate) open spec fn step_71(s: NesCpu, t: NesCpu) -> bool {
    &&& s.subcycle == 1 ==> super::shows(s, t, "ADC ($"@ + super::hex_text(t.temp as nat, 2, false) + "),Y"@)
    &&& s.subcycle != 1 ==> super::keeps_debugger(s, t)
    &&& s.subcycle == 1 ==> {
        &&& t.subcycle == 2
        &&& super::read_at(t, super::pc_plus(s.pc, 1))
        &&& t.temp == super::data(t)
    }
    &&& s.subcycle == 2 ==> {
        &&& t.subcycle == 3
        &&& super::read_at(t, s.temp as u16)
        &&& t.temp2 == super::data(t)
        &&& t.temp == s.temp
    }
    &&& s.subcycle == 3 ==> {
        &&& t.subcycle == 4
        &&& super::read_at(t, super::zp_index(s.temp, 1))
        &&& t.temp == super::data(t)
        &&& t.temp2 == s.temp2
    }
    &&& s.subcycle == 4 && s.temp2 + s.y >= 256 ==> {
        &&& t.subcycle == 5
        &&& super::read_at(t, super::word(((s.temp2 + s.y) % 256) as u8, s.temp))
    }
    &&& !super::finished(t) ==> super::arch_same(s, t)
    &&& (s.subcycle == 4 && s.temp2 + s.y < 256) || (!(1 <= s.subcycle <= 4)) ==> {
        &&& super::finished(t)
        &&& super::read_at(t, super::abs_index(super::word(s.temp2, s.temp), s.y))
        &&& t.pc == super::pc_plus(s.pc, 2)
        &&& t.a == super::adc_result(s.p, s.a, super::data(t))
        &&& t.p == super::adc_flags(s.p, s.a, super::data(t))
        &&& t.x == s.x
        &&& t.y == s.y
        &&& t.s == s.s
    }
    &&& !((s.subcycle == 4 && s.temp2 + s.y < 256) || (!(1 <= s.subcycle <= 4))) ==> !super::finished(t)
}

/// One bus cycle of sbc immediate, subtract with carry.
pub(crate) open spec fn step_e9(s: NesCpu, t: NesCpu) -> bool {
    &&& super::shows(s, t, "SBC #$"@ + super::hex_text(t.temp as nat, 2, false) + ""@)
    &&& !super::finished(t) ==> super::arch_same(s, t)
    &&& super::finished(t)
    &&& super::read_at(t, super::pc_plus(s.pc, 1))
    &&& t.pc == super::pc_plus(s.pc, 2)
    &&& t.a == super::sbc_result(s.p, s.a, super::data(t))
    &&& t.p == super::sbc_flags(s.p, s.a, super::data(t))
    &&& t.x == s.x
    &&& t.y == s.y
    &&& t.s == s.s
}

/// One bus cycle of sbc zero page.
pub(crate) open spec fn step_e5(s: NesCpu, t: NesCpu) -> bool {
    &&& s.subcycle == 1 ==> super::shows(s, t, "SBC $"@ + super::hex_text(t.temp as nat, 2, false) + ""@)
    &&& s.subcycle != 1 ==> super::keeps_debugger(s, t)
    &&& s.subcycle == 1 ==> {
        &&& t.subcycle == 2
        &&& super::read_at(t, super::pc_plus(s.pc, 1))
        &&& t.temp == super::data(t)
    }
    &&& !super::finished(t) ==> super::arch_same(s, t)
    &&& s.subcycle != 1 ==> {
        &&& super::finished(t)
        &&& super::read_at(t, s.temp as u16)
        &&& t.pc == super::pc_plus(s.pc, 2)
        &&& t.a == super::sbc_result(s.p, s.a, super::data(t))
        &&& t.p == super::sbc_flags(s.p, s.a, super::data(t))
        &&& t.x == s.x
        &&& t.y == s.y
        &&& t.s == s.s
    }
    &&& !(s.subcycle != 1) ==> !super::finished(t)
}

/// One bus cycle of sbc zero page x.
pub(crate) open spec fn step_f5(s: NesCpu, t: NesCpu) -> bool {
    &&& s.subcycle == 1 ==> super::shows(s, t, "SBC $"@ + super::hex_text(t.temp as nat, 2, false) + ",X"@)
    &&& s.subcycle != 1 ==> super::keeps_debugger(s, t)
    &&& s.subcycle == 1 ==> {
        &&& t.subcycle == 2
        &&& super::read_at(t, super::pc_plus(s.pc, 1))
        &&& t.temp == super::data(t)
    }
    &&& s.subcycle == 2 ==> {
        &&& t.subcycle == 3
        &&& super::read_at(t, s.temp as u16)
        &&& t.temp == s.temp
    }
    &&& !super::finished(t) ==> super::arch_same(s, t)
    &&& !(1 <= s.subcycle <= 2) ==> {
        &&& super::finished(t)
        &&& super::read_at(t, super::zp_index(s.temp, s.x))
        &&& t.pc == super::pc_plus(s.pc, 2)
        &&& t.a == super::sbc_result(s.p, s.a, super::data(t))
        &&& t.p == super::sbc_flags(s.p, s.a, super::data(t))
        &&& t.x == s.x
        &&& t.y == s.y
        &&& t.s == s.s
    }
    &&& !(!(1 <= s.subcycle <= 2)) ==> !super::finished(t)
}

/// One bus cycle of sbc absolute.
pub(crate) open spec fn step_ed(s: NesCpu, t: NesCpu) -> bool {
    &&& s.subcycle == 2 ==> super::shows(s, t, "SBC $"@ + super::hex_text(super::word(t.temp, t.temp2) as nat, 4, false) + ""@)
    &&& s.subcycle != 2 ==> super::keeps_debugger(s, t)
    &&& s.subcycle == 1 ==> {
        &&& t.subcycle == 2
        &&& super::read_at(t, super::pc_plus(s.pc, 1))
        &&& t.temp == super::data(t)
    }
    &&& s.subcycle == 2 ==> {
        &&& t.subcycle == 3
        &&& super::read_at(t, super::pc_plus(s.pc, 2))
        &&& t.temp2 == super::data(t)
        &&& t.temp == s.temp
    }
    &&& !super::finished(t) ==> super::arch_same(s, t)
    &&& !(1 <= s.subcycle <= 2) ==> {
        &&& super::finished(t)
        &&& super::read_at(t, super::word(s.temp, s.temp2))
        &&& t.pc == super::pc_plus(s.pc, 3)
        &&& t.a == super::sbc_result(s.p, s.a, super::data(t))
        &&& t.p == super::sbc_flags(s.p, s.a, super::data(t))
        &&& t.x == s.x
        &&& t.y == s.y
        &&& t.s == s.s
    }
    &&& !(!(1 <= s.subcycle <= 2)) ==> !super::finished(t)
}

/// One bus cycle of sbc absolute x.
pub(crate) open spec fn step_fd(s: NesCpu, t: NesCpu) -> bool {
    &&& s.subcycle == 2 ==> super::shows(s, t, "SBC $"@ + super::hex_text(super::word(t.temp, t.temp2) as nat, 4, false) + ",X"@)
    &&& s.subcycle != 2 ==> super::keeps_debugger(s, t)
    &&& s.subcycle == 1 ==> {
        &&& t.subcycle == 2
        &&& super::read_at(t, super::pc_plus(s.pc, 1))
        &&& t.temp == super::data(t)
    }
    &&& s.subcycle == 2 ==> {
        &&& t.subcycle == 3
        &&& super::read_at(t, super::pc_plus(s.pc, 2))
        &&& t.temp2 == super::data(t)
        &&& t.temp == s.temp
    }
    &&& s.subcycle == 3 && s.temp + s.x >= 256 ==> {
        &&& t.subcycle == 4
        &&& super::read_at(t, super::word(((s.temp + s.x) % 256) as u8, s.temp2))
        &&& t.temp == s.temp && t.temp2 == s.temp2
    }
    &&& !super::finished(t) ==> super::arch_same(s, t)
    &&& (s.subcycle == 3 && s.temp + s.x < 256) || (!(1 <= s.subcycle <= 3)) ==> {
        &&& super::finished(t)
        &&& super::read_at(t, super::abs_index(super::word(s.temp, s.temp2), s.x))
        &&& t.pc == super::pc_plus(s.pc, 3)
        &&& t.a == super::sbc_result(s.p, s.a, super::data(t))
        &&& t.p == super::sbc_flags(s.p, s.a, super::data(t))
        &&& t.x == s.x
        &&& t.y == s.y
        &&& t.s == s.s
    }
    &&& !((s.subcycle == 3 && s.temp + s.x < 256) || (!(1 <= s.subcycle <= 3))) ==> !super::finished(t)
}

/// One bus cycle of sbc absolute y.
pub(crate) open spec fn step_f9(s: NesCpu, t: NesCpu) -> bool {
    &&& s.subcycle == 2 ==> super::shows(s, t, "SBC $"@ + super::hex_text(super::word(t.temp, t.temp2) as nat, 4, false) + ",Y"@)
    &&& s.subcycle != 2 ==> super::keeps_debugger(s, t)
    &&& s.subcycle == 1 ==> {
        &&& t.subcycle == 2
        &&& super::read_at(t, super::pc_plus(s.pc, 1))
        &&& t.temp == super::data(t)
    }
    &&& s.subcycle == 2 ==> {
        &&& t.subcycle == 3
        &&& super::read_at(t, super::pc_plus(s.pc, 2))
        &&& t.temp2 == super::data(t)
        &&& t.temp == s.temp
    }
    &&& s.subcycle == 3 && s.temp + s.y >= 256 ==> {
        &&& t.subcycle == 4
        &&& super::read_at(t, super::word(((s.temp + s.y) % 256) as u8, s.temp2))
        &&& t.temp == s.temp && t.temp2 == s.temp2
    }
    &&& !super::finished(t) ==> super::arch_same(s, t)
    &&& (s.subcycle == 3 && s.temp + s.y < 256) || (!(1 <= s.subcycle <= 3)) ==> {
        &&& super::finished(t)
        &&& super::read_at(t, super::abs_index(super::word(s.temp, s.temp2), s.y))
        &&& t.pc == super::pc_plus(s.pc, 3)
        &&& t.a == super::sbc_result(s.p, s.a, super::data(t))
        &&& t.p == super::sbc_flags(s.p, s.a, super::data(t))
        &&& t.x == s.x
        &&& t.y == s.y
        &&& t.s == s.s
    }
    &&& !((s.subcycle == 3 && s.temp + s.y < 256) || (!(1 <= s.subcycle <= 3))) ==> !super::finished(t)
}

/// One bus cycle of sbc indirect x.
pub(crate) open spec fn step_e1(s: NesCpu, t: NesCpu) -> bool {
    &&& s.subcycle == 1 ==> super::shows(s, t, "SBC ($"@ + super::hex_text(t.temp as nat, 2, false) + ",X)"@)
    &&& s.subcycle != 1 ==> super::keeps_debugger(s, t)
    &&& s.subcycle == 3 ==> t.temp == s.temp && t.temp2 == s.temp2
    &&& s.subcycle == 1 ==> {
        &&& t.subcycle == 2
        &&& super::read_at(t, super::pc_plus(s.pc, 1))
        &&& t.temp == super::data(t)
    }
    &&& s.subcycle == 2 ==> {
        &&& t.subcycle == 3
        &&& t.temp == ((s.temp + s.x) % 256) as u8
        &&& super::read_at(t, super::zp_index(s.temp, s.x))
        &&& t.temp2 == super::data(t)
    }
    &&& s.subcycle == 3 ==> {
        &&& t.subcycle == 4
        &&& super::read_at(t, s.temp as u16)
    }
    &&& s.subcycle == 4 ==> {
        &&& t.subcycle == 5
        &&& super::read_at(t, super::zp_index(s.temp, 1))
        &&& t.temp == super::data(t)
        &&& t.temp2 == s.temp2
    }
    &&& !super::finished(t) ==> super::arch_same(s, t)
    &&& !(1 <= s.subcycle <= 4) ==> {
        &&& super::finished(t)
        &&& super::read_at(t, super::word(s.temp2, s.temp))
        &&& t.pc == super::pc_plus(s.pc, 2)
        &&& t.a == super::sbc_result(s.p, s.a, super::data(t))
        &&& t.p == super::sbc_flags(s.p, s.a, super::data(t))
        &&& t.x == s.x
        &&& t.y == s.y
        &&& t.s == s.s
    }
    &&& !(!(1 <= s.subcycle <= 4)) ==> !super::finished(t)
}

/// One bus cycle of sbc indirect y.
pub(crate) open spec fn step_f1(s: NesCpu, t: NesCpu) -> bool {
    &&& s.subcycle == 1 ==> super::shows(s, t, "SBC ($"@ + super::hex_text(t.temp as nat, 2, false) + "),Y"@)
    &&& s.subcycle != 1 ==> super::keeps_debugger(s, t)
    &&& s.subcycle == 1 ==> {
        &&& t.subcycle == 2
        &&& super::read_at(t, super::pc_plus(s.pc, 1))
        &&& t.temp == super::data(t)
    }
    &&& s.subcycle == 2 ==> {
        &&& t.subcycle == 3
        &&& super::read_at(t, s.temp as u16)
        &&& t.temp2 == super::data(t)
        &&& t.temp == s.temp
    }
    &&& s.subcycle == 3 ==> {
        &&& t.subcycle == 4
        &&& super::read_at(t, super::zp_index(s.temp, 1))
        &&& t.temp == super::data(t)
        &&& t.temp2 == s.temp2
    }
    &&& s.subcycle == 4 && s.temp2 + s.y >= 256 ==> {
        &&& t.subcycle == 5
        &&& super::read_at(t, super::word(((s.temp2 + s.y) % 256) as u8, s.temp))
    }
    &&& !super::finished(t) ==> super::arch_same(s, t)
    &&& (s.subcycle == 4 && s.temp2 + s.y < 256) || (!(1 <= s.subcycle <= 4)) ==> {
        &&& super::finished(t)
        &&& super::read_at(t, super::abs_index(super::word(s.temp2, s.temp), s.y))
        &&& t.pc == super::pc_plus(s.pc, 2)
        &&& t.a == super::sbc_result(s.p, s.a, super::data(t))
        &&& t.p == super::sbc_flags(s.p, s.a, super::data(t))
        &&& t.x == s.x
        &&& t.y == s.y
        &&& t.s == s.s
    }
    &&& !((s.subcycle == 4 && s.temp2 + s.y < 256) || (!(1 <= s.subcycle <= 4))) ==> !super::finished(t)
}

/// One bus cycle of bit zero page.
pub(crate) open spec fn step_24(s: NesCpu, t: NesCpu) -> bool {
    &&& s.subcycle == 1 ==> super::shows(s, t, "BIT $"@ + super::hex_text(t.temp as nat, 2, false) + ""@)
    &&& s.subcycle != 1 ==> super::keeps_debugger(s, t)
    &&& s.subcycle == 1 ==> {
        &&& t.subcycle == 2
        &&& super::read_at(t, super::pc_plus(s.pc, 1))
        &&& t.temp == super::data(t)
    }
    &&& !super::finished(t) ==> super::arch_same(s, t)
    &&& s.subcycle != 1 ==> {
        &&& super::finished(t)
        &&& super::read_at(t, s.temp as u16)
        &&& t.pc == super::pc_plus(s.pc, 2)
        &&& t.p == super::bit_flags(s.p, s.a, super::data(t))
        &&& t.a == s.a
        &&& t.x == s.x
        &&& t.y == s.y
        &&& t.s == s.s
    }
    &&& !(s.subcycle != 1) ==> !super::finished(t)
}

/// One bus cycle of bit absolute.
pub(crate) open spec fn step_2c(s: NesCpu, t: NesCpu) -> bool {
    &&& s.subcycle == 2 ==> super::shows(s, t, "BIT $"@ + super::hex_text(super::word(t.temp, t.temp2) as nat, 4, false) + ""@)
    &&& s.subcycle != 2 ==> super::keeps_debugger(s, t)
    &&& s.subcycle == 1 ==> {
        &&& t.subcycle == 2
        &&& super::read_at(t, super::pc_plus(s.pc, 1))
        &&& t.temp == super::data(t)
    }
    &&& s.subcycle == 2 ==> {
        &&& t.subcycle == 3
        &&& super::read_at(t, super::pc_plus(s.pc, 2))
        &&& t.temp2 == super::data(t)
        &&& t.temp == s.temp
    }
    &&& !super::finished(t) ==> super::arch_same(s, t)
    &&& !(1 <= s.subcycle <= 2) ==> {
        &&& super::finished(t)
        &&& super::read_at(t, super::word(s.temp, s.temp2))
        &&& t.pc == super::pc_plus(s.pc, 3)
        &&& t.p == super::bit_flags(s.p, s.a, super::data(t))
        &&& t.a == s.a
        &&& t.x == s.x
        &&& t.y == s.y
        &&& t.s == s.s
    }
    &&& !(!(1 <= s.subcycle <= 2)) ==> !super::finished(t)
}

/// One bus cycle of cmp, compare immediate.
pub(crate) open spec fn step_c9(s: NesCpu, t: NesCpu) -> bool {
    &&& super::shows(s, t, "CMP #$"@ + super::hex_text(t.temp as nat, 2, false) + ""@)
    &&& !super::finished(t) ==> super::arch_same(s, t)
    &&& super::finished(t)
    &&& super::read_at(t, super::pc_plus(s.pc, 1))
    &&& t.pc == super::pc_plus(s.pc, 2)
    &&& t.p == super::compare_flags(s.p, s.a, super::data(t))
    &&& t.a == s.a
    &&& t.x == s.x
    &&& t.y == s.y
    &&& t.s == s.s
}

/// One bus cycle of cmp zero page.
pub(crate) open spec fn step_c5(s: NesCpu, t: NesCpu) -> bool {
    &&& s.subcycle == 1 ==> super::shows(s, t, "CMP $"@ + super::hex_text(t.temp as nat, 2, false) + ""@)
    &&& s.subcycle != 1 ==> super::keeps_debugger(s, t)
    &&& s.subcycle == 1 ==> {
        &&& t.subcycle == 2
        &&& super::read_at(t, super::pc_plus(s.pc, 1))
        &&& t.temp == super::data(t)
    }
    &&& !super::finished(t) ==> super::arch_same(s, t)
    &&& s.subcycle != 1 ==> {
        &&& super::finished(t)
        &&& super::read_at(t, s.temp as u16)
        &&& t.pc == super::pc_plus(s.pc, 2)
        &&& t.p == super::compare_flags(s.p, s.a, super::data(t))
        &&& t.a == s.a
        &&& t.x == s.x
        &&& t.y == s.y
        &&& t.s == s.s
    }
    &&& !(s.subcycle != 1) ==> !super::finished(t)
}

/// One bus cycle of cmp zero page x.
pub(crate) open spec fn step_d5(s: NesCpu, t: NesCpu) -> bool {
    &&& s.subcycle == 1 ==> super::shows(s, t, "CMP $"@ + super::hex_text(t.temp as nat, 2, false) + ",X"@)
    &&& s.subcycle != 1 ==> super::keeps_debugger(s, t)
    &&& s.subcycle == 1 ==> {
        &&& t.subcycle == 2
        &&& super::read_at(t, super::pc_plus(s.pc, 1))
        &&& t.temp == super::data(t)
    }
    &&& s.subcycle == 2 ==> {
        &&& t.subcycle == 3
        &&& super::read_at(t, s.temp as u16)
        &&& t.temp == s.temp
    }
    &&& !super::finished(t) ==> super::arch_same(s, t)
    &&& !(1 <= s.subcycle <= 2) ==> {
        &&& super::finished(t)
        &&& super::read_at(t, super::zp_index(s.temp, s.x))
        &&& t.pc == super::pc_plus(s.pc, 2)
        &&& t.p == super::compare_flags(s.p, s.a, super::data(t))
        &&& t.a == s.a
        &&& t.x == s.x
        &&& t.y == s.y
        &&& t.s == s.s
    }
    &&& !(!(1 <= s.subcycle <= 2)) ==> !super::finished(t)
}

/// One bus cycle of cmp absolute.
pub(crate) open spec fn step_cd(s: NesCpu, t: NesCpu) -> bool {
    &&& s.subcycle == 2 ==> super::shows(s, t, "CMP $"@ + super::hex_text(super::word(t.temp, t.temp2) as nat, 4, false) + ""@)
    &&& s.subcycle != 2 ==> super::keeps_debugger(s, t)
    &&& s.subcycle == 1 ==> {
        &&& t.subcycle == 2
        &&& super::read_at(t, super::pc_plus(s.pc, 1))
        &&& t.temp == super::data(t)
    }
    &&& s.subcycle == 2 ==> {
        &&& t.subcycle == 3
        &&& super::read_at(t, super::pc_plus(s.pc, 2))
        &&& t.temp2 == super::data(t)
        &&& t.temp == s.temp
    }
    &&& !super::finished(t) ==> super::arch_same(s, t)
    &&& !(1 <= s.subcycle <= 2) ==> {
        &&& super::finished(t)
        &&& super::read_at(t, super::word(s.temp, s.temp2))
        &&& t.pc == super::pc_plus(s.pc, 3)
        &&& t.p == super::compare_flags(s.p, s.a, super::data(t))
        &&& t.a == s.a
        &&& t.x == s.x
        &&& t.y == s.y
        &&& t.s == s.s
    }
    &&& !(!(1 <= s.subcycle <= 2)) ==> !super::finished(t)
}

/// One bus cycle of cmp absolute x.
pub(crate) open spec fn step_dd(s: NesCpu, t: NesCpu) -> bool {
    &&& s.subcycle == 2 ==> super::shows(s, t, "CMP $"@ + super::hex_text(super::word(t.temp, t.temp2) as nat, 4, false) + ",X"@)
    &&& s.subcycle != 2 ==> super::keeps_debugger(s, t)
    &&& s.subcycle == 1 ==> {
        &&& t.subcycle == 2
        &&& super::read_at(t, super::pc_plus(s.pc, 1))
        &&& t.temp == super::data(t)
    }
    &&& s.subcycle == 2 ==> {
        &&& t.subcycle == 3
        &&& super::read_at(t, super::pc_plus(s.pc, 2))
        &&& t.temp2 == super::data(t)
        &&& t.temp == s.temp
    }
    &&& s.subcycle == 3 && s.temp + s.x >= 256 ==> {
        &&& t.subcycle == 4
        &&& super::read_at(t, super::word(((s.temp + s.x) % 256) as u8, s.temp2))
        &&& t.temp == s.temp && t.temp2 == s.temp2
    }
    &&& !super::finished(t) ==> super::arch_same(s, t)
    &&& (s.subcycle == 3 && s.temp + s.x < 256) || (!(1 <= s.subcycle <= 3)) ==> {
        &&& super::finished(t)
        &&& super::read_at(t, super::abs_index(super::word(s.temp, s.temp2), s.x))
        &&& t.pc == super::pc_plus(s.pc, 3)
        &&& t.p == super::compare_flags(s.p, s.a, super::data(t))
        &&& t.a == s.a
        &&& t.x == s.x
        &&& t.y == s.y
        &&& t.s == s.s
    }
    &&& !((s.subcycle == 3 && s.temp + s.x < 256) || (!(1 <= s.subcycle <= 3))) ==> !super::finished(t)
}

/// One bus cycle of cmp absolute y.
pub(crate) open spec fn step_d9(s: NesCpu, t: NesCpu) -> bool {
    &&& s.subcycle == 2 ==> super::shows(s, t, "CMP $"@ + super::hex_text(super::word(t.temp, t.temp2) as nat, 4, false) + ",Y"@)
    &&& s.subcycle != 2 ==> super::keeps_debugger(s, t)
    &&& s.subcycle == 1 ==> {
        &&& t.subcycle == 2
        &&& super::read_at(t, super::pc_plus(s.pc, 1))
        &&& t.temp == super::data(t)
    }
    &&& s.subcycle == 2 ==> {
        &&& t.subcycle == 3
        &&& super::read_at(t, super::pc_plus(s.pc, 2))
        &&& t.temp2 == super::data(t)
        &&& t.temp == s.temp
    }
    &&& s.subcycle == 3 && s.temp + s.y >= 256 ==> {
        &&& t.subcycle == 4
        &&& super::read_at(t, super::word(((s.temp + s.y) % 256) as u8, s.temp2))
        &&& t.temp == s.temp && t.temp2 == s.temp2
    }
    &&& !super::finished(t) ==> super::arch_same(s, t)
    &&& (s.subcycle == 3 && s.temp + s.y < 256) || (!(1 <= s.subcycle <= 3)) ==> {
        &&& super::finished(t)
        &&& super::read_at(t, super::abs_index(super::word(s.temp, s.temp2), s.y))
        &&& t.pc == super::pc_plus(s.pc, 3)
        &&& t.p == super::compare_flags(s.p, s.a, super::data(t))
        &&& t.a == s.a
        &&& t.x == s.x
        &&& t.y == s.y
        &&& t.s == s.s
    }
    &&& !((s.subcycle == 3 && s.temp + s.y < 256) || (!(1 <= s.subcycle <= 3))) ==> !super::finished(t)
}

/// One bus cycle of cmp indirect x.
pub(crate) open spec fn step_c1(s: NesCpu, t: NesCpu) -> bool {
    &&& s.subcycle == 1 ==> super::shows(s, t, "CMP ($"@ + super::hex_text(t.temp as nat, 2, false) + ",X)"@)
    &&& s.subcycle != 1 ==> super::keeps_debugger(s, t)
    &&& s.subcycle == 3 ==> t.temp == s.temp && t.temp2 == s.temp2
    &&& s.subcycle == 1 ==> {
        &&& t.subcycle == 2
        &&& super::read_at(t, super::pc_plus(s.pc, 1))
        &&& t.temp == super::data(t)
    }
    &&& s.subcycle == 2 ==> {
        &&& t.subcycle == 3
        &&& t.temp == ((s.temp + s.x) % 256) as u8
        &&& super::read_at(t, super::zp_index(s.temp, s.x))
        &&& t.temp2 == super::data(t)
    }
    &&& s.subcycle == 3 ==> {
        &&& t.subcycle == 4
        &&& super::read_at(t, s.temp as u16)
    }
    &&& s.subcycle == 4 ==> {
        &&& t.subcycle == 5
        &&& super::read_at(t, super::zp_index(s.temp, 1))
        &&& t.temp == super::data(t)
        &&& t.temp2 == s.temp2
    }
    &&& !super::finished(t) ==> super::arch_same(s, t)
    &&& !(1 <= s.subcycle <= 4) ==> {
        &&& super::finished(t)
        &&& super::read_at(t, super::word(s.temp2, s.temp))
        &&& t.pc == super::pc_plus(s.pc, 2)
        &&& t.p == super::compare_flags(s.p, s.a, super::data(t))
        &&& t.a == s.a
        &&& t.x == s.x
        &&& t.y == s.y
        &&& t.s == s.s
    }
    &&& !(!(1 <= s.subcycle <= 4)) ==> !super::finished(t)
}

/// One bus cycle of cmp indirect y.
pub(crate) open spec fn step_d1(s: NesCpu, t: NesCpu) -> bool {
    &&& s.subcycle == 1 ==> super::shows(s, t, "CMP ($"@ + super::hex_text(t.temp as nat, 2, false) + "),Y"@)
    &&& s.subcycle != 1 ==> super::keeps_debugger(s, t)
    &&& s.subcycle == 1 ==> {
        &&& t.subcycle == 2
        &&& super::read_at(t, super::pc_plus(s.pc, 1))
        &&& t.temp == super::data(t)
    }
    &&& s.subcycle == 2 ==> {
        &&& t.subcycle == 3
        &&& super::read_at(t, s.temp as u16)
        &&& t.temp2 == super::data(t)
        &&& t.temp == s.temp
    }
    &&& s.subcycle == 3 ==> {
        &&& t.subcycle == 4
        &&& super::read_at(t, super::zp_index(s.temp, 1))
        &&& t.temp == super::data(t)
        &&& t.temp2 == s.temp2
    }
    &&& s.subcycle == 4 && s.temp2 + s.y >= 256 ==> {
        &&& t.subcycle == 5
        &&& super::read_at(t, super::word(((s.temp2 + s.y) % 256) as u8, s.temp))
    }
    &&& !super::finished(t) ==> super::arch_same(s, t)
    &&& (s.subcycle == 4 && s.temp2 + s.y < 256) || (!(1 <= s.subcycle <= 4)) ==> {
        &&& super::finished(t)
        &&& super::read_at(t, super::abs_index(super::word(s.temp2, s.temp), s.y))
        &&& t.pc == super::pc_plus(s.pc, 2)
        &&& t.p == super::compare_flags(s.p, s.a, super::data(t))
        &&& t.a == s.a
        &&& t.x == s.x
        &&& t.y == s.y
        &&& t.s == s.s
    }
    &&& !((s.subcycle == 4 && s.temp2 + s.y < 256) || (!(1 <= s.subcycle <= 4))) ==> !super::finished(t)
}

/// One bus cycle of cpy, compare y immediate.
pub(crate) open spec fn step_c0(s: NesCpu, t: NesCpu) -> bool {
    &&& super::shows(s, t, "CPY #$"@ + super::hex_text(t.temp as nat, 2, false) + ""@)
    &&& !super::finished(t) ==> super::arch_same(s, t)
    &&& super::finished(t)
    &&& super::read_at(t, super::pc_plus(s.pc, 1))
    &&& t.pc == super::pc_plus(s.pc, 2)
    &&& t.p == super::compare_flags(s.p, s.y, super::data(t))
    &&& t.a == s.a
    &&& t.x == s.x
    &&& t.y == s.y
    &&& t.s == s.s
}

/// One bus cycle of cpy zero page.
pub(crate) open spec fn step_c4(s: NesCpu, t: NesCpu) -> bool {
    &&& s.subcycle == 1 ==> super::shows(s, t, "CPY $"@ + super::hex_text(t.temp as nat, 2, false) + ""@)
    &&& s.subcycle != 1 ==> super::keeps_debugger(s, t)
    &&& s.subcycle == 1 ==> {
        &&& t.subcycle == 2
        &&& super::read_at(t, super::pc_plus(s.pc, 1))
        &&& t.temp == super::data(t)
    }
    &&& !super::finished(t) ==> super::arch_same(s, t)
    &&& s.subcycle != 1 ==> {
        &&& super::finished(t)
        &&& super::read_at(t, s.temp as u16)
        &&& t.pc == super::pc_plus(s.pc, 2)
        &&& t.p == super::compare_flags(s.p, s.y, super::data(t))
        &&& t.a == s.a
        &&& t.x == s.x
        &&& t.y == s.y
        &&& t.s == s.s
    }
    &&& !(s.subcycle != 1) ==> !super::finished(t)
}

/// One bus cycle of cpy absolute.
pub(crate) open spec fn step_cc(s: NesCpu, t: NesCpu) -> bool {
    &&& s.subcycle == 2 ==> super::shows(s, t, "CPY $"@ + super::hex_text(super::word(t.temp, t.temp2) as nat, 4, false) + ""@)
    &&& s.subcycle != 2 ==> super::keeps_debugger(s, t)
    &&& s.subcycle == 1 ==> {
        &&& t.subcycle == 2
        &&& super::read_at(t, super::pc_plus(s.pc, 1))
        &&& t.temp == super::data(t)
    }
    &&& s.subcycle == 2 ==> {
        &&& t.subcycle == 3
        &&& super::read_at(t, super::pc_plus(s.pc, 2))
        &&& t.temp2 == super::data(t)
        &&& t.temp == s.temp
    }
    &&& !super::finished(t) ==> super::arch_same(s, t)
    &&& !(1 <= s.subcycle <= 2) ==> {
        &&& super::finished(t)
        &&& super::read_at(t, super::word(s.temp, s.temp2))
        &&& t.pc == super::pc_plus(s.pc, 3)
        &&& t.p == super::compare_flags(s.p, s.y, super::data(t))
        &&& t.a == s.a
        &&& t.x == s.x
        &&& t.y == s.y
        &&& t.s == s.s
    }
    &&& !(!(1 <= s.subcycle <= 2)) ==> !super::finished(t)
}

/// One bus cycle of cpx, compare x immediate.
pub(crate) open spec fn step_e0(s: NesCpu, t: NesCpu) -> bool {
    &&& super::shows(s, t, "CPX #$"@ + super::hex_text(t.temp as nat, 2, false) + ""@)
    &&& !super::finished(t) ==> super::arch_same(s, t)
    &&& super::finished(t)
    &&& super::read_at(t, super::pc_plus(s.pc, 1))
    &&& t.pc == super::pc_plus(s.pc, 2)
    &&& t.p == super::compare_flags(s.p, s.x, super::data(t))
    &&& t.a == s.a
    &&& t.x == s.x
    &&& t.y == s.y
    &&& t.s == s.s
}

/// One bus cycle of cpx zero page.
pub(crate) open spec fn step_e4(s: NesCpu, t: NesCpu) -> bool {
    &&& s.subcycle == 1 ==> super::shows(s, t, "CPX $"@ + super::hex_text(t.temp as nat, 2, false) + ""@)
    &&& s.subcycle != 1 ==> super::keeps_debugger(s, t)
    &&& s.subcycle == 1 ==> {
        &&& t.subcycle == 2
        &&& super::read_at(t, super::pc_plus(s.pc, 1))
        &&& t.temp == super::data(t)
    }
    &&& !super::finished(t) ==> super::arch_same(s, t)
    &&& s.subcycle != 1 ==> {
        &&& super::finished(t)
        &&& super::read_at(t, s.temp as u16)
        &&& t.pc == super::pc_plus(s.pc, 2)
        &&& t.p == super::compare_flags(s.p, s.x, super::data(t))
        &&& t.a == s.a
        &&& t.x == s.x
        &&& t.y == s.y
        &&& t.s == s.s
    }
    &&& !(s.subcycle != 1) ==> !super::finished(t)
}

/// One bus cycle of cpx absolute.
pub(crate) open spec fn step_ec(s: NesCpu, t: NesCpu) -> bool {
    &&& s.subcycle == 2 ==> super::shows(s, t, "CPX $"@ + super::hex_text(super::word(t.temp, t.temp2) as nat, 4, false) + ""@)
    &&& s.subcycle != 2 ==> super::keeps_debugger(s, t)
    &&& s.subcycle == 1 ==> {
        &&& t.subcycle == 2
        &&& super::read_at(t, super::pc_plus(s.pc, 1))
        &&& t.temp == super::data(t)
    }
    &&& s.subcycle == 2 ==> {
        &&& t.subcycle == 3
        &&& super::read_at(t, super::pc_plus(s.pc, 2))
        &&& t.temp2 == super::data(t)
        &&& t.temp == s.temp
    }
    &&& !super::finished(t) ==> super::arch_same(s, t)
    &&& !(1 <= s.subcycle <= 2) ==> {
        &&& super::finished(t)
        &&& super::read_at(t, super::word(s.temp, s.temp2))
        &&& t.pc == super::pc_plus(s.pc, 3)
        &&& t.p == super::compare_flags(s.p, s.x, super::data(t))
        &&& t.a == s.a
        &&& t.x == s.x
        &&& t.y == s.y
        &&& t.s == s.s
    }
    &&& !(!(1 <= s.subcycle <= 2)) ==> !super::finished(t)
}

/// One bus cycle of ANC immediate, undocumented.
pub(crate) open spec fn step_0b(s: NesCpu, t: NesCpu) -> bool {
    &&& super::shows(s, t, "*ANC #$"@ + super::hex_text(t.temp as nat, 2, false) + ""@)
    &&& t.p == super::shift_flags(s.p, s.a & super::data(t), (s.a & super::data(t)) >= 128)
    &&& !super::finished(t) ==> super::arch_same(s, t)
    &&& super::finished(t)
    &&& super::read_at(t, super::pc_plus(s.pc, 1))
    &&& t.pc == super::pc_plus(s.pc, 2)
    &&& t.a == (s.a & super::data(t))
    &&& t.x == s.x
    &&& t.y == s.y
    &&& t.s == s.s
}

/// One bus cycle of ALR, and immediate with lsr, undocumented.
pub(crate) open spec fn step_4b(s: NesCpu, t: NesCpu) -> bool {
    &&& super::shows(s, t, "*ALR #$"@ + super::hex_text(t.temp as nat, 2, false) + ""@)
    &&& t.a == super::lsr_value(s.a & super::data(t))
    &&& t.p == super::shift_flags(s.p, super::lsr_value(s.a & super::data(t)), (s.a & super::data(t)) % 2 == 1)
    &&& !super::finished(t) ==> super::arch_same(s, t)
    &&& super::finished(t)
    &&& super::read_at(t, super::pc_plus(s.pc, 1))
    &&& t.pc == super::pc_plus(s.pc, 2)
    &&& t.x == s.x
    &&& t.y == s.y
    &&& t.s == s.s
}

/// One bus cycle of ARR, undocumented AND immediate and ROR.
pub(crate) open spec fn step_6b(s: NesCpu, t: NesCpu) -> bool {
    &&& super::shows(s, t, "*ARR #$"@ + super::hex_text(t.temp as nat, 2, false) + ""@)
    &&& !super::finished(t) ==> super::arch_same(s, t)
    &&& super::finished(t)
    &&& super::read_at(t, super::pc_plus(s.pc, 1))
    &&& t.pc == super::pc_plus(s.pc, 2)
    &&& t.x == s.x
    &&& t.y == s.y
    &&& t.s == s.s
    &&& t.a == super::ror_value(s.p, s.a & super::data(t))
    &&& t.p == super::arr_flags(s.p, s.a & super::data(t))
}

/// One bus cycle of axs undocumented.
pub(crate) open spec fn step_cb(s: NesCpu, t: NesCpu) -> bool {
    &&& super::shows(s, t, "*AXS #$"@ + super::hex_text(t.temp as nat, 2, false) + ""@)
    &&& !super::finished(t) ==> super::arch_same(s, t)
    &&& super::finished(t)
    &&& super::read_at(t, super::pc_plus(s.pc, 1))
    &&& t.pc == super::pc_plus(s.pc, 2)
    &&& t.a == s.a
    &&& t.y == s.y
    &&& t.s == s.s
    &&& t.x == (((s.a & s.x) - super::data(t) + 256) % 256) as u8
    &&& t.p == super::compare_flags(s.p, s.a & s.x, super::data(t))
}

impl NesCpu {
    /// and immediate
    #[verifier::rlimit(100)]
    #[verifier::spinoff_prover]
    pub(crate) fn op_29<C: CartridgeDevice, K: ControllerDevice, P: PpuDevice, A: ApuDevice>(
        &mut self,
        bus: &mut NesMotherboard<C, K>,
        cpu_peripherals: &mut NesCpuPeripherals<P, A>,
    )
        requires
            old(self).inv(),
            !old(self).reset,
            old(self).opcode == Some(0x29u8),
            !old(self).bus_used@,
        ensures
            final(self).inv(),
            !final(self).reset,
            step_29(*old(self), *final(self)),
            final(self).opcode == old(self).opcode || super::finished(*final(self)),
            super::ram_effect(old(bus).spec_ram(), final(bus).spec_ram(), final(self).bus_used@, final(self).last_bus@),
            super::bus_effect(*old(bus), *old(cpu_peripherals), *final(bus), *final(cpu_peripherals), final(self).bus_used@, final(self).last_bus@),
            final(self).dmc_dma == old(self).dmc_dma,
            final(self).nmi_detected == old(self).nmi_detected,
            final(self).prev_nmi == old(self).prev_nmi,
    {
        {
            self.temp = self.memory_cycle_read(self.pc.wrapping_add(1),
                bus,
                cpu_peripherals,
            );
            {
                self.copy_debugger(hex8_text("AND #$", self.temp, ""));
                self.done_fetching = true;
            }
            self.a &= self.temp;
            self.p &= !(CPU_FLAG_ZERO | CPU_FLAG_NEGATIVE);
            if self.a == 0 {
                self.p |= CPU_FLAG_ZERO;
            }
            if (self.a & self.temp & 0x80) != 0 {
                self.p |= CPU_FLAG_NEGATIVE;
            }
            self.pc = self.pc.wrapping_add(2);
            self.end_instruction();
        }
        proof {
            super::lemma_nz(old(self).p, self.a);
            super::lemma_and_twice(old(self).a, self.last_bus@.data);
        }
    }

    /// and zero page
    #[verifier::rlimit(100)]
    #[verifier::spinoff_prover]
    pub(crate) fn op_25<C: CartridgeDevice, K: ControllerDevice, P: PpuDevice, A: ApuDevice>(
        &mut self,
        bus: &mut NesMotherboard<C, K>,
        cpu_peripherals: &mut NesCpuPeripherals<P, A>,
    )
        requires
            old(self).inv(),
            !old(self).reset,
            old(self).opcode == Some(0x25u8),
            !old(self).bus_used@,
        ensures
            final(self).inv(),
            !final(self).reset,
            step_25(*old(self), *final(self)),
            final(self).opcode == old(self).opcode || super::finished(*final(self)),
            super::ram_effect(old(bus).spec_ram(), final(bus).spec_ram(), final(self).bus_used@, final(self).last_bus@),
            super::bus_effect(*old(bus), *old(cpu_peripherals), *final(bus), *final(cpu_peripherals), final(self).bus_used@, final(self).last_bus@),
            final(self).dmc_dma == old(self).dmc_dma,
            final(self).nmi_detected == old(self).nmi_detected,
            final(self).prev_nmi == old(self).prev_nmi,
    {
        {
            match self.subcycle {
                1 => {
                    self.subcycle = 2;
                    self.temp = self.memory_cycle_read(self.pc.wrapping_add(1),
                        bus,
                        cpu_peripherals,
                    );
                    {
                        self.copy_debugger(hex8_text("AND $", self.temp, ""));
                        self.done_fetching = true;
                    }
                }
                _ => {
                    self.temp =
                    self.memory_cycle_read(self.temp as u16, bus, cpu_peripherals);
                    self.a &= self.temp;
                    self.p &= !(CPU_FLAG_ZERO | CPU_FLAG_NEGATIVE);
                    if self.a == 0 {
                        self.p |= CPU_FLAG_ZERO;
                    }
                    if (self.a & self.temp & 0x80) != 0 {
                        self.p |= CPU_FLAG_NEGATIVE;
                    }
                    self.pc = self.pc.wrapping_add(2);
                    self.end_instruction();
                }
            }
        }
        proof {
            super::lemma_nz(old(self).p, self.a);
            super::lemma_and_twice(old(self).a, self.last_bus@.data);
        }
    }

    /// and zero page x
    #[verifier::rlimit(100)]
    #[verifier::spinoff_prover]
    pub(crate) fn op_35<C: CartridgeDevice, K: ControllerDevice, P: PpuDevice, A: ApuDevice>(
        &mut self,
        bus: &mut NesMotherboard<C, K>,
        cpu_peripherals: &mut NesCpuPeripherals<P, A>,
    )
        requires
            old(self).inv(),
            !old(self).reset,
            old(self).opcode == Some(0x35u8),
            !old(self).bus_used@,
        ensures
            final(self).inv(),
            !final(self).reset,
            step_35(*old(self), *final(self)),
            final(self).opcode == old(self).opcode || super::finished(*final(self)),
            super::ram_effect(old(bus).spec_ram(), final(bus).spec_ram(), final(self).bus_used@, final(self).last_bus@),
            super::bus_effect(*old(bus), *old(cpu_peripherals), *final(bus), *final(cpu_peripherals), final(self).bus_used@, final(self).last_bus@),
            final(self).dmc_dma == old(self).dmc_dma,
            final(self).nmi_detected == old(self).nmi_detected,
            final(self).prev_nmi == old(self).prev_nmi,
    {
        {
            match self.subcycle {
                1 => {
                    self.temp = self.memory_cycle_read(self.pc.wrapping_add(1),
                        bus,
                        cpu_peripherals,
                    );
                    {
                        self.copy_debugger(hex8_text("AND $", self.temp, ",X"));
                        self.done_fetching = true;
                    }
                    self.subcycle = 2;
                }
                2 => {
                    self.memory_cycle_read(self.temp as u16, bus, cpu_peripherals);
                    self.subcycle = 3;
                }
                _ => {
                    self.temp = self.memory_cycle_read(self.temp.wrapping_add(self.x) as u16,
                        bus,
                        cpu_peripherals,
                    );
                    self.a &= self.temp;
                    self.p &= !(CPU_FLAG_ZERO | CPU_FLAG_NEGATIVE);
                    if self.a == 0 {
                        self.p |= CPU_FLAG_ZERO;
                    }
                    if (self.a & 0x80) != 0 {
                        self.p |= CPU_FLAG_NEGATIVE;
                    }
                    self.pc = self.pc.wrapping_add(2);
                    self.end_instruction();
                }
            }
        }
        proof {
            super::lemma_nz(old(self).p, self.a);
            super::lemma_and_twice(old(self).a, self.last_bus@.data);
        }
    }

    /// and absolute
    #[verifier::rlimit(100)]
    #[verifier::spinoff_prover]
    pub(crate) fn op_2d<C: CartridgeDevice, K: ControllerDevice, P: PpuDevice, A: ApuDevice>(
        &mut self,
        bus: &mut NesMotherboard<C, K>,
        cpu_peripherals: &mut NesCpuPeripherals<P, A>,
    )
        requires
            old(self).inv(),
            !old(self).reset,
            old(self).opcode == Some(0x2du8),
            !old(self).bus_used@,
        ensures
            final(self).inv(),
            !final(self).reset,
            step_2d(*old(self), *final(self)),
            final(self).opcode == old(self).opcode || super::finished(*final(self)),
            super::ram_effect(old(bus).spec_ram(), final(bus).spec_ram(), final(self).bus_used@, final(self).last_bus@),
            super::bus_effect(*old(bus), *old(cpu_peripherals), *final(bus), *final(cpu_peripherals), final(self).bus_used@, final(self).last_bus@),
            final(self).dmc_dma == old(self).dmc_dma,
            final(self).nmi_detected == old(self).nmi_detected,
            final(self).prev_nmi == old(self).prev_nmi,
    {
        {
            match self.subcycle {
                1 => {
                    self.temp = self.memory_cycle_read(self.pc.wrapping_add(1),
                        bus,
                        cpu_peripherals,
                    );
                    self.subcycle = 2;
                }
                2 => {
                    self.temp2 = self.memory_cycle_read(self.pc.wrapping_add(2),
                        bus,
                        cpu_peripherals,
                    );
                    {
                        let temp = (self.temp2 as u16) << 8 | self.temp as u16;
                        self.copy_debugger(hex16_text("AND $", temp, ""));
                        self.done_fetching = true;
                    }
                    proof {
                        super::lemma_word(self.temp, self.temp2);
                    }
                    self.subcycle = 3;
                }
                _ => {
                    let temp = (self.temp2 as u16) << 8 | self.temp as u16;
                    self.temp = self.memory_cycle_read(temp, bus, cpu_peripherals);
                    self.a &= self.temp;
                    self.p &= !(CPU_FLAG_ZERO | CPU_FLAG_NEGATIVE);
                    if self.a == 0 {
                        self.p |= CPU_FLAG_ZERO;
                    }
                    if (self.a & self.temp & 0x80) != 0 {
                        self.p |= CPU_FLAG_NEGATIVE;
                    }
                    self.pc = self.pc.wrapping_add(3);
                    self.end_instruction();
                }
            }
        }
        proof {
            super::lemma_nz(old(self).p, self.a);
            super::lemma_and_twice(old(self).a, self.last_bus@.data);
            super::lemma_word(old(self).temp, old(self).temp2);
        }
    }

    /// and absolute x
    #[verifier::rlimit(100)]
    #[verifier::spinoff_prover]
    pub(crate) fn op_3d<C: CartridgeDevice, K: ControllerDevice, P: PpuDevice, A: ApuDevice>(
        &mut self,
        bus: &mut NesMotherboard<C, K>,
        cpu_peripherals: &mut NesCpuPeripherals<P, A>,
    )
        requires
            old(self).inv(),
            !old(self).reset,
            old(self).opcode == Some(0x3du8),
            !old(self).bus_used@,
        ensures
            final(self).inv(),
            !final(self).reset,
            step_3d(*old(self), *final(self)),
            final(self).opcode == old(self).opcode || super::finished(*final(self)),
            super::ram_effect(old(bus).spec_ram(), final(bus).spec_ram(), final(self).bus_used@, final(self).last_bus@),
            super::bus_effect(*old(bus), *old(cpu_peripherals), *final(bus), *final(cpu_peripherals), final(self).bus_used@, final(self).last_bus@),
            final(self).dmc_dma == old(self).dmc_dma,
            final(self).nmi_detected == old(self).nmi_detected,
            final(self).prev_nmi == old(self).prev_nmi,
    {
        {
            match self.subcycle {
                1 => {
                    self.temp = self.memory_cycle_read(self.pc.wrapping_add(1),
                        bus,
                        cpu_peripherals,
                    );
                    self.subcycle = 2;
                }
                2 => {
                    self.temp2 = self.memory_cycle_read(self.pc.wrapping_add(2),
                        bus,
                        cpu_peripherals,
                    );
                    {
                        let temp = (self.temp2 as u16) << 8 | self.temp as u16;
                        self.copy_debugger(hex16_text("AND $", temp, ",X"));
                        self.done_fetching = true;
                    }
                    proof {
                        super::lemma_word(self.temp, self.temp2);
                    }
                    self.subcycle = 3;
                }
                3 => {
                    let mut addr = (self.temp2 as u16) << 8 | (self.temp as u16);
                    let (val, overflow) = overflowing_add(self.temp, self.x);
                    if !overflow {
                        addr = addr.wrapping_add(self.x as u16);
                        self.a &= self.memory_cycle_read(addr, bus, cpu_peripherals);
                        self.p &= !(CPU_FLAG_ZERO | CPU_FLAG_NEGATIVE);
                        if self.a == 0 {
                            self.p |= CPU_FLAG_ZERO;
                        }
                        if (self.a & 0x80) != 0 {
                            self.p |= CPU_FLAG_NEGATIVE;
                        }
                        self.pc = self.pc.wrapping_add(3);
                        self.end_instruction();
                    } else {
                        self.memory_cycle_read((self.temp2 as u16) << 8 | val as u16,
                            bus,
                            cpu_peripherals,
                        );
                        self.subcycle = 4;
                    }
                }
                _ => {
                    let mut addr = (self.temp2 as u16) << 8 | (self.temp as u16);
                    addr = addr.wrapping_add(self.x as u16);
                    self.a &= self.memory_cycle_read(addr, bus, cpu_peripherals);
                    self.p &= !(CPU_FLAG_ZERO | CPU_FLAG_NEGATIVE);
                    if self.a == 0 {
                        self.p |= CPU_FLAG_ZERO;
                    }
                    if (self.a & 0x80) != 0 {
                        self.p |= CPU_FLAG_NEGATIVE;
                    }

                    self.pc = self.pc.wrapping_add(3);
                    self.end_instruction();
                }
            }
        }
        proof {
            super::lemma_nz(old(self).p, self.a);
            super::lemma_and_twice(old(self).a, self.last_bus@.data);
            super::lemma_word(old(self).temp, old(self).temp2);
            super::lemma_word(((old(self).temp as int + old(self).x as int) % 256) as u8, old(self).temp2);
        }
    }

    /// and absolute y
    #[verifier::rlimit(100)]
    #[verifier::spinoff_prover]
    pub(crate) fn op_39<C: CartridgeDevice, K: ControllerDevice, P: PpuDevice, A: ApuDevice>(
        &mut self,
        bus: &mut NesMotherboard<C, K>,
        cpu_peripherals: &mut NesCpuPeripherals<P, A>,
    )
        requires
            old(self).inv(),
            !old(self).reset,
            old(self).opcode == Some(0x39u8),
            !old(self).bus_used@,
        ensures
            final(self).inv(),
            !final(self).reset,
            step_39(*old(self), *final(self)),
            final(self).opcode == old(self).opcode || super::finished(*final(self)),
            super::ram_effect(old(bus).spec_ram(), final(bus).spec_ram(), final(self).bus_used@, final(self).last_bus@),
            super::bus_effect(*old(bus), *old(cpu_peripherals), *final(bus), *final(cpu_peripherals), final(self).bus_used@, final(self).last_bus@),
            final(self).dmc_dma == old(self).dmc_dma,
            final(self).nmi_detected == old(self).nmi_detected,
            final(self).prev_nmi == old(self).prev_nmi,
    {
        {
            match self.subcycle {
                1 => {
                    self.temp = self.memory_cycle_read(self.pc.wrapping_add(1),
                        bus,
                        cpu_peripherals,
                    );
                    self.subcycle = 2;
                }
                2 => {
                    self.temp2 = self.memory_cycle_read(self.pc.wrapping_add(2),
                        bus,
                        cpu_peripherals,
                    );
                    {
                        let temp = (self.temp2 as u16) << 8 | self.temp as u16;
                        self.copy_debugger(hex16_text("AND $", temp, ",Y"));
                        self.done_fetching = true;
                    }
                    proof {
                        super::lemma_word(self.temp, self.temp2);
                    }
                    self.subcycle = 3;
                }
                3 => {
                    let mut addr = (self.temp2 as u16) << 8 | (self.temp as u16);
                    let (val, overflow) = overflowing_add(self.temp, self.y);
                    if !overflow {
                        addr = addr.wrapping_add(self.y as u16);
                        self.a &= self.memory_cycle_read(addr, bus, cpu_peripherals);
                        self.p &= !(CPU_FLAG_ZERO | CPU_FLAG_NEGATIVE);
                        if self.a == 0 {
                            self.p |= CPU_FLAG_ZERO;
                        }
                        if (self.a & 0x80) != 0 {
                            self.p |= CPU_FLAG_NEGATIVE;
                        }
                        self.pc = self.pc.wrapping_add(3);
                        self.end_instruction();
                    } else {
                        self.memory_cycle_read((self.temp2 as u16) << 8 | val as u16,
                            bus,
                            cpu_peripherals,
                        );
                        self.subcycle = 4;
                    }
                }
                _ => {
                    let mut addr = (self.temp2 as u16) << 8 | (self.temp as u16);
                    addr = addr.wrapping_add(self.y as u16);
                    self.a &= self.memory_cycle_read(addr, bus, cpu_peripherals);
                    self.p &= !(CPU_FLAG_ZERO | CPU_FLAG_NEGATIVE);
                    if self.a == 0 {
                        self.p |= CPU_FLAG_ZERO;
                    }
                    if (self.a & 0x80) != 0 {
                        self.p |= CPU_FLAG_NEGATIVE;
                    }

                    self.pc = self.pc.wrapping_add(3);
                    self.end_instruction();
                }
            }
        }
        proof {
            super::lemma_nz(old(self).p, self.a);
            super::lemma_and_twice(old(self).a, self.last_bus@.data);
            super::lemma_word(old(self).temp, old(self).temp2);
            super::lemma_word(((old(self).temp as int + old(self).y as int) % 256) as u8, old(self).temp2);
        }
    }

    /// and indirect x
    #[verifier::rlimit(100)]
    #[verifier::spinoff_prover]
    pub(crate) fn op_21<C: CartridgeDevice, K: ControllerDevice, P: PpuDevice, A: ApuDevice>(
        &mut self,
        bus: &mut NesMotherboard<C, K>,
        cpu_peripherals: &mut NesCpuPeripherals<P, A>,
    )
        requires
            old(self).inv(),
            !old(self).reset,
            old(self).opcode == Some(0x21u8),
            !old(self).bus_used@,
        ensures
            final(self).inv(),
            !final(self).reset,
            step_21(*old(self), *final(self)),
            final(self).opcode == old(self).opcode || super::finished(*final(self)),
            super::ram_effect(old(bus).spec_ram(), final(bus).spec_ram(), final(self).bus_used@, final(self).last_bus@),
            super::bus_effect(*old(bus), *old(cpu_peripherals), *final(bus), *final(cpu_peripherals), final(self).bus_used@, final(self).last_bus@),
            final(self).dmc_dma == old(self).dmc_dma,
            final(self).nmi_detected == old(self).nmi_detected,
            final(self).prev_nmi == old(self).prev_nmi,
    {
        {
            match self.subcycle {
                1 => {
                    self.temp = self.memory_cycle_read(self.pc.wrapping_add(1),
                        bus,
                        cpu_peripherals,
                    );
                    {
                        self.copy_debugger(hex8_text("AND ($", self.temp, ",X)"));
                        self.done_fetching = true;
                    }
                    self.subcycle = 2;
                }
                2 => {
                    self.temp = self.temp.wrapping_add(self.x);
                    self.temp2 =
                    self.memory_cycle_read(self.temp as u16, bus, cpu_peripherals);
                    self.subcycle = 3;
                }
                3 => {
                    self.memory_cycle_read(self.temp as u16, bus, cpu_peripherals);
                    self.subcycle = 4;
                }
                4 => {
                    self.temp = self.memory_cycle_read(self.temp.wrapping_add(1) as u16,
                        bus,
                        cpu_peripherals,
                    );
                    self.subcycle = 5;
                }
                _ => {
                    let addr = (self.temp as u16) << 8 | (self.temp2 as u16);
                    self.a &= self.memory_cycle_read(addr, bus, cpu_peripherals);
                    self.p &= !(CPU_FLAG_ZERO | CPU_FLAG_NEGATIVE);
                    if self.a == 0 {
                        self.p |= CPU_FLAG_ZERO;
                    }
                    if (self.a & 0x80) != 0 {
                        self.p |= CPU_FLAG_NEGATIVE;
                    }
                    self.pc = self.pc.wrapping_add(2);
                    self.end_instruction();
                }
            }
        }
        proof {
            super::lemma_nz(old(self).p, self.a);
            super::lemma_and_twice(old(self).a, self.last_bus@.data);
            super::lemma_word(old(self).temp2, old(self).temp);
            super::lemma_word(((old(self).temp2 as int + old(self).y as int) % 256) as u8, old(self).temp);
        }
    }

    /// and indirect y
    #[verifier::rlimit(100)]
    #[verifier::spinoff_prover]
    pub(crate) fn op_31<C: CartridgeDevice, K: ControllerDevice, P: PpuDevice, A: ApuDevice>(
        &mut self,
        bus: &mut NesMotherboard<C, K>,
        cpu_peripherals: &mut NesCpuPeripherals<P, A>,
    )
        requires
            old(self).inv(),
            !old(self).reset,
            old(self).opcode == Some(0x31u8),
            !old(self).bus_used@,
        ensures
            final(self).inv(),
            !final(self).reset,
            step_31(*old(self), *final(self)),
            final(self).opcode == old(self).opcode || super::finished(*final(self)),
            super::ram_effect(old(bus).spec_ram(), final(bus).spec_ram(), final(self).bus_used@, final(self).last_bus@),
            super::bus_effect(*old(bus), *old(cpu_peripherals), *final(bus), *final(cpu_peripherals), final(self).bus_used@, final(self).last_bus@),
            final(self).dmc_dma == old(self).dmc_dma,
            final(self).nmi_detected == old(self).nmi_detected,
            final(self).prev_nmi == old(self).prev_nmi,
    {
        {
            match self.subcycle {
                1 => {
                    self.temp = self.memory_cycle_read(self.pc.wrapping_add(1),
                        bus,
                        cpu_peripherals,
                    );
                    {
                        self.copy_debugger(hex8_text("AND ($", self.temp, "),Y"));
                        self.done_fetching = true;
                    }
                    self.subcycle = 2;
                }
                2 => {
                    self.temp2 =
                    self.memory_cycle_read(self.temp as u16, bus, cpu_peripherals);
                    self.subcycle = 3;
                }
                3 => {
                    self.temp = self.memory_cycle_read(self.temp.wrapping_add(1) as u16,
                        bus,
                        cpu_peripherals,
                    );
                    self.subcycle = 4;
                }
                4 => {
                    let mut addr = (self.temp as u16) << 8 | (self.temp2 as u16);
                    let (val, overflow) = overflowing_add(self.temp2, self.y);
                    if !overflow {
                        addr = addr.wrapping_add(self.y as u16);
                        self.a &= self.memory_cycle_read(addr, bus, cpu_peripherals);
                        self.p &= !(CPU_FLAG_ZERO | CPU_FLAG_NEGATIVE);
                        if self.a == 0 {
                            self.p |= CPU_FLAG_ZERO;
                        }
                        if (self.a & 0x80) != 0 {
                            self.p |= CPU_FLAG_NEGATIVE;
                        }

                        self.pc = self.pc.wrapping_add(2);
                        self.end_instruction();
                    } else {
                        self.memory_cycle_read((self.temp as u16) << 8 | val as u16,
                            bus,
                            cpu_peripherals,
                        );
                        self.subcycle = 5;
                    }
                }
                _ => {
                    let mut addr = (self.temp as u16) << 8 | (self.temp2 as u16);
                    addr = addr.wrapping_add(self.y as u16);
                    self.a &= self.memory_cycle_read(addr, bus, cpu_peripherals);
                    self.p &= !(CPU_FLAG_ZERO | CPU_FLAG_NEGATIVE);
                    if self.a == 0 {
                        self.p |= CPU_FLAG_ZERO;
                    }
                    if (self.a & 0x80) != 0 {
                        self.p |= CPU_FLAG_NEGATIVE;
                    }

                    self.pc = self.pc.wrapping_add(2);
                    self.end_instruction();
                }
            }
        }
        proof {
            super::lemma_nz(old(self).p, self.a);
            super::lemma_and_twice(old(self).a, self.last_bus@.data);
            super::lemma_word(old(self).temp2, old(self).temp);
            super::lemma_word(((old(self).temp2 as int + old(self).y as int) % 256) as u8, old(self).temp);
        }
    }

    /// ora or immediate
    #[verifier::rlimit(100)]
    #[verifier::spinoff_prover]
    pub(crate) fn op_09<C: CartridgeDevice, K: ControllerDevice, P: PpuDevice, A: ApuDevice>(
        &mut self,
        bus: &mut NesMotherboard<C, K>,
        cpu_peripherals: &mut NesCpuPeripherals<P, A>,
    )
        requires
            old(self).inv(),
            !old(self).reset,
            old(self).opcode == Some(0x09u8),
            !old(self).bus_used@,
        ensures
            final(self).inv(),
            !final(self).reset,
            step_09(*old(self), *final(self)),
            final(self).opcode == old(self).opcode || super::finished(*final(self)),
            super::ram_effect(old(bus).spec_ram(), final(bus).spec_ram(), final(self).bus_used@, final(self).last_bus@),
            super::bus_effect(*old(bus), *old(cpu_peripherals), *final(bus), *final(cpu_peripherals), final(self).bus_used@, final(self).last_bus@),
            final(self).dmc_dma == old(self).dmc_dma,
            final(self).nmi_detected == old(self).nmi_detected,
            final(self).prev_nmi == old(self).prev_nmi,
    {
        {
            self.temp = self.memory_cycle_read(self.pc.wrapping_add(1),
                bus,
                cpu_peripherals,
            );
            {
                self.copy_debugger(hex8_text("ORA #$", self.temp, ""));
                self.done_fetching = true;
            }
            self.a |= self.temp;
            self.p &= !(CPU_FLAG_ZERO | CPU_FLAG_NEGATIVE);
            if self.a == 0 {
                self.p |= CPU_FLAG_ZERO;
            }
            if (self.a & 0x80) != 0 {
                self.p |= CPU_FLAG_NEGATIVE;
            }
            self.pc = self.pc.wrapping_add(2);
            self.end_instruction();
        }
        proof {
            super::lemma_nz(old(self).p, self.a);
        }
    }

    /// ora zero page
    #[verifier::rlimit(100)]
    #[verifier::spinoff_prover]
    pub(crate) fn op_05<C: CartridgeDevice, K: ControllerDevice, P: PpuDevice, A: ApuDevice>(
        &mut self,
        bus: &mut NesMotherboard<C, K>,
        cpu_peripherals: &mut NesCpuPeripherals<P, A>,
    )
        requires
            old(self).inv(),
            !old(self).reset,
            old(self).opcode == Some(0x05u8),
            !old(self).bus_used@,
        ensures
            final(self).inv(),
            !final(self).reset,
            step_05(*old(self), *final(self)),
            final(self).opcode == old(self).opcode || super::finished(*final(self)),
            super::ram_effect(old(bus).spec_ram(), final(bus).spec_ram(), final(self).bus_used@, final(self).last_bus@),
            super::bus_effect(*old(bus), *old(cpu_peripherals), *final(bus), *final(cpu_peripherals), final(self).bus_used@, final(self).last_bus@),
            final(self).dmc_dma == old(self).dmc_dma,
            final(self).nmi_detected == old(self).nmi_detected,
            final(self).prev_nmi == old(self).prev_nmi,
    {
        {
            match self.subcycle {
                1 => {
                    self.temp = self.memory_cycle_read(self.pc.wrapping_add(1),
                        bus,
                        cpu_peripherals,
                    );
                    {
                        self.copy_debugger(hex8_text("ORA $", self.temp, ""));
                        self.done_fetching = true;
                    }
                    self.subcycle = 2;
                }
                _ => {
                    self.temp =
                    self.memory_cycle_read(self.temp as u16, bus, cpu_peripherals);
                    self.a |= self.temp;
                    self.p &= !(CPU_FLAG_ZERO | CPU_FLAG_NEGATIVE);
                    if self.a == 0 {
                        self.p |= CPU_FLAG_ZERO;
                    }
                    if (self.a & 0x80) != 0 {
                        self.p |= CPU_FLAG_NEGATIVE;
                    }
                    self.pc = self.pc.wrapping_add(2);
                    self.end_instruction();
                }
            }
        }
        proof {
            super::lemma_nz(old(self).p, self.a);
        }
    }

    /// ora zero page x
    #[verifier::rlimit(100)]
    #[verifier::spinoff_prover]
    pub(crate) fn op_15<C: CartridgeDevice, K: ControllerDevice, P: PpuDevice, A: ApuDevice>(
        &mut self,
        bus: &mut NesMotherboard<C, K>,
        cpu_peripherals: &mut NesCpuPeripherals<P, A>,
    )
        requires
            old(self).inv(),
            !old(self).reset,
            old(self).opcode == Some(0x15u8),
            !old(self).bus_used@,
        ensures
            final(self).inv(),
            !final(self).reset,
            step_15(*old(self), *final(self)),
            final(self).opcode == old(self).opcode || super::finished(*final(self)),
            super::ram_effect(old(bus).spec_ram(), final(bus).spec_ram(), final(self).bus_used@, final(self).last_bus@),
            super::bus_effect(*old(bus), *old(cpu_peripherals), *final(bus), *final(cpu_peripherals), final(self).bus_used@, final(self).last_bus@),
            final(self).dmc_dma == old(self).dmc_dma,
            final(self).nmi_detected == old(self).nmi_detected,
            final(self).prev_nmi == old(self).prev_nmi,
    {
        {
            match self.subcycle {
                1 => {
                    self.temp = self.memory_cycle_read(self.pc.wrapping_add(1),
                        bus,
                        cpu_peripherals,
                    );
                    {
                        self.copy_debugger(hex8_text("ORA $", self.temp, ",X"));
                        self.done_fetching = true;
                    }
                    self.subcycle = 2;
                }
                2 => {
                    self.memory_cycle_read(self.temp as u16, bus, cpu_peripherals);
                    self.subcycle = 3;
                }
                _ => {
                    self.temp = self.memory_cycle_read(self.temp.wrapping_add(self.x) as u16,
                        bus,
                        cpu_peripherals,
                    );
                    self.a |= self.temp;
                    self.p &= !(CPU_FLAG_ZERO | CPU_FLAG_NEGATIVE);
                    if self.a == 0 {
                        self.p |= CPU_FLAG_ZERO;
                    }
                    if (self.a & 0x80) != 0 {
                        self.p |= CPU_FLAG_NEGATIVE;
                    }
                    self.pc = self.pc.wrapping_add(2);
                    self.end_instruction();
                }
            }
        }
        proof {
            super::lemma_nz(old(self).p, self.a);
        }
    }

    /// ora absolute
    #[verifier::rlimit(100)]
    #[verifier::spinoff_prover]
    pub(crate) fn op_0d<C: CartridgeDevice, K: ControllerDevice, P: PpuDevice, A: ApuDevice>(
        &mut self,
        bus: &mut NesMotherboard<C, K>,
        cpu_peripherals: &mut NesCpuPeripherals<P, A>,
    )
        requires
            old(self).inv(),
            !old(self).reset,
            old(self).opcode == Some(0x0du8),
            !old(self).bus_used@,
        ensures
            final(self).inv(),
            !final(self).reset,
            step_0d(*old(self), *final(self)),
            final(self).opcode == old(self).opcode || super::finished(*final(self)),
            super::ram_effect(old(bus).spec_ram(), final(bus).spec_ram(), final(self).bus_used@, final(self).last_bus@),
            super::bus_effect(*old(bus), *old(cpu_peripherals), *final(bus), *final(cpu_peripherals), final(self).bus_used@, final(self).last_bus@),
            final(self).dmc_dma == old(self).dmc_dma,
            final(self).nmi_detected == old(self).nmi_detected,
            final(self).prev_nmi == old(self).prev_nmi,
    {
        {
            match self.subcycle {
                1 => {
                    self.temp = self.memory_cycle_read(self.pc.wrapping_add(1),
                        bus,
                        cpu_peripherals,
                    );
                    self.subcycle = 2;
                }
                2 => {
                    self.temp2 = self.memory_cycle_read(self.pc.wrapping_add(2),
                        bus,
                        cpu_peripherals,
                    );
                    {
                        let temp = (self.temp2 as u16) << 8 | self.temp as u16;
                        self.copy_debugger(hex16_text("ORA $", temp, ""));
                        self.done_fetching = true;
                    }
                    proof {
                        super::lemma_word(self.temp, self.temp2);
                    }
                    self.subcycle = 3;
                }
                _ => {
                    let temp = (self.temp2 as u16) << 8 | self.temp as u16;
                    self.temp = self.memory_cycle_read(temp, bus, cpu_peripherals);
                    self.a |= self.temp;
                    self.p &= !(CPU_FLAG_ZERO | CPU_FLAG_NEGATIVE);
                    if self.a == 0 {
                        self.p |= CPU_FLAG_ZERO;
                    }
                    if (self.a & 0x80) != 0 {
                        self.p |= CPU_FLAG_NEGATIVE;
                    }
                    self.pc = self.pc.wrapping_add(3);
                    self.end_instruction();
                }
            }
        }
        proof {
            super::lemma_nz(old(self).p, self.a);
            super::lemma_word(old(self).temp, old(self).temp2);
        }
    }

    /// ora absolute x
    #[verifier::rlimit(100)]
    #[verifier::spinoff_prover]
    pub(crate) fn op_1d<C: CartridgeDevice, K: ControllerDevice, P: PpuDevice, A: ApuDevice>(
        &mut self,
        bus: &mut NesMotherboard<C, K>,
        cpu_peripherals: &mut NesCpuPeripherals<P, A>,
    )
        requires
            old(self).inv(),
            !old(self).reset,
            old(self).opcode == Some(0x1du8),
            !old(self).bus_used@,
        ensures
            final(self).inv(),
            !final(self).reset,
            step_1d(*old(self), *final(self)),
            final(self).opcode == old(self).opcode || super::finished(*final(self)),
            super::ram_effect(old(bus).spec_ram(), final(bus).spec_ram(), final(self).bus_used@, final(self).last_bus@),
            super::bus_effect(*old(bus), *old(cpu_peripherals), *final(bus), *final(cpu_peripherals), final(self).bus_used@, final(self).last_bus@),
            final(self).dmc_dma == old(self).dmc_dma,
            final(self).nmi_detected == old(self).nmi_detected,
            final(self).prev_nmi == old(self).prev_nmi,
    {
        {
            match self.subcycle {
                1 => {
                    self.temp = self.memory_cycle_read(self.pc.wrapping_add(1),
                        bus,
                        cpu_peripherals,
                    );
                    self.subcycle = 2;
                }
                2 => {
                    self.temp2 = self.memory_cycle_read(self.pc.wrapping_add(2),
                        bus,
                        cpu_peripherals,
                    );
                    {
                        let temp = (self.temp2 as u16) << 8 | self.temp as u16;
                        self.copy_debugger(hex16_text("ORA $", temp, ",X"));
                        self.done_fetching = true;
                    }
                    proof {
                        super::lemma_word(self.temp, self.temp2);
                    }
                    self.subcycle = 3;
                }
                3 => {
                    let mut addr = (self.temp2 as u16) << 8 | (self.temp as u16);
                    let (val, overflow) = overflowing_add(self.temp, self.x);
                    if !overflow {
                        addr = addr.wrapping_add(self.x as u16);
                        self.a |= self.memory_cycle_read(addr, bus, cpu_peripherals);
                        self.p &= !(CPU_FLAG_ZERO | CPU_FLAG_NEGATIVE);
                        if self.a == 0 {
                            self.p |= CPU_FLAG_ZERO;
                        }
                        if (self.a & 0x80) != 0 {
                            self.p |= CPU_FLAG_NEGATIVE;
                        }
                        self.pc = self.pc.wrapping_add(3);
                        self.end_instruction();
                    } else {
                        self.memory_cycle_read((self.temp2 as u16) << 8 | val as u16,
                            bus,
                            cpu_peripherals,
                        );
                        self.subcycle = 4;
                    }
                }
                _ => {
                    let mut addr = (self.temp2 as u16) << 8 | (self.temp as u16);
                    addr = addr.wrapping_add(self.x as u16);
                    self.a |= self.memory_cycle_read(addr, bus, cpu_peripherals);
                    self.p &= !(CPU_FLAG_ZERO | CPU_FLAG_NEGATIVE);
                    if self.a == 0 {
                        self.p |= CPU_FLAG_ZERO;
                    }
                    if (self.a & 0x80) != 0 {
                        self.p |= CPU_FLAG_NEGATIVE;
                    }

                    self.pc = self.pc.wrapping_add(3);
                    self.end_instruction();
                }
            }
        }
        proof {
            super::lemma_nz(old(self).p, self.a);
            super::lemma_word(old(self).temp, old(self).temp2);
            super::lemma_word(((old(self).temp as int + old(self).x as int) % 256) as u8, old(self).temp2);
        }
    }

    /// ora absolute y
    #[verifier::rlimit(100)]
    #[verifier::spinoff_prover]
    pub(crate) fn op_19<C: CartridgeDevice, K: ControllerDevice, P: PpuDevice, A: ApuDevice>(
        &mut self,
        bus: &mut NesMotherboard<C, K>,
        cpu_peripherals: &mut NesCpuPeripherals<P, A>,
    )
        requires
            old(self).inv(),
            !old(self).reset,
            old(self).opcode == Some(0x19u8),
            !old(self).bus_used@,
        ensures
            final(self).inv(),
            !final(self).reset,
            step_19(*old(self), *final(self)),
            final(self).opcode == old(self).opcode || super::finished(*final(self)),
            super::ram_effect(old(bus).spec_ram(), final(bus).spec_ram(), final(self).bus_used@, final(self).last_bus@),
            super::bus_effect(*old(bus), *old(cpu_peripherals), *final(bus), *final(cpu_peripherals), final(self).bus_used@, final(self).last_bus@),
            final(self).dmc_dma == old(self).dmc_dma,
            final(self).nmi_detected == old(self).nmi_detected,
            final(self).prev_nmi == old(self).prev_nmi,
    {
        {
            match self.subcycle {
                1 => {
                    self.temp = self.memory_cycle_read(self.pc.wrapping_add(1),
                        bus,
                        cpu_peripherals,
                    );
                    self.subcycle = 2;
                }
                2 => {
                    self.temp2 = self.memory_cycle_read(self.pc.wrapping_add(2),
                        bus,
                        cpu_peripherals,
                    );
                    {
                        let temp = (self.temp2 as u16) << 8 | self.temp as u16;
                        self.copy_debugger(hex16_text("ORA $", temp, ",Y"));
                        self.done_fetching = true;
                    }
                    proof {
                        super::lemma_word(self.temp, self.temp2);
                    }
                    self.subcycle = 3;
                }
                3 => {
                    let mut addr = (self.temp2 as u16) << 8 | (self.temp as u16);
                    let (val, overflow) = overflowing_add(self.temp, self.y);
                    if !overflow {
                        addr = addr.wrapping_add(self.y as u16);
                        self.a |= self.memory_cycle_read(addr, bus, cpu_peripherals);
                        self.p &= !(CPU_FLAG_ZERO | CPU_FLAG_NEGATIVE);
                        if self.a == 0 {
                            self.p |= CPU_FLAG_ZERO;
                        }
                        if (self.a & 0x80) != 0 {
                            self.p |= CPU_FLAG_NEGATIVE;
                        }
                        self.pc = self.pc.wrapping_add(3);
                        self.end_instruction();
                    } else {
                        self.memory_cycle_read((self.temp2 as u16) << 8 | val as u16,
                            bus,
                            cpu_peripherals,
                        );
                        self.subcycle = 4;
                    }
                }
                _ => {
                    let mut addr = (self.temp2 as u16) << 8 | (self.temp as u16);
                    addr = addr.wrapping_add(self.y as u16);
                    self.a |= self.memory_cycle_read(addr, bus, cpu_peripherals);
                    self.p &= !(CPU_FLAG_ZERO | CPU_FLAG_NEGATIVE);
                    if self.a == 0 {
                        self.p |= CPU_FLAG_ZERO;
                    }
                    if (self.a & 0x80) != 0 {
                        self.p |= CPU_FLAG_NEGATIVE;
                    }

                    self.pc = self.pc.wrapping_add(3);
                    self.end_instruction();
                }
            }
        }
        proof {
            super::lemma_nz(old(self).p, self.a);
            super::lemma_word(old(self).temp, old(self).temp2);
            super::lemma_word(((old(self).temp as int + old(self).y as int) % 256) as u8, old(self).temp2);
        }
    }

    /// ora indirect x
    #[verifier::rlimit(100)]
    #[verifier::spinoff_prover]
    pub(crate) fn op_01<C: CartridgeDevice, K: ControllerDevice, P: PpuDevice, A: ApuDevice>(
        &mut self,
        bus: &mut NesMotherboard<C, K>,
        cpu_peripherals: &mut NesCpuPeripherals<P, A>,
    )
        requires
            old(self).inv(),
            !old(self).reset,
            old(self).opcode == Some(0x01u8),
            !old(self).bus_used@,
        ensures
            final(self).inv(),
            !final(self).reset,
            step_01(*old(self), *final(self)),
            final(self).opcode == old(self).opcode || super::finished(*final(self)),
            super::ram_effect(old(bus).spec_ram(), final(bus).spec_ram(), final(self).bus_used@, final(self).last_bus@),
            super::bus_effect(*old(bus), *old(cpu_peripherals), *final(bus), *final(cpu_peripherals), final(self).bus_used@, final(self).last_bus@),
            final(self).dmc_dma == old(self).dmc_dma,
            final(self).nmi_detected == old(self).nmi_detected,
            final(self).prev_nmi == old(self).prev_nmi,
    {
        {
            match self.subcycle {
                1 => {
                    self.temp = self.memory_cycle_read(self.pc.wrapping_add(1),
                        bus,
                        cpu_peripherals,
                    );
                    {
                        self.copy_debugger(hex8_text("ORA ($", self.temp, ",X)"));
                        self.done_fetching = true;
                    }
                    self.subcycle = 2;
                }
                2 => {
                    self.temp = self.temp.wrapping_add(self.x);
                    self.temp2 =
                    self.memory_cycle_read(self.temp as u16, bus, cpu_peripherals);
                    self.subcycle = 3;
                }
                3 => {
                    self.memory_cycle_read(self.temp as u16, bus, cpu_peripherals);
                    self.subcycle = 4;
                }
                4 => {
                    self.temp = self.memory_cycle_read(self.temp.wrapping_add(1) as u16,
                        bus,
                        cpu_peripherals,
                    );
                    self.subcycle = 5;
                }
                _ => {
                    let addr = (self.temp as u16) << 8 | (self.temp2 as u16);
                    self.a |= self.memory_cycle_read(addr, bus, cpu_peripherals);
                    self.p &= !(CPU_FLAG_ZERO | CPU_FLAG_NEGATIVE);
                    if self.a == 0 {
                        self.p |= CPU_FLAG_ZERO;
                    }
                    if (self.a & 0x80) != 0 {
                        self.p |= CPU_FLAG_NEGATIVE;
                    }
                    self.pc = self.pc.wrapping_add(2);
                    self.end_instruction();
                }
            }
        }
        proof {
            super::lemma_nz(old(self).p, self.a);
            super::lemma_word(old(self).temp2, old(self).temp);
            super::lemma_word(((old(self).temp2 as int + old(self).y as int) % 256) as u8, old(self).temp);
        }
    }

    /// ora indirect y
    #[verifier::rlimit(100)]
    #[verifier::spinoff_prover]
    pub(crate) fn op_11<C: CartridgeDevice, K: ControllerDevice, P: PpuDevice, A: ApuDevice>(
        &mut self,
        bus: &mut NesMotherboard<C, K>,
        cpu_peripherals: &mut NesCpuPeripherals<P, A>,
    )
        requires
            old(self).inv(),
            !old(self).reset,
            old(self).opcode == Some(0x11u8),
            !old(self).bus_used@,
        ensures
            final(self).inv(),
            !final(self).reset,
            step_11(*old(self), *final(self)),
            final(self).opcode == old(self).opcode || super::finished(*final(self)),
            super::ram_effect(old(bus).spec_ram(), final(bus).spec_ram(), final(self).bus_used@, final(self).last_bus@),
            super::bus_effect(*old(bus), *old(cpu_peripherals), *final(bus), *final(cpu_peripherals), final(self).bus_used@, final(self).last_bus@),
            final(self).dmc_dma == old(self).dmc_dma,
            final(self).nmi_detected == old(self).nmi_detected,
            final(self).prev_nmi == old(self).prev_nmi,
    {
        {
            match self.subcycle {
                1 => {
                    self.temp = self.memory_cycle_read(self.pc.wrapping_add(1),
                        bus,
                        cpu_peripherals,
                    );
                    {
                        self.copy_debugger(hex8_text("ORA ($", self.temp, "),Y"));
                        self.done_fetching = true;
                    }
                    self.subcycle = 2;
                }
                2 => {
                    self.temp2 =
                    self.memory_cycle_read(self.temp as u16, bus, cpu_peripherals);
                    self.subcycle = 3;
                }
                3 => {
                    self.temp = self.memory_cycle_read(self.temp.wrapping_add(1) as u16,
                        bus,
                        cpu_peripherals,
                    );
                    self.subcycle = 4;
                }
                4 => {
                    let mut addr = (self.temp as u16) << 8 | (self.temp2 as u16);
                    let (val, overflow) = overflowing_add(self.temp2, self.y);
                    if !overflow {
                        addr = addr.wrapping_add(self.y as u16);
                        self.a |= self.memory_cycle_read(addr, bus, cpu_peripherals);
                        self.p &= !(CPU_FLAG_ZERO | CPU_FLAG_NEGATIVE);
                        if self.a == 0 {
                            self.p |= CPU_FLAG_ZERO;
                        }
                        if (self.a & 0x80) != 0 {
                            self.p |= CPU_FLAG_NEGATIVE;
                        }

                        self.pc = self.pc.wrapping_add(2);
                        self.end_instruction();
                    } else {
                        self.memory_cycle_read((self.temp as u16) << 8 | val as u16,
                            bus,
                            cpu_peripherals,
                        );
                        self.subcycle = 5;
                    }
                }
                _ => {
                    let mut addr = (self.temp as u16) << 8 | (self.temp2 as u16);
                    addr = addr.wrapping_add(self.y as u16);
                    self.a |= self.memory_cycle_read(addr, bus, cpu_peripherals);
                    self.p &= !(CPU_FLAG_ZERO | CPU_FLAG_NEGATIVE);
                    if self.a == 0 {
                        self.p |= CPU_FLAG_ZERO;
                    }
                    if (self.a & 0x80) != 0 {
                        self.p |= CPU_FLAG_NEGATIVE;
                    }

                    self.pc = self.pc.wrapping_add(2);
                    self.end_instruction();
                }
            }
        }
        proof {
            super::lemma_nz(old(self).p, self.a);
            super::lemma_word(old(self).temp2, old(self).temp);
            super::lemma_word(((old(self).temp2 as int + old(self).y as int) % 256) as u8, old(self).temp);
        }
    }

    /// eor xor immediate
    #[verifier::rlimit(100)]
    #[verifier::spinoff_prover]
    pub(crate) fn op_49<C: CartridgeDevice, K: ControllerDevice, P: PpuDevice, A: ApuDevice>(
        &mut self,
        bus: &mut NesMotherboard<C, K>,
        cpu_peripherals: &mut NesCpuPeripherals<P, A>,
    )
        requires
            old(self).inv(),
            !old(self).reset,
            old(self).opcode == Some(0x49u8),
            !old(self).bus_used@,
        ensures
            final(self).inv(),
            !final(self).reset,
            step_49(*old(self), *final(self)),
            final(self).opcode == old(self).opcode || super::finished(*final(self)),
            super::ram_effect(old(bus).spec_ram(), final(bus).spec_ram(), final(self).bus_used@, final(self).last_bus@),
            super::bus_effect(*old(bus), *old(cpu_peripherals), *final(bus), *final(cpu_peripherals), final(self).bus_used@, final(self).last_bus@),
            final(self).dmc_dma == old(self).dmc_dma,
            final(self).nmi_detected == old(self).nmi_detected,
            final(self).prev_nmi == old(self).prev_nmi,
    {
        {
            self.temp = self.memory_cycle_read(self.pc.wrapping_add(1),
                bus,
                cpu_peripherals,
            );
            {
                self.copy_debugger(hex8_text("EOR #$", self.temp, ""));
                self.done_fetching = true;
            }
            self.a ^= self.temp;
            self.p &= !(CPU_FLAG_ZERO | CPU_FLAG_NEGATIVE);
            if self.a == 0 {
                self.p |= CPU_FLAG_ZERO;
            }
            if (self.a & 0x80) != 0 {
                self.p |= CPU_FLAG_NEGATIVE;
            }
            self.pc = self.pc.wrapping_add(2);
            self.end_instruction();
        }
        proof {
            super::lemma_nz(old(self).p, self.a);
        }
    }

    /// eor zero page
    #[verifier::rlimit(100)]
    #[verifier::spinoff_prover]
    pub(crate) fn op_45<C: CartridgeDevice, K: ControllerDevice, P: PpuDevice, A: ApuDevice>(
        &mut self,
        bus: &mut NesMotherboard<C, K>,
        cpu_peripherals: &mut NesCpuPeripherals<P, A>,
    )
        requires
            old(self).inv(),
            !old(self).reset,
            old(self).opcode == Some(0x45u8),
            !old(self).bus_used@,
        ensures
            final(self).inv(),
            !final(self).reset,
            step_45(*old(self), *final(self)),
            final(self).opcode == old(self).opcode || super::finished(*final(self)),
            super::ram_effect(old(bus).spec_ram(), final(bus).spec_ram(), final(self).bus_used@, final(self).last_bus@),
            super::bus_effect(*old(bus), *old(cpu_peripherals), *final(bus), *final(cpu_peripherals), final(self).bus_used@, final(self).last_bus@),
            final(self).dmc_dma == old(self).dmc_dma,
            final(self).nmi_detected == old(self).nmi_detected,
            final(self).prev_nmi == old(self).prev_nmi,
    {
        {
            match self.subcycle {
                1 => {
                    self.subcycle = 2;
                    self.temp = self.memory_cycle_read(self.pc.wrapping_add(1),
                        bus,
                        cpu_peripherals,
                    );
                    {
                        self.copy_debugger(hex8_text("EOR $", self.temp, ""));
                        self.done_fetching = true;
                    }
                }
                _ => {
                    self.temp =
                    self.memory_cycle_read(self.temp as u16, bus, cpu_peripherals);
                    self.a ^= self.temp;
                    self.p &= !(CPU_FLAG_ZERO | CPU_FLAG_NEGATIVE);
                    if self.a == 0 {
                        self.p |= CPU_FLAG_ZERO;
                    }
                    if (self.a & 0x80) != 0 {
                        self.p |= CPU_FLAG_NEGATIVE;
                    }
                    self.pc = self.pc.wrapping_add(2);
                    self.end_instruction();
                }
            }
        }
        proof {
            super::lemma_nz(old(self).p, self.a);
        }
    }

    /// eor zero page x
    #[verifier::rlimit(100)]
    #[verifier::spinoff_prover]
    pub(crate) fn op_55<C: CartridgeDevice, K: ControllerDevice, P: PpuDevice, A: ApuDevice>(
        &mut self,
        bus: &mut NesMotherboard<C, K>,
        cpu_peripherals: &mut NesCpuPeripherals<P, A>,
    )
        requires
            old(self).inv(),
            !old(self).reset,
            old(self).opcode == Some(0x55u8),
            !old(self).bus_used@,
        ensures
            final(self).inv(),
            !final(self).reset,
            step_55(*old(self), *final(self)),
            final(self).opcode == old(self).opcode || super::finished(*final(self)),
            super::ram_effect(old(bus).spec_ram(), final(bus).spec_ram(), final(self).bus_used@, final(self).last_bus@),
            super::bus_effect(*old(bus), *old(cpu_peripherals), *final(bus), *final(cpu_peripherals), final(self).bus_used@, final(self).last_bus@),
            final(self).dmc_dma == old(self).dmc_dma,
            final(self).nmi_detected == old(self).nmi_detected,
            final(self).prev_nmi == old(self).prev_nmi,
    {
        {
            match self.subcycle {
                1 => {
                    self.temp = self.memory_cycle_read(self.pc.wrapping_add(1),
                        bus,
                        cpu_peripherals,
                    );
                    {
                        self.copy_debugger(hex8_text("EOR $", self.temp, ",X"));
                        self.done_fetching = true;
                    }
                    self.subcycle = 2;
                }
                2 => {
                    self.memory_cycle_read(self.temp as u16, bus, cpu_peripherals);
                    self.subcycle = 3;
                }
                _ => {
                    self.temp = self.memory_cycle_read(self.temp.wrapping_add(self.x) as u16,
                        bus,
                        cpu_peripherals,
                    );
                    self.a ^= self.temp;
                    self.p &= !(CPU_FLAG_ZERO | CPU_FLAG_NEGATIVE);
                    if self.a == 0 {
                        self.p |= CPU_FLAG_ZERO;
                    }
                    if (self.a & 0x80) != 0 {
                        self.p |= CPU_FLAG_NEGATIVE;
                    }
                    self.pc = self.pc.wrapping_add(2);
                    self.end_instruction();
                }
            }
        }
        proof {
            super::lemma_nz(old(self).p, self.a);
        }
    }

    /// eor absolute
    #[verifier::rlimit(100)]
    #[verifier::spinoff_prover]
    pub(crate) fn op_4d<C: CartridgeDevice, K: ControllerDevice, P: PpuDevice, A: ApuDevice>(
        &mut self,
        bus: &mut NesMotherboard<C, K>,
        cpu_peripherals: &mut NesCpuPeripherals<P, A>,
    )
        requires
            old(self).inv(),
            !old(self).reset,
            old(self).opcode == Some(0x4du8),
            !old(self).bus_used@,
        ensures
            final(self).inv(),
            !final(self).reset,
            step_4d(*old(self), *final(self)),
            final(self).opcode == old(self).opcode || super::finished(*final(self)),
            super::ram_effect(old(bus).spec_ram(), final(bus).spec_ram(), final(self).bus_used@, final(self).last_bus@),
            super::bus_effect(*old(bus), *old(cpu_peripherals), *final(bus), *final(cpu_peripherals), final(self).bus_used@, final(self).last_bus@),
            final(self).dmc_dma == old(self).dmc_dma,
            final(self).nmi_detected == old(self).nmi_detected,
            final(self).prev_nmi == old(self).prev_nmi,
    {
        {
            match self.subcycle {
                1 => {
                    self.temp = self.memory_cycle_read(self.pc.wrapping_add(1),
                        bus,
                        cpu_peripherals,
                    );
                    self.subcycle = 2;
                }
                2 => {
                    self.temp2 = self.memory_cycle_read(self.pc.wrapping_add(2),
                        bus,
                        cpu_peripherals,
                    );
                    {
                        let temp = (self.temp2 as u16) << 8 | self.temp as u16;
                        self.copy_debugger(hex16_text("EOR $", temp, ""));
                        self.done_fetching = true;
                    }
                    proof {
                        super::lemma_word(self.temp, self.temp2);
                    }
                    self.subcycle = 3;
                }
                _ => {
                    let temp = (self.temp2 as u16) << 8 | self.temp as u16;
                    self.temp = self.memory_cycle_read(temp, bus, cpu_peripherals);
                    self.a ^= self.temp;
                    self.p &= !(CPU_FLAG_ZERO | CPU_FLAG_NEGATIVE);
                    if self.a == 0 {
                        self.p |= CPU_FLAG_ZERO;
                    }
                    if (self.a & 0x80) != 0 {
                        self.p |= CPU_FLAG_NEGATIVE;
                    }
                    self.pc = self.pc.wrapping_add(3);
                    self.end_instruction();
                }
            }
        }
        proof {
            super::lemma_nz(old(self).p, self.a);
            super::lemma_word(old(self).temp, old(self).temp2);
        }
    }

    /// eor absolute x
    #[verifier::rlimit(100)]
    #[verifier::spinoff_prover]
    pub(crate) fn op_5d<C: CartridgeDevice, K: ControllerDevice, P: PpuDevice, A: ApuDevice>(
        &mut self,
        bus: &mut NesMotherboard<C, K>,
        cpu_peripherals: &mut NesCpuPeripherals<P, A>,
    )
        requires
            old(self).inv(),
            !old(self).reset,
            old(self).opcode == Some(0x5du8),
            !old(self).bus_used@,
        ensures
            final(self).inv(),
            !final(self).reset,
            step_5d(*old(self), *final(self)),
            final(self).opcode == old(self).opcode || super::finished(*final(self)),
            super::ram_effect(old(bus).spec_ram(), final(bus).spec_ram(), final(self).bus_used@, final(self).last_bus@),
            super::bus_effect(*old(bus), *old(cpu_peripherals), *final(bus), *final(cpu_peripherals), final(self).bus_used@, final(self).last_bus@),
            final(self).dmc_dma == old(self).dmc_dma,
            final(self).nmi_detected == old(self).nmi_detected,
            final(self).prev_nmi == old(self).prev_nmi,
    {
        {
            match self.subcycle {
                1 => {
                    self.temp = self.memory_cycle_read(self.pc.wrapping_add(1),
                        bus,
                        cpu_peripherals,
                    );
                    self.subcycle = 2;
                }
                2 => {
                    self.temp2 = self.memory_cycle_read(self.pc.wrapping_add(2),
                        bus,
                        cpu_peripherals,
                    );
                    {
                        let temp = (self.temp2 as u16) << 8 | self.temp as u16;
                        self.copy_debugger(hex16_text("EOR $", temp, ",X"));
                        self.done_fetching = true;
                    }
                    proof {
                        super::lemma_word(self.temp, self.temp2);
                    }
                    self.subcycle = 3;
                }
                3 => {
                    let mut addr = (self.temp2 as u16) << 8 | (self.temp as u16);
                    let (val, overflow) = overflowing_add(self.temp, self.x);
                    if !overflow {
                        addr = addr.wrapping_add(self.x as u16);
                        self.a ^= self.memory_cycle_read(addr, bus, cpu_peripherals);
                        self.p &= !(CPU_FLAG_ZERO | CPU_FLAG_NEGATIVE);
                        if self.a == 0 {
                            self.p |= CPU_FLAG_ZERO;
                        }
                        if (self.a & 0x80) != 0 {
                            self.p |= CPU_FLAG_NEGATIVE;
                        }
                        self.pc = self.pc.wrapping_add(3);
                        self.end_instruction();
                    } else {
                        self.memory_cycle_read((self.temp2 as u16) << 8 | val as u16,
                            bus,
                            cpu_peripherals,
                        );
                        self.subcycle = 4;
                    }
                }
                _ => {
                    let mut addr = (self.temp2 as u16) << 8 | (self.temp as u16);
                    addr = addr.wrapping_add(self.x as u16);
                    self.a ^= self.memory_cycle_read(addr, bus, cpu_peripherals);
                    self.p &= !(CPU_FLAG_ZERO | CPU_FLAG_NEGATIVE);
                    if self.a == 0 {
                        self.p |= CPU_FLAG_ZERO;
                    }
                    if (self.a & 0x80) != 0 {
                        self.p |= CPU_FLAG_NEGATIVE;
                    }

                    self.pc = self.pc.wrapping_add(3);
                    self.end_instruction();
                }
            }
        }
        proof {
            super::lemma_nz(old(self).p, self.a);
            super::lemma_word(old(self).temp, old(self).temp2);
            super::lemma_word(((old(self).temp as int + old(self).x as int) % 256) as u8, old(self).temp2);
        }
    }

    /// eor absolute y
    #[verifier::rlimit(100)]
    #[verifier::spinoff_prover]
    pub(crate) fn op_59<C: CartridgeDevice, K: ControllerDevice, P: PpuDevice, A: ApuDevice>(
        &mut self,
        bus: &mut NesMotherboard<C, K>,
        cpu_peripherals: &mut NesCpuPeripherals<P, A>,
    )
        requires
            old(self).inv(),
            !old(self).reset,
            old(self).opcode == Some(0x59u8),
            !old(self).bus_used@,
        ensures
            final(self).inv(),
            !final(self).reset,
            step_59(*old(self), *final(self)),
            final(self).opcode == old(self).opcode || super::finished(*final(self)),
            super::ram_effect(old(bus).spec_ram(), final(bus).spec_ram(), final(self).bus_used@, final(self).last_bus@),
            super::bus_effect(*old(bus), *old(cpu_peripherals), *final(bus), *final(cpu_peripherals), final(self).bus_used@, final(self).last_bus@),
            final(self).dmc_dma == old(self).dmc_dma,
            final(self).nmi_detected == old(self).nmi_detected,
            final(self).prev_nmi == old(self).prev_nmi,
    {
        {
            match self.subcycle {
                1 => {
                    self.temp = self.memory_cycle_read(self.pc.wrapping_add(1),
                        bus,
                        cpu_peripherals,
                    );
                    self.subcycle = 2;
                }
                2 => {
                    self.temp2 = self.memory_cycle_read(self.pc.wrapping_add(2),
                        bus,
                        cpu_peripherals,
                    );
                    {
                        let temp = (self.temp2 as u16) << 8 | self.temp as u16;
                        self.copy_debugger(hex16_text("EOR $", temp, ",Y"));
                        self.done_fetching = true;
                    }
                    proof {
                        super::lemma_word(self.temp, self.temp2);
                    }
                    self.subcycle = 3;
                }
                3 => {
                    let mut addr = (self.temp2 as u16) << 8 | (self.temp as u16);
                    let (val, overflow) = overflowing_add(self.temp, self.y);
                    if !overflow {
                        addr = addr.wrapping_add(self.y as u16);
                        self.a ^= self.memory_cycle_read(addr, bus, cpu_peripherals);
                        self.p &= !(CPU_FLAG_ZERO | CPU_FLAG_NEGATIVE);
                        if self.a == 0 {
                            self.p |= CPU_FLAG_ZERO;
                        }
                        if (self.a & 0x80) != 0 {
                            self.p |= CPU_FLAG_NEGATIVE;
                        }
                        self.pc = self.pc.wrapping_add(3);
                        self.end_instruction();
                    } else {
                        self.memory_cycle_read((self.temp2 as u16) << 8 | val as u16,
                            bus,
                            cpu_peripherals,
                        );
                        self.subcycle = 4;
                    }
                }
                _ => {
                    let mut addr = (self.temp2 as u16) << 8 | (self.temp as u16);
                    addr = addr.wrapping_add(self.y as u16);
                    self.a ^= self.memory_cycle_read(addr, bus, cpu_peripherals);
                    self.p &= !(CPU_FLAG_ZERO | CPU_FLAG_NEGATIVE);
                    if self.a == 0 {
                        self.p |= CPU_FLAG_ZERO;
                    }
                    if (self.a & 0x80) != 0 {
                        self.p |= CPU_FLAG_NEGATIVE;
                    }

                    self.pc = self.pc.wrapping_add(3);
                    self.end_instruction();
                }
            }
        }
        proof {
            super::lemma_nz(old(self).p, self.a);
            super::lemma_word(old(self).temp, old(self).temp2);
            super::lemma_word(((old(self).temp as int + old(self).y as int) % 256) as u8, old(self).temp2);
        }
    }

    /// eor xor indirect x
    #[verifier::rlimit(100)]
    #[verifier::spinoff_prover]
    pub(crate) fn op_41<C: CartridgeDevice, K: ControllerDevice, P: PpuDevice, A: ApuDevice>(
        &mut self,
        bus: &mut NesMotherboard<C, K>,
        cpu_peripherals: &mut NesCpuPeripherals<P, A>,
    )
        requires
            old(self).inv(),
            !old(self).reset,
            old(self).opcode == Some(0x41u8),
            !old(self).bus_used@,
        ensures
            final(self).inv(),
            !final(self).reset,
            step_41(*old(self), *final(self)),
            final(self).opcode == old(self).opcode || super::finished(*final(self)),
            super::ram_effect(old(bus).spec_ram(), final(bus).spec_ram(), final(self).bus_used@, final(self).last_bus@),
            super::bus_effect(*old(bus), *old(cpu_peripherals), *final(bus), *final(cpu_peripherals), final(self).bus_used@, final(self).last_bus@),
            final(self).dmc_dma == old(self).dmc_dma,
            final(self).nmi_detected == old(self).nmi_detected,
            final(self).prev_nmi == old(self).prev_nmi,
    {
        {
            match self.subcycle {
                1 => {
                    self.temp = self.memory_cycle_read(self.pc.wrapping_add(1),
                        bus,
                        cpu_peripherals,
                    );
                    {
                        self.copy_debugger(hex8_text("EOR ($", self.temp, ",X)"));
                        self.done_fetching = true;
                    }
                    self.subcycle = 2;
                }
                2 => {
                    self.temp = self.temp.wrapping_add(self.x);
                    self.temp2 =
                    self.memory_cycle_read(self.temp as u16, bus, cpu_peripherals);
                    self.subcycle = 3;
                }
                3 => {
                    self.memory_cycle_read(self.temp as u16, bus, cpu_peripherals);
                    self.subcycle = 4;
                }
                4 => {
                    self.temp = self.memory_cycle_read(self.temp.wrapping_add(1) as u16,
                        bus,
                        cpu_peripherals,
                    );
                    self.subcycle = 5;
                }
                _ => {
                    let addr = (self.temp as u16) << 8 | (self.temp2 as u16);
                    self.a ^= self.memory_cycle_read(addr, bus, cpu_peripherals);
                    self.p &= !(CPU_FLAG_ZERO | CPU_FLAG_NEGATIVE);
                    if self.a == 0 {
                        self.p |= CPU_FLAG_ZERO;
                    }
                    if (self.a & 0x80) != 0 {
                        self.p |= CPU_FLAG_NEGATIVE;
                    }
                    self.pc = self.pc.wrapping_add(2);
                    self.end_instruction();
                }
            }
        }
        proof {
            super::lemma_nz(old(self).p, self.a);
            super::lemma_word(old(self).temp2, old(self).temp);
            super::lemma_word(((old(self).temp2 as int + old(self).y as int) % 256) as u8, old(self).temp);
        }
    }

    /// eor indirect y
    #[verifier::rlimit(100)]
    #[verifier::spinoff_prover]
    pub(crate) fn op_51<C: CartridgeDevice, K: ControllerDevice, P: PpuDevice, A: ApuDevice>(
        &mut self,
        bus: &mut NesMotherboard<C, K>,
        cpu_peripherals: &mut NesCpuPeripherals<P, A>,
    )
        requires
            old(self).inv(),
            !old(self).reset,
            old(self).opcode == Some(0x51u8),
            !old(self).bus_used@,
        ensures
            final(self).inv(),
            !final(self).reset,
            step_51(*old(self), *final(self)),
            final(self).opcode == old(self).opcode || super::finished(*final(self)),
            super::ram_effect(old(bus).spec_ram(), final(bus).spec_ram(), final(self).bus_used@, final(self).last_bus@),
            super::bus_effect(*old(bus), *old(cpu_peripherals), *final(bus), *final(cpu_peripherals), final(self).bus_used@, final(self).last_bus@),
            final(self).dmc_dma == old(self).dmc_dma,
            final(self).nmi_detected == old(self).nmi_detected,
            final(self).prev_nmi == old(self).prev_nmi,
    {
        {
            match self.subcycle {
                1 => {
                    self.temp = self.memory_cycle_read(self.pc.wrapping_add(1),
                        bus,
                        cpu_peripherals,
                    );
                    {
                        self.copy_debugger(hex8_text("EOR ($", self.temp, "),Y"));
                        self.done_fetching = true;
                    }
                    self.subcycle = 2;
                }
                2 => {
                    self.temp2 =
                    self.memory_cycle_read(self.temp as u16, bus, cpu_peripherals);
                    self.subcycle = 3;
                }
                3 => {
                    self.temp = self.memory_cycle_read(self.temp.wrapping_add(1) as u16,
                        bus,
                        cpu_peripherals,
                    );
                    self.subcycle = 4;
                }
                4 => {
                    let mut addr = (self.temp as u16) << 8 | (self.temp2 as u16);
                    let (val, overflow) = overflowing_add(self.temp2, self.y);
                    if !overflow {
                        addr = addr.wrapping_add(self.y as u16);
                        self.a ^= self.memory_cycle_read(addr, bus, cpu_peripherals);
                        self.p &= !(CPU_FLAG_ZERO | CPU_FLAG_NEGATIVE);
                        if self.a == 0 {
                            self.p |= CPU_FLAG_ZERO;
                        }
                        if (self.a & 0x80) != 0 {
                            self.p |= CPU_FLAG_NEGATIVE;
                        }

                        self.pc = self.pc.wrapping_add(2);
                        self.end_instruction();
                    } else {
                        self.memory_cycle_read((self.temp as u16) << 8 | val as u16,
                            bus,
                            cpu_peripherals,
                        );
                        self.subcycle = 5;
                    }
                }
                _ => {
                    let mut addr = (self.temp as u16) << 8 | (self.temp2 as u16);
                    addr = addr.wrapping_add(self.y as u16);
                    self.a ^= self.memory_cycle_read(addr, bus, cpu_peripherals);
                    self.p &= !(CPU_FLAG_ZERO | CPU_FLAG_NEGATIVE);
                    if self.a == 0 {
                        self.p |= CPU_FLAG_ZERO;
                    }
                    if (self.a & 0x80) != 0 {
                        self.p |= CPU_FLAG_NEGATIVE;
                    }

                    self.pc = self.pc.wrapping_add(2);
                    self.end_instruction();
                }
            }
        }
        proof {
            super::lemma_nz(old(self).p, self.a);
            super::lemma_word(old(self).temp2, old(self).temp);
            super::lemma_word(((old(self).temp2 as int + old(self).y as int) % 256) as u8, old(self).temp);
        }
    }

    /// adc immediate, add with carry
    #[verifier::rlimit(100)]
    #[verifier::spinoff_prover]
    pub(crate) fn op_69<C: CartridgeDevice, K: ControllerDevice, P: PpuDevice, A: ApuDevice>(
        &mut self,
        bus: &mut NesMotherboard<C, K>,
        cpu_peripherals: &mut NesCpuPeripherals<P, A>,
    )
        requires
            old(self).inv(),
            !old(self).reset,
            old(self).opcode == Some(0x69u8),
            !old(self).bus_used@,
        ensures
            final(self).inv(),
            !final(self).reset,
            step_69(*old(self), *final(self)),
            final(self).opcode == old(self).opcode || super::finished(*final(self)),
            super::ram_effect(old(bus).spec_ram(), final(bus).spec_ram(), final(self).bus_used@, final(self).last_bus@),
            super::bus_effect(*old(bus), *old(cpu_peripherals), *final(bus), *final(cpu_peripherals), final(self).bus_used@, final(self).last_bus@),
            final(self).dmc_dma == old(self).dmc_dma,
            final(self).nmi_detected == old(self).nmi_detected,
            final(self).prev_nmi == old(self).prev_nmi,
    {
        {
            self.temp = self.memory_cycle_read(self.pc.wrapping_add(1),
                bus,
                cpu_peripherals,
            );
            {
                self.copy_debugger(hex8_text("ADC #$", self.temp, ""));
                self.done_fetching = true;
            }
            self.cpu_adc(self.temp);
            self.pc = self.pc.wrapping_add(2);
            self.end_instruction();
        }
    }

    /// adc zero page
    #[verifier::rlimit(100)]
    #[verifier::spinoff_prover]
    pub(crate) fn op_65<C: CartridgeDevice, K: ControllerDevice, P: PpuDevice, A: ApuDevice>(
        &mut self,
        bus: &mut NesMotherboard<C, K>,
        cpu_peripherals: &mut NesCpuPeripherals<P, A>,
    )
        requires
            old(self).inv(),
            !old(self).reset,
            old(self).opcode == Some(0x65u8),
            !old(self).bus_used@,
        ensures
            final(self).inv(),
            !final(self).reset,
            step_65(*old(self), *final(self)),
            final(self).opcode == old(self).opcode || super::finished(*final(self)),
            super::ram_effect(old(bus).spec_ram(), final(bus).spec_ram(), final(self).bus_used@, final(self).last_bus@),
            super::bus_effect(*old(bus), *old(cpu_peripherals), *final(bus), *final(cpu_peripherals), final(self).bus_used@, final(self).last_bus@),
            final(self).dmc_dma == old(self).dmc_dma,
            final(self).nmi_detected == old(self).nmi_detected,
            final(self).prev_nmi == old(self).prev_nmi,
    {
        {
            match self.subcycle {
                1 => {
                    self.subcycle = 2;
                    self.temp = self.memory_cycle_read(self.pc.wrapping_add(1),
                        bus,
                        cpu_peripherals,
                    );
                    {
                        self.copy_debugger(hex8_text("ADC $", self.temp, ""));
                        self.done_fetching = true;
                    }
                }
                _ => {
                    self.temp =
                    self.memory_cycle_read(self.temp as u16, bus, cpu_peripherals);
                    self.cpu_adc(self.temp);
                    self.pc = self.pc.wrapping_add(2);
                    self.end_instruction();
                }
            }
        }
    }

    /// adc zero page x
    #[verifier::rlimit(100)]
    #[verifier::spinoff_prover]
    pub(crate) fn op_75<C: CartridgeDevice, K: ControllerDevice, P: PpuDevice, A: ApuDevice>(
        &mut self,
        bus: &mut NesMotherboard<C, K>,
        cpu_peripherals: &mut NesCpuPeripherals<P, A>,
    )
        requires
            old(self).inv(),
            !old(self).reset,
            old(self).opcode == Some(0x75u8),
            !old(self).bus_used@,
        ensures
            final(self).inv(),
            !final(self).reset,
            step_75(*old(self), *final(self)),
            final(self).opcode == old(self).opcode || super::finished(*final(self)),
            super::ram_effect(old(bus).spec_ram(), final(bus).spec_ram(), final(self).bus_used@, final(self).last_bus@),
            super::bus_effect(*old(bus), *old(cpu_peripherals), *final(bus), *final(cpu_peripherals), final(self).bus_used@, final(self).last_bus@),
            final(self).dmc_dma == old(self).dmc_dma,
            final(self).nmi_detected == old(self).nmi_detected,
            final(self).prev_nmi == old(self).prev_nmi,
    {
        {
            match self.subcycle {
                1 => {
                    self.subcycle = 2;
                    self.temp = self.memory_cycle_read(self.pc.wrapping_add(1),
                        bus,
                        cpu_peripherals,
                    );
                    {
                        self.copy_debugger(hex8_text("ADC $", self.temp, ",X"));
                        self.done_fetching = true;
                    }
                }
                2 => {
                    self.memory_cycle_read(self.temp as u16, bus, cpu_peripherals);
                    self.subcycle = 3;
                }
                _ => {
                    self.temp = self.memory_cycle_read(self.temp.wrapping_add(self.x) as u16,
                        bus,
                        cpu_peripherals,
                    );
                    self.cpu_adc(self.temp);
                    self.pc = self.pc.wrapping_add(2);
                    self.end_instruction();
                }
            }
        }
    }

    /// adc absolute
    #[verifier::rlimit(100)]
    #[verifier::spinoff_prover]
    pub(crate) fn op_6d<C: CartridgeDevice, K: ControllerDevice, P: PpuDevice, A: ApuDevice>(
        &mut self,
        bus: &mut NesMotherboard<C, K>,
        cpu_peripherals: &mut NesCpuPeripherals<P, A>,
    )
        requires
            old(self).inv(),
            !old(self).reset,
            old(self).opcode == Some(0x6du8),
            !old(self).bus_used@,
        ensures
            final(self).inv(),
            !final(self).reset,
            step_6d(*old(self), *final(self)),
            final(self).opcode == old(self).opcode || super::finished(*final(self)),
            super::ram_effect(old(bus).spec_ram(), final(bus).spec_ram(), final(self).bus_used@, final(self).last_bus@),
            super::bus_effect(*old(bus), *old(cpu_peripherals), *final(bus), *final(cpu_peripherals), final(self).bus_used@, final(self).last_bus@),
            final(self).dmc_dma == old(self).dmc_dma,
            final(self).nmi_detected == old(self).nmi_detected,
            final(self).prev_nmi == old(self).prev_nmi,
    {
        {
            match self.subcycle {
                1 => {
                    self.temp = self.memory_cycle_read(self.pc.wrapping_add(1),
                        bus,
                        cpu_peripherals,
                    );
                    self.subcycle = 2;
                }
                2 => {
                    self.temp2 = self.memory_cycle_read(self.pc.wrapping_add(2),
                        bus,
                        cpu_peripherals,
                    );
                    {
                        let temp = (self.temp2 as u16) << 8 | self.temp as u16;
                        self.copy_debugger(hex16_text("ADC $", temp, ""));
                        self.done_fetching = true;
                    }
                    proof {
                        super::lemma_word(self.temp, self.temp2);
                    }
                    self.subcycle = 3;
                }
                _ => {
                    let temp = (self.temp2 as u16) << 8 | self.temp as u16;
                    self.temp = self.memory_cycle_read(temp, bus, cpu_peripherals);
                    self.cpu_adc(self.temp);
                    self.pc = self.pc.wrapping_add(3);
                    self.end_instruction();
                }
            }
        }
        proof {
            super::lemma_word(old(self).temp, old(self).temp2);
        }
    }

    /// adc absolute x
    #[verifier::rlimit(100)]
    #[verifier::spinoff_prover]
    pub(crate) fn op_7d<C: CartridgeDevice, K: ControllerDevice, P: PpuDevice, A: ApuDevice>(
        &mut self,
        bus: &mut NesMotherboard<C, K>,
        cpu_peripherals: &mut NesCpuPeripherals<P, A>,
    )
        requires
            old(self).inv(),
            !old(self).reset,
            old(self).opcode == Some(0x7du8),
            !old(self).bus_used@,
        ensures
            final(self).inv(),
            !final(self).reset,
            step_7d(*old(self), *final(self)),
            final(self).opcode == old(self).opcode || super::finished(*final(self)),
            super::ram_effect(old(bus).spec_ram(), final(bus).spec_ram(), final(self).bus_used@, final(self).last_bus@),
            super::bus_effect(*old(bus), *old(cpu_peripherals), *final(bus), *final(cpu_peripherals), final(self).bus_used@, final(self).last_bus@),
            final(self).dmc_dma == old(self).dmc_dma,
            final(self).nmi_detected == old(self).nmi_detected,
            final(self).prev_nmi == old(self).prev_nmi,
    {
        {
            match self.subcycle {
                1 => {
                    self.temp = self.memory_cycle_read(self.pc.wrapping_add(1),
                        bus,
                        cpu_peripherals,
                    );
                    self.subcycle = 2;
                }
                2 => {
                    self.temp2 = self.memory_cycle_read(self.pc.wrapping_add(2),
                        bus,
                        cpu_peripherals,
                    );
                    {
                        let temp = (self.temp2 as u16) << 8 | self.temp as u16;
                        self.copy_debugger(hex16_text("ADC $", temp, ",X"));
                        self.done_fetching = true;
                    }
                    proof {
                        super::lemma_word(self.temp, self.temp2);
                    }
                    self.subcycle = 3;
                }
                3 => {
                    let mut addr = (self.temp2 as u16) << 8 | (self.temp as u16);
                    let (val, overflow) = overflowing_add(self.temp, self.x);
                    if !overflow {
                        addr = addr.wrapping_add(self.x as u16);
                        self.temp = self.memory_cycle_read(addr, bus, cpu_peripherals);
                        self.cpu_adc(self.temp);
                        self.pc = self.pc.wrapping_add(3);
                        self.end_instruction();
                    } else {
                        self.memory_cycle_read((self.temp2 as u16) << 8 | val as u16,
                            bus,
                            cpu_peripherals,
                        );
                        self.subcycle = 4;
                    }
                }
                _ => {
                    let mut addr = (self.temp2 as u16) << 8 | (self.temp as u16);
                    addr = addr.wrapping_add(self.x as u16);
                    self.temp = self.memory_cycle_read(addr, bus, cpu_peripherals);
                    self.cpu_adc(self.temp);

                    self.pc = self.pc.wrapping_add(3);
                    self.end_instruction();
                }
            }
        }
        proof {
            super::lemma_word(old(self).temp, old(self).temp2);
            super::lemma_word(((old(self).temp as int + old(self).x as int) % 256) as u8, old(self).temp2);
        }
    }

    /// adc absolute y
    #[verifier::rlimit(100)]
    #[verifier::spinoff_prover]
    pub(crate) fn op_79<C: CartridgeDevice, K: ControllerDevice, P: PpuDevice, A: ApuDevice>(
        &mut self,
        bus: &mut NesMotherboard<C, K>,
        cpu_peripherals: &mut NesCpuPeripherals<P, A>,
    )
        requires
            old(self).inv(),
            !old(self).reset,
            old(self).opcode == Some(0x79u8),
            !old(self).bus_used@,
        ensures
            final(self).inv(),
            !final(self).reset,
            step_79(*old(self), *final(self)),
            final(self).opcode == old(self).opcode || super::finished(*final(self)),
            super::ram_effect(old(bus).spec_ram(), final(bus).spec_ram(), final(self).bus_used@, final(self).last_bus@),
            super::bus_effect(*old(bus), *old(cpu_peripherals), *final(bus), *final(cpu_peripherals), final(self).bus_used@, final(self).last_bus@),
            final(self).dmc_dma == old(self).dmc_dma,
            final(self).nmi_detected == old(self).nmi_detected,
            final(self).prev_nmi == old(self).prev_nmi,
    {
        {
            match self.subcycle {
                1 => {
                    self.temp = self.memory_cycle_read(self.pc.wrapping_add(1),
                        bus,
                        cpu_peripherals,
                    );
                    self.subcycle = 2;
                }
                2 => {
                    self.temp2 = self.memory_cycle_read(self.pc.wrapping_add(2),
                        bus,
                        cpu_peripherals,
                    );
                    {
                        let temp = (self.temp2 as u16) << 8 | self.temp as u16;
                        self.copy_debugger(hex16_text("ADC $", temp, ",Y"));
                        self.done_fetching = true;
                    }
                    proof {
                        super::lemma_word(self.temp, self.temp2);
                    }
                    self.subcycle = 3;
                }
                3 => {
                    let mut addr = (self.temp2 as u16) << 8 | (self.temp as u16);
                    let (val, overflow) = overflowing_add(self.temp, self.y);
                    if !overflow {
                        addr = addr.wrapping_add(self.y as u16);
                        self.temp = self.memory_cycle_read(addr, bus, cpu_peripherals);
                        self.cpu_adc(self.temp);
                        self.pc = self.pc.wrapping_add(3);
                        self.end_instruction();
                    } else {
                        self.memory_cycle_read((self.temp2 as u16) << 8 | val as u16,
                            bus,
                            cpu_peripherals,
                        );
                        self.subcycle = 4;
                    }
                }
                _ => {
                    let mut addr = (self.temp2 as u16) << 8 | (self.temp as u16);
                    addr = addr.wrapping_add(self.y as u16);
                    self.temp = self.memory_cycle_read(addr, bus, cpu_peripherals);
                    self.cpu_adc(self.temp);

                    self.pc = self.pc.wrapping_add(3);
                    self.end_instruction();
                }
            }
        }
        proof {
            super::lemma_word(old(self).temp, old(self).temp2);
            super::lemma_word(((old(self).temp as int + old(self).y as int) % 256) as u8, old(self).temp2);
        }
    }

    /// adc adc indirect x
    #[verifier::rlimit(100)]
    #[verifier::spinoff_prover]
    pub(crate) fn op_61<C: CartridgeDevice, K: ControllerDevice, P: PpuDevice, A: ApuDevice>(
        &mut self,
        bus: &mut NesMotherboard<C, K>,
        cpu_peripherals: &mut NesCpuPeripherals<P, A>,
    )
        requires
            old(self).inv(),
            !old(self).reset,
            old(self).opcode == Some(0x61u8),
            !old(self).bus_used@,
        ensures
            final(self).inv(),
            !final(self).reset,
            step_61(*old(self), *final(self)),
            final(self).opcode == old(self).opcode || super::finished(*final(self)),
            super::ram_effect(old(bus).spec_ram(), final(bus).spec_ram(), final(self).bus_used@, final(self).last_bus@),
            super::bus_effect(*old(bus), *old(cpu_peripherals), *final(bus), *final(cpu_peripherals), final(self).bus_used@, final(self).last_bus@),
            final(self).dmc_dma == old(self).dmc_dma,
            final(self).nmi_detected == old(self).nmi_detected,
            final(self).prev_nmi == old(self).prev_nmi,
    {
        {
            match self.subcycle {
                1 => {
                    self.temp = self.memory_cycle_read(self.pc.wrapping_add(1),
                        bus,
                        cpu_peripherals,
                    );
                    {
                        self.copy_debugger(hex8_text("ADC ($", self.temp, ",X)"));
                        self.done_fetching = true;
                    }
                    self.subcycle = 2;
                }
                2 => {
                    self.temp = self.temp.wrapping_add(self.x);
                    self.temp2 =
                    self.memory_cycle_read(self.temp as u16, bus, cpu_peripherals);
                    self.subcycle = 3;
                }
                3 => {
                    self.memory_cycle_read(self.temp as u16, bus, cpu_peripherals);
                    self.subcycle = 4;
                }
                4 => {
                    self.temp = self.memory_cycle_read(self.temp.wrapping_add(1) as u16,
                        bus,
                        cpu_peripherals,
                    );
                    self.subcycle = 5;
                }
                _ => {
                    let addr = (self.temp as u16) << 8 | (self.temp2 as u16);
                    self.temp = self.memory_cycle_read(addr, bus, cpu_peripherals);
                    self.cpu_adc(self.temp);
                    self.pc = self.pc.wrapping_add(2);
                    self.end_instruction();
                }
            }
        }
        proof {
            super::lemma_word(old(self).temp2, old(self).temp);
            super::lemma_word(((old(self).temp2 as int + old(self).y as int) % 256) as u8, old(self).temp);
        }
    }

    /// adc indirect y
    #[verifier::rlimit(100)]
    #[verifier::spinoff_prover]
    pub(crate) fn op_71<C: CartridgeDevice, K: ControllerDevice, P: PpuDevice, A: ApuDevice>(
        &mut self,
        bus: &mut NesMotherboard<C, K>,
        cpu_peripherals: &mut NesCpuPeripherals<P, A>,
    )
        requires
            old(self).inv(),
            !old(self).reset,
            old(self).opcode == Some(0x71u8),
            !old(self).bus_used@,
        ensures
            final(self).inv(),
            !final(self).reset,
            step_71(*old(self), *final(self)),
            final(self).opcode == old(self).opcode || super::finished(*final(self)),
            super::ram_effect(old(bus).spec_ram(), final(bus).spec_ram(), final(self).bus_used@, final(self).last_bus@),
            super::bus_effect(*old(bus), *old(cpu_peripherals), *final(bus), *final(cpu_peripherals), final(self).bus_used@, final(self).last_bus@),
            final(self).dmc_dma == old(self).dmc_dma,
            final(self).nmi_detected == old(self).nmi_detected,
            final(self).prev_nmi == old(self).prev_nmi,
    {
        {
            match self.subcycle {
                1 => {
                    self.temp = self.memory_cycle_read(self.pc.wrapping_add(1),
                        bus,
                        cpu_peripherals,
                    );
                    {
                        self.copy_debugger(hex8_text("ADC ($", self.temp, "),Y"));
                        self.done_fetching = true;
                    }
                    self.subcycle = 2;
                }
                2 => {
                    self.temp2 =
                    self.memory_cycle_read(self.temp as u16, bus, cpu_peripherals);
                    self.subcycle = 3;
                }
                3 => {
                    self.temp = self.memory_cycle_read(self.temp.wrapping_add(1) as u16,
                        bus,
                        cpu_peripherals,
                    );
                    self.subcycle = 4;
                }
                4 => {
                    let mut addr = (self.temp as u16) << 8 | (self.temp2 as u16);
                    let (val, overflow) = overflowing_add(self.temp2, self.y);
                    if !overflow {
                        addr = addr.wrapping_add(self.y as u16);
                        self.temp = self.memory_cycle_read(addr, bus, cpu_peripherals);
                        self.cpu_adc(self.temp);
                        self.pc = self.pc.wrapping_add(2);
                        self.end_instruction();
                    } else {
                        self.memory_cycle_read((self.temp as u16) << 8 | val as u16,
                            bus,
                            cpu_peripherals,
                        );
                        self.subcycle = 5;
                    }
                }
                _ => {
                    let mut addr = (self.temp as u16) << 8 | (self.temp2 as u16);
                    addr = addr.wrapping_add(self.y as u16);
                    self.temp = self.memory_cycle_read(addr, bus, cpu_peripherals);
                    self.cpu_adc(self.temp);
                    self.pc = self.pc.wrapping_add(2);
                    self.end_instruction();
                }
            }
        }
        proof {
            super::lemma_word(old(self).temp2, old(self).temp);
            super::lemma_word(((old(self).temp2 as int + old(self).y as int) % 256) as u8, old(self).temp);
        }
    }

    /// sbc immediate, subtract with carry
    #[verifier::rlimit(100)]
    #[verifier::spinoff_prover]
    pub(crate) fn op_e9<C: CartridgeDevice, K: ControllerDevice, P: PpuDevice, A: ApuDevice>(
        &mut self,
        bus: &mut NesMotherboard<C, K>,
        cpu_peripherals: &mut NesCpuPeripherals<P, A>,
    )
        requires
            old(self).inv(),
            !old(self).reset,
            old(self).opcode is Some,
            !old(self).bus_used@,
        ensures
            final(self).inv(),
            !final(self).reset,
            step_e9(*old(self), *final(self)),
            final(self).opcode == old(self).opcode || super::finished(*final(self)),
            super::ram_effect(old(bus).spec_ram(), final(bus).spec_ram(), final(self).bus_used@, final(self).last_bus@),
            super::bus_effect(*old(bus), *old(cpu_peripherals), *final(bus), *final(cpu_peripherals), final(self).bus_used@, final(self).last_bus@),
            final(self).dmc_dma == old(self).dmc_dma,
            final(self).nmi_detected == old(self).nmi_detected,
            final(self).prev_nmi == old(self).prev_nmi,
    {
        {
            self.temp = self.memory_cycle_read(self.pc.wrapping_add(1),
                bus,
                cpu_peripherals,
            );
            {
                self.copy_debugger(hex8_text("SBC #$", self.temp, ""));
                self.done_fetching = true;
            }
            self.cpu_sbc(self.temp);
            self.pc = self.pc.wrapping_add(2);
            self.end_instruction();
        }
    }

    /// sbc zero page
    #[verifier::rlimit(100)]
    #[verifier::spinoff_prover]
    pub(crate) fn op_e5<C: CartridgeDevice, K: ControllerDevice, P: PpuDevice, A: ApuDevice>(
        &mut self,
        bus: &mut NesMotherboard<C, K>,
        cpu_peripherals: &mut NesCpuPeripherals<P, A>,
    )
        requires
            old(self).inv(),
            !old(self).reset,
            old(self).opcode == Some(0xe5u8),
            !old(self).bus_used@,
        ensures
            final(self).inv(),
            !final(self).reset,
            step_e5(*old(self), *final(self)),
            final(self).opcode == old(self).opcode || super::finished(*final(self)),
            super::ram_effect(old(bus).spec_ram(), final(bus).spec_ram(), final(self).bus_used@, final(self).last_bus@),
            super::bus_effect(*old(bus), *old(cpu_peripherals), *final(bus), *final(cpu_peripherals), final(self).bus_used@, final(self).last_bus@),
            final(self).dmc_dma == old(self).dmc_dma,
            final(self).nmi_detected == old(self).nmi_detected,
            final(self).prev_nmi == old(self).prev_nmi,
    {
        {
            match self.subcycle {
                1 => {
                    self.subcycle = 2;
                    self.temp = self.memory_cycle_read(self.pc.wrapping_add(1),
                        bus,
                        cpu_peripherals,
                    );
                    {
                        self.copy_debugger(hex8_text("SBC $", self.temp, ""));
                        self.done_fetching = true;
                    }
                }
                _ => {
                    self.temp =
                    self.memory_cycle_read(self.temp as u16, bus, cpu_peripherals);
                    self.cpu_sbc(self.temp);
                    self.pc = self.pc.wrapping_add(2);
                    self.end_instruction();
                }
            }
        }
    }

    /// sbc zero page x
    #[verifier::rlimit(100)]
    #[verifier::spinoff_prover]
    pub(crate) fn op_f5<C: CartridgeDevice, K: ControllerDevice, P: PpuDevice, A: ApuDevice>(
        &mut self,
        bus: &mut NesMotherboard<C, K>,
        cpu_peripherals: &mut NesCpuPeripherals<P, A>,
    )
        requires
            old(self).inv(),
            !old(self).reset,
            old(self).opcode == Some(0xf5u8),
            !old(self).bus_used@,
        ensures
            final(self).inv(),
            !final(self).reset,
            step_f5(*old(self), *final(self)),
            final(self).opcode == old(self).opcode || super::finished(*final(self)),
            super::ram_effect(old(bus).spec_ram(), final(bus).spec_ram(), final(self).bus_used@, final(self).last_bus@),
            super::bus_effect(*old(bus), *old(cpu_peripherals), *final(bus), *final(cpu_peripherals), final(self).bus_used@, final(self).last_bus@),
            final(self).dmc_dma == old(self).dmc_dma,
            final(self).nmi_detected == old(self).nmi_detected,
            final(self).prev_nmi == old(self).prev_nmi,
    {
        {
            match self.subcycle {
                1 => {
                    self.subcycle = 2;
                    self.temp = self.memory_cycle_read(self.pc.wrapping_add(1),
                        bus,
                        cpu_peripherals,
                    );
                    {
                        self.copy_debugger(hex8_text("SBC $", self.temp, ",X"));
                        self.done_fetching = true;
                    }
                }
                2 => {
                    self.memory_cycle_read(self.temp as u16, bus, cpu_peripherals);
                    self.subcycle = 3;
                }
                _ => {
                    self.temp = self.memory_cycle_read(self.temp.wrapping_add(self.x) as u16,
                        bus,
                        cpu_peripherals,
                    );
                    self.cpu_sbc(self.temp);
                    self.pc = self.pc.wrapping_add(2);
                    self.end_instruction();
                }
            }
        }
    }

    /// sbc absolute
    #[verifier::rlimit(100)]
    #[verifier::spinoff_prover]
    pub(crate) fn op_ed<C: CartridgeDevice, K: ControllerDevice, P: PpuDevice, A: ApuDevice>(
        &mut self,
        bus: &mut NesMotherboard<C, K>,
        cpu_peripherals: &mut NesCpuPeripherals<P, A>,
    )
        requires
            old(self).inv(),
            !old(self).reset,
            old(self).opcode == Some(0xedu8),
            !old(self).bus_used@,
        ensures
            final(self).inv(),
            !final(self).reset,
            step_ed(*old(self), *final(self)),
            final(self).opcode == old(self).opcode || super::finished(*final(self)),
            super::ram_effect(old(bus).spec_ram(), final(bus).spec_ram(), final(self).bus_used@, final(self).last_bus@),
            super::bus_effect(*old(bus), *old(cpu_peripherals), *final(bus), *final(cpu_peripherals), final(self).bus_used@, final(self).last_bus@),
            final(self).dmc_dma == old(self).dmc_dma,
            final(self).nmi_detected == old(self).nmi_detected,
            final(self).prev_nmi == old(self).prev_nmi,
    {
        {
            match self.subcycle {
                1 => {
                    self.temp = self.memory_cycle_read(self.pc.wrapping_add(1),
                        bus,
                        cpu_peripherals,
                    );
                    self.subcycle = 2;
                }
                2 => {
                    self.temp2 = self.memory_cycle_read(self.pc.wrapping_add(2),
                        bus,
                        cpu_peripherals,
                    );
                    {
                        let temp = (self.temp2 as u16) << 8 | self.temp as u16;
                        self.copy_debugger(hex16_text("SBC $", temp, ""));
                        self.done_fetching = true;
                    }
                    proof {
                        super::lemma_word(self.temp, self.temp2);
                    }
                    self.subcycle = 3;
                }
                _ => {
                    let temp = (self.temp2 as u16) << 8 | self.temp as u16;
                    self.temp = self.memory_cycle_read(temp, bus, cpu_peripherals);
                    self.cpu_sbc(self.temp);
                    self.pc = self.pc.wrapping_add(3);
                    self.end_instruction();
                }
            }
        }
        proof {
            super::lemma_word(old(self).temp, old(self).temp2);
        }
    }

    /// sbc absolute x
    #[verifier::rlimit(100)]
    #[verifier::spinoff_prover]
    pub(crate) fn op_fd<C: CartridgeDevice, K: ControllerDevice, P: PpuDevice, A: ApuDevice>(
        &mut self,
        bus: &mut NesMotherboard<C, K>,
        cpu_peripherals: &mut NesCpuPeripherals<P, A>,
    )
        requires
            old(self).inv(),
            !old(self).reset,
            old(self).opcode == Some(0xfdu8),
            !old(self).bus_used@,
        ensures
            final(self).inv(),
            !final(self).reset,
            step_fd(*old(self), *final(self)),
            final(self).opcode == old(self).opcode || super::finished(*final(self)),
            super::ram_effect(old(bus).spec_ram(), final(bus).spec_ram(), final(self).bus_used@, final(self).last_bus@),
            super::bus_effect(*old(bus), *old(cpu_peripherals), *final(bus), *final(cpu_peripherals), final(self).bus_used@, final(self).last_bus@),
            final(self).dmc_dma == old(self).dmc_dma,
            final(self).nmi_detected == old(self).nmi_detected,
            final(self).prev_nmi == old(self).prev_nmi,
    {
        {
            match self.subcycle {
                1 => {
                    self.temp = self.memory_cycle_read(self.pc.wrapping_add(1),
                        bus,
                        cpu_peripherals,
                    );
                    self.subcycle = 2;
                }
                2 => {
                    self.temp2 = self.memory_cycle_read(self.pc.wrapping_add(2),
                        bus,
                        cpu_peripherals,
                    );
                    {
                        let temp = (self.temp2 as u16) << 8 | self.temp as u16;
                        self.copy_debugger(hex16_text("SBC $", temp, ",X"));
                        self.done_fetching = true;
                    }
                    proof {
                        super::lemma_word(self.temp, self.temp2);
                    }
                    self.subcycle = 3;
                }
                3 => {
                    let mut addr = (self.temp2 as u16) << 8 | (self.temp as u16);
                    let (val, overflow) = overflowing_add(self.temp, self.x);
                    if !overflow {
                        addr = addr.wrapping_add(self.x as u16);
                        self.temp = self.memory_cycle_read(addr, bus, cpu_peripherals);
                        self.cpu_sbc(self.temp);
                        self.pc = self.pc.wrapping_add(3);
                        self.end_instruction();
                    } else {
                        self.memory_cycle_read((self.temp2 as u16) << 8 | val as u16,
                            bus,
                            cpu_peripherals,
                        );
                        self.subcycle = 4;
                    }
                }
                _ => {
                    let mut addr = (self.temp2 as u16) << 8 | (self.temp as u16);
                    addr = addr.wrapping_add(self.x as u16);
                    self.temp = self.memory_cycle_read(addr, bus, cpu_peripherals);
                    self.cpu_sbc(self.temp);

                    self.pc = self.pc.wrapping_add(3);
                    self.end_instruction();
                }
            }
        }
        proof {
            super::lemma_word(old(self).temp, old(self).temp2);
            super::lemma_word(((old(self).temp as int + old(self).x as int) % 256) as u8, old(self).temp2);
        }
    }

    /// sbc absolute y
    #[verifier::rlimit(100)]
    #[verifier::spinoff_prover]
    pub(crate) fn op_f9<C: CartridgeDevice, K: ControllerDevice, P: PpuDevice, A: ApuDevice>(
        &mut self,
        bus: &mut NesMotherboard<C, K>,
        cpu_peripherals: &mut NesCpuPeripherals<P, A>,
    )
        requires
            old(self).inv(),
            !old(self).reset,
            old(self).opcode == Some(0xf9u8),
            !old(self).bus_used@,
        ensures
            final(self).inv(),
            !final(self).reset,
            step_f9(*old(self), *final(self)),
            final(self).opcode == old(self).opcode || super::finished(*final(self)),
            super::ram_effect(old(bus).spec_ram(), final(bus).spec_ram(), final(self).bus_used@, final(self).last_bus@),
            super::bus_effect(*old(bus), *old(cpu_peripherals), *final(bus), *final(cpu_peripherals), final(self).bus_used@, final(self).last_bus@),
            final(self).dmc_dma == old(self).dmc_dma,
            final(self).nmi_detected == old(self).nmi_detected,
            final(self).prev_nmi == old(self).prev_nmi,
    {
        {
            match self.subcycle {
                1 => {
                    self.temp = self.memory_cycle_read(self.pc.wrapping_add(1),
                        bus,
                        cpu_peripherals,
                    );
                    self.subcycle = 2;
                }
                2 => {
                    self.temp2 = self.memory_cycle_read(self.pc.wrapping_add(2),
                        bus,
                        cpu_peripherals,
                    );
                    {
                        let temp = (self.temp2 as u16) << 8 | self.temp as u16;
                        self.copy_debugger(hex16_text("SBC $", temp, ",Y"));
                        self.done_fetching = true;
                    }
                    proof {
                        super::lemma_word(self.temp, self.temp2);
                    }
                    self.subcycle = 3;
                }
                3 => {
                    let mut addr = (self.temp2 as u16) << 8 | (self.temp as u16);
                    let (val, overflow) = overflowing_add(self.temp, self.y);
                    if !overflow {
                        addr = addr.wrapping_add(self.y as u16);
                        self.temp = self.memory_cycle_read(addr, bus, cpu_peripherals);
                        self.cpu_sbc(self.temp);
                        self.pc = self.pc.wrapping_add(3);
                        self.end_instruction();
                    } else {
                        self.memory_cycle_read((self.temp2 as u16) << 8 | val as u16,
                            bus,
                            cpu_peripherals,
                        );
                        self.subcycle = 4;
                    }
                }
                _ => {
                    let mut addr = (self.temp2 as u16) << 8 | (self.temp as u16);
                    addr = addr.wrapping_add(self.y as u16);
                    self.temp = self.memory_cycle_read(addr, bus, cpu_peripherals);
                    self.cpu_sbc(self.temp);

                    self.pc = self.pc.wrapping_add(3);
                    self.end_instruction();
                }
            }
        }
        proof {
            super::lemma_word(old(self).temp, old(self).temp2);
            super::lemma_word(((old(self).temp as int + old(self).y as int) % 256) as u8, old(self).temp2);
        }
    }

    /// sbc indirect x
    #[verifier::rlimit(100)]
    #[verifier::spinoff_prover]
    pub(crate) fn op_e1<C: CartridgeDevice, K: ControllerDevice, P: PpuDevice, A: ApuDevice>(
        &mut self,
        bus: &mut NesMotherboard<C, K>,
        cpu_peripherals: &mut NesCpuPeripherals<P, A>,
    )
        requires
            old(self).inv(),
            !old(self).reset,
            old(self).opcode == Some(0xe1u8),
            !old(self).bus_used@,
        ensures
            final(self).inv(),
            !final(self).reset,
            step_e1(*old(self), *final(self)),
            final(self).opcode == old(self).opcode || super::finished(*final(self)),
            super::ram_effect(old(bus).spec_ram(), final(bus).spec_ram(), final(self).bus_used@, final(self).last_bus@),
            super::bus_effect(*old(bus), *old(cpu_peripherals), *final(bus), *final(cpu_peripherals), final(self).bus_used@, final(self).last_bus@),
            final(self).dmc_dma == old(self).dmc_dma,
            final(self).nmi_detected == old(self).nmi_detected,
            final(self).prev_nmi == old(self).prev_nmi,
    {
        {
            match self.subcycle {
                1 => {
                    self.temp = self.memory_cycle_read(self.pc.wrapping_add(1),
                        bus,
                        cpu_peripherals,
                    );
                    {
                        self.copy_debugger(hex8_text("SBC ($", self.temp, ",X)"));
                        self.done_fetching = true;
                    }
                    self.subcycle = 2;
                }
                2 => {
                    self.temp = self.temp.wrapping_add(self.x);
                    self.temp2 =
                    self.memory_cycle_read(self.temp as u16, bus, cpu_peripherals);
                    self.subcycle = 3;
                }
                3 => {
                    self.memory_cycle_read(self.temp as u16, bus, cpu_peripherals);
                    self.subcycle = 4;
                }
                4 => {
                    self.temp = self.memory_cycle_read(self.temp.wrapping_add(1) as u16,
                        bus,
                        cpu_peripherals,
                    );
                    self.subcycle = 5;
                }
                _ => {
                    let addr = (self.temp as u16) << 8 | (self.temp2 as u16);
                    self.temp = self.memory_cycle_read(addr, bus, cpu_peripherals);
                    self.cpu_sbc(self.temp);
                    self.pc = self.pc.wrapping_add(2);
                    self.end_instruction();
                }
            }
        }
        proof {
            super::lemma_word(old(self).temp2, old(self).temp);
            super::lemma_word(((old(self).temp2 as int + old(self).y as int) % 256) as u8, old(self).temp);
        }
    }

    /// sbc indirect y
    #[verifier::rlimit(100)]
    #[verifier::spinoff_prover]
    pub(crate) fn op_f1<C: CartridgeDevice, K: ControllerDevice, P: PpuDevice, A: ApuDevice>(
        &mut self,
        bus: &mut NesMotherboard<C, K>,
        cpu_peripherals: &mut NesCpuPeripherals<P, A>,
    )
        requires
            old(self).inv(),
            !old(self).reset,
            old(self).opcode == Some(0xf1u8),
            !old(self).bus_used@,
        ensures
            final(self).inv(),
            !final(self).reset,
            step_f1(*old(self), *final(self)),
            final(self).opcode == old(self).opcode || super::finished(*final(self)),
            super::ram_effect(old(bus).spec_ram(), final(bus).spec_ram(), final(self).bus_used@, final(self).last_bus@),
            super::bus_effect(*old(bus), *old(cpu_peripherals), *final(bus), *final(cpu_peripherals), final(self).bus_used@, final(self).last_bus@),
            final(self).dmc_dma == old(self).dmc_dma,
            final(self).nmi_detected == old(self).nmi_detected,
            final(self).prev_nmi == old(self).prev_nmi,
    {
        {
            match self.subcycle {
                1 => {
                    self.temp = self.memory_cycle_read(self.pc.wrapping_add(1),
                        bus,
                        cpu_peripherals,
                    );
                    {
                        self.copy_debugger(hex8_text("SBC ($", self.temp, "),Y"));
                        self.done_fetching = true;
                    }
                    self.subcycle = 2;
                }
                2 => {
                    self.temp2 =
                    self.memory_cycle_read(self.temp as u16, bus, cpu_peripherals);
                    self.subcycle = 3;
                }
                3 => {
                    self.temp = self.memory_cycle_read(self.temp.wrapping_add(1) as u16,
                        bus,
                        cpu_peripherals,
                    );
                    self.subcycle = 4;
                }
                4 => {
                    let mut addr = (self.temp as u16) << 8 | (self.temp2 as u16);
                    let (val, overflow) = overflowing_add(self.temp2, self.y);
                    if !overflow {
                        addr = addr.wrapping_add(self.y as u16);
                        self.temp = self.memory_cycle_read(addr, bus, cpu_peripherals);
                        self.cpu_sbc(self.temp);
                        self.pc = self.pc.wrapping_add(2);
                        self.end_instruction();
                    } else {
                        self.memory_cycle_read((self.temp as u16) << 8 | val as u16,
                            bus,
                            cpu_peripherals,
                        );
                        self.subcycle = 5;
                    }
                }
                _ => {
                    let mut addr = (self.temp as u16) << 8 | (self.temp2 as u16);
                    addr = addr.wrapping_add(self.y as u16);
                    self.temp = self.memory_cycle_read(addr, bus, cpu_peripherals);
                    self.cpu_sbc(self.temp);
                    self.pc = self.pc.wrapping_add(2);
                    self.end_instruction();
                }
            }
        }
        proof {
            super::lemma_word(old(self).temp2, old(self).temp);
            super::lemma_word(((old(self).temp2 as int + old(self).y as int) % 256) as u8, old(self).temp);
        }
    }

    /// bit zero page
    #[verifier::rlimit(100)]
    #[verifier::spinoff_prover]
    pub(crate) fn op_24<C: CartridgeDevice, K: ControllerDevice, P: PpuDevice, A: ApuDevice>(
        &mut self,
        bus: &mut NesMotherboard<C, K>,
        cpu_peripherals: &mut NesCpuPeripherals<P, A>,
    )
        requires
            old(self).inv(),
            !old(self).reset,
            old(self).opcode == Some(0x24u8),
            !old(self).bus_used@,
        ensures
            final(self).inv(),
            !final(self).reset,
            step_24(*old(self), *final(self)),
            final(self).opcode == old(self).opcode || super::finished(*final(self)),
            super::ram_effect(old(bus).spec_ram(), final(bus).spec_ram(), final(self).bus_used@, final(self).last_bus@),
            super::bus_effect(*old(bus), *old(cpu_peripherals), *final(bus), *final(cpu_peripherals), final(self).bus_used@, final(self).last_bus@),
            final(self).dmc_dma == old(self).dmc_dma,
            final(self).nmi_detected == old(self).nmi_detected,
            final(self).prev_nmi == old(self).prev_nmi,
    {
        {
            match self.subcycle {
                1 => {
                    self.temp = self.memory_cycle_read(self.pc.wrapping_add(1),
                        bus,
                        cpu_peripherals,
                    );
                    {
                        self.copy_debugger(hex8_text("BIT $", self.temp, ""));
                        self.done_fetching = true;
                    }
                    self.subcycle = 2;
                }
                _ => {
                    self.temp =
                    self.memory_cycle_read(self.temp as u16, bus, cpu_peripherals);
                    self.p &= !(CPU_FLAG_OVERFLOW | CPU_FLAG_NEGATIVE);
                    self.p |= self.temp & (CPU_FLAG_OVERFLOW | CPU_FLAG_NEGATIVE);
                    self.temp &= self.a;
                    self.p &= !CPU_FLAG_ZERO;
                    if self.temp == 0 {
                        self.p |= CPU_FLAG_ZERO;
                    }
                    self.pc = self.pc.wrapping_add(2);
                    self.end_instruction();
                }
            }
        }
        proof {
            super::lemma_bit_flags(old(self).p, old(self).a, self.last_bus@.data);
        }
    }

    /// bit absolute
    #[verifier::rlimit(100)]
    #[verifier::spinoff_prover]
    pub(crate) fn op_2c<C: CartridgeDevice, K: ControllerDevice, P: PpuDevice, A: ApuDevice>(
        &mut self,
        bus: &mut NesMotherboard<C, K>,
        cpu_peripherals: &mut NesCpuPeripherals<P, A>,
    )
        requires
            old(self).inv(),
            !old(self).reset,
            old(self).opcode == Some(0x2cu8),
            !old(self).bus_used@,
        ensures
            final(self).inv(),
            !final(self).reset,
            step_2c(*old(self), *final(self)),
            final(self).opcode == old(self).opcode || super::finished(*final(self)),
            super::ram_effect(old(bus).spec_ram(), final(bus).spec_ram(), final(self).bus_used@, final(self).last_bus@),
            super::bus_effect(*old(bus), *old(cpu_peripherals), *final(bus), *final(cpu_peripherals), final(self).bus_used@, final(self).last_bus@),
            final(self).dmc_dma == old(self).dmc_dma,
            final(self).nmi_detected == old(self).nmi_detected,
            final(self).prev_nmi == old(self).prev_nmi,
    {
        {
            match self.subcycle {
                1 => {
                    self.temp = self.memory_cycle_read(self.pc.wrapping_add(1),
                        bus,
                        cpu_peripherals,
                    );
                    self.subcycle = 2;
                }
                2 => {
                    self.temp2 = self.memory_cycle_read(self.pc.wrapping_add(2),
                        bus,
                        cpu_peripherals,
                    );
                    {
                        let temp = (self.temp2 as u16) << 8 | self.temp as u16;
                        self.copy_debugger(hex16_text("BIT $", temp, ""));
                        self.done_fetching = true;
                    }
                    proof {
                        super::lemma_word(self.temp, self.temp2);
                    }
                    self.subcycle = 3;
                }
                _ => {
                    let temp = (self.temp2 as u16) << 8 | self.temp as u16;
                    self.temp = self.memory_cycle_read(temp, bus, cpu_peripherals);
                    self.p &= !(CPU_FLAG_OVERFLOW | CPU_FLAG_NEGATIVE);
                    self.p |= self.temp & (CPU_FLAG_OVERFLOW | CPU_FLAG_NEGATIVE);
                    self.temp &= self.a;
                    self.p &= !CPU_FLAG_ZERO;
                    if self.temp == 0 {
                        self.p |= CPU_FLAG_ZERO;
                    }
                    self.pc = self.pc.wrapping_add(3);
                    self.end_instruction();
                }
            }
        }
        proof {
            super::lemma_word(old(self).temp, old(self).temp2);
            super::lemma_bit_flags(old(self).p, old(self).a, self.last_bus@.data);
        }
    }

    /// cmp, compare immediate
    #[verifier::rlimit(100)]
    #[verifier::spinoff_prover]
    pub(crate) fn op_c9<C: CartridgeDevice, K: ControllerDevice, P: PpuDevice, A: ApuDevice>(
        &mut self,
        bus: &mut NesMotherboard<C, K>,
        cpu_peripherals: &mut NesCpuPeripherals<P, A>,
    )
        requires
            old(self).inv(),
            !old(self).reset,
            old(self).opcode == Some(0xc9u8),
            !old(self).bus_used@,
        ensures
            final(self).inv(),
            !final(self).reset,
            step_c9(*old(self), *final(self)),
            final(self).opcode == old(self).opcode || super::finished(*final(self)),
            super::ram_effect(old(bus).spec_ram(), final(bus).spec_ram(), final(self).bus_used@, final(self).last_bus@),
            super::bus_effect(*old(bus), *old(cpu_peripherals), *final(bus), *final(cpu_peripherals), final(self).bus_used@, final(self).last_bus@),
            final(self).dmc_dma == old(self).dmc_dma,
            final(self).nmi_detected == old(self).nmi_detected,
            final(self).prev_nmi == old(self).prev_nmi,
    {
        {
            self.temp = self.memory_cycle_read(self.pc.wrapping_add(1),
                bus,
                cpu_peripherals,
            );
            {
                self.copy_debugger(hex8_text("CMP #$", self.temp, ""));
                self.done_fetching = true;
            }
            self.p &= !(CPU_FLAG_ZERO | CPU_FLAG_CARRY | CPU_FLAG_NEGATIVE);
            if self.a == self.temp {
                self.p |= CPU_FLAG_ZERO;
            }
            if self.a >= self.temp {
                self.p |= CPU_FLAG_CARRY;
            }
            if ((self.a.wrapping_sub(self.temp)) & 0x80) != 0 {
                self.p |= CPU_FLAG_NEGATIVE;
            }
            self.pc = self.pc.wrapping_add(2);
            self.end_instruction();
        }
        proof {
            super::lemma_compare_flags(old(self).p, old(self).a, self.last_bus@.data);
        }
    }

    /// cmp zero page
    #[verifier::rlimit(100)]
    #[verifier::spinoff_prover]
    pub(crate) fn op_c5<C: CartridgeDevice, K: ControllerDevice, P: PpuDevice, A: ApuDevice>(
        &mut self,
        bus: &mut NesMotherboard<C, K>,
        cpu_peripherals: &mut NesCpuPeripherals<P, A>,
    )
        requires
            old(self).inv(),
            !old(self).reset,
            old(self).opcode == Some(0xc5u8),
            !old(self).bus_used@,
        ensures
            final(self).inv(),
            !final(self).reset,
            step_c5(*old(self), *final(self)),
            final(self).opcode == old(self).opcode || super::finished(*final(self)),
            super::ram_effect(old(bus).spec_ram(), final(bus).spec_ram(), final(self).bus_used@, final(self).last_bus@),
            super::bus_effect(*old(bus), *old(cpu_peripherals), *final(bus), *final(cpu_peripherals), final(self).bus_used@, final(self).last_bus@),
            final(self).dmc_dma == old(self).dmc_dma,
            final(self).nmi_detected == old(self).nmi_detected,
            final(self).prev_nmi == old(self).prev_nmi,
    {
        {
            match self.subcycle {
                1 => {
                    self.subcycle = 2;
                    self.temp = self.memory_cycle_read(self.pc.wrapping_add(1),
                        bus,
                        cpu_peripherals,
                    );
                    {
                        self.copy_debugger(hex8_text("CMP $", self.temp, ""));
                        self.done_fetching = true;
                    }
                }
                _ => {
                    self.temp =
                    self.memory_cycle_read(self.temp as u16, bus, cpu_peripherals);
                    self.p &= !(CPU_FLAG_ZERO | CPU_FLAG_CARRY | CPU_FLAG_NEGATIVE);
                    if self.a == self.temp {
                        self.p |= CPU_FLAG_ZERO;
                    }
                    if self.a >= self.temp {
                        self.p |= CPU_FLAG_CARRY;
                    }
                    if ((self.a.wrapping_sub(self.temp)) & 0x80) != 0 {
                        self.p |= CPU_FLAG_NEGATIVE;
                    }
                    self.pc = self.pc.wrapping_add(2);
                    self.end_instruction();
                }
            }
        }
        proof {
            super::lemma_compare_flags(old(self).p, old(self).a, self.last_bus@.data);
        }
    }

    /// cmp zero page x
    #[verifier::rlimit(100)]
    #[verifier::spinoff_prover]
    pub(crate) fn op_d5<C: CartridgeDevice, K: ControllerDevice, P: PpuDevice, A: ApuDevice>(
        &mut self,
        bus: &mut NesMotherboard<C, K>,
        cpu_peripherals: &mut NesCpuPeripherals<P, A>,
    )
        requires
            old(self).inv(),
            !old(self).reset,
            old(self).opcode == Some(0xd5u8),
            !old(self).bus_used@,
        ensures
            final(self).inv(),
            !final(self).reset,
            step_d5(*old(self), *final(self)),
            final(self).opcode == old(self).opcode || super::finished(*final(self)),
            super::ram_effect(old(bus).spec_ram(), final(bus).spec_ram(), final(self).bus_used@, final(self).last_bus@),
            super::bus_effect(*old(bus), *old(cpu_peripherals), *final(bus), *final(cpu_peripherals), final(self).bus_used@, final(self).last_bus@),
            final(self).dmc_dma == old(self).dmc_dma,
            final(self).nmi_detected == old(self).nmi_detected,
            final(self).prev_nmi == old(self).prev_nmi,
    {
        {
            match self.subcycle {
                1 => {
                    self.subcycle = 2;
                    self.temp = self.memory_cycle_read(self.pc.wrapping_add(1),
                        bus,
                        cpu_peripherals,
                    );
                    {
                        self.copy_debugger(hex8_text("CMP $", self.temp, ",X"));
                        self.done_fetching = true;
                    }
                }
                2 => {
                    self.memory_cycle_read(self.temp as u16, bus, cpu_peripherals);
                    self.subcycle = 3;
                }
                _ => {
                    self.temp = self.memory_cycle_read(self.temp.wrapping_add(self.x) as u16,
                        bus,
                        cpu_peripherals,
                    );
                    self.p &= !(CPU_FLAG_ZERO | CPU_FLAG_CARRY | CPU_FLAG_NEGATIVE);
                    if self.a == self.temp {
                        self.p |= CPU_FLAG_ZERO;
                    }
                    if self.a >= self.temp {
                        self.p |= CPU_FLAG_CARRY;
                    }
                    if ((self.a.wrapping_sub(self.temp)) & 0x80) != 0 {
                        self.p |= CPU_FLAG_NEGATIVE;
                    }
                    self.pc = self.pc.wrapping_add(2);
                    self.end_instruction();
                }
            }
        }
        proof {
            super::lemma_compare_flags(old(self).p, old(self).a, self.last_bus@.data);
        }
    }

    /// cmp absolute
    #[verifier::rlimit(100)]
    #[verifier::spinoff_prover]
    pub(crate) fn op_cd<C: CartridgeDevice, K: ControllerDevice, P: PpuDevice, A: ApuDevice>(
        &mut self,
        bus: &mut NesMotherboard<C, K>,
        cpu_peripherals: &mut NesCpuPeripherals<P, A>,
    )
        requires
            old(self).inv(),
            !old(self).reset,
            old(self).opcode == Some(0xcdu8),
            !old(self).bus_used@,
        ensures
            final(self).inv(),
            !final(self).reset,
            step_cd(*old(self), *final(self)),
            final(self).opcode == old(self).opcode || super::finished(*final(self)),
            super::ram_effect(old(bus).spec_ram(), final(bus).spec_ram(), final(self).bus_used@, final(self).last_bus@),
            super::bus_effect(*old(bus), *old(cpu_peripherals), *final(bus), *final(cpu_peripherals), final(self).bus_used@, final(self).last_bus@),
            final(self).dmc_dma == old(self).dmc_dma,
            final(self).nmi_detected == old(self).nmi_detected,
            final(self).prev_nmi == old(self).prev_nmi,
    {
        {
            match self.subcycle {
                1 => {
                    self.temp = self.memory_cycle_read(self.pc.wrapping_add(1),
                        bus,
                        cpu_peripherals,
                    );
                    self.subcycle = 2;
                }
                2 => {
                    self.temp2 = self.memory_cycle_read(self.pc.wrapping_add(2),
                        bus,
                        cpu_peripherals,
                    );
                    {
                        let temp = (self.temp2 as u16) << 8 | self.temp as u16;
                        self.copy_debugger(hex16_text("CMP $", temp, ""));
                        self.done_fetching = true;
                    }
                    proof {
                        super::lemma_word(self.temp, self.temp2);
                    }
                    self.subcycle = 3;
                }
                _ => {
                    let temp = (self.temp2 as u16) << 8 | self.temp as u16;
                    self.temp = self.memory_cycle_read(temp, bus, cpu_peripherals);
                    self.p &= !(CPU_FLAG_ZERO | CPU_FLAG_CARRY | CPU_FLAG_NEGATIVE);
                    if self.a == self.temp {
                        self.p |= CPU_FLAG_ZERO;
                    }
                    if self.a >= self.temp {
                        self.p |= CPU_FLAG_CARRY;
                    }
                    if ((self.a.wrapping_sub(self.temp)) & 0x80) != 0 {
                        self.p |= CPU_FLAG_NEGATIVE;
                    }
                    self.pc = self.pc.wrapping_add(3);
                    self.end_instruction();
                }
            }
        }
        proof {
            super::lemma_word(old(self).temp, old(self).temp2);
            super::lemma_compare_flags(old(self).p, old(self).a, self.last_bus@.data);
        }
    }

    /// cmp absolute x
    #[verifier::rlimit(100)]
    #[verifier::spinoff_prover]
    pub(crate) fn op_dd<C: CartridgeDevice, K: ControllerDevice, P: PpuDevice, A: ApuDevice>(
        &mut self,
        bus: &mut NesMotherboard<C, K>,
        cpu_peripherals: &mut NesCpuPeripherals<P, A>,
    )
        requires
            old(self).inv(),
            !old(self).reset,
            old(self).opcode == Some(0xddu8),
            !old(self).bus_used@,
        ensures
            final(self).inv(),
            !final(self).reset,
            step_dd(*old(self), *final(self)),
            final(self).opcode == old(self).opcode || super::finished(*final(self)),
            super::ram_effect(old(bus).spec_ram(), final(bus).spec_ram(), final(self).bus_used@, final(self).last_bus@),
            super::bus_effect(*old(bus), *old(cpu_peripherals), *final(bus), *final(cpu_peripherals), final(self).bus_used@, final(self).last_bus@),
            final(self).dmc_dma == old(self).dmc_dma,
            final(self).nmi_detected == old(self).nmi_detected,
            final(self).prev_nmi == old(self).prev_nmi,
    {
        {
            match self.subcycle {
                1 => {
                    self.temp = self.memory_cycle_read(self.pc.wrapping_add(1),
                        bus,
                        cpu_peripherals,
                    );
                    self.subcycle = 2;
                }
                2 => {
                    self.temp2 = self.memory_cycle_read(self.pc.wrapping_add(2),
                        bus,
                        cpu_peripherals,
                    );
                    {
                        let temp = (self.temp2 as u16) << 8 | self.temp as u16;
                        self.copy_debugger(hex16_text("CMP $", temp, ",X"));
                        self.done_fetching = true;
                    }
                    proof {
                        super::lemma_word(self.temp, self.temp2);
                    }
                    self.subcycle = 3;
                }
                3 => {
                    let mut addr = (self.temp2 as u16) << 8 | (self.temp as u16);
                    let (val, overflow) = overflowing_add(self.temp, self.x);
                    if !overflow {
                        addr = addr.wrapping_add(self.x as u16);
                        self.temp = self.memory_cycle_read(addr, bus, cpu_peripherals);
                        self.p &= !(CPU_FLAG_ZERO | CPU_FLAG_CARRY | CPU_FLAG_NEGATIVE);
                        if self.a == self.temp {
                            self.p |= CPU_FLAG_ZERO;
                        }
                        if self.a >= self.temp {
                            self.p |= CPU_FLAG_CARRY;
                        }
                        if ((self.a.wrapping_sub(self.temp)) & 0x80) != 0 {
                            self.p |= CPU_FLAG_NEGATIVE;
                        }

                        self.pc = self.pc.wrapping_add(3);
                        self.end_instruction();
                    } else {
                        self.memory_cycle_read((self.temp2 as u16) << 8 | val as u16,
                            bus,
                            cpu_peripherals,
                        );
                        self.subcycle = 4;
                    }
                }
                _ => {
                    let mut addr = (self.temp2 as u16) << 8 | (self.temp as u16);
                    addr = addr.wrapping_add(self.x as u16);
                    self.temp = self.memory_cycle_read(addr, bus, cpu_peripherals);
                    self.p &= !(CPU_FLAG_ZERO | CPU_FLAG_CARRY | CPU_FLAG_NEGATIVE);
                    if self.a == self.temp {
                        self.p |= CPU_FLAG_ZERO;
                    }
                    if self.a >= self.temp {
                        self.p |= CPU_FLAG_CARRY;
                    }
                    if ((self.a.wrapping_sub(self.temp)) & 0x80) != 0 {
                        self.p |= CPU_FLAG_NEGATIVE;
                    }

                    self.pc = self.pc.wrapping_add(3);
                    self.end_instruction();
                }
            }
        }
        proof {
            super::lemma_word(old(self).temp, old(self).temp2);
            super::lemma_word(((old(self).temp as int + old(self).x as int) % 256) as u8, old(self).temp2);
            super::lemma_compare_flags(old(self).p, old(self).a, self.last_bus@.data);
        }
    }

    /// cmp absolute y
    #[verifier::rlimit(100)]
    #[verifier::spinoff_prover]
    pub(crate) fn op_d9<C: CartridgeDevice, K: ControllerDevice, P: PpuDevice, A: ApuDevice>(
        &mut self,
        bus: &mut NesMotherboard<C, K>,
        cpu_peripherals: &mut NesCpuPeripherals<P, A>,
    )
        requires
            old(self).inv(),
            !old(self).reset,
            old(self).opcode == Some(0xd9u8),
            !old(self).bus_used@,
        ensures
            final(self).inv(),
            !final(self).reset,
            step_d9(*old(self), *final(self)),
            final(self).opcode == old(self).opcode || super::finished(*final(self)),
            super::ram_effect(old(bus).spec_ram(), final(bus).spec_ram(), final(self).bus_used@, final(self).last_bus@),
            super::bus_effect(*old(bus), *old(cpu_peripherals), *final(bus), *final(cpu_peripherals), final(self).bus_used@, final(self).last_bus@),
            final(self).dmc_dma == old(self).dmc_dma,
            final(self).nmi_detected == old(self).nmi_detected,
            final(self).prev_nmi == old(self).prev_nmi,
    {
        {
            match self.subcycle {
                1 => {
                    self.temp = self.memory_cycle_read(self.pc.wrapping_add(1),
                        bus,
                        cpu_peripherals,
                    );
                    self.subcycle = 2;
                }
                2 => {
                    self.temp2 = self.memory_cycle_read(self.pc.wrapping_add(2),
                        bus,
                        cpu_peripherals,
                    );
                    {
                        let temp = (self.temp2 as u16) << 8 | self.temp as u16;
                        self.copy_debugger(hex16_text("CMP $", temp, ",Y"));
                        self.done_fetching = true;
                    }
                    proof {
                        super::lemma_word(self.temp, self.temp2);
                    }
                    self.subcycle = 3;
                }
                3 => {
                    let mut addr = (self.temp2 as u16) << 8 | (self.temp as u16);
                    let (val, overflow) = overflowing_add(self.temp, self.y);
                    if !overflow {
                        addr = addr.wrapping_add(self.y as u16);
                        self.temp = self.memory_cycle_read(addr, bus, cpu_peripherals);
                        self.p &= !(CPU_FLAG_ZERO | CPU_FLAG_CARRY | CPU_FLAG_NEGATIVE);
                        if self.a == self.temp {
                            self.p |= CPU_FLAG_ZERO;
                        }
                        if self.a >= self.temp {
                            self.p |= CPU_FLAG_CARRY;
                        }
                        if ((self.a.wrapping_sub(self.temp)) & 0x80) != 0 {
                            self.p |= CPU_FLAG_NEGATIVE;
                        }

                        self.pc = self.pc.wrapping_add(3);
                        self.end_instruction();
                    } else {
                        self.memory_cycle_read((self.temp2 as u16) << 8 | val as u16,
                            bus,
                            cpu_peripherals,
                        );
                        self.subcycle = 4;
                    }
                }
                _ => {
                    let mut addr = (self.temp2 as u16) << 8 | (self.temp as u16);
                    addr = addr.wrapping_add(self.y as u16);
                    self.temp = self.memory_cycle_read(addr, bus, cpu_peripherals);
                    self.p &= !(CPU_FLAG_ZERO | CPU_FLAG_CARRY | CPU_FLAG_NEGATIVE);
                    if self.a == self.temp {
                        self.p |= CPU_FLAG_ZERO;
                    }
                    if self.a >= self.temp {
                        self.p |= CPU_FLAG_CARRY;
                    }
                    if ((self.a.wrapping_sub(self.temp)) & 0x80) != 0 {
                        self.p |= CPU_FLAG_NEGATIVE;
                    }

                    self.pc = self.pc.wrapping_add(3);
                    self.end_instruction();
                }
            }
        }
        proof {
            super::lemma_word(old(self).temp, old(self).temp2);
            super::lemma_word(((old(self).temp as int + old(self).y as int) % 256) as u8, old(self).temp2);
            super::lemma_compare_flags(old(self).p, old(self).a, self.last_bus@.data);
        }
    }

    /// cmp indirect x
    #[verifier::rlimit(100)]
    #[verifier::spinoff_prover]
    pub(crate) fn op_c1<C: CartridgeDevice, K: ControllerDevice, P: PpuDevice, A: ApuDevice>(
        &mut self,
        bus: &mut NesMotherboard<C, K>,
        cpu_peripherals: &mut NesCpuPeripherals<P, A>,
    )
        requires
            old(self).inv(),
            !old(self).reset,
            old(self).opcode == Some(0xc1u8),
            !old(self).bus_used@,
        ensures
            final(self).inv(),
            !final(self).reset,
            step_c1(*old(self), *final(self)),
            final(self).opcode == old(self).opcode || super::finished(*final(self)),
            super::ram_effect(old(bus).spec_ram(), final(bus).spec_ram(), final(self).bus_used@, final(self).last_bus@),
            super::bus_effect(*old(bus), *old(cpu_peripherals), *final(bus), *final(cpu_peripherals), final(self).bus_used@, final(self).last_bus@),
            final(self).dmc_dma == old(self).dmc_dma,
            final(self).nmi_detected == old(self).nmi_detected,
            final(self).prev_nmi == old(self).prev_nmi,
    {
        {
            match self.subcycle {
                1 => {
                    self.temp = self.memory_cycle_read(self.pc.wrapping_add(1),
                        bus,
                        cpu_peripherals,
                    );
                    {
                        self.copy_debugger(hex8_text("CMP ($", self.temp, ",X)"));
                        self.done_fetching = true;
                    }
                    self.subcycle = 2;
                }
                2 => {
                    self.temp = self.temp.wrapping_add(self.x);
                    self.temp2 =
                    self.memory_cycle_read(self.temp as u16, bus, cpu_peripherals);
                    self.subcycle = 3;
                }
                3 => {
                    self.memory_cycle_read(self.temp as u16, bus, cpu_peripherals);
                    self.subcycle = 4;
                }
                4 => {
                    self.temp = self.memory_cycle_read(self.temp.wrapping_add(1) as u16,
                        bus,
                        cpu_peripherals,
                    );
                    self.subcycle = 5;
                }
                _ => {
                    let addr = (self.temp as u16) << 8 | (self.temp2 as u16);
                    self.temp = self.memory_cycle_read(addr, bus, cpu_peripherals);
                    self.p &= !(CPU_FLAG_ZERO | CPU_FLAG_CARRY | CPU_FLAG_NEGATIVE);
                    if self.a == self.temp {
                        self.p |= CPU_FLAG_ZERO;
                    }
                    if self.a >= self.temp {
                        self.p |= CPU_FLAG_CARRY;
                    }
                    if ((self.a.wrapping_sub(self.temp)) & 0x80) != 0 {
                        self.p |= CPU_FLAG_NEGATIVE;
                    }
                    self.pc = self.pc.wrapping_add(2);
                    self.end_instruction();
                }
            }
        }
        proof {
            super::lemma_word(old(self).temp2, old(self).temp);
            super::lemma_word(((old(self).temp2 as int + old(self).y as int) % 256) as u8, old(self).temp);
            super::lemma_compare_flags(old(self).p, old(self).a, self.last_bus@.data);
        }
    }

    /// cmp indirect y
    #[verifier::rlimit(100)]
    #[verifier::spinoff_prover]
    pub(crate) fn op_d1<C: CartridgeDevice, K: ControllerDevice, P: PpuDevice, A: ApuDevice>(
        &mut self,
        bus: &mut NesMotherboard<C, K>,
        cpu_peripherals: &mut NesCpuPeripherals<P, A>,
    )
        requires
            old(self).inv(),
            !old(self).reset,
            old(self).opcode == Some(0xd1u8),
            !old(self).bus_used@,
        ensures
            final(self).inv(),
            !final(self).reset,
            step_d1(*old(self), *final(self)),
            final(self).opcode == old(self).opcode || super::finished(*final(self)),
            super::ram_effect(old(bus).spec_ram(), final(bus).spec_ram(), final(self).bus_used@, final(self).last_bus@),
            super::bus_effect(*old(bus), *old(cpu_peripherals), *final(bus), *final(cpu_peripherals), final(self).bus_used@, final(self).last_bus@),
            final(self).dmc_dma == old(self).dmc_dma,
            final(self).nmi_detected == old(self).nmi_detected,
            final(self).prev_nmi == old(self).prev_nmi,
    {
        {
            match self.subcycle {
                1 => {
                    self.temp = self.memory_cycle_read(self.pc.wrapping_add(1),
                        bus,
                        cpu_peripherals,
                    );
                    {
                        self.copy_debugger(hex8_text("CMP ($", self.temp, "),Y"));
                        self.done_fetching = true;
                    }
                    self.subcycle = 2;
                }
                2 => {
                    self.temp2 =
                    self.memory_cycle_read(self.temp as u16, bus, cpu_peripherals);
                    self.subcycle = 3;
                }
                3 => {
                    self.temp = self.memory_cycle_read(self.temp.wrapping_add(1) as u16,
                        bus,
                        cpu_peripherals,
                    );
                    self.subcycle = 4;
                }
                4 => {
                    let mut addr = (self.temp as u16) << 8 | (self.temp2 as u16);
                    let (val, overflow) = overflowing_add(self.temp2, self.y);
                    if !overflow {
                        addr = addr.wrapping_add(self.y as u16);
                        self.temp = self.memory_cycle_read(addr, bus, cpu_peripherals);
                        self.p &= !(CPU_FLAG_ZERO | CPU_FLAG_CARRY | CPU_FLAG_NEGATIVE);
                        if self.a == self.temp {
                            self.p |= CPU_FLAG_ZERO;
                        }
                        if self.a >= self.temp {
                            self.p |= CPU_FLAG_CARRY;
                        }
                        if ((self.a.wrapping_sub(self.temp)) & 0x80) != 0 {
                            self.p |= CPU_FLAG_NEGATIVE;
                        }

                        self.pc = self.pc.wrapping_add(2);
                        self.end_instruction();
                    } else {
                        self.memory_cycle_read((self.temp as u16) << 8 | val as u16,
                            bus,
                            cpu_peripherals,
                        );
                        self.subcycle = 5;
                    }
                }
                _ => {
                    let mut addr = (self.temp as u16) << 8 | (self.temp2 as u16);
                    addr = addr.wrapping_add(self.y as u16);
                    self.temp = self.memory_cycle_read(addr, bus, cpu_peripherals);
                    self.p &= !(CPU_FLAG_ZERO | CPU_FLAG_CARRY | CPU_FLAG_NEGATIVE);
                    if self.a == self.temp {
                        self.p |= CPU_FLAG_ZERO;
                    }
                    if self.a >= self.temp {
                        self.p |= CPU_FLAG_CARRY;
                    }
                    if ((self.a.wrapping_sub(self.temp)) & 0x80) != 0 {
                        self.p |= CPU_FLAG_NEGATIVE;
                    }

                    self.pc = self.pc.wrapping_add(2);
                    self.end_instruction();
                }
            }
        }
        proof {
            super::lemma_word(old(self).temp2, old(self).temp);
            super::lemma_word(((old(self).temp2 as int + old(self).y as int) % 256) as u8, old(self).temp);
            super::lemma_compare_flags(old(self).p, old(self).a, self.last_bus@.data);
        }
    }

    /// cpy, compare y immediate
    #[verifier::rlimit(100)]
    #[verifier::spinoff_prover]
    pub(crate) fn op_c0<C: CartridgeDevice, K: ControllerDevice, P: PpuDevice, A: ApuDevice>(
        &mut self,
        bus: &mut NesMotherboard<C, K>,
        cpu_peripherals: &mut NesCpuPeripherals<P, A>,
    )
        requires
            old(self).inv(),
            !old(self).reset,
            old(self).opcode == Some(0xc0u8),
            !old(self).bus_used@,
        ensures
            final(self).inv(),
            !final(self).reset,
            step_c0(*old(self), *final(self)),
            final(self).opcode == old(self).opcode || super::finished(*final(self)),
            super::ram_effect(old(bus).spec_ram(), final(bus).spec_ram(), final(self).bus_used@, final(self).last_bus@),
            super::bus_effect(*old(bus), *old(cpu_peripherals), *final(bus), *final(cpu_peripherals), final(self).bus_used@, final(self).last_bus@),
            final(self).dmc_dma == old(self).dmc_dma,
            final(self).nmi_detected == old(self).nmi_detected,
            final(self).prev_nmi == old(self).prev_nmi,
    {
        {
            self.temp = self.memory_cycle_read(self.pc.wrapping_add(1),
                bus,
                cpu_peripherals,
            );
            {
                self.copy_debugger(hex8_text("CPY #$", self.temp, ""));
                self.done_fetching = true;
            }
            self.p &= !(CPU_FLAG_ZERO | CPU_FLAG_CARRY | CPU_FLAG_NEGATIVE);
            if self.y == self.temp {
                self.p |= CPU_FLAG_ZERO;
            }
            if self.y >= self.temp {
                self.p |= CPU_FLAG_CARRY;
            }
            if ((self.y.wrapping_sub(self.temp)) & 0x80) != 0 {
                self.p |= CPU_FLAG_NEGATIVE;
            }
            self.pc = self.pc.wrapping_add(2);
            self.end_instruction();
        }
        proof {
            super::lemma_compare_flags(old(self).p, old(self).y, self.last_bus@.data);
        }
    }

    /// cpy zero page
    #[verifier::rlimit(100)]
    #[verifier::spinoff_prover]
    pub(crate) fn op_c4<C: CartridgeDevice, K: ControllerDevice, P: PpuDevice, A: ApuDevice>(
        &mut self,
        bus: &mut NesMotherboard<C, K>,
        cpu_peripherals: &mut NesCpuPeripherals<P, A>,
    )
        requires
            old(self).inv(),
            !old(self).reset,
            old(self).opcode == Some(0xc4u8),
            !old(self).bus_used@,
        ensures
            final(self).inv(),
            !final(self).reset,
            step_c4(*old(self), *final(self)),
            final(self).opcode == old(self).opcode || super::finished(*final(self)),
            super::ram_effect(old(bus).spec_ram(), final(bus).spec_ram(), final(self).bus_used@, final(self).last_bus@),
            super::bus_effect(*old(bus), *old(cpu_peripherals), *final(bus), *final(cpu_peripherals), final(self).bus_used@, final(self).last_bus@),
            final(self).dmc_dma == old(self).dmc_dma,
            final(self).nmi_detected == old(self).nmi_detected,
            final(self).prev_nmi == old(self).prev_nmi,
    {
        {
            match self.subcycle {
                1 => {
                    self.subcycle = 2;
                    self.temp = self.memory_cycle_read(self.pc.wrapping_add(1),
                        bus,
                        cpu_peripherals,
                    );
                    {
                        self.copy_debugger(hex8_text("CPY $", self.temp, ""));
                        self.done_fetching = true;
                    }
                }
                _ => {
                    self.temp =
                    self.memory_cycle_read(self.temp as u16, bus, cpu_peripherals);
                    self.p &= !(CPU_FLAG_ZERO | CPU_FLAG_CARRY | CPU_FLAG_NEGATIVE);
                    if self.y == self.temp {
                        self.p |= CPU_FLAG_ZERO;
                    }
                    if self.y >= self.temp {
                        self.p |= CPU_FLAG_CARRY;
                    }
                    if ((self.y.wrapping_sub(self.temp)) & 0x80) != 0 {
                        self.p |= CPU_FLAG_NEGATIVE;
                    }
                    self.pc = self.pc.wrapping_add(2);
                    self.end_instruction();
                }
            }
        }
        proof {
            super::lemma_compare_flags(old(self).p, old(self).y, self.last_bus@.data);
        }
    }

    /// cpy absolute
    #[verifier::rlimit(100)]
    #[verifier::spinoff_prover]
    pub(crate) fn op_cc<C: CartridgeDevice, K: ControllerDevice, P: PpuDevice, A: ApuDevice>(
        &mut self,
        bus: &mut NesMotherboard<C, K>,
        cpu_peripherals: &mut NesCpuPeripherals<P, A>,
    )
        requires
            old(self).inv(),
            !old(self).reset,
            old(self).opcode == Some(0xccu8),
            !old(self).bus_used@,
        ensures
            final(self).inv(),
            !final(self).reset,
            step_cc(*old(self), *final(self)),
            final(self).opcode == old(self).opcode || super::finished(*final(self)),
            super::ram_effect(old(bus).spec_ram(), final(bus).spec_ram(), final(self).bus_used@, final(self).last_bus@),
            super::bus_effect(*old(bus), *old(cpu_peripherals), *final(bus), *final(cpu_peripherals), final(self).bus_used@, final(self).last_bus@),
            final(self).dmc_dma == old(self).dmc_dma,
            final(self).nmi_detected == old(self).nmi_detected,
            final(self).prev_nmi == old(self).prev_nmi,
    {
        {
            match self.subcycle {
                1 => {
                    self.temp = self.memory_cycle_read(self.pc.wrapping_add(1),
                        bus,
                        cpu_peripherals,
                    );
                    self.subcycle = 2;
                }
                2 => {
                    self.temp2 = self.memory_cycle_read(self.pc.wrapping_add(2),
                        bus,
                        cpu_peripherals,
                    );
                    {
                        let temp = (self.temp2 as u16) << 8 | self.temp as u16;
                        self.copy_debugger(hex16_text("CPY $", temp, ""));
                        self.done_fetching = true;
                    }
                    proof {
                        super::lemma_word(self.temp, self.temp2);
                    }
                    self.subcycle = 3;
                }
                _ => {
                    let temp = (self.temp2 as u16) << 8 | self.temp as u16;
                    self.temp = self.memory_cycle_read(temp, bus, cpu_peripherals);
                    self.p &= !(CPU_FLAG_ZERO | CPU_FLAG_CARRY | CPU_FLAG_NEGATIVE);
                    if self.y == self.temp {
                        self.p |= CPU_FLAG_ZERO;
                    }
                    if self.y >= self.temp {
                        self.p |= CPU_FLAG_CARRY;
                    }
                    if ((self.y.wrapping_sub(self.temp)) & 0x80) != 0 {
                        self.p |= CPU_FLAG_NEGATIVE;
                    }
                    self.pc = self.pc.wrapping_add(3);
                    self.end_instruction();
                }
            }
        }
        proof {
            super::lemma_word(old(self).temp, old(self).temp2);
            super::lemma_compare_flags(old(self).p, old(self).y, self.last_bus@.data);
        }
    }

    /// cpx, compare x immediate
    #[verifier::rlimit(100)]
    #[verifier::spinoff_prover]
    pub(crate) fn op_e0<C: CartridgeDevice, K: ControllerDevice, P: PpuDevice, A: ApuDevice>(
        &mut self,
        bus: &mut NesMotherboard<C, K>,
        cpu_peripherals: &mut NesCpuPeripherals<P, A>,
    )
        requires
            old(self).inv(),
            !old(self).reset,
            old(self).opcode == Some(0xe0u8),
            !old(self).bus_used@,
        ensures
            final(self).inv(),
            !final(self).reset,
            step_e0(*old(self), *final(self)),
            final(self).opcode == old(self).opcode || super::finished(*final(self)),
            super::ram_effect(old(bus).spec_ram(), final(bus).spec_ram(), final(self).bus_used@, final(self).last_bus@),
            super::bus_effect(*old(bus), *old(cpu_peripherals), *final(bus), *final(cpu_peripherals), final(self).bus_used@, final(self).last_bus@),
            final(self).dmc_dma == old(self).dmc_dma,
            final(self).nmi_detected == old(self).nmi_detected,
            final(self).prev_nmi == old(self).prev_nmi,
    {
        {
            self.temp = self.memory_cycle_read(self.pc.wrapping_add(1),
                bus,
                cpu_peripherals,
            );
            {
                self.copy_debugger(hex8_text("CPX #$", self.temp, ""));
                self.done_fetching = true;
            }
            self.p &= !(CPU_FLAG_ZERO | CPU_FLAG_CARRY | CPU_FLAG_NEGATIVE);
            if self.x == self.temp {
                self.p |= CPU_FLAG_ZERO;
            }
            if self.x >= self.temp {
                self.p |= CPU_FLAG_CARRY;
            }
            if ((self.x.wrapping_sub(self.temp)) & 0x80) != 0 {
                self.p |= CPU_FLAG_NEGATIVE;
            }
            self.pc = self.pc.wrapping_add(2);
            self.end_instruction();
        }
        proof {
            super::lemma_compare_flags(old(self).p, old(self).x, self.last_bus@.data);
        }
    }

    /// cpx zero page
    #[verifier::rlimit(100)]
    #[verifier::spinoff_prover]
    pub(crate) fn op_e4<C: CartridgeDevice, K: ControllerDevice, P: PpuDevice, A: ApuDevice>(
        &mut self,
        bus: &mut NesMotherboard<C, K>,
        cpu_peripherals: &mut NesCpuPeripherals<P, A>,
    )
        requires
            old(self).inv(),
            !old(self).reset,
            old(self).opcode == Some(0xe4u8),
            !old(self).bus_used@,
        ensures
            final(self).inv(),
            !final(self).reset,
            step_e4(*old(self), *final(self)),
            final(self).opcode == old(self).opcode || super::finished(*final(self)),
            super::ram_effect(old(bus).spec_ram(), final(bus).spec_ram(), final(self).bus_used@, final(self).last_bus@),
            super::bus_effect(*old(bus), *old(cpu_peripherals), *final(bus), *final(cpu_peripherals), final(self).bus_used@, final(self).last_bus@),
            final(self).dmc_dma == old(self).dmc_dma,
            final(self).nmi_detected == old(self).nmi_detected,
            final(self).prev_nmi == old(self).prev_nmi,
    {
        {
            match self.subcycle {
                1 => {
                    self.subcycle = 2;
                    self.temp = self.memory_cycle_read(self.pc.wrapping_add(1),
                        bus,
                        cpu_peripherals,
                    );
                    {
                        self.copy_debugger(hex8_text("CPX $", self.temp, ""));
                        self.done_fetching = true;
                    }
                }
                _ => {
                    self.temp =
                    self.memory_cycle_read(self.temp as u16, bus, cpu_peripherals);
                    self.p &= !(CPU_FLAG_ZERO | CPU_FLAG_CARRY | CPU_FLAG_NEGATIVE);
                    if self.x == self.temp {
                        self.p |= CPU_FLAG_ZERO;
                    }
                    if self.x >= self.temp {
                        self.p |= CPU_FLAG_CARRY;
                    }
                    if ((self.x.wrapping_sub(self.temp)) & 0x80) != 0 {
                        self.p |= CPU_FLAG_NEGATIVE;
                    }
                    self.pc = self.pc.wrapping_add(2);
                    self.end_instruction();
                }
            }
        }
        proof {
            super::lemma_compare_flags(old(self).p, old(self).x, self.last_bus@.data);
        }
    }

    /// cpx absolute
    #[verifier::rlimit(100)]
    #[verifier::spinoff_prover]
    pub(crate) fn op_ec<C: CartridgeDevice, K: ControllerDevice, P: PpuDevice, A: ApuDevice>(
        &mut self,
        bus: &mut NesMotherboard<C, K>,
        cpu_peripherals: &mut NesCpuPeripherals<P, A>,
    )
        requires
            old(self).inv(),
            !old(self).reset,
            old(self).opcode == Some(0xecu8),
            !old(self).bus_used@,
        ensures
            final(self).inv(),
            !final(self).reset,
            step_ec(*old(self), *final(self)),
            final(self).opcode == old(self).opcode || super::finished(*final(self)),
            super::ram_effect(old(bus).spec_ram(), final(bus).spec_ram(), final(self).bus_used@, final(self).last_bus@),
            super::bus_effect(*old(bus), *old(cpu_peripherals), *final(bus), *final(cpu_peripherals), final(self).bus_used@, final(self).last_bus@),
            final(self).dmc_dma == old(self).dmc_dma,
            final(self).nmi_detected == old(self).nmi_detected,
            final(self).prev_nmi == old(self).prev_nmi,
    {
        {
            match self.subcycle {
                1 => {
                    self.temp = self.memory_cycle_read(self.pc.wrapping_add(1),
                        bus,
                        cpu_peripherals,
                    );
                    self.subcycle = 2;
                }
                2 => {
                    self.temp2 = self.memory_cycle_read(self.pc.wrapping_add(2),
                        bus,
                        cpu_peripherals,
                    );
                    {
                        let temp = (self.temp2 as u16) << 8 | self.temp as u16;
                        self.copy_debugger(hex16_text("CPX $", temp, ""));
                        self.done_fetching = true;
                    }
                    proof {
                        super::lemma_word(self.temp, self.temp2);
                    }
                    self.subcycle = 3;
                }
                _ => {
                    let temp = (self.temp2 as u16) << 8 | self.temp as u16;
                    self.temp = self.memory_cycle_read(temp, bus, cpu_peripherals);
                    self.p &= !(CPU_FLAG_ZERO | CPU_FLAG_CARRY | CPU_FLAG_NEGATIVE);
                    if self.x == self.temp {
                        self.p |= CPU_FLAG_ZERO;
                    }
                    if self.x >= self.temp {
                        self.p |= CPU_FLAG_CARRY;
                    }
                    if ((self.x.wrapping_sub(self.temp)) & 0x80) != 0 {
                        self.p |= CPU_FLAG_NEGATIVE;
                    }
                    self.pc = self.pc.wrapping_add(3);
                    self.end_instruction();
                }
            }
        }
        proof {
            super::lemma_word(old(self).temp, old(self).temp2);
            super::lemma_compare_flags(old(self).p, old(self).x, self.last_bus@.data);
        }
    }

    /// ANC immediate, undocumented
    /// performs AND and ROL
    #[verifier::rlimit(100)]
    #[verifier::spinoff_prover]
    pub(crate) fn op_0b<C: CartridgeDevice, K: ControllerDevice, P: PpuDevice, A: ApuDevice>(
        &mut self,
        bus: &mut NesMotherboard<C, K>,
        cpu_peripherals: &mut NesCpuPeripherals<P, A>,
    )
        requires
            old(self).inv(),
            !old(self).reset,
            old(self).opcode is Some,
            !old(self).bus_used@,
        ensures
            final(self).inv(),
            !final(self).reset,
            step_0b(*old(self), *final(self)),
            final(self).opcode == old(self).opcode || super::finished(*final(self)),
            super::ram_effect(old(bus).spec_ram(), final(bus).spec_ram(), final(self).bus_used@, final(self).last_bus@),
            super::bus_effect(*old(bus), *old(cpu_peripherals), *final(bus), *final(cpu_peripherals), final(self).bus_used@, final(self).last_bus@),
            final(self).dmc_dma == old(self).dmc_dma,
            final(self).nmi_detected == old(self).nmi_detected,
            final(self).prev_nmi == old(self).prev_nmi,
    {
        {
            self.temp = self.memory_cycle_read(self.pc.wrapping_add(1),
                bus,
                cpu_peripherals,
            );
            {
                self.copy_debugger(hex8_text("*ANC #$", self.temp, ""));
                self.done_fetching = true;
            }
            self.a &= self.temp;
            let temp = self.a;

            self.p &= !(CPU_FLAG_CARRY | CPU_FLAG_ZERO | CPU_FLAG_NEGATIVE);
            if (temp & 0x80) != 0 {
                self.p |= CPU_FLAG_CARRY;
            }
            if temp == 0 {
                self.p |= CPU_FLAG_ZERO;
            }
            if (temp & 0x80) != 0 {
                self.p |= CPU_FLAG_NEGATIVE;
            }

            self.pc = self.pc.wrapping_add(2);
            self.end_instruction();
        }
        proof {
            super::lemma_byte_ops(self.a, 0);
            super::lemma_byte_ops(old(self).a, self.last_bus@.data);
            super::lemma_shift_flags(old(self).p, self.a, (self.a & 0x80) != 0);
        }
    }

    /// ALR, and immediate with lsr, undocumented
    #[verifier::rlimit(100)]
    #[verifier::spinoff_prover]
    pub(crate) fn op_4b<C: CartridgeDevice, K: ControllerDevice, P: PpuDevice, A: ApuDevice>(
        &mut self,
        bus: &mut NesMotherboard<C, K>,
        cpu_peripherals: &mut NesCpuPeripherals<P, A>,
    )
        requires
            old(self).inv(),
            !old(self).reset,
            old(self).opcode == Some(0x4bu8),
            !old(self).bus_used@,
        ensures
            final(self).inv(),
            !final(self).reset,
            step_4b(*old(self), *final(self)),
            final(self).opcode == old(self).opcode || super::finished(*final(self)),
            super::ram_effect(old(bus).spec_ram(), final(bus).spec_ram(), final(self).bus_used@, final(self).last_bus@),
            super::bus_effect(*old(bus), *old(cpu_peripherals), *final(bus), *final(cpu_peripherals), final(self).bus_used@, final(self).last_bus@),
            final(self).dmc_dma == old(self).dmc_dma,
            final(self).nmi_detected == old(self).nmi_detected,
            final(self).prev_nmi == old(self).prev_nmi,
    {
        {
            self.temp = self.memory_cycle_read(self.pc.wrapping_add(1),
                bus,
                cpu_peripherals,
            );
            {
                self.copy_debugger(hex8_text("*ALR #$", self.temp, ""));
                self.done_fetching = true;
            }
            self.a &= self.temp;

            self.p &= !(CPU_FLAG_CARRY | CPU_FLAG_ZERO | CPU_FLAG_NEGATIVE);
            if (self.a & 1) != 0 {
                self.p |= CPU_FLAG_CARRY;
            }
            let temp = self.a >> 1;
            if temp == 0 {
                self.p |= CPU_FLAG_ZERO;
            }
            if (temp & 0x80) != 0 {
                self.p |= CPU_FLAG_NEGATIVE;
            }
            self.a = temp;
            self.pc = self.pc.wrapping_add(2);
            self.end_instruction();
        }
        proof {
            super::lemma_byte_ops(old(self).a & self.last_bus@.data, 0);
            super::lemma_shift_flags(old(self).p, self.a, ((old(self).a & self.last_bus@.data) & 1) != 0);
            super::lemma_byte_ops(old(self).a, self.last_bus@.data);
            super::lemma_shift_flags(old(self).p, self.a, ((old(self).a & self.last_bus@.data) & 1) != 0);
        }
    }

    /// ARR, undocumented AND immediate and ROR
    #[verifier::rlimit(100)]
    #[verifier::spinoff_prover]
    pub(crate) fn op_6b<C: CartridgeDevice, K: ControllerDevice, P: PpuDevice, A: ApuDevice>(
        &mut self,
        bus: &mut NesMotherboard<C, K>,
        cpu_peripherals: &mut NesCpuPeripherals<P, A>,
    )
        requires
            old(self).inv(),
            !old(self).reset,
            old(self).opcode == Some(0x6bu8),
            !old(self).bus_used@,
        ensures
            final(self).inv(),
            !final(self).reset,
            step_6b(*old(self), *final(self)),
            final(self).opcode == old(self).opcode || super::finished(*final(self)),
            super::ram_effect(old(bus).spec_ram(), final(bus).spec_ram(), final(self).bus_used@, final(self).last_bus@),
            super::bus_effect(*old(bus), *old(cpu_peripherals), *final(bus), *final(cpu_peripherals), final(self).bus_used@, final(self).last_bus@),
            final(self).dmc_dma == old(self).dmc_dma,
            final(self).nmi_detected == old(self).nmi_detected,
            final(self).prev_nmi == old(self).prev_nmi,
    {
        {
            self.temp = self.memory_cycle_read(self.pc.wrapping_add(1),
                bus,
                cpu_peripherals,
            );
            {
                self.copy_debugger(hex8_text("*ARR #$", self.temp, ""));
                self.done_fetching = true;
            }
            self.a &= self.temp;
            proof {
                super::lemma_arr(self.p, self.a);
            }

            self.p &= !CPU_FLAG_OVERFLOW;
            if ((self.a ^ (self.a >> 1)) & 0x40) == 0x40 {
                self.p |= CPU_FLAG_OVERFLOW;
            }
            let carry = (self.a & 0x80) != 0;
            self.a >>= 1;
            if (self.p & CPU_FLAG_CARRY) != 0 {
                self.a |= 0x80;
            }

            self.p &= !(CPU_FLAG_CARRY | CPU_FLAG_ZERO | CPU_FLAG_NEGATIVE);
            if carry {
                self.p |= CPU_FLAG_CARRY;
            }
            let temp = self.a;
            if temp == 0 {
                self.p |= CPU_FLAG_ZERO;
            }
            if (temp & 0x80) != 0 {
                self.p |= CPU_FLAG_NEGATIVE;
            }

            self.pc = self.pc.wrapping_add(2);
            self.end_instruction();
        }
    }

    /// axs undocumented
    #[verifier::rlimit(100)]
    #[verifier::spinoff_prover]
    pub(crate) fn op_cb<C: CartridgeDevice, K: ControllerDevice, P: PpuDevice, A: ApuDevice>(
        &mut self,
        bus: &mut NesMotherboard<C, K>,
        cpu_peripherals: &mut NesCpuPeripherals<P, A>,
    )
        requires
            old(self).inv(),
            !old(self).reset,
            old(self).opcode == Some(0xcbu8),
            !old(self).bus_used@,
        ensures
            final(self).inv(),
            !final(self).reset,
            step_cb(*old(self), *final(self)),
            final(self).opcode == old(self).opcode || super::finished(*final(self)),
            super::ram_effect(old(bus).spec_ram(), final(bus).spec_ram(), final(self).bus_used@, final(self).last_bus@),
            super::bus_effect(*old(bus), *old(cpu_peripherals), *final(bus), *final(cpu_peripherals), final(self).bus_used@, final(self).last_bus@),
            final(self).dmc_dma == old(self).dmc_dma,
            final(self).nmi_detected == old(self).nmi_detected,
            final(self).prev_nmi == old(self).prev_nmi,
    {
        {
            self.temp = self.memory_cycle_read(self.pc.wrapping_add(1),
                bus,
                cpu_peripherals,
            );
            {
                self.copy_debugger(hex8_text("*AXS #$", self.temp, ""));
                self.done_fetching = true;
            }

            let anding = self.a & self.x;
            let temp = (anding as u16).wrapping_sub(self.temp as u16);
            proof {
                super::lemma_axs(self.p, anding, self.temp, temp);
            }
            let carry = (((temp >> 8) & 0x01) ^ 0x01) == 0x01;
            self.p &= !(CPU_FLAG_CARRY | CPU_FLAG_ZERO | CPU_FLAG_NEGATIVE);
            if carry {
                self.p |= CPU_FLAG_CARRY;
            }
            if (temp & 0x80) != 0 {
                self.p |= CPU_FLAG_NEGATIVE;
            }
            if (temp & 0xFF) == 0 {
                self.p |= CPU_FLAG_ZERO;
            }
            self.x = (temp & 0xFF) as u8;

            self.pc = self.pc.wrapping_add(2);
            self.end_instruction();
        }
    }
}

} // verus!

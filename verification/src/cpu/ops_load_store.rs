//! The load, store and no-operation instructions of the cpu, one bus cycle at a time.
use vstd::prelude::*;
use crate::cpu::{
    NesCpu, NesCpuPeripherals, CPU_FLAG_CARRY, CPU_FLAG_ZERO, CPU_FLAG_INT_DISABLE, CPU_FLAG_DECIMAL,
    CPU_FLAG_B1, CPU_FLAG_B2, CPU_FLAG_OVERFLOW, CPU_FLAG_NEGATIVE, hex8_text, hex16_text,
    hex16_upper_text, le_bytes, from_le_bytes, overflowing_add,
};
use crate::devices::{ApuDevice, CartridgeDevice, ControllerDevice, PpuDevice};
use crate::motherboard::NesMotherboard;

verus! {

/// One bus cycle of sta, store a zero page.
pub(crate) open spec fn step_85(s: NesCpu, t: NesCpu) -> bool {
    &&& s.subcycle == 1 ==> super::shows(s, t, "STA $"@ + super::hex_text(t.temp as nat, 2, false) + ""@)
    &&& s.subcycle != 1 ==> super::keeps_debugger(s, t)
    &&& s.subcycle == 1 ==> {
        &&& t.subcycle == 2
        &&& super::read_at(t, super::pc_plus(s.pc, 1))
        &&& t.temp == super::data(t)
    }
    &&& !super::finished(t) ==> super::arch_same(s, t)
    &&& s.subcycle != 1 ==> {
        &&& super::finished(t)
        &&& super::write_at(t, s.temp as u16, s.a)
        &&& t.pc == super::pc_plus(s.pc, 2)
        &&& t.a == s.a
        &&& t.x == s.x
        &&& t.y == s.y
        &&& t.s == s.s
        &&& t.p == s.p
    }
    &&& !(s.subcycle != 1) ==> !super::finished(t)
}

/// One bus cycle of sta, store a zero page x.
pub(crate) open spec fn step_95(s: NesCpu, t: NesCpu) -> bool {
    &&& s.subcycle == 1 ==> super::shows(s, t, "STA $"@ + super::hex_text(t.temp as nat, 2, false) + ",X"@)
    &&& s.subcycle != 1 ==> super::keeps_debugger(s, t)
    &&& s.subcycle == 1 ==> {
        &&& t.subcycle == 2
        &&& super::read_at(t, super::pc_plus(s.pc, 1))
        &&& t.temp == super::data(t)
    }
    &&& s.subcycle == 2 ==> {
        &&& t.subcycle == 3
        &&& super::read_at(t, s.temp as u16)
        &&& t.temp == s.temp
    }
    &&& !super::finished(t) ==> super::arch_same(s, t)
    &&& !(1 <= s.subcycle <= 2) ==> {
        &&& super::finished(t)
        &&& super::write_at(t, super::zp_index(s.temp, s.x), s.a)
        &&& t.pc == super::pc_plus(s.pc, 2)
        &&& t.a == s.a
        &&& t.x == s.x
        &&& t.y == s.y
        &&& t.s == s.s
        &&& t.p == s.p
    }
    &&& !(!(1 <= s.subcycle <= 2)) ==> !super::finished(t)
}

/// One bus cycle of sta absolute.
pub(crate) open spec fn step_8d(s: NesCpu, t: NesCpu) -> bool {
    &&& s.subcycle == 2 ==> super::shows(s, t, "STA $"@ + super::hex_text(super::word(t.temp, t.temp2) as nat, 4, false) + ""@)
    &&& s.subcycle != 2 ==> super::keeps_debugger(s, t)
    &&& s.subcycle == 1 ==> {
        &&& t.subcycle == 2
        &&& super::read_at(t, super::pc_plus(s.pc, 1))
        &&& t.temp == super::data(t)
    }
    &&& s.subcycle == 2 ==> {
        &&& t.subcycle == 3
        &&& super::read_at(t, super::pc_plus(s.pc, 2))
        &&& t.temp2 == super::data(t)
        &&& t.temp == s.temp
    }
    &&& !super::finished(t) ==> super::arch_same(s, t)
    &&& !(1 <= s.subcycle <= 2) ==> {
        &&& super::finished(t)
        &&& super::write_at(t, super::word(s.temp, s.temp2), s.a)
        &&& t.pc == super::pc_plus(s.pc, 3)
        &&& t.a == s.a
        &&& t.x == s.x
        &&& t.y == s.y
        &&& t.s == s.s
        &&& t.p == s.p
    }
    &&& !(!(1 <= s.subcycle <= 2)) ==> !super::finished(t)
}

/// One bus cycle of sta absolute x.
pub(crate) open spec fn step_9d(s: NesCpu, t: NesCpu) -> bool {
    &&& s.subcycle == 2 ==> super::shows(s, t, "STA $"@ + super::hex_text(super::word(t.temp, t.temp2) as nat, 4, false) + ",X"@)
    &&& s.subcycle != 2 ==> super::keeps_debugger(s, t)
    &&& s.subcycle == 3 ==> t.temp == s.temp && t.temp2 == s.temp2
    &&& s.subcycle == 1 ==> {
        &&& t.subcycle == 2
        &&& super::read_at(t, super::pc_plus(s.pc, 1))
        &&& t.temp == super::data(t)
    }
    &&& s.subcycle == 2 ==> {
        &&& t.subcycle == 3
        &&& super::read_at(t, super::pc_plus(s.pc, 2))
        &&& t.temp2 == super::data(t)
        &&& t.temp == s.temp
    }
    &&& s.subcycle == 3 ==> {
        &&& t.subcycle == 4
        &&& super::read_at(t, super::word(((s.temp + s.x) % 256) as u8, s.temp2))
    }
    &&& !super::finished(t) ==> super::arch_same(s, t)
    &&& !(1 <= s.subcycle <= 3) ==> {
        &&& super::finished(t)
        &&& super::write_at(t, super::abs_index(super::word(s.temp, s.temp2), s.x), s.a)
        &&& t.pc == super::pc_plus(s.pc, 3)
        &&& t.a == s.a
        &&& t.x == s.x
        &&& t.y == s.y
        &&& t.s == s.s
        &&& t.p == s.p
    }
    &&& !(!(1 <= s.subcycle <= 3)) ==> !super::finished(t)
}

/// One bus cycle of sta absolute y.
pub(crate) open spec fn step_99(s: NesCpu, t: NesCpu) -> bool {
    &&& s.subcycle == 2 ==> super::shows(s, t, "STA $"@ + super::hex_text(super::word(t.temp, t.temp2) as nat, 4, false) + ",Y"@)
    &&& s.subcycle != 2 ==> super::keeps_debugger(s, t)
    &&& s.subcycle == 3 ==> t.temp == s.temp && t.temp2 == s.temp2
    &&& s.subcycle == 1 ==> {
        &&& t.subcycle == 2
        &&& super::read_at(t, super::pc_plus(s.pc, 1))
        &&& t.temp == super::data(t)
    }
    &&& s.subcycle == 2 ==> {
        &&& t.subcycle == 3
        &&& super::read_at(t, super::pc_plus(s.pc, 2))
        &&& t.temp2 == super::data(t)
        &&& t.temp == s.temp
    }
    &&& s.subcycle == 3 ==> {
        &&& t.subcycle == 4
        &&& super::read_at(t, super::word(((s.temp + s.y) % 256) as u8, s.temp2))
    }
    &&& !super::finished(t) ==> super::arch_same(s, t)
    &&& !(1 <= s.subcycle <= 3) ==> {
        &&& super::finished(t)
        &&& super::write_at(t, super::abs_index(super::word(s.temp, s.temp2), s.y), s.a)
        &&& t.pc == super::pc_plus(s.pc, 3)
        &&& t.a == s.a
        &&& t.x == s.x
        &&& t.y == s.y
        &&& t.s == s.s
        &&& t.p == s.p
    }
    &&& !(!(1 <= s.subcycle <= 3)) ==> !super::finished(t)
}

/// One bus cycle of sta indirect x.
pub(crate) open spec fn step_81(s: NesCpu, t: NesCpu) -> bool {
    &&& s.subcycle == 1 ==> super::shows(s, t, "STA ($"@ + super::hex_text(t.temp as nat, 2, false) + ",X)"@)
    &&& s.subcycle != 1 ==> super::keeps_debugger(s, t)
    &&& s.subcycle == 3 ==> t.temp == s.temp && t.temp2 == s.temp2
    &&& s.subcycle == 1 ==> {
        &&& t.subcycle == 2
        &&& super::read_at(t, super::pc_plus(s.pc, 1))
        &&& t.temp == super::data(t)
    }
    &&& s.subcycle == 2 ==> {
        &&& t.subcycle == 3
        &&& t.temp == ((s.temp + s.x) % 256) as u8
        &&& super::read_at(t, super::zp_index(s.temp, s.x))
        &&& t.temp2 == super::data(t)
    }
    &&& s.subcycle == 3 ==> {
        &&& t.subcycle == 4
        &&& super::read_at(t, s.temp as u16)
    }
    &&& s.subcycle == 4 ==> {
        &&& t.subcycle == 5
        &&& super::read_at(t, super::zp_index(s.temp, 1))
        &&& t.temp == super::data(t)
        &&& t.temp2 == s.temp2
    }
    &&& !super::finished(t) ==> super::arch_same(s, t)
    &&& !(1 <= s.subcycle <= 4) ==> {
        &&& super::finished(t)
        &&& super::write_at(t, super::word(s.temp2, s.temp), s.a)
        &&& t.pc == super::pc_plus(s.pc, 2)
        &&& t.a == s.a
        &&& t.x == s.x
        &&& t.y == s.y
        &&& t.s == s.s
        &&& t.p == s.p
    }
    &&& !(!(1 <= s.subcycle <= 4)) ==> !super::finished(t)
}

/// One bus cycle of sta indirect y.
pub(crate) open spec fn step_91(s: NesCpu, t: NesCpu) -> bool {
    &&& s.subcycle == 1 ==> super::shows(s, t, "STA ($"@ + super::hex_text(t.temp as nat, 2, false) + "),Y"@)
    &&& s.subcycle != 1 ==> super::keeps_debugger(s, t)
    &&& s.subcycle == 4 ==> t.temp == s.temp && t.temp2 == s.temp2
    &&& s.subcycle == 1 ==> {
        &&& t.subcycle == 2
        &&& super::read_at(t, super::pc_plus(s.pc, 1))
        &&& t.temp == super::data(t)
    }
    &&& s.subcycle == 2 ==> {
        &&& t.subcycle == 3
        &&& super::read_at(t, s.temp as u16)
        &&& t.temp2 == super::data(t)
        &&& t.temp == s.temp
    }
    &&& s.subcycle == 3 ==> {
        &&& t.subcycle == 4
        &&& super::read_at(t, super::zp_index(s.temp, 1))
        &&& t.temp == super::data(t)
        &&& t.temp2 == s.temp2
    }
    &&& s.subcycle == 4 ==> {
        &&& t.subcycle == 5
        &&& super::read_at(t, super::word(((s.temp2 + s.y) % 256) as u8, s.temp))
    }
    &&& !super::finished(t) ==> super::arch_same(s, t)
    &&& !(1 <= s.subcycle <= 4) ==> {
        &&& super::finished(t)
        &&& super::write_at(t, super::abs_index(super::word(s.temp2, s.temp), s.y), s.a)
        &&& t.pc == super::pc_plus(s.pc, 2)
        &&& t.a == s.a
        &&& t.x == s.x
        &&& t.y == s.y
        &&& t.s == s.s
        &&& t.p == s.p
    }
    &&& !(!(1 <= s.subcycle <= 4)) ==> !super::finished(t)
}

/// One bus cycle of ldx immediate.
pub(crate) open spec fn step_a2(s: NesCpu, t: NesCpu) -> bool {
    &&& super::shows(s, t, "LDX #$"@ + super::hex_text(t.temp as nat, 2, false) + ""@)
    &&& !super::finished(t) ==> super::arch_same(s, t)
    &&& super::finished(t)
    &&& super::read_at(t, super::pc_plus(s.pc, 1))
    &&& t.pc == super::pc_plus(s.pc, 2)
    &&& t.x == super::data(t)
    &&& t.p == super::nz_flags(s.p, super::data(t))
    &&& t.a == s.a
    &&& t.y == s.y
    &&& t.s == s.s
}

/// One bus cycle of ldx zero page.
pub(crate) open spec fn step_a6(s: NesCpu, t: NesCpu) -> bool {
    &&& s.subcycle == 1 ==> super::shows(s, t, "LDX $"@ + super::hex_text(t.temp as nat, 2, false) + ""@)
    &&& s.subcycle != 1 ==> super::keeps_debugger(s, t)
    &&& s.subcycle == 1 ==> {
        &&& t.subcycle == 2
        &&& super::read_at(t, super::pc_plus(s.pc, 1))
        &&& t.temp == super::data(t)
    }
    &&& !super::finished(t) ==> super::arch_same(s, t)
    &&& s.subcycle != 1 ==> {
        &&& super::finished(t)
        &&& super::read_at(t, s.temp as u16)
        &&& t.pc == super::pc_plus(s.pc, 2)
        &&& t.x == super::data(t)
        &&& t.p == super::nz_flags(s.p, super::data(t))
        &&& t.a == s.a
        &&& t.y == s.y
        &&& t.s == s.s
    }
    &&& !(s.subcycle != 1) ==> !super::finished(t)
}

/// One bus cycle of ldx zero page y.
pub(crate) open spec fn step_b6(s: NesCpu, t: NesCpu) -> bool {
    &&& s.subcycle == 1 ==> super::shows(s, t, "LDX $"@ + super::hex_text(super::data(t) as nat, 2, false) + ",Y"@)
    &&& s.subcycle != 1 ==> super::keeps_debugger(s, t)
    &&& s.subcycle == 1 ==> {
        &&& t.subcycle == 2
        &&& super::read_at(t, super::pc_plus(s.pc, 1))
    }
    &&& s.subcycle == 2 ==> {
        &&& t.subcycle == 3
        &&& t.temp == s.temp
    }
    &&& !super::finished(t) ==> super::arch_same(s, t)
    &&& !(1 <= s.subcycle <= 2) ==> {
        &&& super::finished(t)
        &&& t.pc == super::pc_plus(s.pc, 2)
        &&& t.x == super::data(t)
        &&& t.p == super::nz_flags(s.p, super::data(t))
        &&& t.a == s.a
        &&& t.y == s.y
        &&& t.s == s.s
    }
    &&& !(!(1 <= s.subcycle <= 2)) ==> !super::finished(t)
    &&& s.subcycle == 1 ==> t.temp == ((super::data(t) + s.y) % 256) as u8
    &&& !(1 <= s.subcycle <= 2) ==> super::read_at(t, s.temp as u16)
}

/// One bus cycle of ldx absolute.
pub(crate) open spec fn step_ae(s: NesCpu, t: NesCpu) -> bool {
    &&& s.subcycle == 2 ==> super::shows(s, t, "LDX $"@ + super::hex_text(super::word(t.temp, t.temp2) as nat, 4, false) + ""@)
    &&& s.subcycle != 2 ==> super::keeps_debugger(s, t)
    &&& s.subcycle == 1 ==> {
        &&& t.subcycle == 2
        &&& super::read_at(t, super::pc_plus(s.pc, 1))
        &&& t.temp == super::data(t)
    }
    &&& s.subcycle == 2 ==> {
        &&& t.subcycle == 3
        &&& super::read_at(t, super::pc_plus(s.pc, 2))
        &&& t.temp2 == super::data(t)
        &&& t.temp == s.temp
    }
    &&& !super::finished(t) ==> super::arch_same(s, t)
    &&& !(1 <= s.subcycle <= 2) ==> {
        &&& super::finished(t)
        &&& super::read_at(t, super::word(s.temp, s.temp2))
        &&& t.pc == super::pc_plus(s.pc, 3)
        &&& t.x == super::data(t)
        &&& t.p == super::nz_flags(s.p, super::data(t))
        &&& t.a == s.a
        &&& t.y == s.y
        &&& t.s == s.s
    }
    &&& !(!(1 <= s.subcycle <= 2)) ==> !super::finished(t)
}

/// One bus cycle of ldx absolute y.
pub(crate) open spec fn step_be(s: NesCpu, t: NesCpu) -> bool {
    &&& s.subcycle == 2 ==> super::shows(s, t, "LDX $"@ + super::hex_text(super::word(t.temp, t.temp2) as nat, 4, false) + ",Y"@)
    &&& s.subcycle != 2 ==> super::keeps_debugger(s, t)
    &&& s.subcycle == 1 ==> {
        &&& t.subcycle == 2
        &&& super::read_at(t, super::pc_plus(s.pc, 1))
        &&& t.temp == super::data(t)
    }
    &&& s.subcycle == 2 ==> {
        &&& t.subcycle == 3
        &&& super::read_at(t, super::pc_plus(s.pc, 2))
        &&& t.temp2 == super::data(t)
        &&& t.temp == s.temp
    }
    &&& s.subcycle == 3 && s.temp + s.y >= 256 ==> {
        &&& t.subcycle == 4
        &&& super::read_at(t, super::word(((s.temp + s.y) % 256) as u8, s.temp2))
        &&& t.temp == s.temp && t.temp2 == s.temp2
    }
    &&& !super::finished(t) ==> super::arch_same(s, t)
    &&& (s.subcycle == 3 && s.temp + s.y < 256) || (!(1 <= s.subcycle <= 3)) ==> {
        &&& super::finished(t)
        &&& t.pc == super::pc_plus(s.pc, 3)
        &&& t.x == super::data(t)
        &&& t.p == super::nz_flags(s.p, super::data(t))
        &&& t.a == s.a
        &&& t.y == s.y
        &&& t.s == s.s
    }
    &&& !((s.subcycle == 3 && s.temp + s.y < 256) || (!(1 <= s.subcycle <= 3))) ==> !super::finished(t)
}

/// One bus cycle of sty store y zero page.
pub(crate) open spec fn step_84(s: NesCpu, t: NesCpu) -> bool {
    &&& s.subcycle == 1 ==> super::shows(s, t, "STY $"@ + super::hex_text(t.temp as nat, 2, false) + ""@)
    &&& s.subcycle != 1 ==> super::keeps_debugger(s, t)
    &&& s.subcycle == 1 ==> {
        &&& t.subcycle == 2
        &&& super::read_at(t, super::pc_plus(s.pc, 1))
        &&& t.temp == super::data(t)
    }
    &&& !super::finished(t) ==> super::arch_same(s, t)
    &&& s.subcycle != 1 ==> {
        &&& super::finished(t)
        &&& super::write_at(t, s.temp as u16, s.y)
        &&& t.pc == super::pc_plus(s.pc, 2)
        &&& t.a == s.a
        &&& t.x == s.x
        &&& t.y == s.y
        &&& t.s == s.s
        &&& t.p == s.p
    }
    &&& !(s.subcycle != 1) ==> !super::finished(t)
}

/// One bus cycle of sty zero page x.
pub(crate) open spec fn step_94(s: NesCpu, t: NesCpu) -> bool {
    &&& s.subcycle == 1 ==> super::shows(s, t, "STY $"@ + super::hex_text(t.temp as nat, 2, false) + ",X"@)
    &&& s.subcycle != 1 ==> super::keeps_debugger(s, t)
    &&& s.subcycle == 1 ==> {
        &&& t.subcycle == 2
        &&& super::read_at(t, super::pc_plus(s.pc, 1))
        &&& t.temp == super::data(t)
    }
    &&& s.subcycle == 2 ==> {
        &&& t.subcycle == 3
        &&& t.temp == s.temp
    }
    &&& !super::finished(t) ==> super::arch_same(s, t)
    &&& !(1 <= s.subcycle <= 2) ==> {
        &&& super::finished(t)
        &&& super::write_at(t, super::zp_index(s.temp, s.x), s.y)
        &&& t.pc == super::pc_plus(s.pc, 2)
        &&& t.a == s.a
        &&& t.x == s.x
        &&& t.y == s.y
        &&& t.s == s.s
        &&& t.p == s.p
    }
    &&& !(!(1 <= s.subcycle <= 2)) ==> !super::finished(t)
}

/// One bus cycle of sty absolute.
pub(crate) open spec fn step_8c(s: NesCpu, t: NesCpu) -> bool {
    &&& s.subcycle == 2 ==> super::shows(s, t, "STY $"@ + super::hex_text(super::word(t.temp, t.temp2) as nat, 4, false) + ""@)
    &&& s.subcycle != 2 ==> super::keeps_debugger(s, t)
    &&& s.subcycle == 1 ==> {
        &&& t.subcycle == 2
        &&& super::read_at(t, super::pc_plus(s.pc, 1))
        &&& t.temp == super::data(t)
    }
    &&& s.subcycle == 2 ==> {
        &&& t.subcycle == 3
        &&& super::read_at(t, super::pc_plus(s.pc, 2))
        &&& t.temp2 == super::data(t)
        &&& t.temp == s.temp
    }
    &&& !super::finished(t) ==> super::arch_same(s, t)
    &&& !(1 <= s.subcycle <= 2) ==> {
        &&& super::finished(t)
        &&& super::write_at(t, super::word(s.temp, s.temp2), s.y)
        &&& t.pc == super::pc_plus(s.pc, 3)
        &&& t.a == s.a
        &&& t.x == s.x
        &&& t.y == s.y
        &&& t.s == s.s
        &&& t.p == s.p
    }
    &&& !(!(1 <= s.subcycle <= 2)) ==> !super::finished(t)
}

/// One bus cycle of ldy load y immediate.
pub(crate) open spec fn step_a0(s: NesCpu, t: NesCpu) -> bool {
    &&& super::shows(s, t, "LDY #$"@ + super::hex_text(t.temp as nat, 2, false) + ""@)
    &&& !super::finished(t) ==> super::arch_same(s, t)
    &&& super::finished(t)
    &&& super::read_at(t, super::pc_plus(s.pc, 1))
    &&& t.pc == super::pc_plus(s.pc, 2)
    &&& t.y == super::data(t)
    &&& t.p == super::nz_flags(s.p, super::data(t))
    &&& t.a == s.a
    &&& t.x == s.x
    &&& t.s == s.s
}

/// One bus cycle of ldy zero page.
pub(crate) open spec fn step_a4(s: NesCpu, t: NesCpu) -> bool {
    &&& s.subcycle == 1 ==> super::shows(s, t, "LDY $"@ + super::hex_text(t.temp as nat, 2, false) + ""@)
    &&& s.subcycle != 1 ==> super::keeps_debugger(s, t)
    &&& s.subcycle == 1 ==> {
        &&& t.subcycle == 2
        &&& super::read_at(t, super::pc_plus(s.pc, 1))
        &&& t.temp == super::data(t)
    }
    &&& !super::finished(t) ==> super::arch_same(s, t)
    &&& s.subcycle != 1 ==> {
        &&& super::finished(t)
        &&& super::read_at(t, s.temp as u16)
        &&& t.pc == super::pc_plus(s.pc, 2)
        &&& t.y == super::data(t)
        &&& t.p == super::nz_flags(s.p, super::data(t))
        &&& t.a == s.a
        &&& t.x == s.x
        &&& t.s == s.s
    }
    &&& !(s.subcycle != 1) ==> !super::finished(t)
}

/// One bus cycle of ldy zero page x.
pub(crate) open spec fn step_b4(s: NesCpu, t: NesCpu) -> bool {
    &&& s.subcycle == 1 ==> super::shows(s, t, "LDY $"@ + super::hex_text(t.temp as nat, 2, false) + ",X"@)
    &&& s.subcycle != 1 ==> super::keeps_debugger(s, t)
    &&& s.subcycle == 1 ==> {
        &&& t.subcycle == 2
        &&& super::read_at(t, super::pc_plus(s.pc, 1))
        &&& t.temp == super::data(t)
    }
    &&& s.subcycle == 2 ==> {
        &&& t.subcycle == 3
        &&& super::read_at(t, s.temp as u16)
        &&& t.temp == s.temp
    }
    &&& !super::finished(t) ==> super::arch_same(s, t)
    &&& !(1 <= s.subcycle <= 2) ==> {
        &&& super::finished(t)
        &&& super::read_at(t, super::zp_index(s.temp, s.x))
        &&& t.pc == super::pc_plus(s.pc, 2)
        &&& t.y == super::data(t)
        &&& t.p == super::nz_flags(s.p, super::data(t))
        &&& t.a == s.a
        &&& t.x == s.x
        &&& t.s == s.s
    }
    &&& !(!(1 <= s.subcycle <= 2)) ==> !super::finished(t)
}

/// One bus cycle of ldy absolute.
pub(crate) open spec fn step_ac(s: NesCpu, t: NesCpu) -> bool {
    &&& s.subcycle == 2 ==> super::shows(s, t, "LDY $"@ + super::hex_text(super::word(t.temp, t.temp2) as nat, 4, false) + ""@)
    &&& s.subcycle != 2 ==> super::keeps_debugger(s, t)
    &&& s.subcycle == 1 ==> {
        &&& t.subcycle == 2
        &&& super::read_at(t, super::pc_plus(s.pc, 1))
        &&& t.temp == super::data(t)
    }
    &&& s.subcycle == 2 ==> {
        &&& t.subcycle == 3
        &&& super::read_at(t, super::pc_plus(s.pc, 2))
        &&& t.temp2 == super::data(t)
        &&& t.temp == s.temp
    }
    &&& !super::finished(t) ==> super::arch_same(s, t)
    &&& !(1 <= s.subcycle <= 2) ==> {
        &&& super::finished(t)
        &&& super::read_at(t, super::word(s.temp, s.temp2))
        &&& t.pc == super::pc_plus(s.pc, 3)
        &&& t.y == super::data(t)
        &&& t.p == super::nz_flags(s.p, super::data(t))
        &&& t.a == s.a
        &&& t.x == s.x
        &&& t.s == s.s
    }
    &&& !(!(1 <= s.subcycle <= 2)) ==> !super::finished(t)
}

/// One bus cycle of ldy absolute x.
pub(crate) open spec fn step_bc(s: NesCpu, t: NesCpu) -> bool {
    &&& s.subcycle == 2 ==> super::shows(s, t, "LDY $"@ + super::hex_text(super::word(t.temp, t.temp2) as nat, 4, false) + ",X"@)
    &&& s.subcycle != 2 ==> super::keeps_debugger(s, t)
    &&& s.subcycle == 1 ==> {
        &&& t.subcycle == 2
        &&& super::read_at(t, super::pc_plus(s.pc, 1))
        &&& t.temp == super::data(t)
    }
    &&& s.subcycle == 2 ==> {
        &&& t.subcycle == 3
        &&& super::read_at(t, super::pc_plus(s.pc, 2))
        &&& t.temp2 == super::data(t)
        &&& t.temp == s.temp
    }
    &&& s.subcycle == 3 && s.temp + s.x >= 256 ==> {
        &&& t.subcycle == 4
        &&& super::read_at(t, super::word(((s.temp + s.x) % 256) as u8, s.temp2))
        &&& t.temp == s.temp && t.temp2 == s.temp2
    }
    &&& !super::finished(t) ==> super::arch_same(s, t)
    &&& (s.subcycle == 3 && s.temp + s.x < 256) || (!(1 <= s.subcycle <= 3)) ==> {
        &&& super::finished(t)
        &&& super::read_at(t, super::abs_index(super::word(s.temp, s.temp2), s.x))
        &&& t.pc == super::pc_plus(s.pc, 3)
        &&& t.y == super::data(t)
        &&& t.p == super::nz_flags(s.p, super::data(t))
        &&& t.a == s.a
        &&& t.x == s.x
        &&& t.s == s.s
    }
    &&& !((s.subcycle == 3 && s.temp + s.x < 256) || (!(1 <= s.subcycle <= 3))) ==> !super::finished(t)
}

/// One bus cycle of lda immediate.
pub(crate) open spec fn step_a9(s: NesCpu, t: NesCpu) -> bool {
    &&& super::shows(s, t, "LDA #$"@ + super::hex_text(t.temp as nat, 2, false) + ""@)
    &&& !super::finished(t) ==> super::arch_same(s, t)
    &&& super::finished(t)
    &&& super::read_at(t, super::pc_plus(s.pc, 1))
    &&& t.pc == super::pc_plus(s.pc, 2)
    &&& t.a == super::data(t)
    &&& t.p == super::nz_flags(s.p, super::data(t))
    &&& t.x == s.x
    &&& t.y == s.y
    &&& t.s == s.s
}

/// One bus cycle of lda zero page.
pub(crate) open spec fn step_a5(s: NesCpu, t: NesCpu) -> bool {
    &&& s.subcycle == 1 ==> super::shows(s, t, "LDA $"@ + super::hex_text(t.temp as nat, 2, false) + ""@)
    &&& s.subcycle != 1 ==> super::keeps_debugger(s, t)
    &&& s.subcycle == 1 ==> {
        &&& t.subcycle == 2
        &&& super::read_at(t, super::pc_plus(s.pc, 1))
        &&& t.temp == super::data(t)
    }
    &&& !super::finished(t) ==> super::arch_same(s, t)
    &&& s.subcycle != 1 ==> {
        &&& super::finished(t)
        &&& super::read_at(t, s.temp as u16)
        &&& t.pc == super::pc_plus(s.pc, 2)
        &&& t.a == super::data(t)
        &&& t.p == super::nz_flags(s.p, super::data(t))
        &&& t.x == s.x
        &&& t.y == s.y
        &&& t.s == s.s
    }
    &&& !(s.subcycle != 1) ==> !super::finished(t)
}

/// One bus cycle of lda zero page x.
pub(crate) open spec fn step_b5(s: NesCpu, t: NesCpu) -> bool {
    &&& s.subcycle == 1 ==> super::shows(s, t, "LDA $"@ + super::hex_text(t.temp as nat, 2, false) + ",X"@)
    &&& s.subcycle != 1 ==> super::keeps_debugger(s, t)
    &&& s.subcycle == 1 ==> {
        &&& t.subcycle == 2
        &&& super::read_at(t, super::pc_plus(s.pc, 1))
        &&& t.temp == super::data(t)
    }
    &&& s.subcycle == 2 ==> {
        &&& t.subcycle == 3
        &&& super::read_at(t, s.temp as u16)
        &&& t.temp == s.temp
    }
    &&& !super::finished(t) ==> super::arch_same(s, t)
    &&& !(1 <= s.subcycle <= 2) ==> {
        &&& super::finished(t)
        &&& super::read_at(t, super::zp_index(s.temp, s.x))
        &&& t.pc == super::pc_plus(s.pc, 2)
        &&& t.a == super::data(t)
        &&& t.p == super::nz_flags(s.p, super::data(t))
        &&& t.x == s.x
        &&& t.y == s.y
        &&& t.s == s.s
    }
    &&& !(!(1 <= s.subcycle <= 2)) ==> !super::finished(t)
}

/// One bus cycle of lda absolute.
pub(crate) open spec fn step_ad(s: NesCpu, t: NesCpu) -> bool {
    &&& s.subcycle == 2 ==> super::shows(s, t, "LDA $"@ + super::hex_text(super::word(t.temp, t.temp2) as nat, 4, false) + ""@)
    &&& s.subcycle != 2 ==> super::keeps_debugger(s, t)
    &&& s.subcycle == 1 ==> {
        &&& t.subcycle == 2
        &&& super::read_at(t, super::pc_plus(s.pc, 1))
        &&& t.temp == super::data(t)
    }
    &&& s.subcycle == 2 ==> {
        &&& t.subcycle == 3
        &&& super::read_at(t, super::pc_plus(s.pc, 2))
        &&& t.temp2 == super::data(t)
        &&& t.temp == s.temp
    }
    &&& !super::finished(t) ==> super::arch_same(s, t)
    &&& !(1 <= s.subcycle <= 2) ==> {
        &&& super::finished(t)
        &&& super::read_at(t, super::word(s.temp, s.temp2))
        &&& t.pc == super::pc_plus(s.pc, 3)
        &&& t.a == super::data(t)
        &&& t.p == super::nz_flags(s.p, super::data(t))
        &&& t.x == s.x
        &&& t.y == s.y
        &&& t.s == s.s
    }
    &&& !(!(1 <= s.subcycle <= 2)) ==> !super::finished(t)
}

/// One bus cycle of lda indirect x.
pub(crate) open spec fn step_a1(s: NesCpu, t: NesCpu) -> bool {
    &&& s.subcycle == 1 ==> super::shows(s, t, "LDA ($"@ + super::hex_text(t.temp as nat, 2, false) + ",X)"@)
    &&& s.subcycle != 1 ==> super::keeps_debugger(s, t)
    &&& s.subcycle == 1 ==> {
        &&& t.subcycle == 2
        &&& super::read_at(t, super::pc_plus(s.pc, 1))
        &&& t.temp == super::data(t)
    }
    &&& s.subcycle == 2 ==> t.subcycle == 3
    &&& s.subcycle == 3 ==> t.subcycle == 4
    &&& s.subcycle == 4 ==> {
        &&& t.subcycle == 5
        &&& super::read_at(t, super::zp_index(s.temp, 1))
        &&& t.temp == super::data(t)
        &&& t.temp2 == s.temp2
    }
    &&& !super::finished(t) ==> super::arch_same(s, t)
    &&& !(1 <= s.subcycle <= 4) ==> {
        &&& super::finished(t)
        &&& super::read_at(t, super::word(s.temp2, s.temp))
        &&& t.pc == super::pc_plus(s.pc, 2)
        &&& t.a == super::data(t)
        &&& t.p == super::nz_flags(s.p, super::data(t))
        &&& t.x == s.x
        &&& t.y == s.y
        &&& t.s == s.s
    }
    &&& !(!(1 <= s.subcycle <= 4)) ==> !super::finished(t)
    &&& s.subcycle == 2 ==> super::read_at(t, s.temp as u16) && t.temp == s.temp
    &&& s.subcycle == 3 ==> t.temp == ((s.temp + s.x) % 256) as u8 && super::read_at(t, t.temp as u16) && t.temp2 == super::data(t)
}

/// One bus cycle of lda absolute x.
pub(crate) open spec fn step_bd(s: NesCpu, t: NesCpu) -> bool {
    &&& s.subcycle == 2 ==> super::shows(s, t, "LDA $"@ + super::hex_text(super::word(t.temp, t.temp2) as nat, 4, false) + ",X"@)
    &&& s.subcycle != 2 ==> super::keeps_debugger(s, t)
    &&& s.subcycle == 1 ==> {
        &&& t.subcycle == 2
        &&& super::read_at(t, super::pc_plus(s.pc, 1))
        &&& t.temp == super::data(t)
    }
    &&& s.subcycle == 2 ==> {
        &&& t.subcycle == 3
        &&& super::read_at(t, super::pc_plus(s.pc, 2))
        &&& t.temp2 == super::data(t)
        &&& t.temp == s.temp
    }
    &&& s.subcycle == 3 && s.temp + s.x >= 256 ==> {
        &&& t.subcycle == 4
        &&& t.temp == s.temp && t.temp2 == s.temp2
    }
    &&& !super::finished(t) ==> super::arch_same(s, t)
    &&& (s.subcycle == 3 && s.temp + s.x < 256) || (!(1 <= s.subcycle <= 3)) ==> {
        &&& super::finished(t)
        &&& super::read_at(t, super::abs_index(super::word(s.temp, s.temp2), s.x))
        &&& t.pc == super::pc_plus(s.pc, 3)
        &&& t.a == super::data(t)
        &&& t.p == super::nz_flags(s.p, super::data(t))
        &&& t.x == s.x
        &&& t.y == s.y
        &&& t.s == s.s
    }
    &&& !((s.subcycle == 3 && s.temp + s.x < 256) || (!(1 <= s.subcycle <= 3))) ==> !super::finished(t)
}

/// One bus cycle of lda absolute y.
pub(crate) open spec fn step_b9(s: NesCpu, t: NesCpu) -> bool {
    &&& s.subcycle == 2 ==> super::shows(s, t, "LDA $"@ + super::hex_text(super::word(t.temp, t.temp2) as nat, 4, false) + ",Y"@)
    &&& s.subcycle != 2 ==> super::keeps_debugger(s, t)
    &&& s.subcycle == 1 ==> {
        &&& t.subcycle == 2
        &&& super::read_at(t, super::pc_plus(s.pc, 1))
        &&& t.temp == super::data(t)
    }
    &&& s.subcycle == 2 ==> {
        &&& t.subcycle == 3
        &&& super::read_at(t, super::pc_plus(s.pc, 2))
        &&& t.temp2 == super::data(t)
        &&& t.temp == s.temp
    }
    &&& s.subcycle == 3 && s.temp + s.y >= 256 ==> {
        &&& t.subcycle == 4
        &&& super::read_at(t, super::word(((s.temp + s.y) % 256) as u8, s.temp2))
        &&& t.temp == s.temp && t.temp2 == s.temp2
    }
    &&& !super::finished(t) ==> super::arch_same(s, t)
    &&& (s.subcycle == 3 && s.temp + s.y < 256) || (!(1 <= s.subcycle <= 3)) ==> {
        &&& super::finished(t)
        &&& super::read_at(t, super::abs_index(super::word(s.temp, s.temp2), s.y))
        &&& t.pc == super::pc_plus(s.pc, 3)
        &&& t.a == super::data(t)
        &&& t.p == super::nz_flags(s.p, super::data(t))
        &&& t.x == s.x
        &&& t.y == s.y
        &&& t.s == s.s
    }
    &&& !((s.subcycle == 3 && s.temp + s.y < 256) || (!(1 <= s.subcycle <= 3))) ==> !super::finished(t)
}

/// One bus cycle of lda indirect y.
pub(crate) open spec fn step_b1(s: NesCpu, t: NesCpu) -> bool {
    &&& s.subcycle == 1 ==> super::shows(s, t, "LDA ($"@ + super::hex_text(t.temp as nat, 2, false) + "),Y"@)
    &&& s.subcycle != 1 ==> super::keeps_debugger(s, t)
    &&& s.subcycle == 1 ==> {
        &&& t.subcycle == 2
        &&& super::read_at(t, super::pc_plus(s.pc, 1))
        &&& t.temp == super::data(t)
    }
    &&& s.subcycle == 2 ==> {
        &&& t.subcycle == 3
        &&& super::read_at(t, s.temp as u16)
        &&& t.temp2 == super::data(t)
        &&& t.temp == s.temp
    }
    &&& s.subcycle == 3 ==> {
        &&& t.subcycle == 4
        &&& super::read_at(t, super::zp_index(s.temp, 1))
        &&& t.temp == super::data(t)
        &&& t.temp2 == s.temp2
    }
    &&& s.subcycle == 4 && s.temp2 + s.y >= 256 ==> {
        &&& t.subcycle == 5
        &&& super::read_at(t, super::word(((s.temp2 + s.y) % 256) as u8, s.temp))
    }
    &&& !super::finished(t) ==> super::arch_same(s, t)
    &&& (s.subcycle == 4 && s.temp2 + s.y < 256) || (!(1 <= s.subcycle <= 4)) ==> {
        &&& super::finished(t)
        &&& super::read_at(t, super::abs_index(super::word(s.temp2, s.temp), s.y))
        &&& t.pc == super::pc_plus(s.pc, 2)
        &&& t.a == super::data(t)
        &&& t.p == super::nz_flags(s.p, super::data(t))
        &&& t.x == s.x
        &&& t.y == s.y
        &&& t.s == s.s
    }
    &&& !((s.subcycle == 4 && s.temp2 + s.y < 256) || (!(1 <= s.subcycle <= 4))) ==> !super::finished(t)
}

/// One bus cycle of stx zero page.
pub(crate) open spec fn step_86(s: NesCpu, t: NesCpu) -> bool {
    &&& s.subcycle == 1 ==> super::shows(s, t, "STX $"@ + super::hex_text(t.temp as nat, 2, false) + ""@)
    &&& s.subcycle != 1 ==> super::keeps_debugger(s, t)
    &&& s.subcycle == 1 ==> {
        &&& t.subcycle == 2
        &&& super::read_at(t, super::pc_plus(s.pc, 1))
        &&& t.temp == super::data(t)
    }
    &&& !super::finished(t) ==> super::arch_same(s, t)
    &&& s.subcycle != 1 ==> {
        &&& super::finished(t)
        &&& super::write_at(t, s.temp as u16, s.x)
        &&& t.pc == super::pc_plus(s.pc, 2)
        &&& t.a == s.a
        &&& t.x == s.x
        &&& t.y == s.y
        &&& t.s == s.s
        &&& t.p == s.p
    }
    &&& !(s.subcycle != 1) ==> !super::finished(t)
}

/// One bus cycle of stx zero page y.
pub(crate) open spec fn step_96(s: NesCpu, t: NesCpu) -> bool {
    &&& s.subcycle == 1 ==> super::shows(s, t, "STX $"@ + super::hex_text(t.temp as nat, 2, false) + ",Y"@)
    &&& s.subcycle != 1 ==> super::keeps_debugger(s, t)
    &&& s.subcycle == 1 ==> {
        &&& t.subcycle == 2
        &&& super::read_at(t, super::pc_plus(s.pc, 1))
        &&& t.temp == super::data(t)
    }
    &&& s.subcycle == 2 ==> {
        &&& t.subcycle == 3
        &&& super::read_at(t, s.temp as u16)
        &&& t.temp == s.temp
    }
    &&& !super::finished(t) ==> super::arch_same(s, t)
    &&& !(1 <= s.subcycle <= 2) ==> {
        &&& super::finished(t)
        &&& super::write_at(t, super::zp_index(s.temp, s.y), s.x)
        &&& t.pc == super::pc_plus(s.pc, 2)
        &&& t.a == s.a
        &&& t.x == s.x
        &&& t.y == s.y
        &&& t.s == s.s
        &&& t.p == s.p
    }
    &&& !(!(1 <= s.subcycle <= 2)) ==> !super::finished(t)
}

/// One bus cycle of stx, store x absolute.
pub(crate) open spec fn step_8e(s: NesCpu, t: NesCpu) -> bool {
    &&& s.subcycle == 2 ==> super::shows(s, t, "STX $"@ + super::hex_text(super::word(t.temp, t.temp2) as nat, 4, false) + ""@)
    &&& s.subcycle != 2 ==> super::keeps_debugger(s, t)
    &&& s.subcycle == 1 ==> {
        &&& t.subcycle == 2
        &&& super::read_at(t, super::pc_plus(s.pc, 1))
        &&& t.temp == super::data(t)
    }
    &&& s.subcycle == 2 ==> {
        &&& t.subcycle == 3
        &&& super::read_at(t, super::pc_plus(s.pc, 2))
        &&& t.temp2 == super::data(t)
        &&& t.temp == s.temp
    }
    &&& !super::finished(t) ==> super::arch_same(s, t)
    &&& !(1 <= s.subcycle <= 2) ==> {
        &&& super::finished(t)
        &&& super::write_at(t, super::word(s.temp, s.temp2), s.x)
        &&& t.pc == super::pc_plus(s.pc, 3)
        &&& t.a == s.a
        &&& t.x == s.x
        &&& t.y == s.y
        &&& t.s == s.s
        &&& t.p == s.p
    }
    &&& !(!(1 <= s.subcycle <= 2)) ==> !super::finished(t)
}

/// One bus cycle of special nop.
pub(crate) open spec fn step_82(s: NesCpu, t: NesCpu) -> bool {
    &&& super::shows(s, t, "NOP* #$"@ + super::hex_text(super::data(t) as nat, 2, false) + ""@)
    &&& !super::finished(t) ==> super::arch_same(s, t)
    &&& super::finished(t)
    &&& super::read_at(t, super::pc_plus(s.pc, 1))
    &&& t.pc == super::pc_plus(s.pc, 2)
    &&& t.a == s.a
    &&& t.x == s.x
    &&& t.y == s.y
    &&& t.s == s.s
    &&& t.p == s.p
}

/// One bus cycle of special nop.
pub(crate) open spec fn step_89(s: NesCpu, t: NesCpu) -> bool {
    &&& super::shows(s, t, "NOP* #$"@ + super::hex_text(t.temp as nat, 2, false) + ""@)
    &&& !super::finished(t) ==> super::arch_same(s, t)
    &&& super::finished(t)
    &&& super::read_at(t, super::pc_plus(s.pc, 1))
    &&& t.pc == super::pc_plus(s.pc, 2)
    &&& t.a == s.a
    &&& t.x == s.x
    &&& t.y == s.y
    &&& t.s == s.s
    &&& t.p == s.p
}

/// One bus cycle of extra nop.
pub(crate) open spec fn step_04(s: NesCpu, t: NesCpu) -> bool {
    &&& s.subcycle == 1 ==> super::shows(s, t, "NOP"@)
    &&& s.subcycle != 1 ==> super::keeps_debugger(s, t)
    &&& s.subcycle == 1 ==> {
        &&& t.subcycle == 2
        &&& super::read_at(t, super::pc_plus(s.pc, 1))
        &&& t.temp == super::data(t)
    }
    &&& !super::finished(t) ==> super::arch_same(s, t)
    &&& s.subcycle != 1 ==> {
        &&& super::finished(t)
        &&& super::read_at(t, s.temp as u16)
        &&& t.pc == super::pc_plus(s.pc, 2)
        &&& t.a == s.a
        &&& t.x == s.x
        &&& t.y == s.y
        &&& t.s == s.s
        &&& t.p == s.p
    }
    &&& !(s.subcycle != 1) ==> !super::finished(t)
}

/// One bus cycle of extra nop.
pub(crate) open spec fn step_0c(s: NesCpu, t: NesCpu) -> bool {
    &&& s.subcycle == 2 ==> super::shows(s, t, "NOP"@)
    &&& s.subcycle != 2 ==> super::keeps_debugger(s, t)
    &&& s.subcycle == 1 ==> {
        &&& t.subcycle == 2
        &&& super::read_at(t, super::pc_plus(s.pc, 1))
        &&& t.temp == super::data(t)
    }
    &&& s.subcycle == 2 ==> {
        &&& t.subcycle == 3
        &&& super::read_at(t, super::pc_plus(s.pc, 2))
        &&& t.temp2 == super::data(t)
        &&& t.temp == s.temp
    }
    &&& !super::finished(t) ==> super::arch_same(s, t)
    &&& !(1 <= s.subcycle <= 2) ==> {
        &&& super::finished(t)
        &&& super::read_at(t, super::word(s.temp, s.temp2))
        &&& t.pc == super::pc_plus(s.pc, 3)
        &&& t.a == s.a
        &&& t.x == s.x
        &&& t.y == s.y
        &&& t.s == s.s
        &&& t.p == s.p
    }
    &&& !(!(1 <= s.subcycle <= 2)) ==> !super::finished(t)
}

/// One bus cycle of extra nop.
pub(crate) open spec fn step_14(s: NesCpu, t: NesCpu) -> bool {
    &&& s.subcycle == 1 ==> super::shows(s, t, "NOP"@)
    &&& s.subcycle != 1 ==> super::keeps_debugger(s, t)
    &&& s.subcycle == 1 ==> {
        &&& t.subcycle == 2
        &&& super::read_at(t, super::pc_plus(s.pc, 1))
        &&& t.temp == super::data(t)
    }
    &&& s.subcycle == 2 ==> {
        &&& t.subcycle == 3
        &&& super::read_at(t, s.temp as u16)
        &&& t.temp == s.temp
    }
    &&& !super::finished(t) ==> super::arch_same(s, t)
    &&& !(1 <= s.subcycle <= 2) ==> {
        &&& super::finished(t)
        &&& t.pc == super::pc_plus(s.pc, 2)
        &&& t.a == s.a
        &&& t.x == s.x
        &&& t.y == s.y
        &&& t.s == s.s
        &&& t.p == s.p
    }
    &&& !(!(1 <= s.subcycle <= 2)) ==> !super::finished(t)
}

/// One bus cycle of extra nop.
pub(crate) open spec fn step_1c(s: NesCpu, t: NesCpu) -> bool {
    &&& s.subcycle == 2 ==> super::shows(s, t, "NOP"@)
    &&& s.subcycle != 2 ==> super::keeps_debugger(s, t)
    &&& s.subcycle == 1 ==> {
        &&& t.subcycle == 2
        &&& super::read_at(t, super::pc_plus(s.pc, 1))
        &&& t.temp == super::data(t)
    }
    &&& s.subcycle == 2 ==> {
        &&& t.subcycle == 3
        &&& super::read_at(t, super::pc_plus(s.pc, 2))
        &&& t.temp2 == super::data(t)
        &&& t.temp == s.temp
    }
    &&& s.subcycle == 3 && s.temp + s.x >= 256 ==> {
        &&& t.subcycle == 4
        &&& super::read_at(t, super::word(((s.temp + s.x) % 256) as u8, s.temp2))
        &&& t.temp == s.temp && t.temp2 == s.temp2
    }
    &&& !super::finished(t) ==> super::arch_same(s, t)
    &&& (s.subcycle == 3 && s.temp + s.x < 256) || (!(1 <= s.subcycle <= 3)) ==> {
        &&& super::finished(t)
        &&& super::read_at(t, super::abs_index(super::word(s.temp, s.temp2), s.x))
        &&& t.pc == super::pc_plus(s.pc, 3)
        &&& t.a == s.a
        &&& t.x == s.x
        &&& t.y == s.y
        &&& t.s == s.s
        &&& t.p == s.p
    }
    &&& !((s.subcycle == 3 && s.temp + s.x < 256) || (!(1 <= s.subcycle <= 3))) ==> !super::finished(t)
}

/// One bus cycle of extra nop.
pub(crate) open spec fn step_80(s: NesCpu, t: NesCpu) -> bool {
    &&& super::shows(s, t, "NOP"@)
    &&& !super::finished(t) ==> super::arch_same(s, t)
    &&& super::finished(t)
    &&& super::read_at(t, super::pc_plus(s.pc, 1))
    &&& t.pc == super::pc_plus(s.pc, 2)
    &&& t.a == s.a
    &&& t.x == s.x
    &&& t.y == s.y
    &&& t.s == s.s
    &&& t.p == s.p
}

/// One bus cycle of lax (indirect x)?, undocumented.
pub(crate) open spec fn step_a3(s: NesCpu, t: NesCpu) -> bool {
    &&& s.subcycle == 1 ==> super::shows(s, t, "*LAX ($"@ + super::hex_text(t.temp as nat, 2, false) + ",X)"@)
    &&& s.subcycle != 1 ==> super::keeps_debugger(s, t)
    &&& s.subcycle == 3 ==> t.temp == s.temp && t.temp2 == s.temp2
    &&& s.subcycle == 1 ==> {
        &&& t.subcycle == 2
        &&& super::read_at(t, super::pc_plus(s.pc, 1))
        &&& t.temp == super::data(t)
    }
    &&& s.subcycle == 2 ==> {
        &&& t.subcycle == 3
        &&& t.temp == ((s.temp + s.x) % 256) as u8
        &&& super::read_at(t, super::zp_index(s.temp, s.x))
        &&& t.temp2 == super::data(t)
    }
    &&& s.subcycle == 3 ==> {
        &&& t.subcycle == 4
        &&& super::read_at(t, s.temp as u16)
    }
    &&& s.subcycle == 4 ==> {
        &&& t.subcycle == 5
        &&& super::read_at(t, super::zp_index(s.temp, 1))
        &&& t.temp == super::data(t)
        &&& t.temp2 == s.temp2
    }
    &&& !super::finished(t) ==> super::arch_same(s, t)
    &&& !(1 <= s.subcycle <= 4) ==> {
        &&& super::finished(t)
        &&& super::read_at(t, super::word(s.temp2, s.temp))
        &&& t.pc == super::pc_plus(s.pc, 2)
        &&& t.a == super::data(t)
        &&& t.x == super::data(t)
        &&& t.p == super::nz_flags(s.p, super::data(t))
        &&& t.y == s.y
        &&& t.s == s.s
    }
    &&& !(!(1 <= s.subcycle <= 4)) ==> !super::finished(t)
}

/// One bus cycle of lax zero page?, undocumented.
pub(crate) open spec fn step_a7(s: NesCpu, t: NesCpu) -> bool {
    &&& s.subcycle == 1 ==> super::shows(s, t, "*LAX $"@ + super::hex_text(t.temp as nat, 2, false) + ""@)
    &&& s.subcycle != 1 ==> super::keeps_debugger(s, t)
    &&& s.subcycle == 1 ==> {
        &&& t.subcycle == 2
        &&& super::read_at(t, super::pc_plus(s.pc, 1))
        &&& t.temp == super::data(t)
    }
    &&& !super::finished(t) ==> super::arch_same(s, t)
    &&& s.subcycle != 1 ==> {
        &&& super::finished(t)
        &&& super::read_at(t, s.temp as u16)
        &&& t.pc == super::pc_plus(s.pc, 2)
        &&& t.a == super::data(t)
        &&& t.x == super::data(t)
        &&& t.p == super::nz_flags(s.p, super::data(t))
        &&& t.y == s.y
        &&& t.s == s.s
    }
    &&& !(s.subcycle != 1) ==> !super::finished(t)
}

/// One bus cycle of lax absolute, undocumented.
pub(crate) open spec fn step_af(s: NesCpu, t: NesCpu) -> bool {
    &&& s.subcycle == 2 ==> super::shows(s, t, "*LAX $"@ + super::hex_text(super::word(t.temp, t.temp2) as nat, 4, false) + ""@)
    &&& s.subcycle != 2 ==> super::keeps_debugger(s, t)
    &&& s.subcycle == 1 ==> {
        &&& t.subcycle == 2
        &&& super::read_at(t, super::pc_plus(s.pc, 1))
        &&& t.temp == super::data(t)
    }
    &&& s.subcycle == 2 ==> {
        &&& t.subcycle == 3
        &&& super::read_at(t, super::pc_plus(s.pc, 2))
        &&& t.temp2 == super::data(t)
        &&& t.temp == s.temp
    }
    &&& !super::finished(t) ==> super::arch_same(s, t)
    &&& !(1 <= s.subcycle <= 2) ==> {
        &&& super::finished(t)
        &&& super::read_at(t, super::word(s.temp, s.temp2))
        &&& t.pc == super::pc_plus(s.pc, 3)
        &&& t.a == super::data(t)
        &&& t.x == super::data(t)
        &&& t.p == super::nz_flags(s.p, super::data(t))
        &&& t.y == s.y
        &&& t.s == s.s
    }
    &&& !(!(1 <= s.subcycle <= 2)) ==> !super::finished(t)
}

/// One bus cycle of lax indirect y, undocumented.
pub(crate) open spec fn step_b3(s: NesCpu, t: NesCpu) -> bool {
    &&& s.subcycle == 1 ==> super::shows(s, t, "*LAX ($"@ + super::hex_text(t.temp as nat, 2, false) + "),Y"@)
    &&& s.subcycle != 1 ==> super::keeps_debugger(s, t)
    &&& s.subcycle == 1 ==> {
        &&& t.subcycle == 2
        &&& super::read_at(t, super::pc_plus(s.pc, 1))
        &&& t.temp == super::data(t)
    }
    &&& s.subcycle == 2 ==> {
        &&& t.subcycle == 3
        &&& super::read_at(t, s.temp as u16)
        &&& t.temp2 == super::data(t)
        &&& t.temp == s.temp
    }
    &&& s.subcycle == 3 ==> {
        &&& t.subcycle == 4
        &&& super::read_at(t, super::zp_index(s.temp, 1))
        &&& t.temp == super::data(t)
        &&& t.temp2 == s.temp2
    }
    &&& s.subcycle == 4 && s.temp2 + s.y >= 256 ==> t.subcycle == 5
    &&& !super::finished(t) ==> super::arch_same(s, t)
    &&& (s.subcycle == 4 && s.temp2 + s.y < 256) || (!(1 <= s.subcycle <= 4)) ==> {
        &&& super::finished(t)
        &&& super::read_at(t, super::abs_index(super::word(s.temp2, s.temp), s.y))
        &&& t.pc == super::pc_plus(s.pc, 2)
        &&& t.a == super::data(t)
        &&& t.x == super::data(t)
        &&& t.p == super::nz_flags(s.p, super::data(t))
        &&& t.y == s.y
        &&& t.s == s.s
    }
    &&& !((s.subcycle == 4 && s.temp2 + s.y < 256) || (!(1 <= s.subcycle <= 4))) ==> !super::finished(t)
}

/// One bus cycle of lax zero page y, undocumented.
pub(crate) open spec fn step_b7(s: NesCpu, t: NesCpu) -> bool {
    &&& s.subcycle == 1 ==> super::shows(s, t, "*LAX $"@ + super::hex_text(t.temp as nat, 2, false) + ",Y"@)
    &&& s.subcycle != 1 ==> super::keeps_debugger(s, t)
    &&& s.subcycle == 1 ==> {
        &&& t.subcycle == 2
        &&& super::read_at(t, super::pc_plus(s.pc, 1))
        &&& t.temp == super::data(t)
    }
    &&& s.subcycle == 2 ==> {
        &&& t.subcycle == 3
        &&& super::read_at(t, s.temp as u16)
        &&& t.temp == s.temp
    }
    &&& !super::finished(t) ==> super::arch_same(s, t)
    &&& !(1 <= s.subcycle <= 2) ==> {
        &&& super::finished(t)
        &&& super::read_at(t, super::zp_index(s.temp, s.y))
        &&& t.pc == super::pc_plus(s.pc, 2)
        &&& t.a == super::data(t)
        &&& t.x == super::data(t)
        &&& t.p == super::nz_flags(s.p, super::data(t))
        &&& t.y == s.y
        &&& t.s == s.s
    }
    &&& !(!(1 <= s.subcycle <= 2)) ==> !super::finished(t)
}

/// One bus cycle of lax absolute y, undocumented.
pub(crate) open spec fn step_bf(s: NesCpu, t: NesCpu) -> bool {
    &&& s.subcycle == 2 ==> super::shows(s, t, "*LAX $"@ + super::hex_text(super::word(t.temp, t.temp2) as nat, 4, false) + ",Y"@)
    &&& s.subcycle != 2 ==> super::keeps_debugger(s, t)
    &&& s.subcycle == 1 ==> {
        &&& t.subcycle == 2
        &&& super::read_at(t, super::pc_plus(s.pc, 1))
        &&& t.temp == super::data(t)
    }
    &&& s.subcycle == 2 ==> {
        &&& t.subcycle == 3
        &&& super::read_at(t, super::pc_plus(s.pc, 2))
        &&& t.temp2 == super::data(t)
        &&& t.temp == s.temp
    }
    &&& s.subcycle == 3 && s.temp + s.y >= 256 ==> {
        &&& t.subcycle == 4
        &&& t.temp == s.temp && t.temp2 == s.temp2
    }
    &&& !super::finished(t) ==> super::arch_same(s, t)
    &&& (s.subcycle == 3 && s.temp + s.y < 256) || (!(1 <= s.subcycle <= 3)) ==> {
        &&& super::finished(t)
        &&& t.pc == super::pc_plus(s.pc, 3)
        &&& t.a == super::data(t)
        &&& t.x == super::data(t)
        &&& t.p == super::nz_flags(s.p, super::data(t))
        &&& t.y == s.y
        &&& t.s == s.s
    }
    &&& !((s.subcycle == 3 && s.temp + s.y < 256) || (!(1 <= s.subcycle <= 3))) ==> !super::finished(t)
}

/// One bus cycle of sax indirect x.
pub(crate) open spec fn step_83(s: NesCpu, t: NesCpu) -> bool {
    &&& s.subcycle == 1 ==> super::shows(s, t, "*SAX ($"@ + super::hex_text(t.temp as nat, 2, false) + ",X)"@)
    &&& s.subcycle != 1 ==> super::keeps_debugger(s, t)
    &&& s.subcycle == 1 ==> {
        &&& t.subcycle == 2
        &&& super::read_at(t, super::pc_plus(s.pc, 1))
        &&& t.temp == super::data(t)
    }
    &&& s.subcycle == 2 ==> {
        &&& t.subcycle == 3
        &&& super::read_at(t, super::zp_index(s.temp, s.x))
        &&& t.temp2 == super::data(t)
    }
    &&& s.subcycle == 3 ==> t.subcycle == 4
    &&& s.subcycle == 4 ==> {
        &&& t.subcycle == 5
        &&& t.temp == super::data(t)
        &&& t.temp2 == s.temp2
    }
    &&& !super::finished(t) ==> super::arch_same(s, t)
    &&& !(1 <= s.subcycle <= 4) ==> {
        &&& super::finished(t)
        &&& t.pc == super::pc_plus(s.pc, 2)
        &&& t.a == s.a
        &&& t.x == s.x
        &&& t.y == s.y
        &&& t.s == s.s
        &&& t.p == s.p
    }
    &&& !(!(1 <= s.subcycle <= 4)) ==> !super::finished(t)
    &&& s.subcycle == 2 ==> t.tempaddr == super::zp_index(s.temp, s.x) && t.temp == s.temp
    &&& s.subcycle == 3 ==> super::read_at(t, s.tempaddr) && t.temp == s.temp && t.temp2 == s.temp2
    &&& s.subcycle == 4 ==> super::read_at(t, ((s.temp + s.x + 1) % 256) as u16)
    &&& !(1 <= s.subcycle <= 4) ==> super::write_at(t, super::word(s.temp2, s.temp), s.x & s.a)
}

/// One bus cycle of sax zero page.
pub(crate) open spec fn step_87(s: NesCpu, t: NesCpu) -> bool {
    &&& s.subcycle == 1 ==> super::shows(s, t, "*SAX $"@ + super::hex_text(t.temp as nat, 2, false) + ""@)
    &&& s.subcycle != 1 ==> super::keeps_debugger(s, t)
    &&& s.subcycle == 1 ==> {
        &&& t.subcycle == 2
        &&& super::read_at(t, super::pc_plus(s.pc, 1))
        &&& t.temp == super::data(t)
    }
    &&& !super::finished(t) ==> super::arch_same(s, t)
    &&& s.subcycle != 1 ==> {
        &&& super::finished(t)
        &&& super::write_at(t, s.temp as u16, (s.a & s.x))
        &&& t.pc == super::pc_plus(s.pc, 2)
        &&& t.a == s.a
        &&& t.x == s.x
        &&& t.y == s.y
        &&& t.s == s.s
        &&& t.p == s.p
    }
    &&& !(s.subcycle != 1) ==> !super::finished(t)
}

/// One bus cycle of sax absolute.
pub(crate) open spec fn step_8f(s: NesCpu, t: NesCpu) -> bool {
    &&& s.subcycle == 2 ==> super::shows(s, t, "*SAX $"@ + super::hex_text(super::word(t.temp, t.temp2) as nat, 4, false) + ""@)
    &&& s.subcycle != 2 ==> super::keeps_debugger(s, t)
    &&& s.subcycle == 1 ==> {
        &&& t.subcycle == 2
        &&& super::read_at(t, super::pc_plus(s.pc, 1))
        &&& t.temp == super::data(t)
    }
    &&& s.subcycle == 2 ==> {
        &&& t.subcycle == 3
        &&& super::read_at(t, super::pc_plus(s.pc, 2))
        &&& t.temp2 == super::data(t)
        &&& t.temp == s.temp
    }
    &&& !super::finished(t) ==> super::arch_same(s, t)
    &&& !(1 <= s.subcycle <= 2) ==> {
        &&& super::finished(t)
        &&& super::write_at(t, super::word(s.temp, s.temp2), (s.a & s.x))
        &&& t.pc == super::pc_plus(s.pc, 3)
        &&& t.a == s.a
        &&& t.x == s.x
        &&& t.y == s.y
        &&& t.s == s.s
        &&& t.p == s.p
    }
    &&& !(!(1 <= s.subcycle <= 2)) ==> !super::finished(t)
}

/// One bus cycle of sax absolute y.
pub(crate) open spec fn step_97(s: NesCpu, t: NesCpu) -> bool {
    &&& s.subcycle == 1 ==> super::shows(s, t, "*SAX $"@ + super::hex_text(t.temp as nat, 2, false) + ",Y"@)
    &&& s.subcycle != 1 ==> super::keeps_debugger(s, t)
    &&& s.subcycle == 1 ==> {
        &&& t.subcycle == 2
        &&& super::read_at(t, super::pc_plus(s.pc, 1))
        &&& t.temp == super::data(t)
    }
    &&& s.subcycle == 2 ==> {
        &&& t.subcycle == 3
        &&& t.temp == s.temp
    }
    &&& !super::finished(t) ==> super::arch_same(s, t)
    &&& !(1 <= s.subcycle <= 2) ==> {
        &&& super::finished(t)
        &&& super::write_at(t, super::zp_index(s.temp, s.y), (s.a & s.x))
        &&& t.pc == super::pc_plus(s.pc, 2)
        &&& t.a == s.a
        &&& t.x == s.x
        &&& t.y == s.y
        &&& t.s == s.s
        &&& t.p == s.p
    }
    &&& !(!(1 <= s.subcycle <= 2)) ==> !super::finished(t)
}

/// One bus cycle of lax undocumented, lda immediate, then tax.
pub(crate) open spec fn step_ab(s: NesCpu, t: NesCpu) -> bool {
    &&& super::shows(s, t, "*LAX #$"@ + super::hex_text(t.temp as nat, 2, false) + ""@)
    &&& !super::finished(t) ==> super::arch_same(s, t)
    &&& super::finished(t)
    &&& super::read_at(t, super::pc_plus(s.pc, 1))
    &&& t.pc == super::pc_plus(s.pc, 2)
    &&& t.a == super::data(t)
    &&& t.x == super::data(t)
    &&& t.p == super::nz_flags(s.p, super::data(t))
    &&& t.y == s.y
    &&& t.s == s.s
}

/// One bus cycle of SHY, undocumented.
pub(crate) open spec fn step_9c(s: NesCpu, t: NesCpu) -> bool {
    &&& s.subcycle == 2 ==> super::shows(s, t, "*SHY $"@ + super::hex_text(super::word(t.temp, t.temp2) as nat, 4, false) + ",X"@)
    &&& s.subcycle != 2 ==> super::keeps_debugger(s, t)
    &&& s.subcycle == 1 ==> {
        &&& t.subcycle == 2
        &&& super::read_at(t, super::pc_plus(s.pc, 1))
        &&& t.temp == super::data(t)
    }
    &&& s.subcycle == 2 ==> {
        &&& t.subcycle == 3
        &&& super::read_at(t, super::pc_plus(s.pc, 2))
        &&& t.temp2 == super::data(t)
        &&& t.temp == s.temp
    }
    &&& super::finished(t) ==> {
        &&& t.last_bus@.write
        &&& t.pc == super::pc_plus(s.pc, 3)
    }
    &&& !super::finished(t) ==> super::arch_same(s, t)
    &&& t.a == s.a
    &&& t.x == s.x
    &&& t.y == s.y
    &&& t.s == s.s
    &&& t.p == s.p
    &&& s.subcycle >= 4 ==> super::write_at(t, super::sh_address(s.temp, s.temp2, s.x, s.y), super::sh_value(s.temp2, s.y))
}

/// One bus cycle of SHX, undocumented.
pub(crate) open spec fn step_9e(s: NesCpu, t: NesCpu) -> bool {
    &&& s.subcycle == 2 ==> super::shows(s, t, "*SHX $"@ + super::hex_text(super::word(t.temp, t.temp2) as nat, 4, false) + ",Y"@)
    &&& s.subcycle != 2 ==> super::keeps_debugger(s, t)
    &&& s.subcycle == 1 ==> {
        &&& t.subcycle == 2
        &&& super::read_at(t, super::pc_plus(s.pc, 1))
        &&& t.temp == super::data(t)
    }
    &&& s.subcycle == 2 ==> {
        &&& t.subcycle == 3
        &&& super::read_at(t, super::pc_plus(s.pc, 2))
        &&& t.temp2 == super::data(t)
        &&& t.temp == s.temp
    }
    &&& super::finished(t) ==> {
        &&& t.last_bus@.write
        &&& t.pc == super::pc_plus(s.pc, 3)
    }
    &&& !super::finished(t) ==> super::arch_same(s, t)
    &&& t.a == s.a
    &&& t.x == s.x
    &&& t.y == s.y
    &&& t.s == s.s
    &&& t.p == s.p
    &&& s.subcycle >= 4 ==> super::write_at(t, super::sh_address(s.temp, s.temp2, s.y, s.x), super::sh_value(s.temp2, s.x))
}

impl NesCpu {
    /// sta, store a zero page
    #[verifier::rlimit(100)]
    #[verifier::spinoff_prover]
    pub(crate) fn op_85<C: CartridgeDevice, K: ControllerDevice, P: PpuDevice, A: ApuDevice>(
        &mut self,
        bus: &mut NesMotherboard<C, K>,
        cpu_peripherals: &mut NesCpuPeripherals<P, A>,
    )
        requires
            old(self).inv(),
            !old(self).reset,
            old(self).opcode == Some(0x85u8),
            !old(self).bus_used@,
        ensures
            final(self).inv(),
            !final(self).reset,
            step_85(*old(self), *final(self)),
            final(self).opcode == old(self).opcode || super::finished(*final(self)),
            super::ram_effect(old(bus).spec_ram(), final(bus).spec_ram(), final(self).bus_used@, final(self).last_bus@),
            super::bus_effect(*old(bus), *old(cpu_peripherals), *final(bus), *final(cpu_peripherals), final(self).bus_used@, final(self).last_bus@),
            final(self).dmc_dma == old(self).dmc_dma,
            final(self).nmi_detected == old(self).nmi_detected,
            final(self).prev_nmi == old(self).prev_nmi,
    {
        {
            match self.subcycle {
                1 => {
                    self.temp = self.memory_cycle_read(self.pc.wrapping_add(1),
                        bus,
                        cpu_peripherals,
                    );
                    {
                        self.copy_debugger(hex8_text("STA $", self.temp, ""));
                        self.done_fetching = true;
                    }
                    self.subcycle = 2;
                }
                _ => {
                    self.memory_cycle_write(self.temp as u16, self.a, bus, cpu_peripherals);
                    self.pc = self.pc.wrapping_add(2);
                    self.end_instruction();
                }
            }
        }
    }

    /// sta, store a zero page x
    #[verifier::rlimit(100)]
    #[verifier::spinoff_prover]
    pub(crate) fn op_95<C: CartridgeDevice, K: ControllerDevice, P: PpuDevice, A: ApuDevice>(
        &mut self,
        bus: &mut NesMotherboard<C, K>,
        cpu_peripherals: &mut NesCpuPeripherals<P, A>,
    )
        requires
            old(self).inv(),
            !old(self).reset,
            old(self).opcode == Some(0x95u8),
            !old(self).bus_used@,
        ensures
            final(self).inv(),
            !final(self).reset,
            step_95(*old(self), *final(self)),
            final(self).opcode == old(self).opcode || super::finished(*final(self)),
            super::ram_effect(old(bus).spec_ram(), final(bus).spec_ram(), final(self).bus_used@, final(self).last_bus@),
            super::bus_effect(*old(bus), *old(cpu_peripherals), *final(bus), *final(cpu_peripherals), final(self).bus_used@, final(self).last_bus@),
            final(self).dmc_dma == old(self).dmc_dma,
            final(self).nmi_detected == old(self).nmi_detected,
            final(self).prev_nmi == old(self).prev_nmi,
    {
        {
            match self.subcycle {
                1 => {
                    self.temp = self.memory_cycle_read(self.pc.wrapping_add(1),
                        bus,
                        cpu_peripherals,
                    );
                    {
                        self.copy_debugger(hex8_text("STA $", self.temp, ",X"));
                        self.done_fetching = true;
                    }
                    self.subcycle = 2;
                }
                2 => {
                    self.memory_cycle_read(self.temp as u16, bus, cpu_peripherals);
                    self.subcycle = 3;
                }
                _ => {
                    self.memory_cycle_write(
                        self.temp.wrapping_add(self.x) as u16,
                        self.a,
                        bus,
                        cpu_peripherals,
                    );
                    self.pc = self.pc.wrapping_add(2);
                    self.end_instruction();
                }
            }
        }
    }

    /// sta absolute
    #[verifier::rlimit(100)]
    #[verifier::spinoff_prover]
    pub(crate) fn op_8d<C: CartridgeDevice, K: ControllerDevice, P: PpuDevice, A: ApuDevice>(
        &mut self,
        bus: &mut NesMotherboard<C, K>,
        cpu_peripherals: &mut NesCpuPeripherals<P, A>,
    )
        requires
            old(self).inv(),
            !old(self).reset,
            old(self).opcode == Some(0x8du8),
            !old(self).bus_used@,
        ensures
            final(self).inv(),
            !final(self).reset,
            step_8d(*old(self), *final(self)),
            final(self).opcode == old(self).opcode || super::finished(*final(self)),
            super::ram_effect(old(bus).spec_ram(), final(bus).spec_ram(), final(self).bus_used@, final(self).last_bus@),
            super::bus_effect(*old(bus), *old(cpu_peripherals), *final(bus), *final(cpu_peripherals), final(self).bus_used@, final(self).last_bus@),
            final(self).dmc_dma == old(self).dmc_dma,
            final(self).nmi_detected == old(self).nmi_detected,
            final(self).prev_nmi == old(self).prev_nmi,
    {
        {
            match self.subcycle {
                1 => {
                    self.temp = self.memory_cycle_read(self.pc.wrapping_add(1),
                        bus,
                        cpu_peripherals,
                    );
                    self.subcycle = 2;
                }
                2 => {
                    self.temp2 = self.memory_cycle_read(self.pc.wrapping_add(2),
                        bus,
                        cpu_peripherals,
                    );
                    {
                        let temp = (self.temp2 as u16) << 8 | self.temp as u16;
                        self.copy_debugger(hex16_text("STA $", temp, ""));
                        self.done_fetching = true;
                    }
                    proof {
                        super::lemma_word(self.temp, self.temp2);
                    }
                    self.subcycle = 3;
                }
                _ => {
                    let temp = (self.temp2 as u16) << 8 | self.temp as u16;
                    self.memory_cycle_write(temp, self.a, bus, cpu_peripherals);
                    self.pc = self.pc.wrapping_add(3);
                    self.end_instruction();
                }
            }
        }
        proof {
            super::lemma_word(old(self).temp, old(self).temp2);
        }
    }

    /// sta absolute x
    #[verifier::rlimit(100)]
    #[verifier::spinoff_prover]
    pub(crate) fn op_9d<C: CartridgeDevice, K: ControllerDevice, P: PpuDevice, A: ApuDevice>(
        &mut self,
        bus: &mut NesMotherboard<C, K>,
        cpu_peripherals: &mut NesCpuPeripherals<P, A>,
    )
        requires
            old(self).inv(),
            !old(self).reset,
            old(self).opcode == Some(0x9du8),
            !old(self).bus_used@,
        ensures
            final(self).inv(),
            !final(self).reset,
            step_9d(*old(self), *final(self)),
            final(self).opcode == old(self).opcode || super::finished(*final(self)),
            super::ram_effect(old(bus).spec_ram(), final(bus).spec_ram(), final(self).bus_used@, final(self).last_bus@),
            super::bus_effect(*old(bus), *old(cpu_peripherals), *final(bus), *final(cpu_peripherals), final(self).bus_used@, final(self).last_bus@),
            final(self).dmc_dma == old(self).dmc_dma,
            final(self).nmi_detected == old(self).nmi_detected,
            final(self).prev_nmi == old(self).prev_nmi,
    {
        {
            match self.subcycle {
                1 => {
                    self.temp = self.memory_cycle_read(self.pc.wrapping_add(1),
                        bus,
                        cpu_peripherals,
                    );
                    self.subcycle = 2;
                }
                2 => {
                    self.temp2 = self.memory_cycle_read(self.pc.wrapping_add(2),
                        bus,
                        cpu_peripherals,
                    );
                    {
                        let temp = (self.temp2 as u16) << 8 | self.temp as u16;
                        self.copy_debugger(hex16_text("STA $", temp, ",X"));
                        self.done_fetching = true;
                    }
                    proof {
                        super::lemma_word(self.temp, self.temp2);
                    }
                    self.subcycle = 3;
                }
                3 => {
                    let temp = self.temp.wrapping_add(self.x);
                    self.memory_cycle_read((self.temp2 as u16) << 8 | temp as u16,
                        bus,
                        cpu_peripherals,
                    );
                    self.subcycle = 4;
                }
                _ => {
                    let mut addr = (self.temp2 as u16) << 8 | (self.temp as u16);
                    addr = addr.wrapping_add(self.x as u16);
                    self.memory_cycle_write(addr, self.a, bus, cpu_peripherals);
                    self.pc = self.pc.wrapping_add(3);
                    self.end_instruction();
                }
            }
        }
        proof {
            super::lemma_word(old(self).temp, old(self).temp2);
            super::lemma_word(((old(self).temp as int + old(self).x as int) % 256) as u8, old(self).temp2);
        }
    }

    /// sta absolute y
    #[verifier::rlimit(100)]
    #[verifier::spinoff_prover]
    pub(crate) fn op_99<C: CartridgeDevice, K: ControllerDevice, P: PpuDevice, A: ApuDevice>(
        &mut self,
        bus: &mut NesMotherboard<C, K>,
        cpu_peripherals: &mut NesCpuPeripherals<P, A>,
    )
        requires
            old(self).inv(),
            !old(self).reset,
            old(self).opcode == Some(0x99u8),
            !old(self).bus_used@,
        ensures
            final(self).inv(),
            !final(self).reset,
            step_99(*old(self), *final(self)),
            final(self).opcode == old(self).opcode || super::finished(*final(self)),
            super::ram_effect(old(bus).spec_ram(), final(bus).spec_ram(), final(self).bus_used@, final(self).last_bus@),
            super::bus_effect(*old(bus), *old(cpu_peripherals), *final(bus), *final(cpu_peripherals), final(self).bus_used@, final(self).last_bus@),
            final(self).dmc_dma == old(self).dmc_dma,
            final(self).nmi_detected == old(self).nmi_detected,
            final(self).prev_nmi == old(self).prev_nmi,
    {
        {
            match self.subcycle {
                1 => {
                    self.temp = self.memory_cycle_read(self.pc.wrapping_add(1),
                        bus,
                        cpu_peripherals,
                    );
                    self.subcycle = 2;
                }
                2 => {
                    self.temp2 = self.memory_cycle_read(self.pc.wrapping_add(2),
                        bus,
                        cpu_peripherals,
                    );
                    {
                        let temp = (self.temp2 as u16) << 8 | self.temp as u16;
                        self.copy_debugger(hex16_text("STA $", temp, ",Y"));
                        self.done_fetching = true;
                    }
                    proof {
                        super::lemma_word(self.temp, self.temp2);
                    }
                    self.subcycle = 3;
                }
                3 => {
                    let val = self.temp.wrapping_add(self.y);
                    self.memory_cycle_read((self.temp2 as u16) << 8 | val as u16,
                        bus,
                        cpu_peripherals,
                    );
                    self.subcycle = 4;
                }
                _ => {
                    let mut addr = (self.temp2 as u16) << 8 | (self.temp as u16);
                    addr = addr.wrapping_add(self.y as u16);
                    self.memory_cycle_write(addr, self.a, bus, cpu_peripherals);
                    self.pc = self.pc.wrapping_add(3);
                    self.end_instruction();
                }
            }
        }
        proof {
            super::lemma_word(old(self).temp, old(self).temp2);
            super::lemma_word(((old(self).temp as int + old(self).y as int) % 256) as u8, old(self).temp2);
        }
    }

    /// sta indirect x
    #[verifier::rlimit(100)]
    #[verifier::spinoff_prover]
    pub(crate) fn op_81<C: CartridgeDevice, K: ControllerDevice, P: PpuDevice, A: ApuDevice>(
        &mut self,
        bus: &mut NesMotherboard<C, K>,
        cpu_peripherals: &mut NesCpuPeripherals<P, A>,
    )
        requires
            old(self).inv(),
            !old(self).reset,
            old(self).opcode == Some(0x81u8),
            !old(self).bus_used@,
        ensures
            final(self).inv(),
            !final(self).reset,
            step_81(*old(self), *final(self)),
            final(self).opcode == old(self).opcode || super::finished(*final(self)),
            super::ram_effect(old(bus).spec_ram(), final(bus).spec_ram(), final(self).bus_used@, final(self).last_bus@),
            super::bus_effect(*old(bus), *old(cpu_peripherals), *final(bus), *final(cpu_peripherals), final(self).bus_used@, final(self).last_bus@),
            final(self).dmc_dma == old(self).dmc_dma,
            final(self).nmi_detected == old(self).nmi_detected,
            final(self).prev_nmi == old(self).prev_nmi,
    {
        {
            match self.subcycle {
                1 => {
                    self.temp = self.memory_cycle_read(self.pc.wrapping_add(1),
                        bus,
                        cpu_peripherals,
                    );
                    {
                        self.copy_debugger(hex8_text("STA ($", self.temp, ",X)"));
                        self.done_fetching = true;
                    }
                    self.subcycle = 2;
                }
                2 => {
                    self.temp = self.temp.wrapping_add(self.x);
                    self.temp2 =
                    self.memory_cycle_read(self.temp as u16, bus, cpu_peripherals);
                    self.subcycle = 3;
                }
                3 => {
                    self.memory_cycle_read(self.temp as u16, bus, cpu_peripherals);
                    self.subcycle = 4;
                }
                4 => {
                    self.temp = self.memory_cycle_read(self.temp.wrapping_add(1) as u16,
                        bus,
                        cpu_peripherals,
                    );
                    self.subcycle = 5;
                }
                _ => {
                    let addr = (self.temp as u16) << 8 | (self.temp2 as u16);
                    self.memory_cycle_write(addr, self.a, bus, cpu_peripherals);
                    self.pc = self.pc.wrapping_add(2);
                    self.end_instruction();
                }
            }
        }
        proof {
            super::lemma_word(old(self).temp2, old(self).temp);
            super::lemma_word(((old(self).temp2 as int + old(self).y as int) % 256) as u8, old(self).temp);
        }
    }

    /// sta indirect y
    #[verifier::rlimit(100)]
    #[verifier::spinoff_prover]
    pub(crate) fn op_91<C: CartridgeDevice, K: ControllerDevice, P: PpuDevice, A: ApuDevice>(
        &mut self,
        bus: &mut NesMotherboard<C, K>,
        cpu_peripherals: &mut NesCpuPeripherals<P, A>,
    )
        requires
            old(self).inv(),
            !old(self).reset,
            old(self).opcode == Some(0x91u8),
            !old(self).bus_used@,
        ensures
            final(self).inv(),
            !final(self).reset,
            step_91(*old(self), *final(self)),
            final(self).opcode == old(self).opcode || super::finished(*final(self)),
            super::ram_effect(old(bus).spec_ram(), final(bus).spec_ram(), final(self).bus_used@, final(self).last_bus@),
            super::bus_effect(*old(bus), *old(cpu_peripherals), *final(bus), *final(cpu_peripherals), final(self).bus_used@, final(self).last_bus@),
            final(self).dmc_dma == old(self).dmc_dma,
            final(self).nmi_detected == old(self).nmi_detected,
            final(self).prev_nmi == old(self).prev_nmi,
    {
        {
            match self.subcycle {
                1 => {
                    self.temp = self.memory_cycle_read(self.pc.wrapping_add(1),
                        bus,
                        cpu_peripherals,
                    );
                    {
                        self.copy_debugger(hex8_text("STA ($", self.temp, "),Y"));
                        self.done_fetching = true;
                    }
                    self.subcycle = 2;
                }
                2 => {
                    self.temp2 =
                    self.memory_cycle_read(self.temp as u16, bus, cpu_peripherals);
                    self.subcycle = 3;
                }
                3 => {
                    self.temp = self.memory_cycle_read(self.temp.wrapping_add(1) as u16,
                        bus,
                        cpu_peripherals,
                    );
                    self.subcycle = 4;
                }
                4 => {
                    let temp2 = self.temp2.wrapping_add(self.y);
                    self.memory_cycle_read((self.temp as u16) << 8 | temp2 as u16,
                        bus,
                        cpu_peripherals,
                    );
                    self.subcycle = 5;
                }
                _ => {
                    let mut addr = (self.temp as u16) << 8 | (self.temp2 as u16);
                    addr = addr.wrapping_add(self.y as u16);
                    self.memory_cycle_write(addr, self.a, bus, cpu_peripherals);
                    self.pc = self.pc.wrapping_add(2);
                    self.end_instruction();
                }
            }
        }
        proof {
            super::lemma_word(old(self).temp2, old(self).temp);
            super::lemma_word(((old(self).temp2 as int + old(self).y as int) % 256) as u8, old(self).temp);
        }
    }

    /// ldx immediate
    #[verifier::rlimit(100)]
    #[verifier::spinoff_prover]
    pub(crate) fn op_a2<C: CartridgeDevice, K: ControllerDevice, P: PpuDevice, A: ApuDevice>(
        &mut self,
        bus: &mut NesMotherboard<C, K>,
        cpu_peripherals: &mut NesCpuPeripherals<P, A>,
    )
        requires
            old(self).inv(),
            !old(self).reset,
            old(self).opcode == Some(0xa2u8),
            !old(self).bus_used@,
        ensures
            final(self).inv(),
            !final(self).reset,
            step_a2(*old(self), *final(self)),
            final(self).opcode == old(self).opcode || super::finished(*final(self)),
            super::ram_effect(old(bus).spec_ram(), final(bus).spec_ram(), final(self).bus_used@, final(self).last_bus@),
            super::bus_effect(*old(bus), *old(cpu_peripherals), *final(bus), *final(cpu_peripherals), final(self).bus_used@, final(self).last_bus@),
            final(self).dmc_dma == old(self).dmc_dma,
            final(self).nmi_detected == old(self).nmi_detected,
            final(self).prev_nmi == old(self).prev_nmi,
    {
        {
            self.temp = self.memory_cycle_read(self.pc.wrapping_add(1),
                bus,
                cpu_peripherals,
            );
            {
                self.copy_debugger(hex8_text("LDX #$", self.temp, ""));
                self.done_fetching = true;
            }
            self.x = self.temp;
            self.p &= !(CPU_FLAG_ZERO | CPU_FLAG_NEGATIVE);
            if self.x == 0 {
                self.p |= CPU_FLAG_ZERO;
            }
            if (self.x & 0x80) != 0 {
                self.p |= CPU_FLAG_NEGATIVE;
            }
            self.pc = self.pc.wrapping_add(2);
            self.end_instruction();
        }
        proof {
            super::lemma_nz(old(self).p, self.last_bus@.data);
        }
    }

    /// ldx zero page
    #[verifier::rlimit(100)]
    #[verifier::spinoff_prover]
    pub(crate) fn op_a6<C: CartridgeDevice, K: ControllerDevice, P: PpuDevice, A: ApuDevice>(
        &mut self,
        bus: &mut NesMotherboard<C, K>,
        cpu_peripherals: &mut NesCpuPeripherals<P, A>,
    )
        requires
            old(self).inv(),
            !old(self).reset,
            old(self).opcode == Some(0xa6u8),
            !old(self).bus_used@,
        ensures
            final(self).inv(),
            !final(self).reset,
            step_a6(*old(self), *final(self)),
            final(self).opcode == old(self).opcode || super::finished(*final(self)),
            super::ram_effect(old(bus).spec_ram(), final(bus).spec_ram(), final(self).bus_used@, final(self).last_bus@),
            super::bus_effect(*old(bus), *old(cpu_peripherals), *final(bus), *final(cpu_peripherals), final(self).bus_used@, final(self).last_bus@),
            final(self).dmc_dma == old(self).dmc_dma,
            final(self).nmi_detected == old(self).nmi_detected,
            final(self).prev_nmi == old(self).prev_nmi,
    {
        {
            match self.subcycle {
                1 => {
                    self.temp = self.memory_cycle_read(self.pc.wrapping_add(1),
                        bus,
                        cpu_peripherals,
                    );
                    {
                        self.copy_debugger(hex8_text("LDX $", self.temp, ""));
                        self.done_fetching = true;
                    }
                    self.subcycle = 2;
                }
                _ => {
                    self.x =
                    self.memory_cycle_read(self.temp as u16, bus, cpu_peripherals);
                    self.p &= !(CPU_FLAG_ZERO | CPU_FLAG_NEGATIVE);
                    if self.x == 0 {
                        self.p |= CPU_FLAG_ZERO;
                    }
                    if (self.x & 0x80) != 0 {
                        self.p |= CPU_FLAG_NEGATIVE;
                    }
                    self.pc = self.pc.wrapping_add(2);
                    self.end_instruction();
                }
            }
        }
        proof {
            super::lemma_nz(old(self).p, self.last_bus@.data);
        }
    }

    /// ldx zero page y
    #[verifier::rlimit(100)]
    #[verifier::spinoff_prover]
    pub(crate) fn op_b6<C: CartridgeDevice, K: ControllerDevice, P: PpuDevice, A: ApuDevice>(
        &mut self,
        bus: &mut NesMotherboard<C, K>,
        cpu_peripherals: &mut NesCpuPeripherals<P, A>,
    )
        requires
            old(self).inv(),
            !old(self).reset,
            old(self).opcode == Some(0xb6u8),
            !old(self).bus_used@,
        ensures
            final(self).inv(),
            !final(self).reset,
            step_b6(*old(self), *final(self)),
            final(self).opcode == old(self).opcode || super::finished(*final(self)),
            super::ram_effect(old(bus).spec_ram(), final(bus).spec_ram(), final(self).bus_used@, final(self).last_bus@),
            super::bus_effect(*old(bus), *old(cpu_peripherals), *final(bus), *final(cpu_peripherals), final(self).bus_used@, final(self).last_bus@),
            final(self).dmc_dma == old(self).dmc_dma,
            final(self).nmi_detected == old(self).nmi_detected,
            final(self).prev_nmi == old(self).prev_nmi,
    {
        {
            match self.subcycle {
                1 => {
                    self.subcycle = 2;
                    self.temp = self.memory_cycle_read(self.pc.wrapping_add(1),
                        bus,
                        cpu_peripherals,
                    );
                    {
                        self.copy_debugger(hex8_text("LDX $", self.temp, ",Y"));
                        self.done_fetching = true;
                    }
                    self.temp = self.temp.wrapping_add(self.y);
                }
                2 => {
                    self.subcycle = 3;
                }
                _ => {
                    self.x =
                    self.memory_cycle_read(self.temp as u16, bus, cpu_peripherals);
                    self.p &= !(CPU_FLAG_ZERO | CPU_FLAG_NEGATIVE);
                    if self.x == 0 {
                        self.p |= CPU_FLAG_ZERO;
                    }
                    if (self.x & 0x80) != 0 {
                        self.p |= CPU_FLAG_NEGATIVE;
                    }
                    self.pc = self.pc.wrapping_add(2);
                    self.end_instruction();
                }
            }
        }
        proof {
            super::lemma_nz(old(self).p, self.last_bus@.data);
        }
    }

    /// ldx absolute
    #[verifier::rlimit(100)]
    #[verifier::spinoff_prover]
    pub(crate) fn op_ae<C: CartridgeDevice, K: ControllerDevice, P: PpuDevice, A: ApuDevice>(
        &mut self,
        bus: &mut NesMotherboard<C, K>,
        cpu_peripherals: &mut NesCpuPeripherals<P, A>,
    )
        requires
            old(self).inv(),
            !old(self).reset,
            old(self).opcode == Some(0xaeu8),
            !old(self).bus_used@,
        ensures
            final(self).inv(),
            !final(self).reset,
            step_ae(*old(self), *final(self)),
            final(self).opcode == old(self).opcode || super::finished(*final(self)),
            super::ram_effect(old(bus).spec_ram(), final(bus).spec_ram(), final(self).bus_used@, final(self).last_bus@),
            super::bus_effect(*old(bus), *old(cpu_peripherals), *final(bus), *final(cpu_peripherals), final(self).bus_used@, final(self).last_bus@),
            final(self).dmc_dma == old(self).dmc_dma,
            final(self).nmi_detected == old(self).nmi_detected,
            final(self).prev_nmi == old(self).prev_nmi,
    {
        {
            match self.subcycle {
                1 => {
                    self.temp = self.memory_cycle_read(self.pc.wrapping_add(1),
                        bus,
                        cpu_peripherals,
                    );
                    self.subcycle = 2;
                }
                2 => {
                    self.temp2 = self.memory_cycle_read(self.pc.wrapping_add(2),
                        bus,
                        cpu_peripherals,
                    );
                    {
                        let temp = (self.temp2 as u16) << 8 | self.temp as u16;
                        self.copy_debugger(hex16_text("LDX $", temp, ""));
                        self.done_fetching = true;
                    }
                    proof {
                        super::lemma_word(self.temp, self.temp2);
                    }
                    self.subcycle = 3;
                }
                _ => {
                    let temp = (self.temp2 as u16) << 8 | self.temp as u16;
                    self.x = self.memory_cycle_read(temp, bus, cpu_peripherals);
                    self.p &= !(CPU_FLAG_ZERO | CPU_FLAG_NEGATIVE);
                    if self.x == 0 {
                        self.p |= CPU_FLAG_ZERO;
                    }
                    if (self.x & 0x80) != 0 {
                        self.p |= CPU_FLAG_NEGATIVE;
                    }
                    self.pc = self.pc.wrapping_add(3);
                    self.end_instruction();
                }
            }
        }
        proof {
            super::lemma_nz(old(self).p, self.last_bus@.data);
            super::lemma_word(old(self).temp, old(self).temp2);
        }
    }

    /// ldx absolute y
    #[verifier::rlimit(100)]
    #[verifier::spinoff_prover]
    pub(crate) fn op_be<C: CartridgeDevice, K: ControllerDevice, P: PpuDevice, A: ApuDevice>(
        &mut self,
        bus: &mut NesMotherboard<C, K>,
        cpu_peripherals: &mut NesCpuPeripherals<P, A>,
    )
        requires
            old(self).inv(),
            !old(self).reset,
            old(self).opcode == Some(0xbeu8),
            !old(self).bus_used@,
        ensures
            final(self).inv(),
            !final(self).reset,
            step_be(*old(self), *final(self)),
            final(self).opcode == old(self).opcode || super::finished(*final(self)),
            super::ram_effect(old(bus).spec_ram(), final(bus).spec_ram(), final(self).bus_used@, final(self).last_bus@),
            super::bus_effect(*old(bus), *old(cpu_peripherals), *final(bus), *final(cpu_peripherals), final(self).bus_used@, final(self).last_bus@),
            final(self).dmc_dma == old(self).dmc_dma,
            final(self).nmi_detected == old(self).nmi_detected,
            final(self).prev_nmi == old(self).prev_nmi,
    {
        {
            match self.subcycle {
                1 => {
                    self.temp = self.memory_cycle_read(self.pc.wrapping_add(1),
                        bus,
                        cpu_peripherals,
                    );
                    self.subcycle = 2;
                }
                2 => {
                    self.temp2 = self.memory_cycle_read(self.pc.wrapping_add(2),
                        bus,
                        cpu_peripherals,
                    );
                    {
                        let temp = (self.temp2 as u16) << 8 | self.temp as u16;
                        self.copy_debugger(hex16_text("LDX $", temp, ",Y"));
                        self.done_fetching = true;
                    }
                    proof {
                        super::lemma_word(self.temp, self.temp2);
                    }
                    self.subcycle = 3;
                }
                3 => {
                    self.tempaddr = (self.temp2 as u16) << 8 | self.temp as u16;
                    let (val, overflow) = overflowing_add(self.temp, self.y);
                    if !overflow {
                        self.tempaddr = self.tempaddr.wrapping_add(self.y as u16);
                        self.x =
                        self.memory_cycle_read(self.tempaddr, bus, cpu_peripherals);
                        self.p &= !(CPU_FLAG_ZERO | CPU_FLAG_NEGATIVE);
                        if self.x == 0 {
                            self.p |= CPU_FLAG_ZERO;
                        }
                        if (self.x & 0x80) != 0 {
                            self.p |= CPU_FLAG_NEGATIVE;
                        }
                        self.pc = self.pc.wrapping_add(3);
                        self.end_instruction();
                    } else {
                        self.memory_cycle_read((self.temp2 as u16) << 8 | val as u16,
                            bus,
                            cpu_peripherals,
                        );
                        self.subcycle = 4;
                    }
                }
                _ => {
                    self.tempaddr = self.tempaddr.wrapping_add(self.y as u16);
                    self.x =
                    self.memory_cycle_read(self.tempaddr, bus, cpu_peripherals);
                    self.p &= !(CPU_FLAG_ZERO | CPU_FLAG_NEGATIVE);
                    if self.x == 0 {
                        self.p |= CPU_FLAG_ZERO;
                    }
                    if (self.x & 0x80) != 0 {
                        self.p |= CPU_FLAG_NEGATIVE;
                    }
                    self.pc = self.pc.wrapping_add(3);
                    self.end_instruction();
                }
            }
        }
        proof {
            super::lemma_nz(old(self).p, self.last_bus@.data);
            super::lemma_word(old(self).temp, old(self).temp2);
            super::lemma_word(((old(self).temp as int + old(self).y as int) % 256) as u8, old(self).temp2);
        }
    }

    /// sty store y zero page
    #[verifier::rlimit(100)]
    #[verifier::spinoff_prover]
    pub(crate) fn op_84<C: CartridgeDevice, K: ControllerDevice, P: PpuDevice, A: ApuDevice>(
        &mut self,
        bus: &mut NesMotherboard<C, K>,
        cpu_peripherals: &mut NesCpuPeripherals<P, A>,
    )
        requires
            old(self).inv(),
            !old(self).reset,
            old(self).opcode == Some(0x84u8),
            !old(self).bus_used@,
        ensures
            final(self).inv(),
            !final(self).reset,
            step_84(*old(self), *final(self)),
            final(self).opcode == old(self).opcode || super::finished(*final(self)),
            super::ram_effect(old(bus).spec_ram(), final(bus).spec_ram(), final(self).bus_used@, final(self).last_bus@),
            super::bus_effect(*old(bus), *old(cpu_peripherals), *final(bus), *final(cpu_peripherals), final(self).bus_used@, final(self).last_bus@),
            final(self).dmc_dma == old(self).dmc_dma,
            final(self).nmi_detected == old(self).nmi_detected,
            final(self).prev_nmi == old(self).prev_nmi,
    {
        {
            match self.subcycle {
                1 => {
                    self.subcycle = 2;
                    self.temp = self.memory_cycle_read(self.pc.wrapping_add(1),
                        bus,
                        cpu_peripherals,
                    );
                    {
                        self.copy_debugger(hex8_text("STY $", self.temp, ""));
                        self.done_fetching = true;
                    }
                }
                _ => {
                    self.memory_cycle_write(self.temp as u16, self.y, bus, cpu_peripherals);
                    self.pc = self.pc.wrapping_add(2);
                    self.end_instruction();
                }
            }
        }
    }

    /// sty zero page x
    #[verifier::rlimit(100)]
    #[verifier::spinoff_prover]
    pub(crate) fn op_94<C: CartridgeDevice, K: ControllerDevice, P: PpuDevice, A: ApuDevice>(
        &mut self,
        bus: &mut NesMotherboard<C, K>,
        cpu_peripherals: &mut NesCpuPeripherals<P, A>,
    )
        requires
            old(self).inv(),
            !old(self).reset,
            old(self).opcode == Some(0x94u8),
            !old(self).bus_used@,
        ensures
            final(self).inv(),
            !final(self).reset,
            step_94(*old(self), *final(self)),
            final(self).opcode == old(self).opcode || super::finished(*final(self)),
            super::ram_effect(old(bus).spec_ram(), final(bus).spec_ram(), final(self).bus_used@, final(self).last_bus@),
            super::bus_effect(*old(bus), *old(cpu_peripherals), *final(bus), *final(cpu_peripherals), final(self).bus_used@, final(self).last_bus@),
            final(self).dmc_dma == old(self).dmc_dma,
            final(self).nmi_detected == old(self).nmi_detected,
            final(self).prev_nmi == old(self).prev_nmi,
    {
        {
            match self.subcycle {
                1 => {
                    self.subcycle = 2;
                    self.temp = self.memory_cycle_read(self.pc.wrapping_add(1),
                        bus,
                        cpu_peripherals,
                    );
                    {
                        self.copy_debugger(hex8_text("STY $", self.temp, ",X"));
                        self.done_fetching = true;
                    }
                }
                2 => {
                    self.subcycle = 3;
                }
                _ => {
                    self.memory_cycle_write(
                        self.temp.wrapping_add(self.x) as u16,
                        self.y,
                        bus,
                        cpu_peripherals,
                    );
                    self.pc = self.pc.wrapping_add(2);
                    self.end_instruction();
                }
            }
        }
    }

    /// sty absolute
    #[verifier::rlimit(100)]
    #[verifier::spinoff_prover]
    pub(crate) fn op_8c<C: CartridgeDevice, K: ControllerDevice, P: PpuDevice, A: ApuDevice>(
        &mut self,
        bus: &mut NesMotherboard<C, K>,
        cpu_peripherals: &mut NesCpuPeripherals<P, A>,
    )
        requires
            old(self).inv(),
            !old(self).reset,
            old(self).opcode == Some(0x8cu8),
            !old(self).bus_used@,
        ensures
            final(self).inv(),
            !final(self).reset,
            step_8c(*old(self), *final(self)),
            final(self).opcode == old(self).opcode || super::finished(*final(self)),
            super::ram_effect(old(bus).spec_ram(), final(bus).spec_ram(), final(self).bus_used@, final(self).last_bus@),
            super::bus_effect(*old(bus), *old(cpu_peripherals), *final(bus), *final(cpu_peripherals), final(self).bus_used@, final(self).last_bus@),
            final(self).dmc_dma == old(self).dmc_dma,
            final(self).nmi_detected == old(self).nmi_detected,
            final(self).prev_nmi == old(self).prev_nmi,
    {
        {
            match self.subcycle {
                1 => {
                    self.temp = self.memory_cycle_read(self.pc.wrapping_add(1),
                        bus,
                        cpu_peripherals,
                    );
                    self.subcycle = 2;
                }
                2 => {
                    self.temp2 = self.memory_cycle_read(self.pc.wrapping_add(2),
                        bus,
                        cpu_peripherals,
                    );
                    {
                        let temp = (self.temp2 as u16) << 8 | self.temp as u16;
                        self.copy_debugger(hex16_text("STY $", temp, ""));
                        self.done_fetching = true;
                    }
                    proof {
                        super::lemma_word(self.temp, self.temp2);
                    }
                    self.subcycle = 3;
                }
                _ => {
                    let temp = (self.temp2 as u16) << 8 | self.temp as u16;
                    self.memory_cycle_write(temp, self.y, bus, cpu_peripherals);
                    self.pc = self.pc.wrapping_add(3);
                    self.end_instruction();
                }
            }
        }
        proof {
            super::lemma_word(old(self).temp, old(self).temp2);
        }
    }

    /// ldy load y immediate
    #[verifier::rlimit(100)]
    #[verifier::spinoff_prover]
    pub(crate) fn op_a0<C: CartridgeDevice, K: ControllerDevice, P: PpuDevice, A: ApuDevice>(
        &mut self,
        bus: &mut NesMotherboard<C, K>,
        cpu_peripherals: &mut NesCpuPeripherals<P, A>,
    )
        requires
            old(self).inv(),
            !old(self).reset,
            old(self).opcode == Some(0xa0u8),
            !old(self).bus_used@,
        ensures
            final(self).inv(),
            !final(self).reset,
            step_a0(*old(self), *final(self)),
            final(self).opcode == old(self).opcode || super::finished(*final(self)),
            super::ram_effect(old(bus).spec_ram(), final(bus).spec_ram(), final(self).bus_used@, final(self).last_bus@),
            super::bus_effect(*old(bus), *old(cpu_peripherals), *final(bus), *final(cpu_peripherals), final(self).bus_used@, final(self).last_bus@),
            final(self).dmc_dma == old(self).dmc_dma,
            final(self).nmi_detected == old(self).nmi_detected,
            final(self).prev_nmi == old(self).prev_nmi,
    {
        {
            self.temp = self.memory_cycle_read(self.pc.wrapping_add(1),
                bus,
                cpu_peripherals,
            );
            {
                self.copy_debugger(hex8_text("LDY #$", self.temp, ""));
                self.done_fetching = true;
            }
            self.y = self.temp;
            self.p &= !(CPU_FLAG_ZERO | CPU_FLAG_NEGATIVE);
            if self.y == 0 {
                self.p |= CPU_FLAG_ZERO;
            }
            if (self.y & 0x80) != 0 {
                self.p |= CPU_FLAG_NEGATIVE;
            }
            self.pc = self.pc.wrapping_add(2);
            self.end_instruction();
        }
        proof {
            super::lemma_nz(old(self).p, self.last_bus@.data);
        }
    }

    /// ldy zero page
    #[verifier::rlimit(100)]
    #[verifier::spinoff_prover]
    pub(crate) fn op_a4<C: CartridgeDevice, K: ControllerDevice, P: PpuDevice, A: ApuDevice>(
        &mut self,
        bus: &mut NesMotherboard<C, K>,
        cpu_peripherals: &mut NesCpuPeripherals<P, A>,
    )
        requires
            old(self).inv(),
            !old(self).reset,
            old(self).opcode == Some(0xa4u8),
            !old(self).bus_used@,
        ensures
            final(self).inv(),
            !final(self).reset,
            step_a4(*old(self), *final(self)),
            final(self).opcode == old(self).opcode || super::finished(*final(self)),
            super::ram_effect(old(bus).spec_ram(), final(bus).spec_ram(), final(self).bus_used@, final(self).last_bus@),
            super::bus_effect(*old(bus), *old(cpu_peripherals), *final(bus), *final(cpu_peripherals), final(self).bus_used@, final(self).last_bus@),
            final(self).dmc_dma == old(self).dmc_dma,
            final(self).nmi_detected == old(self).nmi_detected,
            final(self).prev_nmi == old(self).prev_nmi,
    {
        {
            match self.subcycle {
                1 => {
                    self.temp = self.memory_cycle_read(self.pc.wrapping_add(1),
                        bus,
                        cpu_peripherals,
                    );
                    {
                        self.copy_debugger(hex8_text("LDY $", self.temp, ""));
                        self.done_fetching = true;
                    }
                    self.subcycle = 2;
                }
                _ => {
                    self.y =
                    self.memory_cycle_read(self.temp as u16, bus, cpu_peripherals);
                    self.p &= !(CPU_FLAG_ZERO | CPU_FLAG_NEGATIVE);
                    if self.y == 0 {
                        self.p |= CPU_FLAG_ZERO;
                    }
                    if (self.y & 0x80) != 0 {
                        self.p |= CPU_FLAG_NEGATIVE;
                    }
                    self.pc = self.pc.wrapping_add(2);
                    self.end_instruction();
                }
            }
        }
        proof {
            super::lemma_nz(old(self).p, self.last_bus@.data);
        }
    }

    /// ldy zero page x
    #[verifier::rlimit(100)]
    #[verifier::spinoff_prover]
    pub(crate) fn op_b4<C: CartridgeDevice, K: ControllerDevice, P: PpuDevice, A: ApuDevice>(
        &mut self,
        bus: &mut NesMotherboard<C, K>,
        cpu_peripherals: &mut NesCpuPeripherals<P, A>,
    )
        requires
            old(self).inv(),
            !old(self).reset,
            old(self).opcode == Some(0xb4u8),
            !old(self).bus_used@,
        ensures
            final(self).inv(),
            !final(self).reset,
            step_b4(*old(self), *final(self)),
            final(self).opcode == old(self).opcode || super::finished(*final(self)),
            super::ram_effect(old(bus).spec_ram(), final(bus).spec_ram(), final(self).bus_used@, final(self).last_bus@),
            super::bus_effect(*old(bus), *old(cpu_peripherals), *final(bus), *final(cpu_peripherals), final(self).bus_used@, final(self).last_bus@),
            final(self).dmc_dma == old(self).dmc_dma,
            final(self).nmi_detected == old(self).nmi_detected,
            final(self).prev_nmi == old(self).prev_nmi,
    {
        {
            match self.subcycle {
                1 => {
                    self.temp = self.memory_cycle_read(self.pc.wrapping_add(1),
                        bus,
                        cpu_peripherals,
                    );
                    {
                        self.copy_debugger(hex8_text("LDY $", self.temp, ",X"));
                        self.done_fetching = true;
                    }
                    self.subcycle = 2;
                }
                2 => {
                    self.memory_cycle_read(self.temp as u16, bus, cpu_peripherals);
                    self.subcycle = 3;
                }
                _ => {
                    self.y = self.memory_cycle_read(self.temp.wrapping_add(self.x) as u16,
                        bus,
                        cpu_peripherals,
                    );
                    self.p &= !(CPU_FLAG_ZERO | CPU_FLAG_NEGATIVE);
                    if self.y == 0 {
                        self.p |= CPU_FLAG_ZERO;
                    }
                    if (self.y & 0x80) != 0 {
                        self.p |= CPU_FLAG_NEGATIVE;
                    }
                    self.pc = self.pc.wrapping_add(2);
                    self.end_instruction();
                }
            }
        }
        proof {
            super::lemma_nz(old(self).p, self.last_bus@.data);
        }
    }

    /// ldy absolute
    #[verifier::rlimit(100)]
    #[verifier::spinoff_prover]
    pub(crate) fn op_ac<C: CartridgeDevice, K: ControllerDevice, P: PpuDevice, A: ApuDevice>(
        &mut self,
        bus: &mut NesMotherboard<C, K>,
        cpu_peripherals: &mut NesCpuPeripherals<P, A>,
    )
        requires
            old(self).inv(),
            !old(self).reset,
            old(self).opcode == Some(0xacu8),
            !old(self).bus_used@,
        ensures
            final(self).inv(),
            !final(self).reset,
            step_ac(*old(self), *final(self)),
            final(self).opcode == old(self).opcode || super::finished(*final(self)),
            super::ram_effect(old(bus).spec_ram(), final(bus).spec_ram(), final(self).bus_used@, final(self).last_bus@),
            super::bus_effect(*old(bus), *old(cpu_peripherals), *final(bus), *final(cpu_peripherals), final(self).bus_used@, final(self).last_bus@),
            final(self).dmc_dma == old(self).dmc_dma,
            final(self).nmi_detected == old(self).nmi_detected,
            final(self).prev_nmi == old(self).prev_nmi,
    {
        {
            match self.subcycle {
                1 => {
                    self.temp = self.memory_cycle_read(self.pc.wrapping_add(1),
                        bus,
                        cpu_peripherals,
                    );
                    self.subcycle = 2;
                }
                2 => {
                    self.temp2 = self.memory_cycle_read(self.pc.wrapping_add(2),
                        bus,
                        cpu_peripherals,
                    );
                    {
                        let temp = (self.temp2 as u16) << 8 | self.temp as u16;
                        self.copy_debugger(hex16_text("LDY $", temp, ""));
                        self.done_fetching = true;
                    }
                    proof {
                        super::lemma_word(self.temp, self.temp2);
                    }
                    self.subcycle = 3;
                }
                _ => {
                    let addr = (self.temp2 as u16) << 8 | (self.temp as u16);
                    self.y = self.memory_cycle_read(addr, bus, cpu_peripherals);
                    self.p &= !(CPU_FLAG_ZERO | CPU_FLAG_NEGATIVE);
                    if self.y == 0 {
                        self.p |= CPU_FLAG_ZERO;
                    }
                    if (self.y & 0x80) != 0 {
                        self.p |= CPU_FLAG_NEGATIVE;
                    }
                    self.pc = self.pc.wrapping_add(3);
                    self.end_instruction();
                }
            }
        }
        proof {
            super::lemma_nz(old(self).p, self.last_bus@.data);
            super::lemma_word(old(self).temp, old(self).temp2);
        }
    }

    /// ldy absolute x
    #[verifier::rlimit(100)]
    #[verifier::spinoff_prover]
    pub(crate) fn op_bc<C: CartridgeDevice, K: ControllerDevice, P: PpuDevice, A: ApuDevice>(
        &mut self,
        bus: &mut NesMotherboard<C, K>,
        cpu_peripherals: &mut NesCpuPeripherals<P, A>,
    )
        requires
            old(self).inv(),
            !old(self).reset,
            old(self).opcode == Some(0xbcu8),
            !old(self).bus_used@,
        ensures
            final(self).inv(),
            !final(self).reset,
            step_bc(*old(self), *final(self)),
            final(self).opcode == old(self).opcode || super::finished(*final(self)),
            super::ram_effect(old(bus).spec_ram(), final(bus).spec_ram(), final(self).bus_used@, final(self).last_bus@),
            super::bus_effect(*old(bus), *old(cpu_peripherals), *final(bus), *final(cpu_peripherals), final(self).bus_used@, final(self).last_bus@),
            final(self).dmc_dma == old(self).dmc_dma,
            final(self).nmi_detected == old(self).nmi_detected,
            final(self).prev_nmi == old(self).prev_nmi,
    {
        {
            match self.subcycle {
                1 => {
                    self.temp = self.memory_cycle_read(self.pc.wrapping_add(1),
                        bus,
                        cpu_peripherals,
                    );
                    self.subcycle = 2;
                }
                2 => {
                    self.temp2 = self.memory_cycle_read(self.pc.wrapping_add(2),
                        bus,
                        cpu_peripherals,
                    );
                    {
                        let temp = (self.temp2 as u16) << 8 | self.temp as u16;
                        self.copy_debugger(hex16_text("LDY $", temp, ",X"));
                        self.done_fetching = true;
                    }
                    proof {
                        super::lemma_word(self.temp, self.temp2);
                    }
                    self.subcycle = 3;
                }
                3 => {
                    let addr =
                    (self.temp2 as u16) << 8 | (self.temp.wrapping_add(self.x) as u16);
                    let (val, overflow) = overflowing_add(self.temp, self.x);
                    if !overflow {
                        self.y = self.memory_cycle_read(addr, bus, cpu_peripherals);
                        self.p &= !(CPU_FLAG_ZERO | CPU_FLAG_NEGATIVE);
                        if self.y == 0 {
                            self.p |= CPU_FLAG_ZERO;
                        }
                        if (self.y & 0x80) != 0 {
                            self.p |= CPU_FLAG_NEGATIVE;
                        }
                        self.pc = self.pc.wrapping_add(3);
                        self.end_instruction();
                    } else {
                        self.memory_cycle_read((self.temp2 as u16) << 8 | val as u16,
                            bus,
                            cpu_peripherals,
                        );
                        self.subcycle = 4;
                    }
                }
                _ => {
                    let addr = (self.temp2 as u16) << 8 | (self.temp as u16);
                    self.y = self.memory_cycle_read(addr.wrapping_add(self.x as u16),
                        bus,
                        cpu_peripherals,
                    );
                    self.p &= !(CPU_FLAG_ZERO | CPU_FLAG_NEGATIVE);
                    if self.y == 0 {
                        self.p |= CPU_FLAG_ZERO;
                    }
                    if (self.y & 0x80) != 0 {
                        self.p |= CPU_FLAG_NEGATIVE;
                    }
                    self.pc = self.pc.wrapping_add(3);
                    self.end_instruction();
                }
            }
        }
        proof {
            super::lemma_nz(old(self).p, self.last_bus@.data);
            super::lemma_word(old(self).temp, old(self).temp2);
            super::lemma_word(((old(self).temp as int + old(self).x as int) % 256) as u8, old(self).temp2);
        }
    }

    /// lda immediate
    #[verifier::rlimit(100)]
    #[verifier::spinoff_prover]
    pub(crate) fn op_a9<C: CartridgeDevice, K: ControllerDevice, P: PpuDevice, A: ApuDevice>(
        &mut self,
        bus: &mut NesMotherboard<C, K>,
        cpu_peripherals: &mut NesCpuPeripherals<P, A>,
    )
        requires
            old(self).inv(),
            !old(self).reset,
            old(self).opcode == Some(0xa9u8),
            !old(self).bus_used@,
        ensures
            final(self).inv(),
            !final(self).reset,
            step_a9(*old(self), *final(self)),
            final(self).opcode == old(self).opcode || super::finished(*final(self)),
            super::ram_effect(old(bus).spec_ram(), final(bus).spec_ram(), final(self).bus_used@, final(self).last_bus@),
            super::bus_effect(*old(bus), *old(cpu_peripherals), *final(bus), *final(cpu_peripherals), final(self).bus_used@, final(self).last_bus@),
            final(self).dmc_dma == old(self).dmc_dma,
            final(self).nmi_detected == old(self).nmi_detected,
            final(self).prev_nmi == old(self).prev_nmi,
    {
        {
            self.temp = self.memory_cycle_read(self.pc.wrapping_add(1),
                bus,
                cpu_peripherals,
            );
            {
                self.copy_debugger(hex8_text("LDA #$", self.temp, ""));
                self.done_fetching = true;
            }
            self.a = self.temp;
            self.p &= !(CPU_FLAG_ZERO | CPU_FLAG_NEGATIVE);
            if self.a == 0 {
                self.p |= CPU_FLAG_ZERO;
            }
            if (self.a & 0x80) != 0 {
                self.p |= CPU_FLAG_NEGATIVE;
            }
            self.pc = self.pc.wrapping_add(2);
            self.end_instruction();
        }
        proof {
            super::lemma_nz(old(self).p, self.last_bus@.data);
        }
    }

    /// lda zero page
    #[verifier::rlimit(100)]
    #[verifier::spinoff_prover]
    pub(crate) fn op_a5<C: CartridgeDevice, K: ControllerDevice, P: PpuDevice, A: ApuDevice>(
        &mut self,
        bus: &mut NesMotherboard<C, K>,
        cpu_peripherals: &mut NesCpuPeripherals<P, A>,
    )
        requires
            old(self).inv(),
            !old(self).reset,
            old(self).opcode == Some(0xa5u8),
            !old(self).bus_used@,
        ensures
            final(self).inv(),
            !final(self).reset,
            step_a5(*old(self), *final(self)),
            final(self).opcode == old(self).opcode || super::finished(*final(self)),
            super::ram_effect(old(bus).spec_ram(), final(bus).spec_ram(), final(self).bus_used@, final(self).last_bus@),
            super::bus_effect(*old(bus), *old(cpu_peripherals), *final(bus), *final(cpu_peripherals), final(self).bus_used@, final(self).last_bus@),
            final(self).dmc_dma == old(self).dmc_dma,
            final(self).nmi_detected == old(self).nmi_detected,
            final(self).prev_nmi == old(self).prev_nmi,
    {
        {
            match self.subcycle {
                1 => {
                    self.temp = self.memory_cycle_read(self.pc.wrapping_add(1),
                        bus,
                        cpu_peripherals,
                    );
                    {
                        self.copy_debugger(hex8_text("LDA $", self.temp, ""));
                        self.done_fetching = true;
                    }
                    self.subcycle = 2;
                }
                _ => {
                    self.a =
                    self.memory_cycle_read(self.temp as u16, bus, cpu_peripherals);
                    self.p &= !(CPU_FLAG_ZERO | CPU_FLAG_NEGATIVE);
                    if self.a == 0 {
                        self.p |= CPU_FLAG_ZERO;
                    }
                    if (self.a & 0x80) != 0 {
                        self.p |= CPU_FLAG_NEGATIVE;
                    }
                    self.pc = self.pc.wrapping_add(2);
                    self.end_instruction();
                }
            }
        }
        proof {
            super::lemma_nz(old(self).p, self.last_bus@.data);
        }
    }

    /// lda zero page x
    #[verifier::rlimit(100)]
    #[verifier::spinoff_prover]
    pub(crate) fn op_b5<C: CartridgeDevice, K: ControllerDevice, P: PpuDevice, A: ApuDevice>(
        &mut self,
        bus: &mut NesMotherboard<C, K>,
        cpu_peripherals: &mut NesCpuPeripherals<P, A>,
    )
        requires
            old(self).inv(),
            !old(self).reset,
            old(self).opcode == Some(0xb5u8),
            !old(self).bus_used@,
        ensures
            final(self).inv(),
            !final(self).reset,
            step_b5(*old(self), *final(self)),
            final(self).opcode == old(self).opcode || super::finished(*final(self)),
            super::ram_effect(old(bus).spec_ram(), final(bus).spec_ram(), final(self).bus_used@, final(self).last_bus@),
            super::bus_effect(*old(bus), *old(cpu_peripherals), *final(bus), *final(cpu_peripherals), final(self).bus_used@, final(self).last_bus@),
            final(self).dmc_dma == old(self).dmc_dma,
            final(self).nmi_detected == old(self).nmi_detected,
            final(self).prev_nmi == old(self).prev_nmi,
    {
        {
            match self.subcycle {
                1 => {
                    self.temp = self.memory_cycle_read(self.pc.wrapping_add(1),
                        bus,
                        cpu_peripherals,
                    );
                    {
                        self.copy_debugger(hex8_text("LDA $", self.temp, ",X"));
                        self.done_fetching = true;
                    }
                    self.subcycle = 2;
                }
                2 => {
                    self.memory_cycle_read(self.temp as u16, bus, cpu_peripherals);
                    self.subcycle = 3;
                }
                _ => {
                    self.a = self.memory_cycle_read(self.temp.wrapping_add(self.x) as u16,
                        bus,
                        cpu_peripherals,
                    );
                    self.p &= !(CPU_FLAG_ZERO | CPU_FLAG_NEGATIVE);
                    if self.a == 0 {
                        self.p |= CPU_FLAG_ZERO;
                    }
                    if (self.a & 0x80) != 0 {
                        self.p |= CPU_FLAG_NEGATIVE;
                    }
                    self.pc = self.pc.wrapping_add(2);
                    self.end_instruction();
                }
            }
        }
        proof {
            super::lemma_nz(old(self).p, self.last_bus@.data);
        }
    }

    /// lda absolute
    #[verifier::rlimit(100)]
    #[verifier::spinoff_prover]
    pub(crate) fn op_ad<C: CartridgeDevice, K: ControllerDevice, P: PpuDevice, A: ApuDevice>(
        &mut self,
        bus: &mut NesMotherboard<C, K>,
        cpu_peripherals: &mut NesCpuPeripherals<P, A>,
    )
        requires
            old(self).inv(),
            !old(self).reset,
            old(self).opcode == Some(0xadu8),
            !old(self).bus_used@,
        ensures
            final(self).inv(),
            !final(self).reset,
            step_ad(*old(self), *final(self)),
            final(self).opcode == old(self).opcode || super::finished(*final(self)),
            super::ram_effect(old(bus).spec_ram(), final(bus).spec_ram(), final(self).bus_used@, final(self).last_bus@),
            super::bus_effect(*old(bus), *old(cpu_peripherals), *final(bus), *final(cpu_peripherals), final(self).bus_used@, final(self).last_bus@),
            final(self).dmc_dma == old(self).dmc_dma,
            final(self).nmi_detected == old(self).nmi_detected,
            final(self).prev_nmi == old(self).prev_nmi,
    {
        {
            match self.subcycle {
                1 => {
                    self.temp = self.memory_cycle_read(self.pc.wrapping_add(1),
                        bus,
                        cpu_peripherals,
                    );
                    self.subcycle = 2;
                }
                2 => {
                    self.temp2 = self.memory_cycle_read(self.pc.wrapping_add(2),
                        bus,
                        cpu_peripherals,
                    );
                    {
                        let temp = (self.temp2 as u16) << 8 | self.temp as u16;
                        self.copy_debugger(hex16_text("LDA $", temp, ""));
                        self.done_fetching = true;
                    }
                    proof {
                        super::lemma_word(self.temp, self.temp2);
                    }
                    self.subcycle = 3;
                }
                _ => {
                    let temp = (self.temp2 as u16) << 8 | self.temp as u16;
                    self.a = self.memory_cycle_read(temp, bus, cpu_peripherals);
                    self.p &= !(CPU_FLAG_ZERO | CPU_FLAG_NEGATIVE);
                    if self.a == 0 {
                        self.p |= CPU_FLAG_ZERO;
                    }
                    if (self.a & 0x80) != 0 {
                        self.p |= CPU_FLAG_NEGATIVE;
                    }
                    self.pc = self.pc.wrapping_add(3);
                    self.end_instruction();
                }
            }
        }
        proof {
            super::lemma_nz(old(self).p, self.last_bus@.data);
            super::lemma_word(old(self).temp, old(self).temp2);
        }
    }

    /// lda indirect x
    #[verifier::rlimit(100)]
    #[verifier::spinoff_prover]
    pub(crate) fn op_a1<C: CartridgeDevice, K: ControllerDevice, P: PpuDevice, A: ApuDevice>(
        &mut self,
        bus: &mut NesMotherboard<C, K>,
        cpu_peripherals: &mut NesCpuPeripherals<P, A>,
    )
        requires
            old(self).inv(),
            !old(self).reset,
            old(self).opcode == Some(0xa1u8),
            !old(self).bus_used@,
        ensures
            final(self).inv(),
            !final(self).reset,
            step_a1(*old(self), *final(self)),
            final(self).opcode == old(self).opcode || super::finished(*final(self)),
            super::ram_effect(old(bus).spec_ram(), final(bus).spec_ram(), final(self).bus_used@, final(self).last_bus@),
            super::bus_effect(*old(bus), *old(cpu_peripherals), *final(bus), *final(cpu_peripherals), final(self).bus_used@, final(self).last_bus@),
            final(self).dmc_dma == old(self).dmc_dma,
            final(self).nmi_detected == old(self).nmi_detected,
            final(self).prev_nmi == old(self).prev_nmi,
    {
        {
            match self.subcycle {
                1 => {
                    self.temp = self.memory_cycle_read(self.pc.wrapping_add(1),
                        bus,
                        cpu_peripherals,
                    );
                    {
                        self.copy_debugger(hex8_text("LDA ($", self.temp, ",X)"));
                        self.done_fetching = true;
                    }
                    self.subcycle = 2;
                }
                2 => {
                    self.memory_cycle_read(self.temp as u16, bus, cpu_peripherals);
                    self.subcycle = 3;
                }
                3 => {
                    self.temp = self.temp.wrapping_add(self.x);
                    self.temp2 =
                    self.memory_cycle_read(self.temp as u16, bus, cpu_peripherals);
                    self.subcycle = 4;
                }
                4 => {
                    self.temp = self.memory_cycle_read(self.temp.wrapping_add(1) as u16,
                        bus,
                        cpu_peripherals,
                    );
                    self.subcycle = 5;
                }
                _ => {
                    let addr = (self.temp as u16) << 8 | (self.temp2 as u16);
                    self.a = self.memory_cycle_read(addr, bus, cpu_peripherals);
                    self.p &= !(CPU_FLAG_ZERO | CPU_FLAG_NEGATIVE);
                    if self.a == 0 {
                        self.p |= CPU_FLAG_ZERO;
                    }
                    if (self.a & 0x80) != 0 {
                        self.p |= CPU_FLAG_NEGATIVE;
                    }
                    self.pc = self.pc.wrapping_add(2);
                    self.end_instruction();
                }
            }
        }
        proof {
            super::lemma_nz(old(self).p, self.last_bus@.data);
            super::lemma_word(old(self).temp2, old(self).temp);
            super::lemma_word(((old(self).temp2 as int + old(self).y as int) % 256) as u8, old(self).temp);
        }
    }

    /// lda absolute x
    #[verifier::rlimit(100)]
    #[verifier::spinoff_prover]
    pub(crate) fn op_bd<C: CartridgeDevice, K: ControllerDevice, P: PpuDevice, A: ApuDevice>(
        &mut self,
        bus: &mut NesMotherboard<C, K>,
        cpu_peripherals: &mut NesCpuPeripherals<P, A>,
    )
        requires
            old(self).inv(),
            !old(self).reset,
            old(self).opcode == Some(0xbdu8),
            !old(self).bus_used@,
        ensures
            final(self).inv(),
            !final(self).reset,
            step_bd(*old(self), *final(self)),
            final(self).opcode == old(self).opcode || super::finished(*final(self)),
            super::ram_effect(old(bus).spec_ram(), final(bus).spec_ram(), final(self).bus_used@, final(self).last_bus@),
            super::bus_effect(*old(bus), *old(cpu_peripherals), *final(bus), *final(cpu_peripherals), final(self).bus_used@, final(self).last_bus@),
            final(self).dmc_dma == old(self).dmc_dma,
            final(self).nmi_detected == old(self).nmi_detected,
            final(self).prev_nmi == old(self).prev_nmi,
    {
        {
            match self.subcycle {
                1 => {
                    self.temp = self.memory_cycle_read(self.pc.wrapping_add(1),
                        bus,
                        cpu_peripherals,
                    );
                    self.subcycle = 2;
                }
                2 => {
                    self.temp2 = self.memory_cycle_read(self.pc.wrapping_add(2),
                        bus,
                        cpu_peripherals,
                    );
                    {
                        let temp = (self.temp2 as u16) << 8 | self.temp as u16;
                        self.copy_debugger(hex16_text("LDA $", temp, ",X"));
                        self.done_fetching = true;
                    }
                    proof {
                        super::lemma_word(self.temp, self.temp2);
                    }
                    self.subcycle = 3;
                }
                3 => {
                    let mut addr = (self.temp2 as u16) << 8 | (self.temp as u16);
                    let (val, overflow) = overflowing_add(self.temp, self.x);
                    if !overflow {
                        addr = addr.wrapping_add(self.x as u16);
                        self.a = self.memory_cycle_read(addr, bus, cpu_peripherals);
                        self.p &= !(CPU_FLAG_ZERO | CPU_FLAG_NEGATIVE);
                        if self.a == 0 {
                            self.p |= CPU_FLAG_ZERO;
                        }
                        if (self.a & 0x80) != 0 {
                            self.p |= CPU_FLAG_NEGATIVE;
                        }
                        self.pc = self.pc.wrapping_add(3);
                        self.end_instruction();
                    } else {
                        self.memory_cycle_read((addr & 0xFF00) | val as u16,
                            bus,
                            cpu_peripherals,
                        );
                        self.subcycle = 4;
                    }
                }
                _ => {
                    let mut addr = (self.temp2 as u16) << 8 | (self.temp as u16);
                    addr = addr.wrapping_add(self.x as u16);
                    self.a = self.memory_cycle_read(addr, bus, cpu_peripherals);
                    self.p &= !(CPU_FLAG_ZERO | CPU_FLAG_NEGATIVE);
                    if self.a == 0 {
                        self.p |= CPU_FLAG_ZERO;
                    }
                    if (self.a & 0x80) != 0 {
                        self.p |= CPU_FLAG_NEGATIVE;
                    }

                    self.pc = self.pc.wrapping_add(3);
                    self.end_instruction();
                }
            }
        }
        proof {
            super::lemma_nz(old(self).p, self.last_bus@.data);
            super::lemma_word(old(self).temp, old(self).temp2);
            super::lemma_word(((old(self).temp as int + old(self).x as int) % 256) as u8, old(self).temp2);
        }
    }

    /// lda absolute y
    #[verifier::rlimit(100)]
    #[verifier::spinoff_prover]
    pub(crate) fn op_b9<C: CartridgeDevice, K: ControllerDevice, P: PpuDevice, A: ApuDevice>(
        &mut self,
        bus: &mut NesMotherboard<C, K>,
        cpu_peripherals: &mut NesCpuPeripherals<P, A>,
    )
        requires
            old(self).inv(),
            !old(self).reset,
            old(self).opcode == Some(0xb9u8),
            !old(self).bus_used@,
        ensures
            final(self).inv(),
            !final(self).reset,
            step_b9(*old(self), *final(self)),
            final(self).opcode == old(self).opcode || super::finished(*final(self)),
            super::ram_effect(old(bus).spec_ram(), final(bus).spec_ram(), final(self).bus_used@, final(self).last_bus@),
            super::bus_effect(*old(bus), *old(cpu_peripherals), *final(bus), *final(cpu_peripherals), final(self).bus_used@, final(self).last_bus@),
            final(self).dmc_dma == old(self).dmc_dma,
            final(self).nmi_detected == old(self).nmi_detected,
            final(self).prev_nmi == old(self).prev_nmi,
    {
        {
            match self.subcycle {
                1 => {
                    self.temp = self.memory_cycle_read(self.pc.wrapping_add(1),
                        bus,
                        cpu_peripherals,
                    );
                    self.subcycle = 2;
                }
                2 => {
                    self.temp2 = self.memory_cycle_read(self.pc.wrapping_add(2),
                        bus,
                        cpu_peripherals,
                    );
                    {
                        let temp = (self.temp2 as u16) << 8 | self.temp as u16;
                        self.copy_debugger(hex16_text("LDA $", temp, ",Y"));
                        self.done_fetching = true;
                    }
                    proof {
                        super::lemma_word(self.temp, self.temp2);
                    }
                    self.subcycle = 3;
                }
                3 => {
                    let mut addr = (self.temp2 as u16) << 8 | (self.temp as u16);
                    let (val, overflow) = overflowing_add(self.temp, self.y);
                    if !overflow {
                        addr = addr.wrapping_add(self.y as u16);
                        self.a = self.memory_cycle_read(addr, bus, cpu_peripherals);
                        self.p &= !(CPU_FLAG_ZERO | CPU_FLAG_NEGATIVE);
                        if self.a == 0 {
                            self.p |= CPU_FLAG_ZERO;
                        }
                        if (self.a & 0x80) != 0 {
                            self.p |= CPU_FLAG_NEGATIVE;
                        }
                        self.pc = self.pc.wrapping_add(3);
                        self.end_instruction();
                    } else {
                        self.memory_cycle_read((self.temp2 as u16) << 8 | val as u16,
                            bus,
                            cpu_peripherals,
                        );
                        self.subcycle = 4;
                    }
                }
                _ => {
                    let mut addr = (self.temp2 as u16) << 8 | (self.temp as u16);
                    addr = addr.wrapping_add(self.y as u16);
                    self.a = self.memory_cycle_read(addr, bus, cpu_peripherals);
                    self.p &= !(CPU_FLAG_ZERO | CPU_FLAG_NEGATIVE);
                    if self.a == 0 {
                        self.p |= CPU_FLAG_ZERO;
                    }
                    if (self.a & 0x80) != 0 {
                        self.p |= CPU_FLAG_NEGATIVE;
                    }

                    self.pc = self.pc.wrapping_add(3);
                    self.end_instruction();
                }
            }
        }
        proof {
            super::lemma_nz(old(self).p, self.last_bus@.data);
            super::lemma_word(old(self).temp, old(self).temp2);
            super::lemma_word(((old(self).temp as int + old(self).y as int) % 256) as u8, old(self).temp2);
        }
    }

    /// lda indirect y
    #[verifier::rlimit(100)]
    #[verifier::spinoff_prover]
    pub(crate) fn op_b1<C: CartridgeDevice, K: ControllerDevice, P: PpuDevice, A: ApuDevice>(
        &mut self,
        bus: &mut NesMotherboard<C, K>,
        cpu_peripherals: &mut NesCpuPeripherals<P, A>,
    )
        requires
            old(self).inv(),
            !old(self).reset,
            old(self).opcode == Some(0xb1u8),
            !old(self).bus_used@,
        ensures
            final(self).inv(),
            !final(self).reset,
            step_b1(*old(self), *final(self)),
            final(self).opcode == old(self).opcode || super::finished(*final(self)),
            super::ram_effect(old(bus).spec_ram(), final(bus).spec_ram(), final(self).bus_used@, final(self).last_bus@),
            super::bus_effect(*old(bus), *old(cpu_peripherals), *final(bus), *final(cpu_peripherals), final(self).bus_used@, final(self).last_bus@),
            final(self).dmc_dma == old(self).dmc_dma,
            final(self).nmi_detected == old(self).nmi_detected,
            final(self).prev_nmi == old(self).prev_nmi,
    {
        {
            match self.subcycle {
                1 => {
                    self.temp = self.memory_cycle_read(self.pc.wrapping_add(1),
                        bus,
                        cpu_peripherals,
                    );
                    {
                        self.copy_debugger(hex8_text("LDA ($", self.temp, "),Y"));
                        self.done_fetching = true;
                    }
                    self.subcycle = 2;
                }
                2 => {
                    self.temp2 =
                    self.memory_cycle_read(self.temp as u16, bus, cpu_peripherals);
                    self.subcycle = 3;
                }
                3 => {
                    self.temp = self.memory_cycle_read(self.temp.wrapping_add(1) as u16,
                        bus,
                        cpu_peripherals,
                    );
                    self.subcycle = 4;
                }
                4 => {
                    let mut addr = (self.temp as u16) << 8 | (self.temp2 as u16);
                    let (val, overflow) = overflowing_add(self.temp2, self.y);
                    if !overflow {
                        addr = addr.wrapping_add(self.y as u16);
                        self.a = self.memory_cycle_read(addr, bus, cpu_peripherals);
                        self.p &= !(CPU_FLAG_ZERO | CPU_FLAG_NEGATIVE);
                        if self.a == 0 {
                            self.p |= CPU_FLAG_ZERO;
                        }
                        if (self.a & 0x80) != 0 {
                            self.p |= CPU_FLAG_NEGATIVE;
                        }
                        self.pc = self.pc.wrapping_add(2);
                        self.end_instruction();
                    } else {
                        self.memory_cycle_read((self.temp as u16) << 8 | (val as u16),
                            bus,
                            cpu_peripherals,
                        );
                        self.subcycle = 5;
                    }
                }
                _ => {
                    let mut addr = (self.temp as u16) << 8 | (self.temp2 as u16);
                    addr = addr.wrapping_add(self.y as u16);
                    self.a = self.memory_cycle_read(addr, bus, cpu_peripherals);
                    self.p &= !(CPU_FLAG_ZERO | CPU_FLAG_NEGATIVE);
                    if self.a == 0 {
                        self.p |= CPU_FLAG_ZERO;
                    }
                    if (self.a & 0x80) != 0 {
                        self.p |= CPU_FLAG_NEGATIVE;
                    }

                    self.pc = self.pc.wrapping_add(2);
                    self.end_instruction();
                }
            }
        }
        proof {
            super::lemma_nz(old(self).p, self.last_bus@.data);
            super::lemma_word(old(self).temp2, old(self).temp);
            super::lemma_word(((old(self).temp2 as int + old(self).y as int) % 256) as u8, old(self).temp);
        }
    }

    /// stx zero page
    #[verifier::rlimit(100)]
    #[verifier::spinoff_prover]
    pub(crate) fn op_86<C: CartridgeDevice, K: ControllerDevice, P: PpuDevice, A: ApuDevice>(
        &mut self,
        bus: &mut NesMotherboard<C, K>,
        cpu_peripherals: &mut NesCpuPeripherals<P, A>,
    )
        requires
            old(self).inv(),
            !old(self).reset,
            old(self).opcode == Some(0x86u8),
            !old(self).bus_used@,
        ensures
            final(self).inv(),
            !final(self).reset,
            step_86(*old(self), *final(self)),
            final(self).opcode == old(self).opcode || super::finished(*final(self)),
            super::ram_effect(old(bus).spec_ram(), final(bus).spec_ram(), final(self).bus_used@, final(self).last_bus@),
            super::bus_effect(*old(bus), *old(cpu_peripherals), *final(bus), *final(cpu_peripherals), final(self).bus_used@, final(self).last_bus@),
            final(self).dmc_dma == old(self).dmc_dma,
            final(self).nmi_detected == old(self).nmi_detected,
            final(self).prev_nmi == old(self).prev_nmi,
    {
        {
            match self.subcycle {
                1 => {
                    self.temp = self.memory_cycle_read(self.pc.wrapping_add(1),
                        bus,
                        cpu_peripherals,
                    );
                    {
                        self.copy_debugger(hex8_text("STX $", self.temp, ""));
                        self.done_fetching = true;
                    }
                    self.subcycle = 2;
                }
                _ => {
                    self.memory_cycle_write(self.temp as u16, self.x, bus, cpu_peripherals);
                    self.pc = self.pc.wrapping_add(2);
                    self.end_instruction();
                }
            }
        }
    }

    /// stx zero page y
    #[verifier::rlimit(100)]
    #[verifier::spinoff_prover]
    pub(crate) fn op_96<C: CartridgeDevice, K: ControllerDevice, P: PpuDevice, A: ApuDevice>(
        &mut self,
        bus: &mut NesMotherboard<C, K>,
        cpu_peripherals: &mut NesCpuPeripherals<P, A>,
    )
        requires
            old(self).inv(),
            !old(self).reset,
            old(self).opcode == Some(0x96u8),
            !old(self).bus_used@,
        ensures
            final(self).inv(),
            !final(self).reset,
            step_96(*old(self), *final(self)),
            final(self).opcode == old(self).opcode || super::finished(*final(self)),
            super::ram_effect(old(bus).spec_ram(), final(bus).spec_ram(), final(self).bus_used@, final(self).last_bus@),
            super::bus_effect(*old(bus), *old(cpu_peripherals), *final(bus), *final(cpu_peripherals), final(self).bus_used@, final(self).last_bus@),
            final(self).dmc_dma == old(self).dmc_dma,
            final(self).nmi_detected == old(self).nmi_detected,
            final(self).prev_nmi == old(self).prev_nmi,
    {
        {
            match self.subcycle {
                1 => {
                    self.temp = self.memory_cycle_read(self.pc.wrapping_add(1),
                        bus,
                        cpu_peripherals,
                    );
                    {
                        self.copy_debugger(hex8_text("STX $", self.temp, ",Y"));
                        self.done_fetching = true;
                    }

                    self.subcycle = 2;
                }
                2 => {
                    self.memory_cycle_read(self.temp as u16, bus, cpu_peripherals);
                    self.subcycle = 3;
                }
                _ => {
                    self.temp = self.temp.wrapping_add(self.y);
                    self.memory_cycle_write(self.temp as u16, self.x, bus, cpu_peripherals);
                    self.pc = self.pc.wrapping_add(2);
                    self.end_instruction();
                }
            }
        }
    }

    /// stx, store x absolute
    #[verifier::rlimit(100)]
    #[verifier::spinoff_prover]
    pub(crate) fn op_8e<C: CartridgeDevice, K: ControllerDevice, P: PpuDevice, A: ApuDevice>(
        &mut self,
        bus: &mut NesMotherboard<C, K>,
        cpu_peripherals: &mut NesCpuPeripherals<P, A>,
    )
        requires
            old(self).inv(),
            !old(self).reset,
            old(self).opcode == Some(0x8eu8),
            !old(self).bus_used@,
        ensures
            final(self).inv(),
            !final(self).reset,
            step_8e(*old(self), *final(self)),
            final(self).opcode == old(self).opcode || super::finished(*final(self)),
            super::ram_effect(old(bus).spec_ram(), final(bus).spec_ram(), final(self).bus_used@, final(self).last_bus@),
            super::bus_effect(*old(bus), *old(cpu_peripherals), *final(bus), *final(cpu_peripherals), final(self).bus_used@, final(self).last_bus@),
            final(self).dmc_dma == old(self).dmc_dma,
            final(self).nmi_detected == old(self).nmi_detected,
            final(self).prev_nmi == old(self).prev_nmi,
    {
        {
            match self.subcycle {
                1 => {
                    self.temp = self.memory_cycle_read(self.pc.wrapping_add(1),
                        bus,
                        cpu_peripherals,
                    );
                    self.subcycle = 2;
                }
                2 => {
                    self.temp2 = self.memory_cycle_read(self.pc.wrapping_add(2),
                        bus,
                        cpu_peripherals,
                    );
                    {
                        let temp = (self.temp2 as u16) << 8 | self.temp as u16;
                        self.copy_debugger(hex16_text("STX $", temp, ""));
                        self.done_fetching = true;
                    }
                    proof {
                        super::lemma_word(self.temp, self.temp2);
                    }
                    self.subcycle = 3;
                }
                _ => {
                    let temp = (self.temp2 as u16) << 8 | self.temp as u16;
                    self.memory_cycle_write(temp, self.x, bus, cpu_peripherals);
                    self.pc = self.pc.wrapping_add(3);
                    self.end_instruction();
                }
            }
        }
        proof {
            super::lemma_word(old(self).temp, old(self).temp2);
        }
    }

    /// special nop
    #[verifier::rlimit(100)]
    #[verifier::spinoff_prover]
    pub(crate) fn op_82<C: CartridgeDevice, K: ControllerDevice, P: PpuDevice, A: ApuDevice>(
        &mut self,
        bus: &mut NesMotherboard<C, K>,
        cpu_peripherals: &mut NesCpuPeripherals<P, A>,
    )
        requires
            old(self).inv(),
            !old(self).reset,
            old(self).opcode is Some,
            !old(self).bus_used@,
        ensures
            final(self).inv(),
            !final(self).reset,
            step_82(*old(self), *final(self)),
            final(self).opcode == old(self).opcode || super::finished(*final(self)),
            super::ram_effect(old(bus).spec_ram(), final(bus).spec_ram(), final(self).bus_used@, final(self).last_bus@),
            super::bus_effect(*old(bus), *old(cpu_peripherals), *final(bus), *final(cpu_peripherals), final(self).bus_used@, final(self).last_bus@),
            final(self).dmc_dma == old(self).dmc_dma,
            final(self).nmi_detected == old(self).nmi_detected,
            final(self).prev_nmi == old(self).prev_nmi,
    {
        {
            let temp = self.memory_cycle_read(self.pc.wrapping_add(1),
                bus,
                cpu_peripherals,
            );
            {
                self.copy_debugger(hex8_text("NOP* #$", temp, ""));
                self.done_fetching = true;
            }
            self.pc = self.pc.wrapping_add(2);
            self.end_instruction();
        }
    }

    /// special nop
    #[verifier::rlimit(100)]
    #[verifier::spinoff_prover]
    pub(crate) fn op_89<C: CartridgeDevice, K: ControllerDevice, P: PpuDevice, A: ApuDevice>(
        &mut self,
        bus: &mut NesMotherboard<C, K>,
        cpu_peripherals: &mut NesCpuPeripherals<P, A>,
    )
        requires
            old(self).inv(),
            !old(self).reset,
            old(self).opcode == Some(0x89u8),
            !old(self).bus_used@,
        ensures
            final(self).inv(),
            !final(self).reset,
            step_89(*old(self), *final(self)),
            final(self).opcode == old(self).opcode || super::finished(*final(self)),
            super::ram_effect(old(bus).spec_ram(), final(bus).spec_ram(), final(self).bus_used@, final(self).last_bus@),
            super::bus_effect(*old(bus), *old(cpu_peripherals), *final(bus), *final(cpu_peripherals), final(self).bus_used@, final(self).last_bus@),
            final(self).dmc_dma == old(self).dmc_dma,
            final(self).nmi_detected == old(self).nmi_detected,
            final(self).prev_nmi == old(self).prev_nmi,
    {
        {
            self.temp = self.memory_cycle_read(self.pc.wrapping_add(1),
                bus,
                cpu_peripherals,
            );
            {
                self.copy_debugger(hex8_text("NOP* #$", self.temp, ""));
                self.done_fetching = true;
            }
            self.pc = self.pc.wrapping_add(2);
            self.end_instruction();
        }
    }

    /// extra nop
    #[verifier::rlimit(100)]
    #[verifier::spinoff_prover]
    pub(crate) fn op_04<C: CartridgeDevice, K: ControllerDevice, P: PpuDevice, A: ApuDevice>(
        &mut self,
        bus: &mut NesMotherboard<C, K>,
        cpu_peripherals: &mut NesCpuPeripherals<P, A>,
    )
        requires
            old(self).inv(),
            !old(self).reset,
            old(self).opcode is Some,
            !old(self).bus_used@,
        ensures
            final(self).inv(),
            !final(self).reset,
            step_04(*old(self), *final(self)),
            final(self).opcode == old(self).opcode || super::finished(*final(self)),
            super::ram_effect(old(bus).spec_ram(), final(bus).spec_ram(), final(self).bus_used@, final(self).last_bus@),
            super::bus_effect(*old(bus), *old(cpu_peripherals), *final(bus), *final(cpu_peripherals), final(self).bus_used@, final(self).last_bus@),
            final(self).dmc_dma == old(self).dmc_dma,
            final(self).nmi_detected == old(self).nmi_detected,
            final(self).prev_nmi == old(self).prev_nmi,
    {
        {
            match self.subcycle {
                1 => {
                    {
                        self.copy_debugger("NOP".to_owned());
                        self.done_fetching = true;
                    }
                    self.temp = self.memory_cycle_read(self.pc.wrapping_add(1),
                        bus,
                        cpu_peripherals,
                    );
                    self.subcycle = 2;
                }
                _ => {
                    self.memory_cycle_read(self.temp as u16, bus, cpu_peripherals);
                    self.pc = self.pc.wrapping_add(2);
                    self.end_instruction();
                }
            }
        }
    }

    /// extra nop
    #[verifier::rlimit(100)]
    #[verifier::spinoff_prover]
    pub(crate) fn op_0c<C: CartridgeDevice, K: ControllerDevice, P: PpuDevice, A: ApuDevice>(
        &mut self,
        bus: &mut NesMotherboard<C, K>,
        cpu_peripherals: &mut NesCpuPeripherals<P, A>,
    )
        requires
            old(self).inv(),
            !old(self).reset,
            old(self).opcode == Some(0x0cu8),
            !old(self).bus_used@,
        ensures
            final(self).inv(),
            !final(self).reset,
            step_0c(*old(self), *final(self)),
            final(self).opcode == old(self).opcode || super::finished(*final(self)),
            super::ram_effect(old(bus).spec_ram(), final(bus).spec_ram(), final(self).bus_used@, final(self).last_bus@),
            super::bus_effect(*old(bus), *old(cpu_peripherals), *final(bus), *final(cpu_peripherals), final(self).bus_used@, final(self).last_bus@),
            final(self).dmc_dma == old(self).dmc_dma,
            final(self).nmi_detected == old(self).nmi_detected,
            final(self).prev_nmi == old(self).prev_nmi,
    {
        {
            match self.subcycle {
                1 => {
                    self.temp = self.memory_cycle_read(self.pc.wrapping_add(1),
                        bus,
                        cpu_peripherals,
                    );
                    self.subcycle = 2;
                }
                2 => {
                    self.temp2 = self.memory_cycle_read(self.pc.wrapping_add(2),
                        bus,
                        cpu_peripherals,
                    );
                    {
                        self.copy_debugger("NOP".to_owned());
                        self.done_fetching = true;
                    }
                    self.subcycle = 3;
                }
                _ => {
                    let addr = (self.temp2 as u16) << 8 | (self.temp as u16);
                    self.memory_cycle_read(addr, bus, cpu_peripherals);
                    self.pc = self.pc.wrapping_add(3);
                    self.end_instruction();
                }
            }
        }
        proof {
            super::lemma_word(old(self).temp, old(self).temp2);
        }
    }

    /// extra nop
    #[verifier::rlimit(100)]
    #[verifier::spinoff_prover]
    pub(crate) fn op_14<C: CartridgeDevice, K: ControllerDevice, P: PpuDevice, A: ApuDevice>(
        &mut self,
        bus: &mut NesMotherboard<C, K>,
        cpu_peripherals: &mut NesCpuPeripherals<P, A>,
    )
        requires
            old(self).inv(),
            !old(self).reset,
            old(self).opcode is Some,
            !old(self).bus_used@,
        ensures
            final(self).inv(),
            !final(self).reset,
            step_14(*old(self), *final(self)),
            final(self).opcode == old(self).opcode || super::finished(*final(self)),
            super::ram_effect(old(bus).spec_ram(), final(bus).spec_ram(), final(self).bus_used@, final(self).last_bus@),
            super::bus_effect(*old(bus), *old(cpu_peripherals), *final(bus), *final(cpu_peripherals), final(self).bus_used@, final(self).last_bus@),
            final(self).dmc_dma == old(self).dmc_dma,
            final(self).nmi_detected == old(self).nmi_detected,
            final(self).prev_nmi == old(self).prev_nmi,
    {
        {
            match self.subcycle {
                1 => {
                    self.temp = self.memory_cycle_read(self.pc.wrapping_add(1),
                        bus,
                        cpu_peripherals,
                    );
                    {
                        self.copy_debugger("NOP".to_owned());
                        self.done_fetching = true;
                    }
                    self.subcycle = 2;
                }
                2 => {
                    self.memory_cycle_read(self.temp as u16, bus, cpu_peripherals);
                    self.subcycle = 3;
                }
                _ => {
                    //technically needs to have a register added to it
                    //but since it is zero page, the read has no side effects
                    self.memory_cycle_read(self.temp as u16, bus, cpu_peripherals);
                    self.pc = self.pc.wrapping_add(2);
                    self.end_instruction();
                }
            }
        }
    }

    /// extra nop
    #[verifier::rlimit(100)]
    #[verifier::spinoff_prover]
    pub(crate) fn op_1c<C: CartridgeDevice, K: ControllerDevice, P: PpuDevice, A: ApuDevice>(
        &mut self,
        bus: &mut NesMotherboard<C, K>,
        cpu_peripherals: &mut NesCpuPeripherals<P, A>,
    )
        requires
            old(self).inv(),
            !old(self).reset,
            old(self).opcode is Some,
            !old(self).bus_used@,
        ensures
            final(self).inv(),
            !final(self).reset,
            step_1c(*old(self), *final(self)),
            final(self).opcode == old(self).opcode || super::finished(*final(self)),
            super::ram_effect(old(bus).spec_ram(), final(bus).spec_ram(), final(self).bus_used@, final(self).last_bus@),
            super::bus_effect(*old(bus), *old(cpu_peripherals), *final(bus), *final(cpu_peripherals), final(self).bus_used@, final(self).last_bus@),
            final(self).dmc_dma == old(self).dmc_dma,
            final(self).nmi_detected == old(self).nmi_detected,
            final(self).prev_nmi == old(self).prev_nmi,
    {
        {
            match self.subcycle {
                1 => {
                    self.temp = self.memory_cycle_read(self.pc.wrapping_add(1),
                        bus,
                        cpu_peripherals,
                    );
                    self.subcycle = 2;
                }
                2 => {
                    self.temp2 = self.memory_cycle_read(self.pc.wrapping_add(2),
                        bus,
                        cpu_peripherals,
                    );
                    {
                        self.copy_debugger("NOP".to_owned());
                        self.done_fetching = true;
                    }
                    self.subcycle = 3;
                }
                3 => {
                    self.tempaddr = (self.temp2 as u16) << 8 | (self.temp as u16);
                    let (_val, overflow) = overflowing_add(self.temp, self.x);
                    self.memory_cycle_read((self.temp2 as u16) << 8 | (self.temp.wrapping_add(self.x) as u16),
                        bus,
                        cpu_peripherals,
                    );
                    if overflow {
                        self.subcycle = 4;
                    } else {
                        self.pc = self.pc.wrapping_add(3);
                        self.end_instruction();
                    }
                }
                _ => {
                    self.tempaddr = (self.temp2 as u16) << 8 | (self.temp as u16);
                    self.memory_cycle_read(self.tempaddr.wrapping_add(self.x as u16),
                        bus,
                        cpu_peripherals,
                    );
                    self.pc = self.pc.wrapping_add(3);
                    self.end_instruction();
                }
            }
        }
        proof {
            super::lemma_word(old(self).temp, old(self).temp2);
            super::lemma_word(((old(self).temp as int + old(self).x as int) % 256) as u8, old(self).temp2);
        }
    }

    /// extra nop
    #[verifier::rlimit(100)]
    #[verifier::spinoff_prover]
    pub(crate) fn op_80<C: CartridgeDevice, K: ControllerDevice, P: PpuDevice, A: ApuDevice>(
        &mut self,
        bus: &mut NesMotherboard<C, K>,
        cpu_peripherals: &mut NesCpuPeripherals<P, A>,
    )
        requires
            old(self).inv(),
            !old(self).reset,
            old(self).opcode == Some(0x80u8),
            !old(self).bus_used@,
        ensures
            final(self).inv(),
            !final(self).reset,
            step_80(*old(self), *final(self)),
            final(self).opcode == old(self).opcode || super::finished(*final(self)),
            super::ram_effect(old(bus).spec_ram(), final(bus).spec_ram(), final(self).bus_used@, final(self).last_bus@),
            super::bus_effect(*old(bus), *old(cpu_peripherals), *final(bus), *final(cpu_peripherals), final(self).bus_used@, final(self).last_bus@),
            final(self).dmc_dma == old(self).dmc_dma,
            final(self).nmi_detected == old(self).nmi_detected,
            final(self).prev_nmi == old(self).prev_nmi,
    {
        {
            {
                self.copy_debugger("NOP".to_owned());
                self.done_fetching = true;
            }
            self.memory_cycle_read(self.pc.wrapping_add(1), bus, cpu_peripherals);
            self.pc = self.pc.wrapping_add(2);
            self.end_instruction();
        }
    }

    /// lax (indirect x)?, undocumented
    #[verifier::rlimit(100)]
    #[verifier::spinoff_prover]
    pub(crate) fn op_a3<C: CartridgeDevice, K: ControllerDevice, P: PpuDevice, A: ApuDevice>(
        &mut self,
        bus: &mut NesMotherboard<C, K>,
        cpu_peripherals: &mut NesCpuPeripherals<P, A>,
    )
        requires
            old(self).inv(),
            !old(self).reset,
            old(self).opcode == Some(0xa3u8),
            !old(self).bus_used@,
        ensures
            final(self).inv(),
            !final(self).reset,
            step_a3(*old(self), *final(self)),
            final(self).opcode == old(self).opcode || super::finished(*final(self)),
            super::ram_effect(old(bus).spec_ram(), final(bus).spec_ram(), final(self).bus_used@, final(self).last_bus@),
            super::bus_effect(*old(bus), *old(cpu_peripherals), *final(bus), *final(cpu_peripherals), final(self).bus_used@, final(self).last_bus@),
            final(self).dmc_dma == old(self).dmc_dma,
            final(self).nmi_detected == old(self).nmi_detected,
            final(self).prev_nmi == old(self).prev_nmi,
    {
        {
            match self.subcycle {
                1 => {
                    self.temp = self.memory_cycle_read(self.pc.wrapping_add(1),
                        bus,
                        cpu_peripherals,
                    );
                    {
                        self.copy_debugger(hex8_text("*LAX ($", self.temp, ",X)"));
                        self.done_fetching = true;
                    }
                    self.subcycle = 2;
                }
                2 => {
                    self.temp = self.temp.wrapping_add(self.x);
                    self.temp2 =
                    self.memory_cycle_read(self.temp as u16, bus, cpu_peripherals);
                    self.subcycle = 3;
                }
                3 => {
                    self.memory_cycle_read(self.temp as u16, bus, cpu_peripherals);
                    self.subcycle = 4;
                }
                4 => {
                    self.temp = self.memory_cycle_read(self.temp.wrapping_add(1) as u16,
                        bus,
                        cpu_peripherals,
                    );
                    self.subcycle = 5;
                }
                _ => {
                    let addr = (self.temp as u16) << 8 | (self.temp2 as u16);
                    self.a = self.memory_cycle_read(addr, bus, cpu_peripherals);
                    self.x = self.a;
                    self.p &= !(CPU_FLAG_ZERO | CPU_FLAG_NEGATIVE);
                    if self.a == 0 {
                        self.p |= CPU_FLAG_ZERO;
                    }
                    if (self.a & 0x80) != 0 {
                        self.p |= CPU_FLAG_NEGATIVE;
                    }
                    self.pc = self.pc.wrapping_add(2);
                    self.end_instruction();
                }
            }
        }
        proof {
            super::lemma_nz(old(self).p, self.last_bus@.data);
            super::lemma_word(old(self).temp2, old(self).temp);
            super::lemma_word(((old(self).temp2 as int + old(self).y as int) % 256) as u8, old(self).temp);
        }
    }

    /// lax zero page?, undocumented
    #[verifier::rlimit(100)]
    #[verifier::spinoff_prover]
    pub(crate) fn op_a7<C: CartridgeDevice, K: ControllerDevice, P: PpuDevice, A: ApuDevice>(
        &mut self,
        bus: &mut NesMotherboard<C, K>,
        cpu_peripherals: &mut NesCpuPeripherals<P, A>,
    )
        requires
            old(self).inv(),
            !old(self).reset,
            old(self).opcode == Some(0xa7u8),
            !old(self).bus_used@,
        ensures
            final(self).inv(),
            !final(self).reset,
            step_a7(*old(self), *final(self)),
            final(self).opcode == old(self).opcode || super::finished(*final(self)),
            super::ram_effect(old(bus).spec_ram(), final(bus).spec_ram(), final(self).bus_used@, final(self).last_bus@),
            super::bus_effect(*old(bus), *old(cpu_peripherals), *final(bus), *final(cpu_peripherals), final(self).bus_used@, final(self).last_bus@),
            final(self).dmc_dma == old(self).dmc_dma,
            final(self).nmi_detected == old(self).nmi_detected,
            final(self).prev_nmi == old(self).prev_nmi,
    {
        {
            match self.subcycle {
                1 => {
                    self.temp = self.memory_cycle_read(self.pc.wrapping_add(1),
                        bus,
                        cpu_peripherals,
                    );
                    {
                        self.copy_debugger(hex8_text("*LAX $", self.temp, ""));
                        self.done_fetching = true;
                    }
                    self.subcycle = 2;
                }
                _ => {
                    self.temp =
                    self.memory_cycle_read(self.temp as u16, bus, cpu_peripherals);
                    self.a = self.temp;
                    self.x = self.temp;
                    self.p &= !(CPU_FLAG_ZERO | CPU_FLAG_NEGATIVE);
                    if self.a == 0 {
                        self.p |= CPU_FLAG_ZERO;
                    }
                    if (self.a & 0x80) != 0 {
                        self.p |= CPU_FLAG_NEGATIVE;
                    }
                    self.pc = self.pc.wrapping_add(2);
                    self.end_instruction();
                }
            }
        }
        proof {
            super::lemma_nz(old(self).p, self.last_bus@.data);
        }
    }

    /// lax absolute, undocumented
    #[verifier::rlimit(100)]
    #[verifier::spinoff_prover]
    pub(crate) fn op_af<C: CartridgeDevice, K: ControllerDevice, P: PpuDevice, A: ApuDevice>(
        &mut self,
        bus: &mut NesMotherboard<C, K>,
        cpu_peripherals: &mut NesCpuPeripherals<P, A>,
    )
        requires
            old(self).inv(),
            !old(self).reset,
            old(self).opcode == Some(0xafu8),
            !old(self).bus_used@,
        ensures
            final(self).inv(),
            !final(self).reset,
            step_af(*old(self), *final(self)),
            final(self).opcode == old(self).opcode || super::finished(*final(self)),
            super::ram_effect(old(bus).spec_ram(), final(bus).spec_ram(), final(self).bus_used@, final(self).last_bus@),
            super::bus_effect(*old(bus), *old(cpu_peripherals), *final(bus), *final(cpu_peripherals), final(self).bus_used@, final(self).last_bus@),
            final(self).dmc_dma == old(self).dmc_dma,
            final(self).nmi_detected == old(self).nmi_detected,
            final(self).prev_nmi == old(self).prev_nmi,
    {
        {
            match self.subcycle {
                1 => {
                    self.temp = self.memory_cycle_read(self.pc.wrapping_add(1),
                        bus,
                        cpu_peripherals,
                    );
                    self.subcycle = 2;
                }
                2 => {
                    self.temp2 = self.memory_cycle_read(self.pc.wrapping_add(2),
                        bus,
                        cpu_peripherals,
                    );
                    {
                        let temp = (self.temp2 as u16) << 8 | self.temp as u16;
                        self.copy_debugger(hex16_text("*LAX $", temp, ""));
                        self.done_fetching = true;
                    }
                    proof {
                        super::lemma_word(self.temp, self.temp2);
                    }
                    self.subcycle = 3;
                }
                _ => {
                    let addr = (self.temp2 as u16) << 8 | (self.temp as u16);
                    self.temp = self.memory_cycle_read(addr, bus, cpu_peripherals);
                    self.a = self.temp;
                    self.x = self.temp;
                    self.p &= !(CPU_FLAG_ZERO | CPU_FLAG_NEGATIVE);
                    if self.a == 0 {
                        self.p |= CPU_FLAG_ZERO;
                    }
                    if (self.a & 0x80) != 0 {
                        self.p |= CPU_FLAG_NEGATIVE;
                    }
                    self.pc = self.pc.wrapping_add(3);
                    self.end_instruction();
                }
            }
        }
        proof {
            super::lemma_nz(old(self).p, self.last_bus@.data);
            super::lemma_word(old(self).temp, old(self).temp2);
        }
    }

    /// lax indirect y, undocumented
    #[verifier::rlimit(100)]
    #[verifier::spinoff_prover]
    pub(crate) fn op_b3<C: CartridgeDevice, K: ControllerDevice, P: PpuDevice, A: ApuDevice>(
        &mut self,
        bus: &mut NesMotherboard<C, K>,
        cpu_peripherals: &mut NesCpuPeripherals<P, A>,
    )
        requires
            old(self).inv(),
            !old(self).reset,
            old(self).opcode == Some(0xb3u8),
            !old(self).bus_used@,
        ensures
            final(self).inv(),
            !final(self).reset,
            step_b3(*old(self), *final(self)),
            final(self).opcode == old(self).opcode || super::finished(*final(self)),
            super::ram_effect(old(bus).spec_ram(), final(bus).spec_ram(), final(self).bus_used@, final(self).last_bus@),
            super::bus_effect(*old(bus), *old(cpu_peripherals), *final(bus), *final(cpu_peripherals), final(self).bus_used@, final(self).last_bus@),
            final(self).dmc_dma == old(self).dmc_dma,
            final(self).nmi_detected == old(self).nmi_detected,
            final(self).prev_nmi == old(self).prev_nmi,
    {
        {
            match self.subcycle {
                1 => {
                    self.temp = self.memory_cycle_read(self.pc.wrapping_add(1),
                        bus,
                        cpu_peripherals,
                    );
                    {
                        self.copy_debugger(hex8_text("*LAX ($", self.temp, "),Y"));
                        self.done_fetching = true;
                    }
                    self.subcycle = 2;
                }
                2 => {
                    self.temp2 =
                    self.memory_cycle_read(self.temp as u16, bus, cpu_peripherals);
                    self.subcycle = 3;
                }
                3 => {
                    self.temp = self.memory_cycle_read(self.temp.wrapping_add(1) as u16,
                        bus,
                        cpu_peripherals,
                    );
                    self.subcycle = 4;
                }
                4 => {
                    let mut addr = (self.temp as u16) << 8 | (self.temp2 as u16);
                    let (_val, overflow) = overflowing_add(self.temp2, self.y);
                    if !overflow {
                        addr = addr.wrapping_add(self.y as u16);
                        self.a = self.memory_cycle_read(addr, bus, cpu_peripherals);
                        self.x = self.a;
                        self.p &= !(CPU_FLAG_ZERO | CPU_FLAG_NEGATIVE);
                        if self.a == 0 {
                            self.p |= CPU_FLAG_ZERO;
                        }
                        if (self.a & 0x80) != 0 {
                            self.p |= CPU_FLAG_NEGATIVE;
                        }
                        self.pc = self.pc.wrapping_add(2);
                        self.end_instruction();
                    } else {
                        self.subcycle = 5;
                    }
                }
                _ => {
                    let mut addr = (self.temp as u16) << 8 | (self.temp2 as u16);
                    addr = addr.wrapping_add(self.y as u16);
                    self.a = self.memory_cycle_read(addr, bus, cpu_peripherals);
                    self.x = self.a;
                    self.p &= !(CPU_FLAG_ZERO | CPU_FLAG_NEGATIVE);
                    if self.a == 0 {
                        self.p |= CPU_FLAG_ZERO;
                    }
                    if (self.a & 0x80) != 0 {
                        self.p |= CPU_FLAG_NEGATIVE;
                    }

                    self.pc = self.pc.wrapping_add(2);
                    self.end_instruction();
                }
            }
        }
        proof {
            super::lemma_nz(old(self).p, self.last_bus@.data);
            super::lemma_word(old(self).temp2, old(self).temp);
            super::lemma_word(((old(self).temp2 as int + old(self).y as int) % 256) as u8, old(self).temp);
        }
    }

    /// lax zero page y, undocumented
    #[verifier::rlimit(100)]
    #[verifier::spinoff_prover]
    pub(crate) fn op_b7<C: CartridgeDevice, K: ControllerDevice, P: PpuDevice, A: ApuDevice>(
        &mut self,
        bus: &mut NesMotherboard<C, K>,
        cpu_peripherals: &mut NesCpuPeripherals<P, A>,
    )
        requires
            old(self).inv(),
            !old(self).reset,
            old(self).opcode == Some(0xb7u8),
            !old(self).bus_used@,
        ensures
            final(self).inv(),
            !final(self).reset,
            step_b7(*old(self), *final(self)),
            final(self).opcode == old(self).opcode || super::finished(*final(self)),
            super::ram_effect(old(bus).spec_ram(), final(bus).spec_ram(), final(self).bus_used@, final(self).last_bus@),
            super::bus_effect(*old(bus), *old(cpu_peripherals), *final(bus), *final(cpu_peripherals), final(self).bus_used@, final(self).last_bus@),
            final(self).dmc_dma == old(self).dmc_dma,
            final(self).nmi_detected == old(self).nmi_detected,
            final(self).prev_nmi == old(self).prev_nmi,
    {
        {
            match self.subcycle {
                1 => {
                    self.subcycle = 2;
                    self.temp = self.memory_cycle_read(self.pc.wrapping_add(1),
                        bus,
                        cpu_peripherals,
                    );
                    {
                        self.copy_debugger(hex8_text("*LAX $", self.temp, ",Y"));
                        self.done_fetching = true;
                    }
                }
                2 => {
                    self.memory_cycle_read(self.temp as u16, bus, cpu_peripherals);
                    self.subcycle = 3;
                }
                _ => {
                    self.temp = self.temp.wrapping_add(self.y);
                    self.x =
                    self.memory_cycle_read(self.temp as u16, bus, cpu_peripherals);
                    self.a = self.x;
                    self.p &= !(CPU_FLAG_ZERO | CPU_FLAG_NEGATIVE);
                    if self.x == 0 {
                        self.p |= CPU_FLAG_ZERO;
                    }
                    if (self.x & 0x80) != 0 {
                        self.p |= CPU_FLAG_NEGATIVE;
                    }
                    self.pc = self.pc.wrapping_add(2);
                    self.end_instruction();
                }
            }
        }
        proof {
            super::lemma_nz(old(self).p, self.last_bus@.data);
        }
    }

    /// lax absolute y, undocumented
    #[verifier::rlimit(100)]
    #[verifier::spinoff_prover]
    pub(crate) fn op_bf<C: CartridgeDevice, K: ControllerDevice, P: PpuDevice, A: ApuDevice>(
        &mut self,
        bus: &mut NesMotherboard<C, K>,
        cpu_peripherals: &mut NesCpuPeripherals<P, A>,
    )
        requires
            old(self).inv(),
            !old(self).reset,
            old(self).opcode == Some(0xbfu8),
            !old(self).bus_used@,
        ensures
            final(self).inv(),
            !final(self).reset,
            step_bf(*old(self), *final(self)),
            final(self).opcode == old(self).opcode || super::finished(*final(self)),
            super::ram_effect(old(bus).spec_ram(), final(bus).spec_ram(), final(self).bus_used@, final(self).last_bus@),
            super::bus_effect(*old(bus), *old(cpu_peripherals), *final(bus), *final(cpu_peripherals), final(self).bus_used@, final(self).last_bus@),
            final(self).dmc_dma == old(self).dmc_dma,
            final(self).nmi_detected == old(self).nmi_detected,
            final(self).prev_nmi == old(self).prev_nmi,
    {
        {
            match self.subcycle {
                1 => {
                    self.temp = self.memory_cycle_read(self.pc.wrapping_add(1),
                        bus,
                        cpu_peripherals,
                    );
                    self.subcycle = 2;
                }
                2 => {
                    self.temp2 = self.memory_cycle_read(self.pc.wrapping_add(2),
                        bus,
                        cpu_peripherals,
                    );
                    {
                        let temp = (self.temp2 as u16) << 8 | self.temp as u16;
                        self.copy_debugger(hex16_text("*LAX $", temp, ",Y"));
                        self.done_fetching = true;
                    }
                    proof {
                        super::lemma_word(self.temp, self.temp2);
                    }
                    self.subcycle = 3;
                }
                3 => {
                    self.tempaddr = (self.temp2 as u16) << 8 | self.temp as u16;
                    let (_val, overflow) = overflowing_add(self.temp, self.y);
                    if !overflow {
                        self.tempaddr = self.tempaddr.wrapping_add(self.y as u16);
                        self.x =
                        self.memory_cycle_read(self.tempaddr, bus, cpu_peripherals);
                        self.a = self.x;
                        self.p &= !(CPU_FLAG_ZERO | CPU_FLAG_NEGATIVE);
                        if self.x == 0 {
                            self.p |= CPU_FLAG_ZERO;
                        }
                        if (self.x & 0x80) != 0 {
                            self.p |= CPU_FLAG_NEGATIVE;
                        }
                        self.pc = self.pc.wrapping_add(3);
                        self.end_instruction();
                    } else {
                        self.subcycle = 4;
                    }
                }
                _ => {
                    self.tempaddr = self.tempaddr.wrapping_add(self.y as u16);
                    self.x =
                    self.memory_cycle_read(self.tempaddr, bus, cpu_peripherals);
                    self.a = self.x;
                    self.p &= !(CPU_FLAG_ZERO | CPU_FLAG_NEGATIVE);
                    if self.x == 0 {
                        self.p |= CPU_FLAG_ZERO;
                    }
                    if (self.x & 0x80) != 0 {
                        self.p |= CPU_FLAG_NEGATIVE;
                    }
                    self.pc = self.pc.wrapping_add(3);
                    self.end_instruction();
                }
            }
        }
        proof {
            super::lemma_nz(old(self).p, self.last_bus@.data);
            super::lemma_word(old(self).temp, old(self).temp2);
            super::lemma_word(((old(self).temp as int + old(self).y as int) % 256) as u8, old(self).temp2);
        }
    }

    /// sax indirect x
    #[verifier::rlimit(100)]
    #[verifier::spinoff_prover]
    pub(crate) fn op_83<C: CartridgeDevice, K: ControllerDevice, P: PpuDevice, A: ApuDevice>(
        &mut self,
        bus: &mut NesMotherboard<C, K>,
        cpu_peripherals: &mut NesCpuPeripherals<P, A>,
    )
        requires
            old(self).inv(),
            !old(self).reset,
            old(self).opcode == Some(0x83u8),
            !old(self).bus_used@,
        ensures
            final(self).inv(),
            !final(self).reset,
            step_83(*old(self), *final(self)),
            final(self).opcode == old(self).opcode || super::finished(*final(self)),
            super::ram_effect(old(bus).spec_ram(), final(bus).spec_ram(), final(self).bus_used@, final(self).last_bus@),
            super::bus_effect(*old(bus), *old(cpu_peripherals), *final(bus), *final(cpu_peripherals), final(self).bus_used@, final(self).last_bus@),
            final(self).dmc_dma == old(self).dmc_dma,
            final(self).nmi_detected == old(self).nmi_detected,
            final(self).prev_nmi == old(self).prev_nmi,
    {
        {
            match self.subcycle {
                1 => {
                    self.temp = self.memory_cycle_read(self.pc.wrapping_add(1),
                        bus,
                        cpu_peripherals,
                    );
                    {
                        self.copy_debugger(hex8_text("*SAX ($", self.temp, ",X)"));
                        self.done_fetching = true;
                    }
                    self.subcycle = 2;
                }
                2 => {
                    self.tempaddr = self.temp.wrapping_add(self.x) as u16;
                    self.temp2 =
                    self.memory_cycle_read(self.tempaddr, bus, cpu_peripherals);
                    self.subcycle = 3;
                }
                3 => {
                    self.memory_cycle_read(self.tempaddr, bus, cpu_peripherals);
                    self.subcycle = 4;
                }
                4 => {
                    self.tempaddr = self.temp.wrapping_add(self.x).wrapping_add(1) as u16;
                    self.temp =
                    self.memory_cycle_read(self.tempaddr, bus, cpu_peripherals);
                    self.subcycle = 5;
                }
                _ => {
                    self.tempaddr = (self.temp as u16) << 8 | (self.temp2 as u16);
                    self.temp = self.x & self.a;
                    self.memory_cycle_write(self.tempaddr, self.temp, bus, cpu_peripherals);
                    self.pc = self.pc.wrapping_add(2);
                    self.end_instruction();
                }
            }
        }
        proof {
            super::lemma_word(old(self).temp2, old(self).temp);
            super::lemma_word(((old(self).temp2 as int + old(self).y as int) % 256) as u8, old(self).temp);
        }
    }

    /// sax zero page
    #[verifier::rlimit(100)]
    #[verifier::spinoff_prover]
    pub(crate) fn op_87<C: CartridgeDevice, K: ControllerDevice, P: PpuDevice, A: ApuDevice>(
        &mut self,
        bus: &mut NesMotherboard<C, K>,
        cpu_peripherals: &mut NesCpuPeripherals<P, A>,
    )
        requires
            old(self).inv(),
            !old(self).reset,
            old(self).opcode == Some(0x87u8),
            !old(self).bus_used@,
        ensures
            final(self).inv(),
            !final(self).reset,
            step_87(*old(self), *final(self)),
            final(self).opcode == old(self).opcode || super::finished(*final(self)),
            super::ram_effect(old(bus).spec_ram(), final(bus).spec_ram(), final(self).bus_used@, final(self).last_bus@),
            super::bus_effect(*old(bus), *old(cpu_peripherals), *final(bus), *final(cpu_peripherals), final(self).bus_used@, final(self).last_bus@),
            final(self).dmc_dma == old(self).dmc_dma,
            final(self).nmi_detected == old(self).nmi_detected,
            final(self).prev_nmi == old(self).prev_nmi,
    {
        {
            match self.subcycle {
                1 => {
                    self.temp = self.memory_cycle_read(self.pc.wrapping_add(1),
                        bus,
                        cpu_peripherals,
                    );
                    {
                        self.copy_debugger(hex8_text("*SAX $", self.temp, ""));
                        self.done_fetching = true;
                    }
                    self.subcycle = 2;
                }
                _ => {
                    self.temp2 = self.a & self.x;
                    self.memory_cycle_write(self.temp as u16, self.temp2, bus, cpu_peripherals);
                    self.pc = self.pc.wrapping_add(2);
                    self.end_instruction();
                }
            }
        }
    }

    /// sax absolute
    #[verifier::rlimit(100)]
    #[verifier::spinoff_prover]
    pub(crate) fn op_8f<C: CartridgeDevice, K: ControllerDevice, P: PpuDevice, A: ApuDevice>(
        &mut self,
        bus: &mut NesMotherboard<C, K>,
        cpu_peripherals: &mut NesCpuPeripherals<P, A>,
    )
        requires
            old(self).inv(),
            !old(self).reset,
            old(self).opcode == Some(0x8fu8),
            !old(self).bus_used@,
        ensures
            final(self).inv(),
            !final(self).reset,
            step_8f(*old(self), *final(self)),
            final(self).opcode == old(self).opcode || super::finished(*final(self)),
            super::ram_effect(old(bus).spec_ram(), final(bus).spec_ram(), final(self).bus_used@, final(self).last_bus@),
            super::bus_effect(*old(bus), *old(cpu_peripherals), *final(bus), *final(cpu_peripherals), final(self).bus_used@, final(self).last_bus@),
            final(self).dmc_dma == old(self).dmc_dma,
            final(self).nmi_detected == old(self).nmi_detected,
            final(self).prev_nmi == old(self).prev_nmi,
    {
        {
            match self.subcycle {
                1 => {
                    self.temp = self.memory_cycle_read(self.pc.wrapping_add(1),
                        bus,
                        cpu_peripherals,
                    );
                    self.subcycle = 2;
                }
                2 => {
                    self.temp2 = self.memory_cycle_read(self.pc.wrapping_add(2),
                        bus,
                        cpu_peripherals,
                    );
                    {
                        let temp = (self.temp2 as u16) << 8 | self.temp as u16;
                        self.copy_debugger(hex16_text("*SAX $", temp, ""));
                        self.done_fetching = true;
                    }
                    proof {
                        super::lemma_word(self.temp, self.temp2);
                    }
                    self.subcycle = 3;
                }
                _ => {
                    self.tempaddr = (self.temp2 as u16) << 8 | (self.temp as u16);
                    self.temp2 = self.a & self.x;
                    self.memory_cycle_write(self.tempaddr, self.temp2, bus, cpu_peripherals);
                    self.pc = self.pc.wrapping_add(3);
                    self.end_instruction();
                }
            }
        }
        proof {
            super::lemma_word(old(self).temp, old(self).temp2);
        }
    }

    /// sax absolute y
    #[verifier::rlimit(100)]
    #[verifier::spinoff_prover]
    pub(crate) fn op_97<C: CartridgeDevice, K: ControllerDevice, P: PpuDevice, A: ApuDevice>(
        &mut self,
        bus: &mut NesMotherboard<C, K>,
        cpu_peripherals: &mut NesCpuPeripherals<P, A>,
    )
        requires
            old(self).inv(),
            !old(self).reset,
            old(self).opcode == Some(0x97u8),
            !old(self).bus_used@,
        ensures
            final(self).inv(),
            !final(self).reset,
            step_97(*old(self), *final(self)),
            final(self).opcode == old(self).opcode || super::finished(*final(self)),
            super::ram_effect(old(bus).spec_ram(), final(bus).spec_ram(), final(self).bus_used@, final(self).last_bus@),
            super::bus_effect(*old(bus), *old(cpu_peripherals), *final(bus), *final(cpu_peripherals), final(self).bus_used@, final(self).last_bus@),
            final(self).dmc_dma == old(self).dmc_dma,
            final(self).nmi_detected == old(self).nmi_detected,
            final(self).prev_nmi == old(self).prev_nmi,
    {
        {
            match self.subcycle {
                1 => {
                    self.temp = self.memory_cycle_read(self.pc.wrapping_add(1),
                        bus,
                        cpu_peripherals,
                    );
                    {
                        self.copy_debugger(hex8_text("*SAX $", self.temp, ",Y"));
                        self.done_fetching = true;
                    }
                    self.subcycle = 2;
                }
                2 => {
                    self.subcycle = 3;
                }
                _ => {
                    self.tempaddr = self.temp.wrapping_add(self.y) as u16;
                    self.temp2 = self.a & self.x;
                    self.memory_cycle_write(self.tempaddr, self.temp2, bus, cpu_peripherals);
                    self.pc = self.pc.wrapping_add(2);
                    self.end_instruction();
                }
            }
        }
    }

    /// lax undocumented, lda immediate, then tax
    #[verifier::rlimit(100)]
    #[verifier::spinoff_prover]
    pub(crate) fn op_ab<C: CartridgeDevice, K: ControllerDevice, P: PpuDevice, A: ApuDevice>(
        &mut self,
        bus: &mut NesMotherboard<C, K>,
        cpu_peripherals: &mut NesCpuPeripherals<P, A>,
    )
        requires
            old(self).inv(),
            !old(self).reset,
            old(self).opcode == Some(0xabu8),
            !old(self).bus_used@,
        ensures
            final(self).inv(),
            !final(self).reset,
            step_ab(*old(self), *final(self)),
            final(self).opcode == old(self).opcode || super::finished(*final(self)),
            super::ram_effect(old(bus).spec_ram(), final(bus).spec_ram(), final(self).bus_used@, final(self).last_bus@),
            super::bus_effect(*old(bus), *old(cpu_peripherals), *final(bus), *final(cpu_peripherals), final(self).bus_used@, final(self).last_bus@),
            final(self).dmc_dma == old(self).dmc_dma,
            final(self).nmi_detected == old(self).nmi_detected,
            final(self).prev_nmi == old(self).prev_nmi,
    {
        {
            self.temp = self.memory_cycle_read(self.pc.wrapping_add(1),
                bus,
                cpu_peripherals,
            );
            {
                self.copy_debugger(hex8_text("*LAX #$", self.temp, ""));
                self.done_fetching = true;
            }

            self.a = self.temp;

            self.x = self.a;
            self.p &= !(CPU_FLAG_ZERO | CPU_FLAG_NEGATIVE);
            if (self.x & 0x80) != 0 {
                self.p |= CPU_FLAG_NEGATIVE;
            }
            if self.x == 0 {
                self.p |= CPU_FLAG_ZERO;
            }

            self.pc = self.pc.wrapping_add(2);
            self.end_instruction();
        }
        proof {
            super::lemma_nz(old(self).p, self.last_bus@.data);
        }
    }

    /// SHY, undocumented
    #[verifier::rlimit(100)]
    #[verifier::spinoff_prover]
    pub(crate) fn op_9c<C: CartridgeDevice, K: ControllerDevice, P: PpuDevice, A: ApuDevice>(
        &mut self,
        bus: &mut NesMotherboard<C, K>,
        cpu_peripherals: &mut NesCpuPeripherals<P, A>,
    )
        requires
            old(self).inv(),
            !old(self).reset,
            old(self).opcode == Some(0x9cu8),
            !old(self).bus_used@,
        ensures
            final(self).inv(),
            !final(self).reset,
            step_9c(*old(self), *final(self)),
            final(self).opcode == old(self).opcode || super::finished(*final(self)),
            super::ram_effect(old(bus).spec_ram(), final(bus).spec_ram(), final(self).bus_used@, final(self).last_bus@),
            super::bus_effect(*old(bus), *old(cpu_peripherals), *final(bus), *final(cpu_peripherals), final(self).bus_used@, final(self).last_bus@),
            final(self).dmc_dma == old(self).dmc_dma,
            final(self).nmi_detected == old(self).nmi_detected,
            final(self).prev_nmi == old(self).prev_nmi,
    {
        {
            match self.subcycle {
                1 => {
                    self.temp = self.memory_cycle_read(self.pc.wrapping_add(1),
                        bus,
                        cpu_peripherals,
                    );
                    self.subcycle = 2;
                }
                2 => {
                    self.temp2 = self.memory_cycle_read(self.pc.wrapping_add(2),
                        bus,
                        cpu_peripherals,
                    );
                    {
                        let temp = (self.temp2 as u16) << 8 | self.temp as u16;
                        self.copy_debugger(hex16_text("*SHY $", temp, ",X"));
                        self.done_fetching = true;
                    }
                    proof {
                        super::lemma_word(self.temp, self.temp2);
                    }
                    self.subcycle = 3;
                }
                3 => {
                    let addr =
                    (self.temp2 as u16) << 8 | (self.temp.wrapping_add(self.x) as u16);
                    self.memory_cycle_read(addr, bus, cpu_peripherals);
                    self.subcycle = 4;
                }
                _ => {
                    let addr = ((self.temp2 as u16).wrapping_add(1) << 8 | (self.temp as u16))
                    .wrapping_add(self.x as u16);
                    let mask = (self.y as u16) << 8 | 0xFF;
                    let val = self.temp2.wrapping_add(1) & self.y;
                    self.memory_cycle_write(addr & mask, val, bus, cpu_peripherals);

                    self.pc = self.pc.wrapping_add(3);
                    self.end_instruction();
                }
            }
        }
        proof {
            super::lemma_sh(old(self).temp, old(self).temp2, old(self).x, old(self).y);
            super::lemma_word(old(self).temp, old(self).temp2);
            super::lemma_word(((old(self).temp as int + old(self).x as int) % 256) as u8, old(self).temp2);
        }
    }

    /// SHX, undocumented
    #[verifier::rlimit(100)]
    #[verifier::spinoff_prover]
    pub(crate) fn op_9e<C: CartridgeDevice, K: ControllerDevice, P: PpuDevice, A: ApuDevice>(
        &mut self,
        bus: &mut NesMotherboard<C, K>,
        cpu_peripherals: &mut NesCpuPeripherals<P, A>,
    )
        requires
            old(self).inv(),
            !old(self).reset,
            old(self).opcode == Some(0x9eu8),
            !old(self).bus_used@,
        ensures
            final(self).inv(),
            !final(self).reset,
            step_9e(*old(self), *final(self)),
            final(self).opcode == old(self).opcode || super::finished(*final(self)),
            super::ram_effect(old(bus).spec_ram(), final(bus).spec_ram(), final(self).bus_used@, final(self).last_bus@),
            super::bus_effect(*old(bus), *old(cpu_peripherals), *final(bus), *final(cpu_peripherals), final(self).bus_used@, final(self).last_bus@),
            final(self).dmc_dma == old(self).dmc_dma,
            final(self).nmi_detected == old(self).nmi_detected,
            final(self).prev_nmi == old(self).prev_nmi,
    {
        {
            match self.subcycle {
                1 => {
                    self.temp = self.memory_cycle_read(self.pc.wrapping_add(1),
                        bus,
                        cpu_peripherals,
                    );
                    self.subcycle = 2;
                }
                2 => {
                    self.temp2 = self.memory_cycle_read(self.pc.wrapping_add(2),
                        bus,
                        cpu_peripherals,
                    );
                    {
                        let temp = (self.temp2 as u16) << 8 | self.temp as u16;
                        self.copy_debugger(hex16_text("*SHX $", temp, ",Y"));
                        self.done_fetching = true;
                    }
                    proof {
                        super::lemma_word(self.temp, self.temp2);
                    }
                    self.subcycle = 3;
                }
                3 => {
                    let addr =
                    (self.temp2 as u16) << 8 | (self.temp.wrapping_add(self.y) as u16);
                    self.memory_cycle_read(addr, bus, cpu_peripherals);
                    self.subcycle = 4;
                }
                _ => {
                    let addr = ((self.temp2 as u16).wrapping_add(1) << 8 | (self.temp as u16))
                    .wrapping_add(self.y as u16);
                    let mask = (self.x as u16) << 8 | 0xFF;
                    let val = self.temp2.wrapping_add(1) & self.x;
                    self.memory_cycle_write(addr & mask, val, bus, cpu_peripherals);

                    self.pc = self.pc.wrapping_add(3);
                    self.end_instruction();
                }
            }
        }
        proof {
            super::lemma_sh(old(self).temp, old(self).temp2, old(self).y, old(self).x);
            super::lemma_word(old(self).temp, old(self).temp2);
            super::lemma_word(((old(self).temp as int + old(self).y as int) % 256) as u8, old(self).temp2);
        }
    }
}

} // verus!

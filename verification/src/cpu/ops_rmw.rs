//! The read-modify-write instructions of the cpu, one bus cycle at a time.
use vstd::prelude::*;
use crate::cpu::{
    NesCpu, NesCpuPeripherals, CPU_FLAG_CARRY, CPU_FLAG_ZERO, CPU_FLAG_INT_DISABLE, CPU_FLAG_DECIMAL,
    CPU_FLAG_B1, CPU_FLAG_B2, CPU_FLAG_OVERFLOW, CPU_FLAG_NEGATIVE, hex8_text, hex16_text,
    hex16_upper_text, le_bytes, from_le_bytes, overflowing_add,
};
use crate::devices::{ApuDevice, CartridgeDevice, ControllerDevice, PpuDevice};
use crate::motherboard::NesMotherboard;

verus! {

/// One bus cycle of inc increment zero page.
pub(crate) open spec fn step_e6(s: NesCpu, t: NesCpu) -> bool {
    &&& s.subcycle == 1 ==> super::shows(s, t, "INC $"@ + super::hex_text(t.temp as nat, 2, false) + ""@)
    &&& s.subcycle != 1 ==> super::keeps_debugger(s, t)
    &&& s.subcycle == 1 ==> {
        &&& super::read_at(t, super::pc_plus(s.pc, 1))
        &&& t.temp == super::data(t)
    }
    &&& super::finished(t) ==> {
        &&& t.last_bus@.write
        &&& t.pc == super::pc_plus(s.pc, 2)
    }
    &&& t.x == s.x
    &&& t.y == s.y
    &&& t.s == s.s
    &&& t.a == s.a
    &&& !super::finished(t) ==> t.pc == s.pc
    &&& s.subcycle == 2 ==> t.temp2 == super::data(t) && super::read_at(t, t.temp as u16)
    &&& s.subcycle == 3 ==> super::write_at(t, s.temp as u16, s.temp2) && t.temp == s.temp && t.temp2 == s.temp2 && t.p == s.p
    &&& s.subcycle >= 4 ==> super::write_at(t, s.temp as u16, super::inc_value(s.temp2)) && t.p == super::nz_flags(s.p, super::inc_value(s.temp2))
    &&& s.subcycle == 2 ==> t.temp == s.temp
    &&& s.subcycle == 1 ==> t.subcycle == 2
    &&& s.subcycle == 2 ==> t.subcycle == 3
    &&& s.subcycle == 3 ==> t.subcycle == 4
    &&& s.subcycle == 1 || s.subcycle == 2 || s.subcycle == 3 ==> t.p == s.p
    &&& s.subcycle >= 4 ==> super::finished(t)
    &&& 1 <= s.subcycle < 4 ==> !super::finished(t)
}

/// One bus cycle of inc increment zero page x.
pub(crate) open spec fn step_f6(s: NesCpu, t: NesCpu) -> bool {
    &&& s.subcycle == 1 ==> super::shows(s, t, "INC $"@ + super::hex_text(t.temp as nat, 2, false) + ",X"@)
    &&& s.subcycle != 1 ==> super::keeps_debugger(s, t)
    &&& s.subcycle == 2 ==> super::read_at(t, s.temp as u16) && t.temp == s.temp
    &&& s.subcycle == 1 ==> {
        &&& super::read_at(t, super::pc_plus(s.pc, 1))
        &&& t.temp == super::data(t)
    }
    &&& super::finished(t) ==> {
        &&& t.last_bus@.write
        &&& t.pc == super::pc_plus(s.pc, 2)
    }
    &&& t.x == s.x
    &&& t.y == s.y
    &&& t.s == s.s
    &&& t.a == s.a
    &&& !super::finished(t) ==> t.pc == s.pc
    &&& s.subcycle == 3 ==> t.temp2 == super::data(t) && super::read_at(t, t.temp as u16)
    &&& s.subcycle == 4 ==> super::write_at(t, s.temp as u16, s.temp2) && t.temp == s.temp && t.temp2 == s.temp2 && t.p == s.p
    &&& s.subcycle >= 5 ==> super::write_at(t, s.temp as u16, super::inc_value(s.temp2)) && t.p == super::nz_flags(s.p, super::inc_value(s.temp2))
    &&& s.subcycle == 3 ==> t.temp == ((s.temp + s.x) % 256) as u8
    &&& s.subcycle == 1 ==> t.subcycle == 2
    &&& s.subcycle == 2 ==> t.subcycle == 3
    &&& s.subcycle == 3 ==> t.subcycle == 4
    &&& s.subcycle == 4 ==> t.subcycle == 5
    &&& s.subcycle == 1 || s.subcycle == 2 || s.subcycle == 3 || s.subcycle == 4 ==> t.p == s.p
    &&& s.subcycle >= 5 ==> super::finished(t)
    &&& 1 <= s.subcycle < 5 ==> !super::finished(t)
}

/// One bus cycle of inc absolute.
pub(crate) open spec fn step_ee(s: NesCpu, t: NesCpu) -> bool {
    &&& s.subcycle == 2 ==> super::shows(s, t, "INC $"@ + super::hex_text(super::word(t.temp, t.temp2) as nat, 4, false) + ""@)
    &&& s.subcycle != 2 ==> super::keeps_debugger(s, t)
    &&& s.subcycle == 1 ==> {
        &&& super::read_at(t, super::pc_plus(s.pc, 1))
        &&& t.temp == super::data(t)
    }
    &&& s.subcycle == 2 ==> {
        &&& super::read_at(t, super::pc_plus(s.pc, 2))
        &&& t.temp2 == super::data(t)
        &&& t.temp == s.temp
    }
    &&& super::finished(t) ==> {
        &&& t.last_bus@.write
        &&& t.pc == super::pc_plus(s.pc, 3)
    }
    &&& t.x == s.x
    &&& t.y == s.y
    &&& t.s == s.s
    &&& t.a == s.a
    &&& !super::finished(t) ==> t.pc == s.pc
    &&& s.subcycle == 3 ==> t.temp == super::data(t) && super::read_at(t, t.tempaddr)
    &&& s.subcycle == 4 ==> super::write_at(t, s.tempaddr, s.temp) && t.tempaddr == s.tempaddr && t.temp == super::inc_value(s.temp) && t.p == super::nz_flags(s.p, super::inc_value(s.temp))
    &&& s.subcycle >= 5 ==> super::write_at(t, s.tempaddr, s.temp)
    &&& s.subcycle == 3 ==> t.tempaddr == super::word(s.temp, s.temp2)
    &&& s.subcycle == 1 ==> t.subcycle == 2
    &&& s.subcycle == 2 ==> t.subcycle == 3
    &&& s.subcycle == 3 ==> t.subcycle == 4
    &&& s.subcycle == 4 ==> t.subcycle == 5
    &&& s.subcycle == 1 || s.subcycle == 2 || s.subcycle == 3 ==> t.p == s.p
    &&& s.subcycle >= 5 ==> t.p == s.p
    &&& s.subcycle >= 5 ==> super::finished(t)
    &&& 1 <= s.subcycle < 5 ==> !super::finished(t)
}

/// One bus cycle of inc absolute x.
pub(crate) open spec fn step_fe(s: NesCpu, t: NesCpu) -> bool {
    &&& s.subcycle == 2 ==> super::shows(s, t, "INC $"@ + super::hex_text(super::word(t.temp, t.temp2) as nat, 4, false) + ",X"@)
    &&& s.subcycle != 2 ==> super::keeps_debugger(s, t)
    &&& s.subcycle == 1 ==> {
        &&& super::read_at(t, super::pc_plus(s.pc, 1))
        &&& t.temp == super::data(t)
    }
    &&& s.subcycle == 2 ==> {
        &&& super::read_at(t, super::pc_plus(s.pc, 2))
        &&& t.temp2 == super::data(t)
        &&& t.temp == s.temp
    }
    &&& s.subcycle == 3 ==> {
        &&& super::read_at(t, super::word(((s.temp + s.x) % 256) as u8, s.temp2))
        &&& t.temp == s.temp
        &&& t.temp2 == s.temp2
    }
    &&& super::finished(t) ==> {
        &&& t.last_bus@.write
        &&& t.pc == super::pc_plus(s.pc, 3)
    }
    &&& t.x == s.x
    &&& t.y == s.y
    &&& t.s == s.s
    &&& t.a == s.a
    &&& !super::finished(t) ==> t.pc == s.pc
    &&& s.subcycle == 4 ==> t.temp == super::data(t) && super::read_at(t, t.tempaddr)
    &&& s.subcycle == 5 ==> super::write_at(t, s.tempaddr, s.temp) && t.tempaddr == s.tempaddr && t.temp == super::inc_value(s.temp) && t.p == super::nz_flags(s.p, super::inc_value(s.temp))
    &&& s.subcycle >= 6 ==> super::write_at(t, s.tempaddr, s.temp)
    &&& s.subcycle == 4 ==> t.tempaddr == super::abs_index(super::word(s.temp, s.temp2), s.x)
    &&& s.subcycle == 1 ==> t.subcycle == 2
    &&& s.subcycle == 2 ==> t.subcycle == 3
    &&& s.subcycle == 3 ==> t.subcycle == 4
    &&& s.subcycle == 4 ==> t.subcycle == 5
    &&& s.subcycle == 5 ==> t.subcycle == 6
    &&& s.subcycle == 1 || s.subcycle == 2 || s.subcycle == 3 || s.subcycle == 4 ==> t.p == s.p
    &&& s.subcycle >= 6 ==> t.p == s.p
    &&& s.subcycle >= 6 ==> super::finished(t)
    &&& 1 <= s.subcycle < 6 ==> !super::finished(t)
}

/// One bus cycle of dec decrement zero page.
pub(crate) open spec fn step_c6(s: NesCpu, t: NesCpu) -> bool {
    &&& s.subcycle == 1 ==> super::shows(s, t, "DEC $"@ + super::hex_text(t.temp as nat, 2, false) + ""@)
    &&& s.subcycle != 1 ==> super::keeps_debugger(s, t)
    &&& s.subcycle == 1 ==> {
        &&& super::read_at(t, super::pc_plus(s.pc, 1))
        &&& t.temp == super::data(t)
    }
    &&& super::finished(t) ==> {
        &&& t.last_bus@.write
        &&& t.pc == super::pc_plus(s.pc, 2)
    }
    &&& t.x == s.x
    &&& t.y == s.y
    &&& t.s == s.s
    &&& t.a == s.a
    &&& !super::finished(t) ==> t.pc == s.pc
    &&& s.subcycle == 2 ==> t.temp2 == super::data(t) && super::read_at(t, t.temp as u16)
    &&& s.subcycle == 3 ==> super::write_at(t, s.temp as u16, s.temp2) && t.temp == s.temp && t.temp2 == s.temp2 && t.p == s.p
    &&& s.subcycle >= 4 ==> super::write_at(t, s.temp as u16, super::dec_value(s.temp2)) && t.p == super::nz_flags(s.p, super::dec_value(s.temp2))
    &&& s.subcycle == 2 ==> t.temp == s.temp
    &&& s.subcycle == 1 ==> t.subcycle == 2
    &&& s.subcycle == 2 ==> t.subcycle == 3
    &&& s.subcycle == 3 ==> t.subcycle == 4
    &&& s.subcycle == 1 || s.subcycle == 2 || s.subcycle == 3 ==> t.p == s.p
    &&& s.subcycle >= 4 ==> super::finished(t)
    &&& 1 <= s.subcycle < 4 ==> !super::finished(t)
}

/// One bus cycle of dec decrement zero page x.
pub(crate) open spec fn step_d6(s: NesCpu, t: NesCpu) -> bool {
    &&& s.subcycle == 1 ==> super::shows(s, t, "DEC $"@ + super::hex_text(t.temp as nat, 2, false) + ",X"@)
    &&& s.subcycle != 1 ==> super::keeps_debugger(s, t)
    &&& s.subcycle == 2 ==> super::read_at(t, s.temp as u16) && t.temp == s.temp
    &&& s.subcycle == 1 ==> {
        &&& super::read_at(t, super::pc_plus(s.pc, 1))
        &&& t.temp == super::data(t)
    }
    &&& super::finished(t) ==> {
        &&& t.last_bus@.write
        &&& t.pc == super::pc_plus(s.pc, 2)
    }
    &&& t.x == s.x
    &&& t.y == s.y
    &&& t.s == s.s
    &&& t.a == s.a
    &&& !super::finished(t) ==> t.pc == s.pc
    &&& s.subcycle == 3 ==> t.temp2 == super::data(t) && super::read_at(t, t.temp as u16)
    &&& s.subcycle == 4 ==> super::write_at(t, s.temp as u16, s.temp2) && t.temp == s.temp && t.temp2 == s.temp2 && t.p == s.p
    &&& s.subcycle >= 5 ==> super::write_at(t, s.temp as u16, super::dec_value(s.temp2)) && t.p == super::nz_flags(s.p, super::dec_value(s.temp2))
    &&& s.subcycle == 3 ==> t.temp == ((s.temp + s.x) % 256) as u8
    &&& s.subcycle == 1 ==> t.subcycle == 2
    &&& s.subcycle == 2 ==> t.subcycle == 3
    &&& s.subcycle == 3 ==> t.subcycle == 4
    &&& s.subcycle == 4 ==> t.subcycle == 5
    &&& s.subcycle == 1 || s.subcycle == 2 || s.subcycle == 3 || s.subcycle == 4 ==> t.p == s.p
    &&& s.subcycle >= 5 ==> super::finished(t)
    &&& 1 <= s.subcycle < 5 ==> !super::finished(t)
}

/// One bus cycle of dec absolute.
pub(crate) open spec fn step_ce(s: NesCpu, t: NesCpu) -> bool {
    &&& s.subcycle == 2 ==> super::shows(s, t, "DEC $"@ + super::hex_text(super::word(t.temp, t.temp2) as nat, 4, false) + ""@)
    &&& s.subcycle != 2 ==> super::keeps_debugger(s, t)
    &&& s.subcycle == 1 ==> {
        &&& super::read_at(t, super::pc_plus(s.pc, 1))
        &&& t.temp == super::data(t)
    }
    &&& s.subcycle == 2 ==> {
        &&& super::read_at(t, super::pc_plus(s.pc, 2))
        &&& t.temp2 == super::data(t)
        &&& t.temp == s.temp
    }
    &&& super::finished(t) ==> {
        &&& t.last_bus@.write
        &&& t.pc == super::pc_plus(s.pc, 3)
    }
    &&& t.x == s.x
    &&& t.y == s.y
    &&& t.s == s.s
    &&& t.a == s.a
    &&& !super::finished(t) ==> t.pc == s.pc
    &&& s.subcycle == 3 ==> t.temp == super::data(t) && super::read_at(t, t.tempaddr)
    &&& s.subcycle == 4 ==> super::write_at(t, s.tempaddr, s.temp) && t.tempaddr == s.tempaddr && t.temp == super::dec_value(s.temp) && t.p == super::nz_flags(s.p, super::dec_value(s.temp))
    &&& s.subcycle >= 5 ==> super::write_at(t, s.tempaddr, s.temp)
    &&& s.subcycle == 3 ==> t.tempaddr == super::word(s.temp, s.temp2)
    &&& s.subcycle == 1 ==> t.subcycle == 2
    &&& s.subcycle == 2 ==> t.subcycle == 3
    &&& s.subcycle == 3 ==> t.subcycle == 4
    &&& s.subcycle == 4 ==> t.subcycle == 5
    &&& s.subcycle == 1 || s.subcycle == 2 || s.subcycle == 3 ==> t.p == s.p
    &&& s.subcycle >= 5 ==> t.p == s.p
    &&& s.subcycle >= 5 ==> super::finished(t)
    &&& 1 <= s.subcycle < 5 ==> !super::finished(t)
}

/// One bus cycle of dec absolute x.
pub(crate) open spec fn step_de(s: NesCpu, t: NesCpu) -> bool {
    &&& s.subcycle == 2 ==> super::shows(s, t, "DEC $"@ + super::hex_text(super::word(t.temp, t.temp2) as nat, 4, false) + ",X"@)
    &&& s.subcycle != 2 ==> super::keeps_debugger(s, t)
    &&& s.subcycle == 1 ==> {
        &&& super::read_at(t, super::pc_plus(s.pc, 1))
        &&& t.temp == super::data(t)
    }
    &&& s.subcycle == 2 ==> {
        &&& super::read_at(t, super::pc_plus(s.pc, 2))
        &&& t.temp2 == super::data(t)
        &&& t.temp == s.temp
    }
    &&& s.subcycle == 3 ==> {
        &&& super::read_at(t, super::word(((s.temp + s.x) % 256) as u8, s.temp2))
        &&& t.temp == s.temp
        &&& t.temp2 == s.temp2
    }
    &&& super::finished(t) ==> {
        &&& t.last_bus@.write
        &&& t.pc == super::pc_plus(s.pc, 3)
    }
    &&& t.x == s.x
    &&& t.y == s.y
    &&& t.s == s.s
    &&& t.a == s.a
    &&& !super::finished(t) ==> t.pc == s.pc
    &&& s.subcycle == 4 ==> t.temp == super::data(t) && super::read_at(t, t.tempaddr)
    &&& s.subcycle == 5 ==> super::write_at(t, s.tempaddr, s.temp) && t.tempaddr == s.tempaddr && t.temp == super::dec_value(s.temp) && t.p == super::nz_flags(s.p, super::dec_value(s.temp))
    &&& s.subcycle >= 6 ==> super::write_at(t, s.tempaddr, s.temp)
    &&& s.subcycle == 4 ==> t.tempaddr == super::abs_index(super::word(s.temp, s.temp2), s.x)
    &&& s.subcycle == 1 ==> t.subcycle == 2
    &&& s.subcycle == 2 ==> t.subcycle == 3
    &&& s.subcycle == 3 ==> t.subcycle == 4
    &&& s.subcycle == 4 ==> t.subcycle == 5
    &&& s.subcycle == 5 ==> t.subcycle == 6
    &&& s.subcycle == 1 || s.subcycle == 2 || s.subcycle == 3 || s.subcycle == 4 ==> t.p == s.p
    &&& s.subcycle >= 6 ==> t.p == s.p
    &&& s.subcycle >= 6 ==> super::finished(t)
    &&& 1 <= s.subcycle < 6 ==> !super::finished(t)
}

/// One bus cycle of lsr zero page.
pub(crate) open spec fn step_46(s: NesCpu, t: NesCpu) -> bool {
    &&& s.subcycle == 1 ==> super::shows(s, t, "LSR $"@ + super::hex_text(t.temp as nat, 2, false) + ""@)
    &&& s.subcycle != 1 ==> super::keeps_debugger(s, t)
    &&& s.subcycle == 1 ==> {
        &&& super::read_at(t, super::pc_plus(s.pc, 1))
        &&& t.temp == super::data(t)
    }
    &&& super::finished(t) ==> {
        &&& t.last_bus@.write
        &&& t.pc == super::pc_plus(s.pc, 2)
    }
    &&& t.x == s.x
    &&& t.y == s.y
    &&& t.s == s.s
    &&& t.a == s.a
    &&& !super::finished(t) ==> t.pc == s.pc
    &&& s.subcycle == 2 ==> t.temp2 == super::data(t) && super::read_at(t, t.temp as u16)
    &&& s.subcycle == 3 ==> super::write_at(t, s.temp as u16, s.temp2) && t.temp == s.temp && t.temp2 == s.temp2 && t.p == s.p
    &&& s.subcycle >= 4 ==> super::write_at(t, s.temp as u16, super::lsr_value(s.temp2)) && t.p == super::shift_flags(s.p, super::lsr_value(s.temp2), s.temp2 % 2 == 1)
    &&& s.subcycle == 2 ==> t.temp == s.temp
    &&& s.subcycle == 1 ==> t.subcycle == 2
    &&& s.subcycle == 2 ==> t.subcycle == 3
    &&& s.subcycle == 3 ==> t.subcycle == 4
    &&& s.subcycle == 1 || s.subcycle == 2 || s.subcycle == 3 ==> t.p == s.p
    &&& s.subcycle >= 4 ==> super::finished(t)
    &&& 1 <= s.subcycle < 4 ==> !super::finished(t)
}

/// One bus cycle of lsr zero page x.
pub(crate) open spec fn step_56(s: NesCpu, t: NesCpu) -> bool {
    &&& s.subcycle == 1 ==> super::shows(s, t, "LSR $"@ + super::hex_text(t.temp as nat, 2, false) + ",X"@)
    &&& s.subcycle != 1 ==> super::keeps_debugger(s, t)
    &&& s.subcycle == 2 ==> super::read_at(t, s.temp as u16) && t.temp == s.temp
    &&& s.subcycle == 1 ==> {
        &&& super::read_at(t, super::pc_plus(s.pc, 1))
        &&& t.temp == super::data(t)
    }
    &&& super::finished(t) ==> {
        &&& t.last_bus@.write
        &&& t.pc == super::pc_plus(s.pc, 2)
    }
    &&& t.x == s.x
    &&& t.y == s.y
    &&& t.s == s.s
    &&& t.a == s.a
    &&& !super::finished(t) ==> t.pc == s.pc
    &&& s.subcycle == 3 ==> t.temp2 == super::data(t) && super::read_at(t, t.temp as u16)
    &&& s.subcycle == 4 ==> super::write_at(t, s.temp as u16, s.temp2) && t.temp == s.temp && t.temp2 == s.temp2 && t.p == s.p
    &&& s.subcycle >= 5 ==> super::write_at(t, s.temp as u16, super::lsr_value(s.temp2)) && t.p == super::shift_flags(s.p, super::lsr_value(s.temp2), s.temp2 % 2 == 1)
    &&& s.subcycle == 3 ==> t.temp == ((s.temp + s.x) % 256) as u8
    &&& s.subcycle == 1 ==> t.subcycle == 2
    &&& s.subcycle == 2 ==> t.subcycle == 3
    &&& s.subcycle == 3 ==> t.subcycle == 4
    &&& s.subcycle == 4 ==> t.subcycle == 5
    &&& s.subcycle == 1 || s.subcycle == 2 || s.subcycle == 3 || s.subcycle == 4 ==> t.p == s.p
    &&& s.subcycle >= 5 ==> super::finished(t)
    &&& 1 <= s.subcycle < 5 ==> !super::finished(t)
}

/// One bus cycle of lsr absolute.
pub(crate) open spec fn step_4e(s: NesCpu, t: NesCpu) -> bool {
    &&& s.subcycle == 2 ==> super::shows(s, t, "LSR $"@ + super::hex_text(super::word(t.temp, t.temp2) as nat, 4, false) + ""@)
    &&& s.subcycle != 2 ==> super::keeps_debugger(s, t)
    &&& s.subcycle == 1 ==> {
        &&& super::read_at(t, super::pc_plus(s.pc, 1))
        &&& t.temp == super::data(t)
    }
    &&& s.subcycle == 2 ==> {
        &&& super::read_at(t, super::pc_plus(s.pc, 2))
        &&& t.temp2 == super::data(t)
        &&& t.temp == s.temp
    }
    &&& super::finished(t) ==> {
        &&& t.last_bus@.write
        &&& t.pc == super::pc_plus(s.pc, 3)
    }
    &&& t.x == s.x
    &&& t.y == s.y
    &&& t.s == s.s
    &&& t.a == s.a
    &&& !super::finished(t) ==> t.pc == s.pc
    &&& s.subcycle == 3 ==> t.temp == super::data(t) && super::read_at(t, t.tempaddr)
    &&& s.subcycle == 4 ==> super::write_at(t, s.tempaddr, s.temp) && t.tempaddr == s.tempaddr && t.temp == super::lsr_value(s.temp) && t.p == super::shift_flags(s.p, super::lsr_value(s.temp), s.temp % 2 == 1)
    &&& s.subcycle >= 5 ==> super::write_at(t, s.tempaddr, s.temp)
    &&& s.subcycle == 3 ==> t.tempaddr == super::word(s.temp, s.temp2)
    &&& s.subcycle == 1 ==> t.subcycle == 2
    &&& s.subcycle == 2 ==> t.subcycle == 3
    &&& s.subcycle == 3 ==> t.subcycle == 4
    &&& s.subcycle == 4 ==> t.subcycle == 5
    &&& s.subcycle == 1 || s.subcycle == 2 || s.subcycle == 3 ==> t.p == s.p
    &&& s.subcycle >= 5 ==> t.p == s.p
    &&& s.subcycle >= 5 ==> super::finished(t)
    &&& 1 <= s.subcycle < 5 ==> !super::finished(t)
}

/// One bus cycle of lsr absolute x.
pub(crate) open spec fn step_5e(s: NesCpu, t: NesCpu) -> bool {
    &&& s.subcycle == 2 ==> super::shows(s, t, "LSR $"@ + super::hex_text(super::word(t.temp, t.temp2) as nat, 4, false) + ",X"@)
    &&& s.subcycle != 2 ==> super::keeps_debugger(s, t)
    &&& s.subcycle == 1 ==> {
        &&& super::read_at(t, super::pc_plus(s.pc, 1))
        &&& t.temp == super::data(t)
    }
    &&& s.subcycle == 2 ==> {
        &&& super::read_at(t, super::pc_plus(s.pc, 2))
        &&& t.temp2 == super::data(t)
        &&& t.temp == s.temp
    }
    &&& s.subcycle == 3 ==> {
        &&& super::read_at(t, super::word(((s.temp + s.x) % 256) as u8, s.temp2))
        &&& t.temp == s.temp
        &&& t.temp2 == s.temp2
    }
    &&& super::finished(t) ==> {
        &&& t.last_bus@.write
        &&& t.pc == super::pc_plus(s.pc, 3)
    }
    &&& t.x == s.x
    &&& t.y == s.y
    &&& t.s == s.s
    &&& t.a == s.a
    &&& !super::finished(t) ==> t.pc == s.pc
    &&& s.subcycle == 4 ==> t.temp == super::data(t) && super::read_at(t, t.tempaddr)
    &&& s.subcycle == 5 ==> super::write_at(t, s.tempaddr, s.temp) && t.tempaddr == s.tempaddr && t.temp == super::lsr_value(s.temp) && t.p == super::shift_flags(s.p, super::lsr_value(s.temp), s.temp % 2 == 1)
    &&& s.subcycle >= 6 ==> super::write_at(t, s.tempaddr, s.temp)
    &&& s.subcycle == 4 ==> t.tempaddr == super::abs_index(super::word(s.temp, s.temp2), s.x)
    &&& s.subcycle == 1 ==> t.subcycle == 2
    &&& s.subcycle == 2 ==> t.subcycle == 3
    &&& s.subcycle == 3 ==> t.subcycle == 4
    &&& s.subcycle == 4 ==> t.subcycle == 5
    &&& s.subcycle == 5 ==> t.subcycle == 6
    &&& s.subcycle == 1 || s.subcycle == 2 || s.subcycle == 3 || s.subcycle == 4 ==> t.p == s.p
    &&& s.subcycle >= 6 ==> t.p == s.p
    &&& s.subcycle >= 6 ==> super::finished(t)
    &&& 1 <= s.subcycle < 6 ==> !super::finished(t)
}

/// One bus cycle of asl zero page.
pub(crate) open spec fn step_06(s: NesCpu, t: NesCpu) -> bool {
    &&& s.subcycle == 1 ==> super::shows(s, t, "ASL $"@ + super::hex_text(t.temp as nat, 2, false) + ""@)
    &&& s.subcycle != 1 ==> super::keeps_debugger(s, t)
    &&& s.subcycle == 1 ==> {
        &&& super::read_at(t, super::pc_plus(s.pc, 1))
        &&& t.temp == super::data(t)
    }
    &&& super::finished(t) ==> {
        &&& t.last_bus@.write
        &&& t.pc == super::pc_plus(s.pc, 2)
    }
    &&& t.x == s.x
    &&& t.y == s.y
    &&& t.s == s.s
    &&& t.a == s.a
    &&& !super::finished(t) ==> t.pc == s.pc
    &&& s.subcycle == 2 ==> t.temp2 == super::data(t) && super::read_at(t, t.temp as u16)
    &&& s.subcycle == 3 ==> super::write_at(t, s.temp as u16, s.temp2) && t.temp == s.temp && t.temp2 == s.temp2 && t.p == s.p
    &&& s.subcycle >= 4 ==> super::write_at(t, s.temp as u16, super::asl_value(s.temp2)) && t.p == super::shift_flags(s.p, super::asl_value(s.temp2), s.temp2 >= 128)
    &&& s.subcycle == 2 ==> t.temp == s.temp
    &&& s.subcycle == 1 ==> t.subcycle == 2
    &&& s.subcycle == 2 ==> t.subcycle == 3
    &&& s.subcycle == 3 ==> t.subcycle == 4
    &&& s.subcycle == 1 || s.subcycle == 2 || s.subcycle == 3 ==> t.p == s.p
    &&& s.subcycle >= 4 ==> super::finished(t)
    &&& 1 <= s.subcycle < 4 ==> !super::finished(t)
}

/// One bus cycle of asl zero page x.
pub(crate) open spec fn step_16(s: NesCpu, t: NesCpu) -> bool {
    &&& s.subcycle == 1 ==> super::shows(s, t, "ASL $"@ + super::hex_text(t.temp as nat, 2, false) + ",X"@)
    &&& s.subcycle != 1 ==> super::keeps_debugger(s, t)
    &&& s.subcycle == 2 ==> super::read_at(t, s.temp as u16) && t.temp == s.temp
    &&& s.subcycle == 1 ==> {
        &&& super::read_at(t, super::pc_plus(s.pc, 1))
        &&& t.temp == super::data(t)
    }
    &&& super::finished(t) ==> {
        &&& t.last_bus@.write
        &&& t.pc == super::pc_plus(s.pc, 2)
    }
    &&& t.x == s.x
    &&& t.y == s.y
    &&& t.s == s.s
    &&& t.a == s.a
    &&& !super::finished(t) ==> t.pc == s.pc
    &&& s.subcycle == 3 ==> t.temp2 == super::data(t) && super::read_at(t, t.temp as u16)
    &&& s.subcycle == 4 ==> super::write_at(t, s.temp as u16, s.temp2) && t.temp == s.temp && t.temp2 == s.temp2 && t.p == s.p
    &&& s.subcycle >= 5 ==> super::write_at(t, s.temp as u16, super::asl_value(s.temp2)) && t.p == super::shift_flags(s.p, super::asl_value(s.temp2), s.temp2 >= 128)
    &&& s.subcycle == 3 ==> t.temp == ((s.temp + s.x) % 256) as u8
    &&& s.subcycle == 1 ==> t.subcycle == 2
    &&& s.subcycle == 2 ==> t.subcycle == 3
    &&& s.subcycle == 3 ==> t.subcycle == 4
    &&& s.subcycle == 4 ==> t.subcycle == 5
    &&& s.subcycle == 1 || s.subcycle == 2 || s.subcycle == 3 || s.subcycle == 4 ==> t.p == s.p
    &&& s.subcycle >= 5 ==> super::finished(t)
    &&& 1 <= s.subcycle < 5 ==> !super::finished(t)
}

/// One bus cycle of asl absolute.
pub(crate) open spec fn step_0e(s: NesCpu, t: NesCpu) -> bool {
    &&& s.subcycle == 2 ==> super::shows(s, t, "ASL $"@ + super::hex_text(super::word(t.temp, t.temp2) as nat, 4, false) + ""@)
    &&& s.subcycle != 2 ==> super::keeps_debugger(s, t)
    &&& s.subcycle == 1 ==> {
        &&& super::read_at(t, super::pc_plus(s.pc, 1))
        &&& t.temp == super::data(t)
    }
    &&& s.subcycle == 2 ==> {
        &&& super::read_at(t, super::pc_plus(s.pc, 2))
        &&& t.temp2 == super::data(t)
        &&& t.temp == s.temp
    }
    &&& super::finished(t) ==> {
        &&& t.last_bus@.write
        &&& t.pc == super::pc_plus(s.pc, 3)
    }
    &&& t.x == s.x
    &&& t.y == s.y
    &&& t.s == s.s
    &&& t.a == s.a
    &&& !super::finished(t) ==> t.pc == s.pc
    &&& s.subcycle == 3 ==> t.temp == super::data(t) && super::read_at(t, t.tempaddr)
    &&& s.subcycle == 4 ==> super::write_at(t, s.tempaddr, s.temp) && t.tempaddr == s.tempaddr && t.temp == super::asl_value(s.temp) && t.p == super::shift_flags(s.p, super::asl_value(s.temp), s.temp >= 128)
    &&& s.subcycle >= 5 ==> super::write_at(t, s.tempaddr, s.temp)
    &&& s.subcycle == 3 ==> t.tempaddr == super::word(s.temp, s.temp2)
    &&& s.subcycle == 1 ==> t.subcycle == 2
    &&& s.subcycle == 2 ==> t.subcycle == 3
    &&& s.subcycle == 3 ==> t.subcycle == 4
    &&& s.subcycle == 4 ==> t.subcycle == 5
    &&& s.subcycle == 1 || s.subcycle == 2 || s.subcycle == 3 ==> t.p == s.p
    &&& s.subcycle >= 5 ==> t.p == s.p
    &&& s.subcycle >= 5 ==> super::finished(t)
    &&& 1 <= s.subcycle < 5 ==> !super::finished(t)
}

/// One bus cycle of asl absolute x.
pub(crate) open spec fn step_1e(s: NesCpu, t: NesCpu) -> bool {
    &&& s.subcycle == 2 ==> super::shows(s, t, "ASL $"@ + super::hex_text(super::word(t.temp, t.temp2) as nat, 4, false) + ",X"@)
    &&& s.subcycle != 2 ==> super::keeps_debugger(s, t)
    &&& s.subcycle == 1 ==> {
        &&& super::read_at(t, super::pc_plus(s.pc, 1))
        &&& t.temp == super::data(t)
    }
    &&& s.subcycle == 2 ==> {
        &&& super::read_at(t, super::pc_plus(s.pc, 2))
        &&& t.temp2 == super::data(t)
        &&& t.temp == s.temp
    }
    &&& s.subcycle == 3 ==> {
        &&& super::read_at(t, super::word(((s.temp + s.x) % 256) as u8, s.temp2))
        &&& t.temp == s.temp
        &&& t.temp2 == s.temp2
    }
    &&& super::finished(t) ==> {
        &&& t.last_bus@.write
        &&& t.pc == super::pc_plus(s.pc, 3)
    }
    &&& t.x == s.x
    &&& t.y == s.y
    &&& t.s == s.s
    &&& t.a == s.a
    &&& !super::finished(t) ==> t.pc == s.pc
    &&& s.subcycle == 4 ==> t.temp == super::data(t) && super::read_at(t, t.tempaddr)
    &&& s.subcycle == 5 ==> super::write_at(t, s.tempaddr, s.temp) && t.tempaddr == s.tempaddr && t.temp == super::asl_value(s.temp) && t.p == super::shift_flags(s.p, super::asl_value(s.temp), s.temp >= 128)
    &&& s.subcycle >= 6 ==> super::write_at(t, s.tempaddr, s.temp)
    &&& s.subcycle == 4 ==> t.tempaddr == super::abs_index(super::word(s.temp, s.temp2), s.x)
    &&& s.subcycle == 1 ==> t.subcycle == 2
    &&& s.subcycle == 2 ==> t.subcycle == 3
    &&& s.subcycle == 3 ==> t.subcycle == 4
    &&& s.subcycle == 4 ==> t.subcycle == 5
    &&& s.subcycle == 5 ==> t.subcycle == 6
    &&& s.subcycle == 1 || s.subcycle == 2 || s.subcycle == 3 || s.subcycle == 4 ==> t.p == s.p
    &&& s.subcycle >= 6 ==> t.p == s.p
    &&& s.subcycle >= 6 ==> super::finished(t)
    &&& 1 <= s.subcycle < 6 ==> !super::finished(t)
}

/// One bus cycle of ror zero page.
pub(crate) open spec fn step_66(s: NesCpu, t: NesCpu) -> bool {
    &&& s.subcycle == 1 ==> super::shows(s, t, "ROR $"@ + super::hex_text(t.temp as nat, 2, false) + ""@)
    &&& s.subcycle != 1 ==> super::keeps_debugger(s, t)
    &&& s.subcycle == 1 ==> {
        &&& super::read_at(t, super::pc_plus(s.pc, 1))
        &&& t.temp == super::data(t)
    }
    &&& super::finished(t) ==> {
        &&& t.last_bus@.write
        &&& t.pc == super::pc_plus(s.pc, 2)
    }
    &&& t.x == s.x
    &&& t.y == s.y
    &&& t.s == s.s
    &&& t.a == s.a
    &&& !super::finished(t) ==> t.pc == s.pc
    &&& s.subcycle == 2 ==> t.temp2 == super::data(t) && super::read_at(t, t.temp as u16)
    &&& s.subcycle == 3 ==> super::write_at(t, s.temp as u16, s.temp2) && t.temp == s.temp && t.temp2 == s.temp2 && t.p == s.p
    &&& s.subcycle >= 4 ==> super::write_at(t, s.temp as u16, super::ror_value(s.p, s.temp2)) && t.p == super::shift_flags(s.p, super::ror_value(s.p, s.temp2), s.temp2 % 2 == 1)
    &&& s.subcycle == 2 ==> t.temp == s.temp
    &&& s.subcycle == 1 ==> t.subcycle == 2
    &&& s.subcycle == 2 ==> t.subcycle == 3
    &&& s.subcycle == 3 ==> t.subcycle == 4
    &&& s.subcycle == 1 || s.subcycle == 2 || s.subcycle == 3 ==> t.p == s.p
    &&& s.subcycle >= 4 ==> super::finished(t)
    &&& 1 <= s.subcycle < 4 ==> !super::finished(t)
}

/// One bus cycle of ror zero page x.
pub(crate) open spec fn step_76(s: NesCpu, t: NesCpu) -> bool {
    &&& s.subcycle == 1 ==> super::shows(s, t, "ROR $"@ + super::hex_text(t.temp as nat, 2, false) + ",X"@)
    &&& s.subcycle != 1 ==> super::keeps_debugger(s, t)
    &&& s.subcycle == 2 ==> super::read_at(t, s.temp as u16) && t.temp == s.temp
    &&& s.subcycle == 1 ==> {
        &&& super::read_at(t, super::pc_plus(s.pc, 1))
        &&& t.temp == super::data(t)
    }
    &&& super::finished(t) ==> {
        &&& t.last_bus@.write
        &&& t.pc == super::pc_plus(s.pc, 2)
    }
    &&& t.x == s.x
    &&& t.y == s.y
    &&& t.s == s.s
    &&& t.a == s.a
    &&& !super::finished(t) ==> t.pc == s.pc
    &&& s.subcycle == 3 ==> t.temp2 == super::data(t) && super::read_at(t, t.temp as u16)
    &&& s.subcycle == 4 ==> super::write_at(t, s.temp as u16, s.temp2) && t.temp == s.temp && t.temp2 == s.temp2 && t.p == s.p
    &&& s.subcycle >= 5 ==> super::write_at(t, s.temp as u16, super::ror_value(s.p, s.temp2)) && t.p == super::shift_flags(s.p, super::ror_value(s.p, s.temp2), s.temp2 % 2 == 1)
    &&& s.subcycle == 3 ==> t.temp == ((s.temp + s.x) % 256) as u8
    &&& s.subcycle == 1 ==> t.subcycle == 2
    &&& s.subcycle == 2 ==> t.subcycle == 3
    &&& s.subcycle == 3 ==> t.subcycle == 4
    &&& s.subcycle == 4 ==> t.subcycle == 5
    &&& s.subcycle == 1 || s.subcycle == 2 || s.subcycle == 3 || s.subcycle == 4 ==> t.p == s.p
    &&& s.subcycle >= 5 ==> super::finished(t)
    &&& 1 <= s.subcycle < 5 ==> !super::finished(t)
}

/// One bus cycle of ror absolute.
pub(crate) open spec fn step_6e(s: NesCpu, t: NesCpu) -> bool {
    &&& s.subcycle == 2 ==> super::shows(s, t, "ROR $"@ + super::hex_text(super::word(t.temp, t.temp2) as nat, 4, false) + ""@)
    &&& s.subcycle != 2 ==> super::keeps_debugger(s, t)
    &&& s.subcycle == 1 ==> {
        &&& super::read_at(t, super::pc_plus(s.pc, 1))
        &&& t.temp == super::data(t)
    }
    &&& s.subcycle == 2 ==> {
        &&& super::read_at(t, super::pc_plus(s.pc, 2))
        &&& t.temp2 == super::data(t)
        &&& t.temp == s.temp
    }
    &&& super::finished(t) ==> {
        &&& t.last_bus@.write
        &&& t.pc == super::pc_plus(s.pc, 3)
    }
    &&& t.x == s.x
    &&& t.y == s.y
    &&& t.s == s.s
    &&& t.a == s.a
    &&& !super::finished(t) ==> t.pc == s.pc
    &&& s.subcycle == 3 ==> t.temp == super::data(t) && super::read_at(t, t.tempaddr)
    &&& s.subcycle == 4 ==> super::write_at(t, s.tempaddr, s.temp) && t.tempaddr == s.tempaddr && t.temp == super::ror_value(s.p, s.temp) && t.p == super::shift_flags(s.p, super::ror_value(s.p, s.temp), s.temp % 2 == 1)
    &&& s.subcycle >= 5 ==> super::write_at(t, s.tempaddr, s.temp)
    &&& s.subcycle == 3 ==> t.tempaddr == super::word(s.temp, s.temp2)
    &&& s.subcycle == 1 ==> t.subcycle == 2
    &&& s.subcycle == 2 ==> t.subcycle == 3
    &&& s.subcycle == 3 ==> t.subcycle == 4
    &&& s.subcycle == 4 ==> t.subcycle == 5
    &&& s.subcycle == 1 || s.subcycle == 2 || s.subcycle == 3 ==> t.p == s.p
    &&& s.subcycle >= 5 ==> t.p == s.p
    &&& s.subcycle >= 5 ==> super::finished(t)
    &&& 1 <= s.subcycle < 5 ==> !super::finished(t)
}

/// One bus cycle of ror absolute x.
pub(crate) open spec fn step_7e(s: NesCpu, t: NesCpu) -> bool {
    &&& s.subcycle == 2 ==> super::shows(s, t, "ROR $"@ + super::hex_text(super::word(t.temp, t.temp2) as nat, 4, false) + ",X"@)
    &&& s.subcycle != 2 ==> super::keeps_debugger(s, t)
    &&& s.subcycle == 1 ==> {
        &&& super::read_at(t, super::pc_plus(s.pc, 1))
        &&& t.temp == super::data(t)
    }
    &&& s.subcycle == 2 ==> {
        &&& super::read_at(t, super::pc_plus(s.pc, 2))
        &&& t.temp2 == super::data(t)
        &&& t.temp == s.temp
    }
    &&& s.subcycle == 3 ==> {
        &&& super::read_at(t, super::word(((s.temp + s.x) % 256) as u8, s.temp2))
        &&& t.temp == s.temp
        &&& t.temp2 == s.temp2
    }
    &&& super::finished(t) ==> {
        &&& t.last_bus@.write
        &&& t.pc == super::pc_plus(s.pc, 3)
    }
    &&& t.x == s.x
    &&& t.y == s.y
    &&& t.s == s.s
    &&& t.a == s.a
    &&& !super::finished(t) ==> t.pc == s.pc
    &&& s.subcycle == 4 ==> t.temp == super::data(t) && super::read_at(t, t.tempaddr)
    &&& s.subcycle == 5 ==> super::write_at(t, s.tempaddr, s.temp) && t.tempaddr == s.tempaddr && t.temp == super::ror_value(s.p, s.temp) && t.p == super::shift_flags(s.p, super::ror_value(s.p, s.temp), s.temp % 2 == 1)
    &&& s.subcycle >= 6 ==> super::write_at(t, s.tempaddr, s.temp)
    &&& s.subcycle == 4 ==> t.tempaddr == super::abs_index(super::word(s.temp, s.temp2), s.x)
    &&& s.subcycle == 1 ==> t.subcycle == 2
    &&& s.subcycle == 2 ==> t.subcycle == 3
    &&& s.subcycle == 3 ==> t.subcycle == 4
    &&& s.subcycle == 4 ==> t.subcycle == 5
    &&& s.subcycle == 5 ==> t.subcycle == 6
    &&& s.subcycle == 1 || s.subcycle == 2 || s.subcycle == 3 || s.subcycle == 4 ==> t.p == s.p
    &&& s.subcycle >= 6 ==> t.p == s.p
    &&& s.subcycle >= 6 ==> super::finished(t)
    &&& 1 <= s.subcycle < 6 ==> !super::finished(t)
}

/// One bus cycle of rol zero page.
pub(crate) open spec fn step_26(s: NesCpu, t: NesCpu) -> bool {
    &&& s.subcycle == 1 ==> super::shows(s, t, "ROL $"@ + super::hex_text(t.temp as nat, 2, false) + ""@)
    &&& s.subcycle != 1 ==> super::keeps_debugger(s, t)
    &&& s.subcycle == 1 ==> {
        &&& super::read_at(t, super::pc_plus(s.pc, 1))
        &&& t.temp == super::data(t)
    }
    &&& super::finished(t) ==> {
        &&& t.last_bus@.write
        &&& t.pc == super::pc_plus(s.pc, 2)
    }
    &&& t.x == s.x
    &&& t.y == s.y
    &&& t.s == s.s
    &&& t.a == s.a
    &&& !super::finished(t) ==> t.pc == s.pc
    &&& s.subcycle == 2 ==> t.temp2 == super::data(t) && super::read_at(t, t.temp as u16)
    &&& s.subcycle == 3 ==> super::write_at(t, s.temp as u16, s.temp2) && t.temp == s.temp && t.temp2 == s.temp2 && t.p == s.p
    &&& s.subcycle >= 4 ==> super::write_at(t, s.temp as u16, super::rol_value(s.p, s.temp2)) && t.p == super::shift_flags(s.p, super::rol_value(s.p, s.temp2), s.temp2 >= 128)
    &&& s.subcycle == 2 ==> t.temp == s.temp
    &&& s.subcycle == 1 ==> t.subcycle == 2
    &&& s.subcycle == 2 ==> t.subcycle == 3
    &&& s.subcycle == 3 ==> t.subcycle == 4
    &&& s.subcycle == 1 || s.subcycle == 2 || s.subcycle == 3 ==> t.p == s.p
    &&& s.subcycle >= 4 ==> super::finished(t)
    &&& 1 <= s.subcycle < 4 ==> !super::finished(t)
}

/// One bus cycle of rol zero page x.
pub(crate) open spec fn step_36(s: NesCpu, t: NesCpu) -> bool {
    &&& s.subcycle == 1 ==> super::shows(s, t, "ROL $"@ + super::hex_text(t.temp as nat, 2, false) + ",X"@)
    &&& s.subcycle != 1 ==> super::keeps_debugger(s, t)
    &&& s.subcycle == 2 ==> super::read_at(t, s.temp as u16) && t.temp == s.temp
    &&& s.subcycle == 1 ==> {
        &&& super::read_at(t, super::pc_plus(s.pc, 1))
        &&& t.temp == super::data(t)
    }
    &&& super::finished(t) ==> {
        &&& t.last_bus@.write
        &&& t.pc == super::pc_plus(s.pc, 2)
    }
    &&& t.x == s.x
    &&& t.y == s.y
    &&& t.s == s.s
    &&& t.a == s.a
    &&& !super::finished(t) ==> t.pc == s.pc
    &&& s.subcycle == 3 ==> t.temp2 == super::data(t) && super::read_at(t, t.temp as u16)
    &&& s.subcycle == 4 ==> super::write_at(t, s.temp as u16, s.temp2) && t.temp == s.temp && t.temp2 == s.temp2 && t.p == s.p
    &&& s.subcycle >= 5 ==> super::write_at(t, s.temp as u16, super::rol_value(s.p, s.temp2)) && t.p == super::shift_flags(s.p, super::rol_value(s.p, s.temp2), s.temp2 >= 128)
    &&& s.subcycle == 3 ==> t.temp == ((s.temp + s.x) % 256) as u8
    &&& s.subcycle == 1 ==> t.subcycle == 2
    &&& s.subcycle == 2 ==> t.subcycle == 3
    &&& s.subcycle == 3 ==> t.subcycle == 4
    &&& s.subcycle == 4 ==> t.subcycle == 5
    &&& s.subcycle == 1 || s.subcycle == 2 || s.subcycle == 3 || s.subcycle == 4 ==> t.p == s.p
    &&& s.subcycle >= 5 ==> super::finished(t)
    &&& 1 <= s.subcycle < 5 ==> !super::finished(t)
}

/// One bus cycle of rol absolute.
pub(crate) open spec fn step_2e(s: NesCpu, t: NesCpu) -> bool {
    &&& s.subcycle == 2 ==> super::shows(s, t, "ROL $"@ + super::hex_text(super::word(t.temp, t.temp2) as nat, 4, false) + ""@)
    &&& s.subcycle != 2 ==> super::keeps_debugger(s, t)
    &&& s.subcycle == 1 ==> {
        &&& super::read_at(t, super::pc_plus(s.pc, 1))
        &&& t.temp == super::data(t)
    }
    &&& s.subcycle == 2 ==> {
        &&& super::read_at(t, super::pc_plus(s.pc, 2))
        &&& t.temp2 == super::data(t)
        &&& t.temp == s.temp
    }
    &&& super::finished(t) ==> {
        &&& t.last_bus@.write
        &&& t.pc == super::pc_plus(s.pc, 3)
    }
    &&& t.x == s.x
    &&& t.y == s.y
    &&& t.s == s.s
    &&& t.a == s.a
    &&& !super::finished(t) ==> t.pc == s.pc
    &&& s.subcycle == 3 ==> t.temp == super::data(t) && super::read_at(t, t.tempaddr)
    &&& s.subcycle == 4 ==> super::write_at(t, s.tempaddr, s.temp) && t.tempaddr == s.tempaddr && t.temp == super::rol_value(s.p, s.temp) && t.p == super::shift_flags(s.p, super::rol_value(s.p, s.temp), s.temp >= 128)
    &&& s.subcycle >= 5 ==> super::write_at(t, s.tempaddr, s.temp)
    &&& s.subcycle == 3 ==> t.tempaddr == super::word(s.temp, s.temp2)
    &&& s.subcycle == 1 ==> t.subcycle == 2
    &&& s.subcycle == 2 ==> t.subcycle == 3
    &&& s.subcycle == 3 ==> t.subcycle == 4
    &&& s.subcycle == 4 ==> t.subcycle == 5
    &&& s.subcycle == 1 || s.subcycle == 2 || s.subcycle == 3 ==> t.p == s.p
    &&& s.subcycle >= 5 ==> t.p == s.p
    &&& s.subcycle >= 5 ==> super::finished(t)
    &&& 1 <= s.subcycle < 5 ==> !super::finished(t)
}

/// One bus cycle of rol absolute x.
pub(crate) open spec fn step_3e(s: NesCpu, t: NesCpu) -> bool {
    &&& s.subcycle == 2 ==> super::shows(s, t, "ROL $"@ + super::hex_text(super::word(t.temp, t.temp2) as nat, 4, false) + ",X"@)
    &&& s.subcycle != 2 ==> super::keeps_debugger(s, t)
    &&& s.subcycle == 1 ==> {
        &&& super::read_at(t, super::pc_plus(s.pc, 1))
        &&& t.temp == super::data(t)
    }
    &&& s.subcycle == 2 ==> {
        &&& super::read_at(t, super::pc_plus(s.pc, 2))
        &&& t.temp2 == super::data(t)
        &&& t.temp == s.temp
    }
    &&& s.subcycle == 3 ==> {
        &&& super::read_at(t, super::word(((s.temp + s.x) % 256) as u8, s.temp2))
        &&& t.temp == s.temp
        &&& t.temp2 == s.temp2
    }
    &&& super::finished(t) ==> {
        &&& t.last_bus@.write
        &&& t.pc == super::pc_plus(s.pc, 3)
    }
    &&& t.x == s.x
    &&& t.y == s.y
    &&& t.s == s.s
    &&& t.a == s.a
    &&& !super::finished(t) ==> t.pc == s.pc
    &&& s.subcycle == 4 ==> t.temp == super::data(t) && super::read_at(t, t.tempaddr)
    &&& s.subcycle == 5 ==> super::write_at(t, s.tempaddr, s.temp) && t.tempaddr == s.tempaddr && t.temp == super::rol_value(s.p, s.temp) && t.p == super::shift_flags(s.p, super::rol_value(s.p, s.temp), s.temp >= 128)
    &&& s.subcycle >= 6 ==> super::write_at(t, s.tempaddr, s.temp)
    &&& s.subcycle == 3 ==> t.tempaddr == super::abs_index(super::word(s.temp, s.temp2), s.x)
    &&& s.subcycle == 4 ==> t.tempaddr == s.tempaddr
    &&& s.subcycle == 1 ==> t.subcycle == 2
    &&& s.subcycle == 2 ==> t.subcycle == 3
    &&& s.subcycle == 3 ==> t.subcycle == 4
    &&& s.subcycle == 4 ==> t.subcycle == 5
    &&& s.subcycle == 5 ==> t.subcycle == 6
    &&& s.subcycle == 1 || s.subcycle == 2 || s.subcycle == 3 || s.subcycle == 4 ==> t.p == s.p
    &&& s.subcycle >= 6 ==> t.p == s.p
    &&& s.subcycle >= 6 ==> super::finished(t)
    &&& 1 <= s.subcycle < 6 ==> !super::finished(t)
}

/// One bus cycle of dcp, undocumented, decrement and compare indirect x.
pub(crate) open spec fn step_c3(s: NesCpu, t: NesCpu) -> bool {
    &&& s.subcycle == 1 ==> super::shows(s, t, "*DCP ($"@ + super::hex_text(t.temp as nat, 2, false) + ",X)"@)
    &&& s.subcycle != 1 ==> super::keeps_debugger(s, t)
    &&& s.subcycle == 1 ==> {
        &&& t.subcycle == 2
        &&& super::read_at(t, super::pc_plus(s.pc, 1))
        &&& t.temp == super::data(t)
    }
    &&& s.subcycle == 2 ==> {
        &&& t.subcycle == 3
        &&& t.temp == ((s.temp + s.x) % 256) as u8
        &&& super::read_at(t, super::zp_index(s.temp, s.x))
        &&& t.temp2 == super::data(t)
    }
    &&& s.subcycle == 3 ==> {
        &&& t.subcycle == 4
        &&& super::read_at(t, s.temp as u16)
        &&& t.temp == s.temp
        &&& t.temp2 == s.temp2
    }
    &&& s.subcycle == 4 ==> {
        &&& t.subcycle == 5
        &&& super::read_at(t, super::zp_index(s.temp, 1))
        &&& t.temp == super::data(t)
        &&& t.temp2 == s.temp2
    }
    &&& s.subcycle == 5 ==> {
        &&& t.subcycle == 6
        &&& t.tempaddr == super::word(s.temp2, s.temp)
        &&& super::read_at(t, super::word(s.temp2, s.temp))
        &&& t.temp == super::data(t)
    }
    &&& s.subcycle == 6 ==> {
        &&& t.subcycle == 7
        &&& t.tempaddr == s.tempaddr
    }
    &&& s.subcycle == 1 ==> {
        &&& super::read_at(t, super::pc_plus(s.pc, 1))
        &&& t.temp == super::data(t)
    }
    &&& super::finished(t) ==> {
        &&& t.last_bus@.write
        &&& t.pc == super::pc_plus(s.pc, 2)
    }
    &&& t.x == s.x
    &&& t.y == s.y
    &&& t.s == s.s
    &&& t.a == s.a
    &&& !super::finished(t) ==> t.pc == s.pc
    &&& s.subcycle == 5 ==> {
        &&& t.temp == super::data(t)
        &&& super::read_at(t, t.tempaddr)
    }
    &&& s.subcycle == 6 ==> {
        &&& super::write_at(t, s.tempaddr, s.temp)
        &&& t.temp == super::dec_value(s.temp)
        &&& t.a == s.a
        &&& t.p == s.p
    }
    &&& s.subcycle >= 7 ==> {
        &&& super::write_at(t, s.tempaddr, s.temp)
        &&& t.temp == s.temp
        &&& t.a == s.a
        &&& t.p == super::compare_flags(s.p, s.a, s.temp)
    }
}

/// One bus cycle of dcp zero page, undocumented.
pub(crate) open spec fn step_c7(s: NesCpu, t: NesCpu) -> bool {
    &&& s.subcycle == 1 ==> super::shows(s, t, "*DCP $"@ + super::hex_text(t.temp2 as nat, 2, false) + ""@)
    &&& s.subcycle != 1 ==> super::keeps_debugger(s, t)
    &&& s.subcycle == 1 ==> {
        &&& t.subcycle == 2
        &&& super::read_at(t, super::pc_plus(s.pc, 1))
        &&& t.temp2 == super::data(t)
    }
    &&& s.subcycle == 2 ==> {
        &&& t.subcycle == 3
        &&& super::read_at(t, s.temp2 as u16)
        &&& t.temp == super::data(t)
        &&& t.temp2 == s.temp2
    }
    &&& s.subcycle == 3 ==> {
        &&& t.subcycle == 4
        &&& t.temp2 == s.temp2
    }
    &&& s.subcycle == 1 ==> super::read_at(t, super::pc_plus(s.pc, 1))
    &&& super::finished(t) ==> {
        &&& t.last_bus@.write
        &&& t.pc == super::pc_plus(s.pc, 2)
    }
    &&& t.x == s.x
    &&& t.y == s.y
    &&& t.s == s.s
    &&& t.a == s.a
    &&& !super::finished(t) ==> t.pc == s.pc
    &&& s.subcycle == 2 ==> {
        &&& t.temp == super::data(t)
        &&& super::read_at(t, t.temp2 as u16)
    }
    &&& s.subcycle == 3 ==> {
        &&& super::write_at(t, s.temp2 as u16, s.temp)
        &&& t.temp == s.temp
    }
    &&& s.subcycle >= 4 ==> {
        &&& super::write_at(t, s.temp2 as u16, super::dec_value(s.temp))
        &&& t.temp == super::dec_value(s.temp)
        &&& t.a == s.a
        &&& t.p == super::compare_flags(s.p, s.a, super::dec_value(s.temp))
    }
}

/// One bus cycle of dcp absolute, undocumented.
pub(crate) open spec fn step_cf(s: NesCpu, t: NesCpu) -> bool {
    &&& s.subcycle == 2 ==> super::shows(s, t, "*DCP $"@ + super::hex_text(super::word(t.temp, t.temp2) as nat, 4, false) + ""@)
    &&& s.subcycle != 2 ==> super::keeps_debugger(s, t)
    &&& s.subcycle == 1 ==> {
        &&& t.subcycle == 2
        &&& super::read_at(t, super::pc_plus(s.pc, 1))
        &&& t.temp == super::data(t)
    }
    &&& s.subcycle == 2 ==> {
        &&& t.subcycle == 3
        &&& super::read_at(t, super::pc_plus(s.pc, 2))
        &&& t.temp2 == super::data(t)
        &&& t.temp == s.temp
    }
    &&& s.subcycle == 3 ==> {
        &&& t.subcycle == 4
        &&& t.tempaddr == super::word(s.temp, s.temp2)
        &&& super::read_at(t, super::word(s.temp, s.temp2))
        &&& t.temp == super::data(t)
    }
    &&& s.subcycle == 4 ==> {
        &&& t.subcycle == 5
        &&& t.tempaddr == s.tempaddr
    }
    &&& s.subcycle == 1 ==> {
        &&& super::read_at(t, super::pc_plus(s.pc, 1))
        &&& t.temp == super::data(t)
    }
    &&& super::finished(t) ==> {
        &&& t.last_bus@.write
        &&& t.pc == super::pc_plus(s.pc, 3)
    }
    &&& t.x == s.x
    &&& t.y == s.y
    &&& t.s == s.s
    &&& t.a == s.a
    &&& !super::finished(t) ==> t.pc == s.pc
    &&& s.subcycle == 3 ==> {
        &&& t.temp == super::data(t)
        &&& super::read_at(t, t.tempaddr)
    }
    &&& s.subcycle == 4 ==> {
        &&& super::write_at(t, s.tempaddr, s.temp)
        &&& t.temp == super::dec_value(s.temp)
        &&& t.a == s.a
        &&& t.p == s.p
    }
    &&& s.subcycle >= 5 ==> {
        &&& super::write_at(t, s.tempaddr, s.temp)
        &&& t.temp == s.temp
        &&& t.a == s.a
        &&& t.p == super::compare_flags(s.p, s.a, s.temp)
    }
}

/// One bus cycle of dcp indirect y.
pub(crate) open spec fn step_d3(s: NesCpu, t: NesCpu) -> bool {
    &&& s.subcycle == 1 ==> super::shows(s, t, "*DCP ($"@ + super::hex_text(t.temp2 as nat, 2, false) + "),Y"@)
    &&& s.subcycle != 1 ==> super::keeps_debugger(s, t)
    &&& s.subcycle == 1 ==> {
        &&& t.subcycle == 2
        &&& super::read_at(t, super::pc_plus(s.pc, 1))
        &&& t.temp2 == super::data(t)
    }
    &&& s.subcycle == 2 ==> {
        &&& t.subcycle == 3
        &&& super::read_at(t, s.temp2 as u16)
        &&& t.temp == super::data(t)
        &&& t.temp2 == s.temp2
    }
    &&& s.subcycle == 3 ==> {
        &&& t.subcycle == 4
        &&& super::read_at(t, super::zp_index(s.temp2, 1))
        &&& t.temp2 == super::data(t)
        &&& t.temp == s.temp
    }
    &&& s.subcycle == 4 ==> {
        &&& t.subcycle == 5
        &&& t.temp == s.temp
        &&& t.temp2 == s.temp2
    }
    &&& s.subcycle == 5 ==> {
        &&& t.subcycle == 6
        &&& t.tempaddr == super::abs_index(super::word(s.temp, s.temp2), s.y)
        &&& super::read_at(t, super::abs_index(super::word(s.temp, s.temp2), s.y))
        &&& t.temp == super::data(t)
    }
    &&& s.subcycle == 6 ==> {
        &&& t.subcycle == 7
        &&& t.tempaddr == s.tempaddr
    }
    &&& s.subcycle == 1 ==> super::read_at(t, super::pc_plus(s.pc, 1))
    &&& super::finished(t) ==> {
        &&& t.last_bus@.write
        &&& t.pc == super::pc_plus(s.pc, 2)
    }
    &&& t.x == s.x
    &&& t.y == s.y
    &&& t.s == s.s
    &&& t.a == s.a
    &&& !super::finished(t) ==> t.pc == s.pc
    &&& s.subcycle == 5 ==> {
        &&& t.temp == super::data(t)
        &&& super::read_at(t, t.tempaddr)
    }
    &&& s.subcycle == 6 ==> {
        &&& super::write_at(t, s.tempaddr, s.temp)
        &&& t.temp == s.temp
    }
    &&& s.subcycle >= 7 ==> {
        &&& super::write_at(t, s.tempaddr, super::dec_value(s.temp))
        &&& t.temp == super::dec_value(s.temp)
        &&& t.a == s.a
        &&& t.p == super::compare_flags(s.p, s.a, super::dec_value(s.temp))
    }
}

/// One bus cycle of dcp zero page x, undocumented.
pub(crate) open spec fn step_d7(s: NesCpu, t: NesCpu) -> bool {
    &&& s.subcycle == 1 ==> super::shows(s, t, "*DCP $"@ + super::hex_text(t.temp2 as nat, 2, false) + ",X"@)
    &&& s.subcycle != 1 ==> super::keeps_debugger(s, t)
    &&& s.subcycle == 1 ==> {
        &&& t.subcycle == 2
        &&& super::read_at(t, super::pc_plus(s.pc, 1))
        &&& t.temp2 == super::data(t)
    }
    &&& s.subcycle == 2 ==> {
        &&& t.subcycle == 3
        &&& super::read_at(t, s.temp2 as u16)
        &&& t.temp2 == s.temp2
    }
    &&& s.subcycle == 3 ==> {
        &&& t.subcycle == 4
        &&& t.temp2 == ((s.temp2 + s.x) % 256) as u8
        &&& super::read_at(t, super::zp_index(s.temp2, s.x))
        &&& t.temp == super::data(t)
    }
    &&& s.subcycle == 4 ==> {
        &&& t.subcycle == 5
        &&& t.temp2 == s.temp2
    }
    &&& s.subcycle == 1 ==> super::read_at(t, super::pc_plus(s.pc, 1))
    &&& super::finished(t) ==> {
        &&& t.last_bus@.write
        &&& t.pc == super::pc_plus(s.pc, 2)
    }
    &&& t.x == s.x
    &&& t.y == s.y
    &&& t.s == s.s
    &&& t.a == s.a
    &&& !super::finished(t) ==> t.pc == s.pc
    &&& s.subcycle == 3 ==> {
        &&& t.temp == super::data(t)
        &&& super::read_at(t, t.temp2 as u16)
    }
    &&& s.subcycle == 4 ==> {
        &&& super::write_at(t, s.temp2 as u16, s.temp)
        &&& t.temp == s.temp
    }
    &&& s.subcycle >= 5 ==> {
        &&& super::write_at(t, s.temp2 as u16, super::dec_value(s.temp))
        &&& t.temp == super::dec_value(s.temp)
        &&& t.a == s.a
        &&& t.p == super::compare_flags(s.p, s.a, super::dec_value(s.temp))
    }
}

/// One bus cycle of dcp absolute y, undocumented.
pub(crate) open spec fn step_db(s: NesCpu, t: NesCpu) -> bool {
    &&& s.subcycle == 2 ==> super::shows(s, t, "*DCP $"@ + super::hex_text(super::word(t.temp, t.temp2) as nat, 4, false) + ",Y"@)
    &&& s.subcycle != 2 ==> super::keeps_debugger(s, t)
    &&& s.subcycle == 1 ==> {
        &&& t.subcycle == 2
        &&& super::read_at(t, super::pc_plus(s.pc, 1))
        &&& t.temp == super::data(t)
    }
    &&& s.subcycle == 2 ==> {
        &&& t.subcycle == 3
        &&& super::read_at(t, super::pc_plus(s.pc, 2))
        &&& t.temp2 == super::data(t)
        &&& t.temp == s.temp
    }
    &&& s.subcycle == 3 ==> {
        &&& t.subcycle == 4
        &&& t.tempaddr == super::word(s.temp, s.temp2)
        &&& super::read_at(t, super::word(((s.temp + s.y) % 256) as u8, s.temp2))
    }
    &&& s.subcycle == 4 ==> {
        &&& t.subcycle == 5
        &&& t.tempaddr == super::abs_index(s.tempaddr, s.y)
        &&& super::read_at(t, super::abs_index(s.tempaddr, s.y))
        &&& t.temp == super::data(t)
    }
    &&& s.subcycle == 5 ==> {
        &&& t.subcycle == 6
        &&& t.tempaddr == s.tempaddr
    }
    &&& s.subcycle == 1 ==> {
        &&& super::read_at(t, super::pc_plus(s.pc, 1))
        &&& t.temp == super::data(t)
    }
    &&& super::finished(t) ==> {
        &&& t.last_bus@.write
        &&& t.pc == super::pc_plus(s.pc, 3)
    }
    &&& t.x == s.x
    &&& t.y == s.y
    &&& t.s == s.s
    &&& t.a == s.a
    &&& !super::finished(t) ==> t.pc == s.pc
    &&& s.subcycle == 4 ==> {
        &&& t.temp == super::data(t)
        &&& super::read_at(t, t.tempaddr)
    }
    &&& s.subcycle == 5 ==> {
        &&& super::write_at(t, s.tempaddr, s.temp)
        &&& t.temp == s.temp
    }
    &&& s.subcycle >= 6 ==> {
        &&& super::write_at(t, s.tempaddr, super::dec_value(s.temp))
        &&& t.temp == super::dec_value(s.temp)
        &&& t.a == s.a
        &&& t.p == super::compare_flags(s.p, s.a, super::dec_value(s.temp))
    }
}

/// One bus cycle of dcp absolute x, undocumented.
pub(crate) open spec fn step_df(s: NesCpu, t: NesCpu) -> bool {
    &&& s.subcycle == 2 ==> super::shows(s, t, "*DCP $"@ + super::hex_text(super::word(t.temp, t.temp2) as nat, 4, false) + ",X"@)
    &&& s.subcycle != 2 ==> super::keeps_debugger(s, t)
    &&& s.subcycle == 1 ==> {
        &&& t.subcycle == 2
        &&& super::read_at(t, super::pc_plus(s.pc, 1))
        &&& t.temp == super::data(t)
    }
    &&& s.subcycle == 2 ==> {
        &&& t.subcycle == 3
        &&& super::read_at(t, super::pc_plus(s.pc, 2))
        &&& t.temp2 == super::data(t)
        &&& t.temp == s.temp
    }
    &&& s.subcycle == 3 ==> {
        &&& t.subcycle == 4
        &&& t.tempaddr == super::word(s.temp, s.temp2)
        &&& super::read_at(t, super::word(((s.temp + s.x) % 256) as u8, s.temp2))
    }
    &&& s.subcycle == 4 ==> {
        &&& t.subcycle == 5
        &&& t.tempaddr == super::abs_index(s.tempaddr, s.x)
        &&& super::read_at(t, super::abs_index(s.tempaddr, s.x))
        &&& t.temp == super::data(t)
    }
    &&& s.subcycle == 5 ==> {
        &&& t.subcycle == 6
        &&& t.tempaddr == s.tempaddr
    }
    &&& s.subcycle == 1 ==> {
        &&& super::read_at(t, super::pc_plus(s.pc, 1))
        &&& t.temp == super::data(t)
    }
    &&& super::finished(t) ==> {
        &&& t.last_bus@.write
        &&& t.pc == super::pc_plus(s.pc, 3)
    }
    &&& t.x == s.x
    &&& t.y == s.y
    &&& t.s == s.s
    &&& t.a == s.a
    &&& !super::finished(t) ==> t.pc == s.pc
    &&& s.subcycle == 4 ==> {
        &&& t.temp == super::data(t)
        &&& super::read_at(t, t.tempaddr)
    }
    &&& s.subcycle == 5 ==> {
        &&& super::write_at(t, s.tempaddr, s.temp)
        &&& t.temp == super::dec_value(s.temp)
        &&& t.a == s.a
        &&& t.p == s.p
    }
    &&& s.subcycle >= 6 ==> {
        &&& super::write_at(t, s.tempaddr, s.temp)
        &&& t.temp == s.temp
        &&& t.a == s.a
        &&& t.p == super::compare_flags(s.p, s.a, s.temp)
    }
}

/// One bus cycle of isb indirect x, increment memory, sub memory from accumulator, undocumented.
pub(crate) open spec fn step_e3(s: NesCpu, t: NesCpu) -> bool {
    &&& s.subcycle == 1 ==> super::shows(s, t, "*ISB ($"@ + super::hex_text(t.temp as nat, 2, false) + ",X)"@)
    &&& s.subcycle != 1 ==> super::keeps_debugger(s, t)
    &&& s.subcycle == 1 ==> {
        &&& t.subcycle == 2
        &&& super::read_at(t, super::pc_plus(s.pc, 1))
        &&& t.temp == super::data(t)
    }
    &&& s.subcycle == 2 ==> {
        &&& t.subcycle == 3
        &&& super::read_at(t, s.temp as u16)
        &&& t.temp == s.temp
    }
    &&& s.subcycle == 3 ==> {
        &&& t.subcycle == 4
        &&& t.temp == ((s.temp + s.x) % 256) as u8
        &&& super::read_at(t, super::zp_index(s.temp, s.x))
        &&& t.temp2 == super::data(t)
    }
    &&& s.subcycle == 4 ==> {
        &&& t.subcycle == 5
        &&& super::read_at(t, super::zp_index(s.temp, 1))
        &&& t.temp == super::data(t)
        &&& t.temp2 == s.temp2
    }
    &&& s.subcycle == 5 ==> {
        &&& t.subcycle == 6
        &&& t.tempaddr == super::word(s.temp2, s.temp)
        &&& super::read_at(t, super::word(s.temp2, s.temp))
        &&& t.temp == super::data(t)
    }
    &&& s.subcycle == 6 ==> {
        &&& t.subcycle == 7
        &&& t.tempaddr == s.tempaddr
    }
    &&& s.subcycle == 1 ==> {
        &&& super::read_at(t, super::pc_plus(s.pc, 1))
        &&& t.temp == super::data(t)
    }
    &&& super::finished(t) ==> {
        &&& t.last_bus@.write
        &&& t.pc == super::pc_plus(s.pc, 2)
    }
    &&& t.x == s.x
    &&& t.y == s.y
    &&& t.s == s.s
    &&& !super::finished(t) ==> t.pc == s.pc
    &&& s.subcycle == 5 ==> {
        &&& t.temp == super::data(t)
        &&& super::read_at(t, t.tempaddr)
    }
    &&& s.subcycle == 6 ==> {
        &&& super::write_at(t, s.tempaddr, s.temp)
        &&& t.temp == super::inc_value(s.temp)
        &&& t.a == s.a
        &&& t.p == s.p
    }
    &&& s.subcycle >= 7 ==> {
        &&& super::write_at(t, s.tempaddr, s.temp)
        &&& t.temp == s.temp
        &&& t.a == super::sbc_result(s.p, s.a, s.temp)
        &&& t.p == super::sbc_flags(s.p, s.a, s.temp)
    }
}

/// One bus cycle of isb zero page, undocumented.
pub(crate) open spec fn step_e7(s: NesCpu, t: NesCpu) -> bool {
    &&& s.subcycle == 1 ==> super::shows(s, t, "*ISB $"@ + super::hex_text(t.temp2 as nat, 2, false) + ""@)
    &&& s.subcycle != 1 ==> super::keeps_debugger(s, t)
    &&& s.subcycle == 1 ==> {
        &&& t.subcycle == 2
        &&& super::read_at(t, super::pc_plus(s.pc, 1))
        &&& t.temp2 == super::data(t)
    }
    &&& s.subcycle == 2 ==> {
        &&& t.subcycle == 3
        &&& super::read_at(t, s.temp2 as u16)
        &&& t.temp == super::data(t)
        &&& t.temp2 == s.temp2
    }
    &&& s.subcycle == 3 ==> {
        &&& t.subcycle == 4
        &&& t.temp2 == s.temp2
    }
    &&& s.subcycle == 1 ==> super::read_at(t, super::pc_plus(s.pc, 1))
    &&& super::finished(t) ==> t.pc == super::pc_plus(s.pc, 2)
    &&& t.x == s.x
    &&& t.y == s.y
    &&& t.s == s.s
    &&& !super::finished(t) ==> t.pc == s.pc
    &&& s.subcycle == 2 ==> {
        &&& t.temp == super::data(t)
        &&& super::read_at(t, t.temp2 as u16)
    }
    &&& s.subcycle == 3 ==> {
        &&& super::write_at(t, s.temp2 as u16, super::inc_value(s.temp))
        &&& t.temp == super::inc_value(s.temp)
        &&& t.a == s.a
        &&& t.p == s.p
    }
    &&& s.subcycle >= 4 ==> {
        &&& t.temp == s.temp
        &&& t.a == super::sbc_result(s.p, s.a, s.temp)
        &&& t.p == super::sbc_flags(s.p, s.a, s.temp)
    }
}

/// One bus cycle of isb absolute, undocumented.
pub(crate) open spec fn step_ef(s: NesCpu, t: NesCpu) -> bool {
    &&& s.subcycle == 2 ==> super::shows(s, t, "*ISB $"@ + super::hex_text(super::word(t.temp, t.temp2) as nat, 4, false) + ""@)
    &&& s.subcycle != 2 ==> super::keeps_debugger(s, t)
    &&& s.subcycle == 1 ==> {
        &&& t.subcycle == 2
        &&& super::read_at(t, super::pc_plus(s.pc, 1))
        &&& t.temp == super::data(t)
    }
    &&& s.subcycle == 2 ==> {
        &&& t.subcycle == 3
        &&& super::read_at(t, super::pc_plus(s.pc, 2))
        &&& t.temp2 == super::data(t)
        &&& t.temp == s.temp
    }
    &&& s.subcycle == 3 ==> {
        &&& t.subcycle == 4
        &&& t.tempaddr == super::word(s.temp, s.temp2)
        &&& super::read_at(t, super::word(s.temp, s.temp2))
        &&& t.temp == super::data(t)
    }
    &&& s.subcycle == 4 ==> {
        &&& t.subcycle == 5
        &&& t.tempaddr == s.tempaddr
    }
    &&& s.subcycle == 1 ==> {
        &&& super::read_at(t, super::pc_plus(s.pc, 1))
        &&& t.temp == super::data(t)
    }
    &&& super::finished(t) ==> {
        &&& t.last_bus@.write
        &&& t.pc == super::pc_plus(s.pc, 3)
    }
    &&& t.x == s.x
    &&& t.y == s.y
    &&& t.s == s.s
    &&& !super::finished(t) ==> t.pc == s.pc
    &&& s.subcycle == 3 ==> {
        &&& t.temp == super::data(t)
        &&& super::read_at(t, t.tempaddr)
    }
    &&& s.subcycle == 4 ==> {
        &&& super::write_at(t, s.tempaddr, s.temp)
        &&& t.temp == super::inc_value(s.temp)
        &&& t.a == s.a
        &&& t.p == s.p
    }
    &&& s.subcycle >= 5 ==> {
        &&& super::write_at(t, s.tempaddr, s.temp)
        &&& t.temp == s.temp
        &&& t.a == super::sbc_result(s.p, s.a, s.temp)
        &&& t.p == super::sbc_flags(s.p, s.a, s.temp)
    }
}

/// One bus cycle of isb indirect y, undocumented.
pub(crate) open spec fn step_f3(s: NesCpu, t: NesCpu) -> bool {
    &&& s.subcycle == 1 ==> super::shows(s, t, "*ISB ($"@ + super::hex_text(t.temp2 as nat, 2, false) + "),Y"@)
    &&& s.subcycle != 1 ==> super::keeps_debugger(s, t)
    &&& s.subcycle == 1 ==> {
        &&& t.subcycle == 2
        &&& super::read_at(t, super::pc_plus(s.pc, 1))
        &&& t.temp2 == super::data(t)
    }
    &&& s.subcycle == 2 ==> {
        &&& t.subcycle == 3
        &&& super::read_at(t, s.temp2 as u16)
        &&& t.temp == super::data(t)
        &&& t.temp2 == s.temp2
    }
    &&& s.subcycle == 3 ==> {
        &&& t.subcycle == 4
        &&& super::read_at(t, super::zp_index(s.temp2, 1))
        &&& t.temp2 == super::data(t)
        &&& t.temp == s.temp
    }
    &&& s.subcycle == 4 ==> {
        &&& t.subcycle == 5
        &&& t.tempaddr == super::word(s.temp, s.temp2)
        &&& super::read_at(t, super::word(((s.temp + s.y) % 256) as u8, s.temp2))
        &&& t.temp == s.temp
        &&& t.temp2 == s.temp2
    }
    &&& s.subcycle == 5 ==> {
        &&& t.subcycle == 6
        &&& t.tempaddr == super::abs_index(super::word(s.temp, s.temp2), s.y)
        &&& super::read_at(t, super::abs_index(super::word(s.temp, s.temp2), s.y))
        &&& t.temp == super::data(t)
    }
    &&& s.subcycle == 6 ==> {
        &&& t.subcycle == 7
        &&& t.tempaddr == s.tempaddr
    }
    &&& s.subcycle == 1 ==> super::read_at(t, super::pc_plus(s.pc, 1))
    &&& super::finished(t) ==> {
        &&& t.last_bus@.write
        &&& t.pc == super::pc_plus(s.pc, 2)
    }
    &&& t.x == s.x
    &&& t.y == s.y
    &&& t.s == s.s
    &&& !super::finished(t) ==> t.pc == s.pc
    &&& s.subcycle == 5 ==> {
        &&& t.temp == super::data(t)
        &&& super::read_at(t, t.tempaddr)
    }
    &&& s.subcycle == 6 ==> {
        &&& super::write_at(t, s.tempaddr, s.temp)
        &&& t.temp == s.temp
    }
    &&& s.subcycle >= 7 ==> {
        &&& super::write_at(t, s.tempaddr, super::inc_value(s.temp))
        &&& t.temp == super::inc_value(s.temp)
        &&& t.a == super::sbc_result(s.p, s.a, super::inc_value(s.temp))
        &&& t.p == super::sbc_flags(s.p, s.a, super::inc_value(s.temp))
    }
}

/// One bus cycle of isb zero page x, undocumented.
pub(crate) open spec fn step_f7(s: NesCpu, t: NesCpu) -> bool {
    &&& s.subcycle == 1 ==> super::shows(s, t, "*ISB $"@ + super::hex_text(t.temp2 as nat, 2, false) + ",X"@)
    &&& s.subcycle != 1 ==> super::keeps_debugger(s, t)
    &&& s.subcycle == 1 ==> {
        &&& t.subcycle == 2
        &&& super::read_at(t, super::pc_plus(s.pc, 1))
        &&& t.temp2 == super::data(t)
    }
    &&& s.subcycle == 2 ==> {
        &&& t.subcycle == 3
        &&& super::read_at(t, s.temp2 as u16)
        &&& t.temp2 == s.temp2
    }
    &&& s.subcycle == 3 ==> {
        &&& t.subcycle == 4
        &&& t.temp2 == ((s.temp2 + s.x) % 256) as u8
        &&& super::read_at(t, super::zp_index(s.temp2, s.x))
        &&& t.temp == super::data(t)
    }
    &&& s.subcycle == 4 ==> {
        &&& t.subcycle == 5
        &&& t.temp2 == s.temp2
    }
    &&& s.subcycle == 1 ==> super::read_at(t, super::pc_plus(s.pc, 1))
    &&& super::finished(t) ==> {
        &&& t.last_bus@.write
        &&& t.pc == super::pc_plus(s.pc, 2)
    }
    &&& t.x == s.x
    &&& t.y == s.y
    &&& t.s == s.s
    &&& !super::finished(t) ==> t.pc == s.pc
    &&& s.subcycle == 3 ==> {
        &&& t.temp == super::data(t)
        &&& super::read_at(t, t.temp2 as u16)
    }
    &&& s.subcycle == 4 ==> {
        &&& super::write_at(t, s.temp2 as u16, s.temp)
        &&& t.temp == s.temp
    }
    &&& s.subcycle >= 5 ==> {
        &&& super::write_at(t, s.temp2 as u16, super::inc_value(s.temp))
        &&& t.temp == super::inc_value(s.temp)
        &&& t.a == super::sbc_result(s.p, s.a, super::inc_value(s.temp))
        &&& t.p == super::sbc_flags(s.p, s.a, super::inc_value(s.temp))
    }
}

/// One bus cycle of isb absolute y, undocumented.
pub(crate) open spec fn step_fb(s: NesCpu, t: NesCpu) -> bool {
    &&& s.subcycle == 2 ==> super::shows(s, t, "*ISB $"@ + super::hex_text(super::word(t.temp, t.temp2) as nat, 4, false) + ",Y"@)
    &&& s.subcycle != 2 ==> super::keeps_debugger(s, t)
    &&& s.subcycle == 1 ==> {
        &&& t.subcycle == 2
        &&& super::read_at(t, super::pc_plus(s.pc, 1))
        &&& t.temp == super::data(t)
    }
    &&& s.subcycle == 2 ==> {
        &&& t.subcycle == 3
        &&& super::read_at(t, super::pc_plus(s.pc, 2))
        &&& t.temp2 == super::data(t)
        &&& t.temp == s.temp
    }
    &&& s.subcycle == 3 ==> {
        &&& t.subcycle == 4
        &&& t.tempaddr == super::word(s.temp, s.temp2)
        &&& super::read_at(t, super::word(((s.temp + s.y) % 256) as u8, s.temp2))
    }
    &&& s.subcycle == 4 ==> {
        &&& t.subcycle == 5
        &&& t.tempaddr == super::abs_index(s.tempaddr, s.y)
        &&& super::read_at(t, super::abs_index(s.tempaddr, s.y))
        &&& t.temp == super::data(t)
    }
    &&& s.subcycle == 5 ==> {
        &&& t.subcycle == 6
        &&& t.tempaddr == s.tempaddr
    }
    &&& s.subcycle == 1 ==> {
        &&& super::read_at(t, super::pc_plus(s.pc, 1))
        &&& t.temp == super::data(t)
    }
    &&& super::finished(t) ==> {
        &&& t.last_bus@.write
        &&& t.pc == super::pc_plus(s.pc, 3)
    }
    &&& t.x == s.x
    &&& t.y == s.y
    &&& t.s == s.s
    &&& !super::finished(t) ==> t.pc == s.pc
    &&& s.subcycle == 4 ==> {
        &&& t.temp == super::data(t)
        &&& super::read_at(t, t.tempaddr)
    }
    &&& s.subcycle == 5 ==> {
        &&& super::write_at(t, s.tempaddr, s.temp)
        &&& t.temp == super::inc_value(s.temp)
        &&& t.a == s.a
        &&& t.p == s.p
    }
    &&& s.subcycle >= 6 ==> {
        &&& super::write_at(t, s.tempaddr, s.temp)
        &&& t.temp == s.temp
        &&& t.a == super::sbc_result(s.p, s.a, s.temp)
        &&& t.p == super::sbc_flags(s.p, s.a, s.temp)
    }
}

/// One bus cycle of isb absolute x, undocumented.
pub(crate) open spec fn step_ff(s: NesCpu, t: NesCpu) -> bool {
    &&& s.subcycle == 2 ==> super::shows(s, t, "*ISB $"@ + super::hex_text(super::word(t.temp, t.temp2) as nat, 4, false) + ",X"@)
    &&& s.subcycle != 2 ==> super::keeps_debugger(s, t)
    &&& s.subcycle == 1 ==> {
        &&& t.subcycle == 2
        &&& super::read_at(t, super::pc_plus(s.pc, 1))
        &&& t.temp == super::data(t)
    }
    &&& s.subcycle == 2 ==> {
        &&& t.subcycle == 3
        &&& super::read_at(t, super::pc_plus(s.pc, 2))
        &&& t.temp2 == super::data(t)
        &&& t.temp == s.temp
    }
    &&& s.subcycle == 3 ==> {
        &&& t.subcycle == 4
        &&& t.tempaddr == super::word(s.temp, s.temp2)
        &&& super::read_at(t, super::word(((s.temp + s.x) % 256) as u8, s.temp2))
    }
    &&& s.subcycle == 4 ==> {
        &&& t.subcycle == 5
        &&& t.tempaddr == super::abs_index(s.tempaddr, s.x)
        &&& super::read_at(t, super::abs_index(s.tempaddr, s.x))
        &&& t.temp == super::data(t)
    }
    &&& s.subcycle == 5 ==> {
        &&& t.subcycle == 6
        &&& t.tempaddr == s.tempaddr
    }
    &&& s.subcycle == 1 ==> {
        &&& super::read_at(t, super::pc_plus(s.pc, 1))
        &&& t.temp == super::data(t)
    }
    &&& super::finished(t) ==> {
        &&& t.last_bus@.write
        &&& t.pc == super::pc_plus(s.pc, 3)
    }
    &&& t.x == s.x
    &&& t.y == s.y
    &&& t.s == s.s
    &&& !super::finished(t) ==> t.pc == s.pc
    &&& s.subcycle == 4 ==> {
        &&& t.temp == super::data(t)
        &&& super::read_at(t, t.tempaddr)
    }
    &&& s.subcycle == 5 ==> {
        &&& super::write_at(t, s.tempaddr, s.temp)
        &&& t.temp == super::inc_value(s.temp)
        &&& t.a == s.a
        &&& t.p == s.p
    }
    &&& s.subcycle >= 6 ==> {
        &&& super::write_at(t, s.tempaddr, s.temp)
        &&& t.temp == s.temp
        &&& t.a == super::sbc_result(s.p, s.a, s.temp)
        &&& t.p == super::sbc_flags(s.p, s.a, s.temp)
    }
}

/// One bus cycle of slo shift left, then or with accumulator, undocumented.
pub(crate) open spec fn step_03(s: NesCpu, t: NesCpu) -> bool {
    &&& s.subcycle == 1 ==> super::shows(s, t, "*SLO ($"@ + super::hex_text(t.temp as nat, 2, false) + ",X)"@)
    &&& s.subcycle != 1 ==> super::keeps_debugger(s, t)
    &&& s.subcycle == 1 ==> {
        &&& t.subcycle == 2
        &&& super::read_at(t, super::pc_plus(s.pc, 1))
        &&& t.temp == super::data(t)
    }
    &&& s.subcycle == 2 ==> {
        &&& t.subcycle == 3
        &&& super::read_at(t, s.temp as u16)
        &&& t.temp == s.temp
    }
    &&& s.subcycle == 3 ==> {
        &&& t.subcycle == 4
        &&& t.temp == ((s.temp + s.x) % 256) as u8
        &&& super::read_at(t, super::zp_index(s.temp, s.x))
        &&& t.temp2 == super::data(t)
    }
    &&& s.subcycle == 4 ==> {
        &&& t.subcycle == 5
        &&& super::read_at(t, super::zp_index(s.temp, 1))
        &&& t.temp == super::data(t)
        &&& t.temp2 == s.temp2
    }
    &&& s.subcycle == 5 ==> {
        &&& t.subcycle == 6
        &&& t.tempaddr == super::word(s.temp2, s.temp)
        &&& super::read_at(t, super::word(s.temp2, s.temp))
        &&& t.temp == super::data(t)
    }
    &&& s.subcycle == 6 ==> {
        &&& t.subcycle == 7
        &&& t.tempaddr == s.tempaddr
    }
    &&& s.subcycle == 1 ==> {
        &&& super::read_at(t, super::pc_plus(s.pc, 1))
        &&& t.temp == super::data(t)
    }
    &&& super::finished(t) ==> {
        &&& t.last_bus@.write
        &&& t.pc == super::pc_plus(s.pc, 2)
    }
    &&& t.x == s.x
    &&& t.y == s.y
    &&& t.s == s.s
    &&& !super::finished(t) ==> t.pc == s.pc
    &&& s.subcycle == 5 ==> {
        &&& t.temp == super::data(t)
        &&& super::read_at(t, t.tempaddr)
    }
    &&& s.subcycle == 6 ==> {
        &&& super::write_at(t, s.tempaddr, s.temp)
        &&& t.temp == s.temp
    }
    &&& s.subcycle >= 7 ==> {
        &&& super::write_at(t, s.tempaddr, super::asl_value(s.temp))
        &&& t.temp == super::asl_value(s.temp)
        &&& t.a == (s.a | super::asl_value(s.temp))
        &&& t.p == super::shift_flags(s.p, t.a, s.temp >= 128)
    }
}

/// One bus cycle of slo zero page, undocumented.
pub(crate) open spec fn step_07(s: NesCpu, t: NesCpu) -> bool {
    &&& s.subcycle == 1 ==> super::shows(s, t, "*SLO $"@ + super::hex_text(t.temp2 as nat, 2, false) + ""@)
    &&& s.subcycle != 1 ==> super::keeps_debugger(s, t)
    &&& s.subcycle == 1 ==> {
        &&& t.subcycle == 2
        &&& super::read_at(t, super::pc_plus(s.pc, 1))
        &&& t.temp2 == super::data(t)
    }
    &&& s.subcycle == 2 ==> {
        &&& t.subcycle == 3
        &&& super::read_at(t, s.temp2 as u16)
        &&& t.temp == super::data(t)
        &&& t.temp2 == s.temp2
    }
    &&& s.subcycle == 3 ==> {
        &&& t.subcycle == 4
        &&& t.temp2 == s.temp2
    }
    &&& s.subcycle == 1 ==> super::read_at(t, super::pc_plus(s.pc, 1))
    &&& super::finished(t) ==> t.pc == super::pc_plus(s.pc, 2)
    &&& t.x == s.x
    &&& t.y == s.y
    &&& t.s == s.s
    &&& !super::finished(t) ==> t.pc == s.pc
    &&& s.subcycle == 2 ==> {
        &&& t.temp == super::data(t)
        &&& super::read_at(t, t.temp2 as u16)
    }
    &&& s.subcycle == 3 ==> {
        &&& super::write_at(t, s.temp2 as u16, super::asl_value(s.temp))
        &&& t.temp == super::asl_value(s.temp)
        &&& t.a == s.a
        &&& t.p == super::carry_flags(s.p, s.temp >= 128)
    }
    &&& s.subcycle >= 4 ==> {
        &&& t.temp == s.temp
        &&& t.a == (s.a | s.temp)
        &&& t.p == super::or_nz(s.p, t.a)
    }
}

/// One bus cycle of slo absolute, undocumented.
pub(crate) open spec fn step_0f(s: NesCpu, t: NesCpu) -> bool {
    &&& s.subcycle == 2 ==> super::shows(s, t, "*SLO $"@ + super::hex_text(super::word(t.temp, t.temp2) as nat, 4, false) + ""@)
    &&& s.subcycle != 2 ==> super::keeps_debugger(s, t)
    &&& s.subcycle == 1 ==> {
        &&& t.subcycle == 2
        &&& super::read_at(t, super::pc_plus(s.pc, 1))
        &&& t.temp == super::data(t)
    }
    &&& s.subcycle == 2 ==> {
        &&& t.subcycle == 3
        &&& super::read_at(t, super::pc_plus(s.pc, 2))
        &&& t.temp2 == super::data(t)
        &&& t.temp == s.temp
    }
    &&& s.subcycle == 3 ==> {
        &&& t.subcycle == 4
        &&& t.tempaddr == super::word(s.temp, s.temp2)
        &&& super::read_at(t, super::word(s.temp, s.temp2))
        &&& t.temp == super::data(t)
    }
    &&& s.subcycle == 4 ==> {
        &&& t.subcycle == 5
        &&& t.tempaddr == s.tempaddr
    }
    &&& s.subcycle == 1 ==> {
        &&& super::read_at(t, super::pc_plus(s.pc, 1))
        &&& t.temp == super::data(t)
    }
    &&& super::finished(t) ==> {
        &&& t.last_bus@.write
        &&& t.pc == super::pc_plus(s.pc, 3)
    }
    &&& t.x == s.x
    &&& t.y == s.y
    &&& t.s == s.s
    &&& !super::finished(t) ==> t.pc == s.pc
    &&& s.subcycle == 3 ==> {
        &&& t.temp == super::data(t)
        &&& super::read_at(t, t.tempaddr)
    }
    &&& s.subcycle == 4 ==> {
        &&& super::write_at(t, s.tempaddr, s.temp)
        &&& t.temp == super::asl_value(s.temp)
        &&& t.a == s.a
        &&& t.p == super::carry_flags(s.p, s.temp >= 128)
    }
    &&& s.subcycle >= 5 ==> {
        &&& super::write_at(t, s.tempaddr, s.temp)
        &&& t.temp == s.temp
        &&& t.a == (s.a | s.temp)
        &&& t.p == super::or_nz(s.p, t.a)
    }
}

/// One bus cycle of slo indirect y, undocumented.
pub(crate) open spec fn step_13(s: NesCpu, t: NesCpu) -> bool {
    &&& s.subcycle == 1 ==> super::shows(s, t, "*SLO ($"@ + super::hex_text(t.temp2 as nat, 2, false) + "),Y"@)
    &&& s.subcycle != 1 ==> super::keeps_debugger(s, t)
    &&& s.subcycle == 1 ==> {
        &&& t.subcycle == 2
        &&& super::read_at(t, super::pc_plus(s.pc, 1))
        &&& t.temp2 == super::data(t)
    }
    &&& s.subcycle == 2 ==> {
        &&& t.subcycle == 3
        &&& super::read_at(t, s.temp2 as u16)
        &&& t.temp == super::data(t)
        &&& t.temp2 == s.temp2
    }
    &&& s.subcycle == 3 ==> {
        &&& t.subcycle == 4
        &&& super::read_at(t, super::zp_index(s.temp2, 1))
        &&& t.temp2 == super::data(t)
        &&& t.temp == s.temp
    }
    &&& s.subcycle == 4 ==> {
        &&& t.subcycle == 5
        &&& t.tempaddr == super::word(s.temp, s.temp2)
        &&& super::read_at(t, super::word(((s.temp + s.y) % 256) as u8, s.temp2))
        &&& t.temp == s.temp
        &&& t.temp2 == s.temp2
    }
    &&& s.subcycle == 5 ==> {
        &&& t.subcycle == 6
        &&& t.tempaddr == super::abs_index(s.tempaddr, s.y)
        &&& super::read_at(t, super::abs_index(s.tempaddr, s.y))
        &&& t.temp == super::data(t)
    }
    &&& s.subcycle == 6 ==> {
        &&& t.subcycle == 7
        &&& t.tempaddr == s.tempaddr
    }
    &&& s.subcycle == 1 ==> super::read_at(t, super::pc_plus(s.pc, 1))
    &&& super::finished(t) ==> {
        &&& t.last_bus@.write
        &&& t.pc == super::pc_plus(s.pc, 2)
    }
    &&& t.x == s.x
    &&& t.y == s.y
    &&& t.s == s.s
    &&& !super::finished(t) ==> t.pc == s.pc
    &&& s.subcycle == 5 ==> {
        &&& t.temp == super::data(t)
        &&& super::read_at(t, t.tempaddr)
    }
    &&& s.subcycle == 6 ==> {
        &&& super::write_at(t, s.tempaddr, s.temp)
        &&& t.temp == s.temp
    }
    &&& s.subcycle >= 7 ==> {
        &&& super::write_at(t, s.tempaddr, super::asl_value(s.temp))
        &&& t.temp == super::asl_value(s.temp)
        &&& t.a == (s.a | super::asl_value(s.temp))
        &&& t.p == super::shift_flags(s.p, t.a, s.temp >= 128)
    }
}

/// One bus cycle of slo zero page x, undocumented.
pub(crate) open spec fn step_17(s: NesCpu, t: NesCpu) -> bool {
    &&& s.subcycle == 1 ==> super::shows(s, t, "*SLO $"@ + super::hex_text(t.temp2 as nat, 2, false) + ",X"@)
    &&& s.subcycle != 1 ==> super::keeps_debugger(s, t)
    &&& s.subcycle == 1 ==> {
        &&& t.subcycle == 2
        &&& super::read_at(t, super::pc_plus(s.pc, 1))
        &&& t.temp2 == super::data(t)
    }
    &&& s.subcycle == 2 ==> {
        &&& t.subcycle == 3
        &&& super::read_at(t, s.temp2 as u16)
        &&& t.temp2 == s.temp2
    }
    &&& s.subcycle == 3 ==> {
        &&& t.subcycle == 4
        &&& t.temp2 == ((s.temp2 + s.x) % 256) as u8
        &&& super::read_at(t, super::zp_index(s.temp2, s.x))
        &&& t.temp == super::data(t)
    }
    &&& s.subcycle == 4 ==> {
        &&& t.subcycle == 5
        &&& t.temp2 == s.temp2
    }
    &&& s.subcycle == 1 ==> super::read_at(t, super::pc_plus(s.pc, 1))
    &&& super::finished(t) ==> {
        &&& t.last_bus@.write
        &&& t.pc == super::pc_plus(s.pc, 2)
    }
    &&& t.x == s.x
    &&& t.y == s.y
    &&& t.s == s.s
    &&& !super::finished(t) ==> t.pc == s.pc
    &&& s.subcycle == 3 ==> {
        &&& t.temp == super::data(t)
        &&& super::read_at(t, t.temp2 as u16)
    }
    &&& s.subcycle == 4 ==> {
        &&& super::write_at(t, s.temp2 as u16, s.temp)
        &&& t.temp == s.temp
    }
    &&& s.subcycle >= 5 ==> {
        &&& super::write_at(t, s.temp2 as u16, super::asl_value(s.temp))
        &&& t.temp == super::asl_value(s.temp)
        &&& t.a == (s.a | super::asl_value(s.temp))
        &&& t.p == super::shift_flags(s.p, t.a, s.temp >= 128)
    }
}

/// One bus cycle of slo absolute y, undocumented.
pub(crate) open spec fn step_1b(s: NesCpu, t: NesCpu) -> bool {
    &&& s.subcycle == 2 ==> super::shows(s, t, "*SLO $"@ + super::hex_text(super::word(t.temp, t.temp2) as nat, 4, false) + ",Y"@)
    &&& s.subcycle != 2 ==> super::keeps_debugger(s, t)
    &&& s.subcycle == 1 ==> {
        &&& t.subcycle == 2
        &&& super::read_at(t, super::pc_plus(s.pc, 1))
        &&& t.temp == super::data(t)
    }
    &&& s.subcycle == 2 ==> {
        &&& t.subcycle == 3
        &&& super::read_at(t, super::pc_plus(s.pc, 2))
        &&& t.temp2 == super::data(t)
        &&& t.temp == s.temp
    }
    &&& s.subcycle == 3 ==> {
        &&& t.subcycle == 4
        &&& t.tempaddr == super::word(s.temp, s.temp2)
        &&& super::read_at(t, super::word(((s.temp + s.y) % 256) as u8, s.temp2))
    }
    &&& s.subcycle == 4 ==> {
        &&& t.subcycle == 5
        &&& t.tempaddr == super::abs_index(s.tempaddr, s.y)
        &&& super::read_at(t, super::abs_index(s.tempaddr, s.y))
        &&& t.temp == super::data(t)
    }
    &&& s.subcycle == 5 ==> {
        &&& t.subcycle == 6
        &&& t.tempaddr == s.tempaddr
    }
    &&& s.subcycle == 1 ==> {
        &&& super::read_at(t, super::pc_plus(s.pc, 1))
        &&& t.temp == super::data(t)
    }
    &&& super::finished(t) ==> {
        &&& t.last_bus@.write
        &&& t.pc == super::pc_plus(s.pc, 3)
    }
    &&& t.x == s.x
    &&& t.y == s.y
    &&& t.s == s.s
    &&& !super::finished(t) ==> t.pc == s.pc
    &&& s.subcycle == 4 ==> {
        &&& t.temp == super::data(t)
        &&& super::read_at(t, t.tempaddr)
    }
    &&& s.subcycle == 5 ==> {
        &&& super::write_at(t, s.tempaddr, s.temp)
        &&& t.temp == super::asl_value(s.temp)
        &&& t.a == s.a
        &&& t.p == super::carry_flags(s.p, s.temp >= 128)
    }
    &&& s.subcycle >= 6 ==> {
        &&& super::write_at(t, s.tempaddr, s.temp)
        &&& t.temp == s.temp
        &&& t.a == (s.a | s.temp)
        &&& t.p == super::or_nz(s.p, t.a)
    }
}

/// One bus cycle of slo absolute x, undocumented.
pub(crate) open spec fn step_1f(s: NesCpu, t: NesCpu) -> bool {
    &&& s.subcycle == 2 ==> super::shows(s, t, "*SLO $"@ + super::hex_text(super::word(t.temp, t.temp2) as nat, 4, false) + ",X"@)
    &&& s.subcycle != 2 ==> super::keeps_debugger(s, t)
    &&& s.subcycle == 1 ==> {
        &&& t.subcycle == 2
        &&& super::read_at(t, super::pc_plus(s.pc, 1))
        &&& t.temp == super::data(t)
    }
    &&& s.subcycle == 2 ==> {
        &&& t.subcycle == 3
        &&& super::read_at(t, super::pc_plus(s.pc, 2))
        &&& t.temp2 == super::data(t)
        &&& t.temp == s.temp
    }
    &&& s.subcycle == 3 ==> {
        &&& t.subcycle == 4
        &&& t.tempaddr == super::word(s.temp, s.temp2)
        &&& super::read_at(t, super::word(((s.temp + s.x) % 256) as u8, s.temp2))
    }
    &&& s.subcycle == 4 ==> {
        &&& t.subcycle == 5
        &&& t.tempaddr == super::abs_index(s.tempaddr, s.x)
        &&& super::read_at(t, super::abs_index(s.tempaddr, s.x))
        &&& t.temp == super::data(t)
    }
    &&& s.subcycle == 5 ==> {
        &&& t.subcycle == 6
        &&& t.tempaddr == s.tempaddr
    }
    &&& s.subcycle == 1 ==> {
        &&& super::read_at(t, super::pc_plus(s.pc, 1))
        &&& t.temp == super::data(t)
    }
    &&& super::finished(t) ==> {
        &&& t.last_bus@.write
        &&& t.pc == super::pc_plus(s.pc, 3)
    }
    &&& t.x == s.x
    &&& t.y == s.y
    &&& t.s == s.s
    &&& !super::finished(t) ==> t.pc == s.pc
    &&& s.subcycle == 4 ==> {
        &&& t.temp == super::data(t)
        &&& super::read_at(t, t.tempaddr)
    }
    &&& s.subcycle == 5 ==> {
        &&& super::write_at(t, s.tempaddr, s.temp)
        &&& t.temp == super::asl_value(s.temp)
        &&& t.a == s.a
        &&& t.p == super::carry_flags(s.p, s.temp >= 128)
    }
    &&& s.subcycle >= 6 ==> {
        &&& super::write_at(t, s.tempaddr, s.temp)
        &&& t.temp == s.temp
        &&& t.a == (s.a | s.temp)
        &&& t.p == super::or_nz(s.p, t.a)
    }
}

/// One bus cycle of rla, rotate left, then and with accumulator, undocumented.
pub(crate) open spec fn step_23(s: NesCpu, t: NesCpu) -> bool {
    &&& s.subcycle == 1 ==> super::shows(s, t, "*RLA ($"@ + super::hex_text(t.temp as nat, 2, false) + ",X)"@)
    &&& s.subcycle != 1 ==> super::keeps_debugger(s, t)
    &&& s.subcycle == 1 ==> {
        &&& t.subcycle == 2
        &&& super::read_at(t, super::pc_plus(s.pc, 1))
        &&& t.temp == super::data(t)
    }
    &&& s.subcycle == 2 ==> {
        &&& t.subcycle == 3
        &&& super::read_at(t, s.temp as u16)
        &&& t.temp == s.temp
    }
    &&& s.subcycle == 3 ==> {
        &&& t.subcycle == 4
        &&& t.temp == ((s.temp + s.x) % 256) as u8
        &&& super::read_at(t, super::zp_index(s.temp, s.x))
        &&& t.temp2 == super::data(t)
    }
    &&& s.subcycle == 4 ==> {
        &&& t.subcycle == 5
        &&& super::read_at(t, super::zp_index(s.temp, 1))
        &&& t.temp == super::data(t)
        &&& t.temp2 == s.temp2
    }
    &&& s.subcycle == 5 ==> {
        &&& t.subcycle == 6
        &&& t.tempaddr == super::word(s.temp2, s.temp)
        &&& super::read_at(t, super::word(s.temp2, s.temp))
        &&& t.temp == super::data(t)
    }
    &&& s.subcycle == 6 ==> {
        &&& t.subcycle == 7
        &&& t.tempaddr == s.tempaddr
    }
    &&& s.subcycle == 1 ==> {
        &&& super::read_at(t, super::pc_plus(s.pc, 1))
        &&& t.temp == super::data(t)
    }
    &&& super::finished(t) ==> {
        &&& t.last_bus@.write
        &&& t.pc == super::pc_plus(s.pc, 2)
    }
    &&& t.x == s.x
    &&& t.y == s.y
    &&& t.s == s.s
    &&& !super::finished(t) ==> t.pc == s.pc
    &&& s.subcycle == 5 ==> {
        &&& t.temp == super::data(t)
        &&& super::read_at(t, t.tempaddr)
    }
    &&& s.subcycle == 6 ==> {
        &&& super::write_at(t, s.tempaddr, s.temp)
        &&& t.temp == super::rol_value(s.p, s.temp)
        &&& t.a == (s.a & super::rol_value(s.p, s.temp))
        &&& t.p == super::shift_flags(s.p, t.a, s.temp >= 128)
    }
    &&& s.subcycle >= 7 ==> {
        &&& super::write_at(t, s.tempaddr, s.temp)
        &&& t.temp == s.temp
    }
}

/// One bus cycle of rla zero page, undocumented.
pub(crate) open spec fn step_27(s: NesCpu, t: NesCpu) -> bool {
    &&& s.subcycle == 1 ==> super::shows(s, t, "*RLA $"@ + super::hex_text(t.temp2 as nat, 2, false) + ""@)
    &&& s.subcycle != 1 ==> super::keeps_debugger(s, t)
    &&& s.subcycle == 1 ==> {
        &&& t.subcycle == 2
        &&& super::read_at(t, super::pc_plus(s.pc, 1))
        &&& t.temp2 == super::data(t)
    }
    &&& s.subcycle == 2 ==> {
        &&& t.subcycle == 3
        &&& super::read_at(t, s.temp2 as u16)
        &&& t.temp == super::data(t)
        &&& t.temp2 == s.temp2
    }
    &&& s.subcycle == 3 ==> {
        &&& t.subcycle == 4
        &&& t.temp2 == s.temp2
    }
    &&& s.subcycle == 1 ==> super::read_at(t, super::pc_plus(s.pc, 1))
    &&& super::finished(t) ==> t.pc == super::pc_plus(s.pc, 2)
    &&& t.x == s.x
    &&& t.y == s.y
    &&& t.s == s.s
    &&& !super::finished(t) ==> t.pc == s.pc
    &&& s.subcycle == 2 ==> {
        &&& t.temp == super::data(t)
        &&& super::read_at(t, t.temp2 as u16)
    }
    &&& s.subcycle == 3 ==> {
        &&& super::write_at(t, s.temp2 as u16, super::rol_value(s.p, s.temp))
        &&& t.temp == super::rol_value(s.p, s.temp)
        &&& t.a == (s.a & super::rol_value(s.p, s.temp))
        &&& t.p == super::shift_flags(s.p, t.a, s.temp >= 128)
    }
}

/// One bus cycle of rla absolute, undocumented.
pub(crate) open spec fn step_2f(s: NesCpu, t: NesCpu) -> bool {
    &&& s.subcycle == 2 ==> super::shows(s, t, "*RLA $"@ + super::hex_text(super::word(t.temp, t.temp2) as nat, 4, false) + ""@)
    &&& s.subcycle != 2 ==> super::keeps_debugger(s, t)
    &&& s.subcycle == 1 ==> {
        &&& t.subcycle == 2
        &&& super::read_at(t, super::pc_plus(s.pc, 1))
        &&& t.temp == super::data(t)
    }
    &&& s.subcycle == 2 ==> {
        &&& t.subcycle == 3
        &&& super::read_at(t, super::pc_plus(s.pc, 2))
        &&& t.temp2 == super::data(t)
        &&& t.temp == s.temp
    }
    &&& s.subcycle == 3 ==> {
        &&& t.subcycle == 4
        &&& t.tempaddr == super::word(s.temp, s.temp2)
        &&& super::read_at(t, super::word(s.temp, s.temp2))
        &&& t.temp == super::data(t)
    }
    &&& s.subcycle == 4 ==> {
        &&& t.subcycle == 5
        &&& t.tempaddr == s.tempaddr
    }
    &&& s.subcycle == 1 ==> {
        &&& super::read_at(t, super::pc_plus(s.pc, 1))
        &&& t.temp == super::data(t)
    }
    &&& super::finished(t) ==> {
        &&& t.last_bus@.write
        &&& t.pc == super::pc_plus(s.pc, 3)
    }
    &&& t.x == s.x
    &&& t.y == s.y
    &&& t.s == s.s
    &&& !super::finished(t) ==> t.pc == s.pc
    &&& s.subcycle == 3 ==> {
        &&& t.temp == super::data(t)
        &&& super::read_at(t, t.tempaddr)
    }
    &&& s.subcycle == 4 ==> {
        &&& super::write_at(t, s.tempaddr, s.temp)
        &&& t.temp == super::rol_value(s.p, s.temp)
        &&& t.a == (s.a & super::rol_value(s.p, s.temp))
        &&& t.p == super::shift_flags(s.p, t.a, s.temp >= 128)
    }
    &&& s.subcycle >= 5 ==> {
        &&& super::write_at(t, s.tempaddr, s.temp)
        &&& t.temp == s.temp
    }
}

/// One bus cycle of rla indirect y.
pub(crate) open spec fn step_33(s: NesCpu, t: NesCpu) -> bool {
    &&& s.subcycle == 1 ==> super::shows(s, t, "*RLA ($"@ + super::hex_text(t.temp2 as nat, 2, false) + "),Y"@)
    &&& s.subcycle != 1 ==> super::keeps_debugger(s, t)
    &&& s.subcycle == 1 ==> {
        &&& t.subcycle == 2
        &&& super::read_at(t, super::pc_plus(s.pc, 1))
        &&& t.temp2 == super::data(t)
    }
    &&& s.subcycle == 2 ==> {
        &&& t.subcycle == 3
        &&& super::read_at(t, s.temp2 as u16)
        &&& t.temp == super::data(t)
        &&& t.temp2 == s.temp2
    }
    &&& s.subcycle == 3 ==> {
        &&& t.subcycle == 4
        &&& super::read_at(t, super::zp_index(s.temp2, 1))
        &&& t.temp2 == super::data(t)
        &&& t.temp == s.temp
    }
    &&& s.subcycle == 4 ==> {
        &&& t.subcycle == 5
        &&& t.tempaddr == super::word(s.temp, s.temp2)
        &&& super::read_at(t, super::word(((s.temp + s.y) % 256) as u8, s.temp2))
        &&& t.temp == s.temp
        &&& t.temp2 == s.temp2
    }
    &&& s.subcycle == 5 ==> {
        &&& t.subcycle == 6
        &&& t.tempaddr == super::abs_index(s.tempaddr, s.y)
        &&& super::read_at(t, super::abs_index(s.tempaddr, s.y))
        &&& t.temp == super::data(t)
    }
    &&& s.subcycle == 6 ==> {
        &&& t.subcycle == 7
        &&& t.tempaddr == s.tempaddr
    }
    &&& s.subcycle == 1 ==> super::read_at(t, super::pc_plus(s.pc, 1))
    &&& super::finished(t) ==> {
        &&& t.last_bus@.write
        &&& t.pc == super::pc_plus(s.pc, 2)
    }
    &&& t.x == s.x
    &&& t.y == s.y
    &&& t.s == s.s
    &&& !super::finished(t) ==> t.pc == s.pc
    &&& s.subcycle == 5 ==> {
        &&& t.temp == super::data(t)
        &&& super::read_at(t, t.tempaddr)
    }
    &&& s.subcycle == 6 ==> {
        &&& super::write_at(t, s.tempaddr, s.temp)
        &&& t.temp == s.temp
    }
    &&& s.subcycle >= 7 ==> {
        &&& super::write_at(t, s.tempaddr, super::rol_value(s.p, s.temp))
        &&& t.temp == super::rol_value(s.p, s.temp)
        &&& t.a == (s.a & super::rol_value(s.p, s.temp))
        &&& t.p == super::shift_flags(s.p, t.a, s.temp >= 128)
    }
}

/// One bus cycle of rla zero page x, undocumented.
pub(crate) open spec fn step_37(s: NesCpu, t: NesCpu) -> bool {
    &&& s.subcycle == 1 ==> super::shows(s, t, "*RLA $"@ + super::hex_text(t.temp2 as nat, 2, false) + ",X"@)
    &&& s.subcycle != 1 ==> super::keeps_debugger(s, t)
    &&& s.subcycle == 1 ==> {
        &&& t.subcycle == 2
        &&& super::read_at(t, super::pc_plus(s.pc, 1))
        &&& t.temp2 == super::data(t)
    }
    &&& s.subcycle == 2 ==> {
        &&& t.subcycle == 3
        &&& super::read_at(t, s.temp2 as u16)
        &&& t.temp2 == s.temp2
    }
    &&& s.subcycle == 3 ==> {
        &&& t.subcycle == 4
        &&& t.temp2 == ((s.temp2 + s.x) % 256) as u8
        &&& super::read_at(t, super::zp_index(s.temp2, s.x))
        &&& t.temp == super::data(t)
    }
    &&& s.subcycle == 4 ==> {
        &&& t.subcycle == 5
        &&& t.temp2 == s.temp2
    }
    &&& s.subcycle == 1 ==> super::read_at(t, super::pc_plus(s.pc, 1))
    &&& super::finished(t) ==> {
        &&& t.last_bus@.write
        &&& t.pc == super::pc_plus(s.pc, 2)
    }
    &&& t.x == s.x
    &&& t.y == s.y
    &&& t.s == s.s
    &&& !super::finished(t) ==> t.pc == s.pc
    &&& s.subcycle == 3 ==> {
        &&& t.temp == super::data(t)
        &&& super::read_at(t, t.temp2 as u16)
    }
    &&& s.subcycle == 4 ==> {
        &&& super::write_at(t, s.temp2 as u16, s.temp)
        &&& t.temp == s.temp
    }
    &&& s.subcycle >= 5 ==> {
        &&& super::write_at(t, s.temp2 as u16, super::rol_value(s.p, s.temp))
        &&& t.temp == super::rol_value(s.p, s.temp)
        &&& t.a == (s.a & super::rol_value(s.p, s.temp))
        &&& t.p == super::shift_flags(s.p, t.a, s.temp >= 128)
    }
}

/// One bus cycle of rla absolute y, undocumented.
pub(crate) open spec fn step_3b(s: NesCpu, t: NesCpu) -> bool {
    &&& s.subcycle == 2 ==> super::shows(s, t, "*RLA $"@ + super::hex_text(super::word(t.temp, t.temp2) as nat, 4, false) + ",Y"@)
    &&& s.subcycle != 2 ==> super::keeps_debugger(s, t)
    &&& s.subcycle == 1 ==> {
        &&& t.subcycle == 2
        &&& super::read_at(t, super::pc_plus(s.pc, 1))
        &&& t.temp == super::data(t)
    }
    &&& s.subcycle == 2 ==> {
        &&& t.subcycle == 3
        &&& super::read_at(t, super::pc_plus(s.pc, 2))
        &&& t.temp2 == super::data(t)
        &&& t.temp == s.temp
    }
    &&& s.subcycle == 3 ==> {
        &&& t.subcycle == 4
        &&& t.tempaddr == super::word(s.temp, s.temp2)
        &&& super::read_at(t, super::word(((s.temp + s.y) % 256) as u8, s.temp2))
    }
    &&& s.subcycle == 4 ==> {
        &&& t.subcycle == 5
        &&& t.tempaddr == super::abs_index(s.tempaddr, s.y)
        &&& super::read_at(t, super::abs_index(s.tempaddr, s.y))
        &&& t.temp == super::data(t)
    }
    &&& s.subcycle == 5 ==> {
        &&& t.subcycle == 6
        &&& t.tempaddr == s.tempaddr
    }
    &&& s.subcycle == 1 ==> {
        &&& super::read_at(t, super::pc_plus(s.pc, 1))
        &&& t.temp == super::data(t)
    }
    &&& super::finished(t) ==> {
        &&& t.last_bus@.write
        &&& t.pc == super::pc_plus(s.pc, 3)
    }
    &&& t.x == s.x
    &&& t.y == s.y
    &&& t.s == s.s
    &&& !super::finished(t) ==> t.pc == s.pc
    &&& s.subcycle == 4 ==> {
        &&& t.temp == super::data(t)
        &&& super::read_at(t, t.tempaddr)
    }
    &&& s.subcycle == 5 ==> {
        &&& super::write_at(t, s.tempaddr, s.temp)
        &&& t.temp == super::rol_value(s.p, s.temp)
        &&& t.a == s.a
        &&& t.p == super::carry_flags(s.p, s.temp >= 128)
    }
    &&& s.subcycle >= 6 ==> {
        &&& super::write_at(t, s.tempaddr, s.temp)
        &&& t.temp == s.temp
        &&& t.a == (s.a & s.temp)
        &&& t.p == super::or_nz(s.p, t.a)
    }
}

/// One bus cycle of rla absolute x, undocumented.
pub(crate) open spec fn step_3f(s: NesCpu, t: NesCpu) -> bool {
    &&& s.subcycle == 2 ==> super::shows(s, t, "*RLA $"@ + super::hex_text(super::word(t.temp, t.temp2) as nat, 4, false) + ",X"@)
    &&& s.subcycle != 2 ==> super::keeps_debugger(s, t)
    &&& s.subcycle == 1 ==> {
        &&& t.subcycle == 2
        &&& super::read_at(t, super::pc_plus(s.pc, 1))
        &&& t.temp == super::data(t)
    }
    &&& s.subcycle == 2 ==> {
        &&& t.subcycle == 3
        &&& super::read_at(t, super::pc_plus(s.pc, 2))
        &&& t.temp2 == super::data(t)
        &&& t.temp == s.temp
    }
    &&& s.subcycle == 3 ==> {
        &&& t.subcycle == 4
        &&& t.tempaddr == super::word(s.temp, s.temp2)
        &&& super::read_at(t, super::word(((s.temp + s.x) % 256) as u8, s.temp2))
    }
    &&& s.subcycle == 4 ==> {
        &&& t.subcycle == 5
        &&& t.tempaddr == super::abs_index(s.tempaddr, s.x)
        &&& super::read_at(t, super::abs_index(s.tempaddr, s.x))
        &&& t.temp == super::data(t)
    }
    &&& s.subcycle == 5 ==> {
        &&& t.subcycle == 6
        &&& t.tempaddr == s.tempaddr
    }
    &&& s.subcycle == 1 ==> {
        &&& super::read_at(t, super::pc_plus(s.pc, 1))
        &&& t.temp == super::data(t)
    }
    &&& super::finished(t) ==> {
        &&& t.last_bus@.write
        &&& t.pc == super::pc_plus(s.pc, 3)
    }
    &&& t.x == s.x
    &&& t.y == s.y
    &&& t.s == s.s
    &&& !super::finished(t) ==> t.pc == s.pc
    &&& s.subcycle == 4 ==> {
        &&& t.temp == super::data(t)
        &&& super::read_at(t, t.tempaddr)
    }
    &&& s.subcycle == 5 ==> {
        &&& super::write_at(t, s.tempaddr, s.temp)
        &&& t.temp == super::rol_value(s.p, s.temp)
        &&& t.a == (s.a & super::rol_value(s.p, s.temp))
        &&& t.p == super::shift_flags(s.p, t.a, s.temp >= 128)
    }
    &&& s.subcycle >= 6 ==> {
        &&& super::write_at(t, s.tempaddr, s.temp)
        &&& t.temp == s.temp
    }
}

/// One bus cycle of sre, shift right, then xor with accumulator, undocumented.
pub(crate) open spec fn step_43(s: NesCpu, t: NesCpu) -> bool {
    &&& s.subcycle == 1 ==> super::shows(s, t, "*SRE ($"@ + super::hex_text(t.temp as nat, 2, false) + ",X)"@)
    &&& s.subcycle != 1 ==> super::keeps_debugger(s, t)
    &&& s.subcycle == 1 ==> {
        &&& t.subcycle == 2
        &&& super::read_at(t, super::pc_plus(s.pc, 1))
        &&& t.temp == super::data(t)
    }
    &&& s.subcycle == 2 ==> {
        &&& t.subcycle == 3
        &&& super::read_at(t, s.temp as u16)
        &&& t.temp == s.temp
    }
    &&& s.subcycle == 3 ==> {
        &&& t.subcycle == 4
        &&& t.temp == ((s.temp + s.x) % 256) as u8
        &&& super::read_at(t, super::zp_index(s.temp, s.x))
        &&& t.temp2 == super::data(t)
    }
    &&& s.subcycle == 4 ==> {
        &&& t.subcycle == 5
        &&& super::read_at(t, super::zp_index(s.temp, 1))
        &&& t.temp == super::data(t)
        &&& t.temp2 == s.temp2
    }
    &&& s.subcycle == 5 ==> {
        &&& t.subcycle == 6
        &&& t.tempaddr == super::word(s.temp2, s.temp)
        &&& super::read_at(t, super::word(s.temp2, s.temp))
        &&& t.temp == super::data(t)
    }
    &&& s.subcycle == 6 ==> {
        &&& t.subcycle == 7
        &&& t.tempaddr == s.tempaddr
    }
    &&& s.subcycle == 1 ==> {
        &&& super::read_at(t, super::pc_plus(s.pc, 1))
        &&& t.temp == super::data(t)
    }
    &&& super::finished(t) ==> {
        &&& t.last_bus@.write
        &&& t.pc == super::pc_plus(s.pc, 2)
    }
    &&& t.x == s.x
    &&& t.y == s.y
    &&& t.s == s.s
    &&& !super::finished(t) ==> t.pc == s.pc
    &&& s.subcycle == 5 ==> {
        &&& t.temp == super::data(t)
        &&& super::read_at(t, t.tempaddr)
    }
    &&& s.subcycle == 6 ==> {
        &&& super::write_at(t, s.tempaddr, s.temp)
        &&& t.temp == super::lsr_value(s.temp)
        &&& t.a == (s.a ^ super::lsr_value(s.temp))
        &&& t.p == super::shift_flags(s.p, t.a, s.temp % 2 == 1)
    }
    &&& s.subcycle >= 7 ==> {
        &&& super::write_at(t, s.tempaddr, s.temp)
        &&& t.temp == s.temp
    }
}

/// One bus cycle of sre zero page, undocumented.
pub(crate) open spec fn step_47(s: NesCpu, t: NesCpu) -> bool {
    &&& s.subcycle == 1 ==> super::shows(s, t, "*SRE $"@ + super::hex_text(t.temp2 as nat, 2, false) + ""@)
    &&& s.subcycle != 1 ==> super::keeps_debugger(s, t)
    &&& s.subcycle == 1 ==> {
        &&& t.subcycle == 2
        &&& super::read_at(t, super::pc_plus(s.pc, 1))
        &&& t.temp2 == super::data(t)
    }
    &&& s.subcycle == 2 ==> {
        &&& t.subcycle == 3
        &&& super::read_at(t, s.temp2 as u16)
        &&& t.temp == super::data(t)
        &&& t.temp2 == s.temp2
    }
    &&& s.subcycle == 3 ==> {
        &&& t.subcycle == 7
        &&& t.temp2 == s.temp2
    }
    &&& s.subcycle == 1 ==> super::read_at(t, super::pc_plus(s.pc, 1))
    &&& super::finished(t) ==> t.pc == super::pc_plus(s.pc, 2)
    &&& t.x == s.x
    &&& t.y == s.y
    &&& t.s == s.s
    &&& !super::finished(t) ==> t.pc == s.pc
    &&& s.subcycle == 2 ==> {
        &&& t.temp == super::data(t)
        &&& super::read_at(t, t.temp2 as u16)
    }
    &&& s.subcycle == 3 ==> {
        &&& super::write_at(t, s.temp2 as u16, super::lsr_value(s.temp))
        &&& t.temp == super::lsr_value(s.temp)
        &&& t.a == (s.a ^ super::lsr_value(s.temp))
        &&& t.p == super::shift_flags(s.p, t.a, s.temp % 2 == 1)
    }
}

/// One bus cycle of sre absolute, undocumented.
pub(crate) open spec fn step_4f(s: NesCpu, t: NesCpu) -> bool {
    &&& s.subcycle == 2 ==> super::shows(s, t, "*SRE $"@ + super::hex_text(super::word(t.temp, t.temp2) as nat, 4, false) + ""@)
    &&& s.subcycle != 2 ==> super::keeps_debugger(s, t)
    &&& s.subcycle == 1 ==> {
        &&& t.subcycle == 2
        &&& super::read_at(t, super::pc_plus(s.pc, 1))
        &&& t.temp == super::data(t)
    }
    &&& s.subcycle == 2 ==> {
        &&& t.subcycle == 3
        &&& super::read_at(t, super::pc_plus(s.pc, 2))
        &&& t.temp2 == super::data(t)
        &&& t.temp == s.temp
    }
    &&& s.subcycle == 3 ==> {
        &&& t.subcycle == 4
        &&& t.tempaddr == super::word(s.temp, s.temp2)
        &&& super::read_at(t, super::word(s.temp, s.temp2))
        &&& t.temp == super::data(t)
    }
    &&& s.subcycle == 4 ==> {
        &&& t.subcycle == 5
        &&& t.tempaddr == s.tempaddr
    }
    &&& s.subcycle == 1 ==> {
        &&& super::read_at(t, super::pc_plus(s.pc, 1))
        &&& t.temp == super::data(t)
    }
    &&& super::finished(t) ==> {
        &&& t.last_bus@.write
        &&& t.pc == super::pc_plus(s.pc, 3)
    }
    &&& t.x == s.x
    &&& t.y == s.y
    &&& t.s == s.s
    &&& !super::finished(t) ==> t.pc == s.pc
    &&& s.subcycle == 3 ==> {
        &&& t.temp == super::data(t)
        &&& super::read_at(t, t.tempaddr)
    }
    &&& s.subcycle == 4 ==> {
        &&& super::write_at(t, s.tempaddr, s.temp)
        &&& t.temp == super::lsr_value(s.temp)
        &&& t.a == (s.a ^ super::lsr_value(s.temp))
        &&& t.p == super::shift_flags(s.p, t.a, s.temp % 2 == 1)
    }
    &&& s.subcycle >= 5 ==> {
        &&& super::write_at(t, s.tempaddr, s.temp)
        &&& t.temp == s.temp
    }
}

/// One bus cycle of sre indirect y, undocumented.
pub(crate) open spec fn step_53(s: NesCpu, t: NesCpu) -> bool {
    &&& s.subcycle == 1 ==> super::shows(s, t, "*SRE ($"@ + super::hex_text(t.temp2 as nat, 2, false) + "),Y"@)
    &&& s.subcycle != 1 ==> super::keeps_debugger(s, t)
    &&& s.subcycle == 1 ==> {
        &&& t.subcycle == 2
        &&& super::read_at(t, super::pc_plus(s.pc, 1))
        &&& t.temp2 == super::data(t)
    }
    &&& s.subcycle == 2 ==> {
        &&& t.subcycle == 3
        &&& super::read_at(t, s.temp2 as u16)
        &&& t.temp == super::data(t)
        &&& t.temp2 == s.temp2
    }
    &&& s.subcycle == 3 ==> {
        &&& t.subcycle == 4
        &&& super::read_at(t, super::zp_index(s.temp2, 1))
        &&& t.temp2 == super::data(t)
        &&& t.temp == s.temp
    }
    &&& s.subcycle == 4 ==> {
        &&& t.subcycle == 5
        &&& t.tempaddr == super::word(s.temp, s.temp2)
        &&& super::read_at(t, super::word(((s.temp + s.y) % 256) as u8, s.temp2))
        &&& t.temp == s.temp
        &&& t.temp2 == s.temp2
    }
    &&& s.subcycle == 5 ==> {
        &&& t.subcycle == 6
        &&& t.tempaddr == super::abs_index(s.tempaddr, s.y)
        &&& super::read_at(t, super::abs_index(s.tempaddr, s.y))
        &&& t.temp == super::data(t)
    }
    &&& s.subcycle == 6 ==> {
        &&& t.subcycle == 7
        &&& t.tempaddr == s.tempaddr
    }
    &&& s.subcycle == 1 ==> super::read_at(t, super::pc_plus(s.pc, 1))
    &&& super::finished(t) ==> {
        &&& t.last_bus@.write
        &&& t.pc == super::pc_plus(s.pc, 2)
    }
    &&& t.x == s.x
    &&& t.y == s.y
    &&& t.s == s.s
    &&& !super::finished(t) ==> t.pc == s.pc
    &&& s.subcycle == 5 ==> {
        &&& t.temp == super::data(t)
        &&& super::read_at(t, t.tempaddr)
    }
    &&& s.subcycle == 6 ==> {
        &&& super::write_at(t, s.tempaddr, s.temp)
        &&& t.temp == s.temp
    }
    &&& s.subcycle >= 7 ==> {
        &&& super::write_at(t, s.tempaddr, super::lsr_value(s.temp))
        &&& t.temp == super::lsr_value(s.temp)
        &&& t.a == (s.a ^ super::lsr_value(s.temp))
        &&& t.p == super::shift_flags(s.p, t.a, s.temp % 2 == 1)
    }
}

/// One bus cycle of sre zero page x, undocumented.
pub(crate) open spec fn step_57(s: NesCpu, t: NesCpu) -> bool {
    &&& s.subcycle == 1 ==> super::shows(s, t, "*SRE $"@ + super::hex_text(t.temp2 as nat, 2, false) + ",X"@)
    &&& s.subcycle != 1 ==> super::keeps_debugger(s, t)
    &&& s.subcycle == 1 ==> {
        &&& t.subcycle == 2
        &&& super::read_at(t, super::pc_plus(s.pc, 1))
        &&& t.temp2 == super::data(t)
    }
    &&& s.subcycle == 2 ==> {
        &&& t.subcycle == 3
        &&& super::read_at(t, s.temp2 as u16)
        &&& t.temp2 == s.temp2
    }
    &&& s.subcycle == 3 ==> {
        &&& t.subcycle == 4
        &&& t.temp2 == ((s.temp2 + s.x) % 256) as u8
        &&& super::read_at(t, super::zp_index(s.temp2, s.x))
        &&& t.temp == super::data(t)
    }
    &&& s.subcycle == 4 ==> {
        &&& t.subcycle == 5
        &&& t.temp2 == s.temp2
    }
    &&& s.subcycle == 1 ==> super::read_at(t, super::pc_plus(s.pc, 1))
    &&& super::finished(t) ==> {
        &&& t.last_bus@.write
        &&& t.pc == super::pc_plus(s.pc, 2)
    }
    &&& t.x == s.x
    &&& t.y == s.y
    &&& t.s == s.s
    &&& !super::finished(t) ==> t.pc == s.pc
    &&& s.subcycle == 3 ==> {
        &&& t.temp == super::data(t)
        &&& super::read_at(t, t.temp2 as u16)
    }
    &&& s.subcycle == 4 ==> {
        &&& super::write_at(t, s.temp2 as u16, s.temp)
        &&& t.temp == s.temp
    }
    &&& s.subcycle >= 5 ==> {
        &&& super::write_at(t, s.temp2 as u16, super::lsr_value(s.temp))
        &&& t.temp == super::lsr_value(s.temp)
        &&& t.a == (s.a ^ super::lsr_value(s.temp))
        &&& t.p == super::shift_flags(s.p, t.a, s.temp % 2 == 1)
    }
}

/// One bus cycle of sre absolute y, undocumented.
pub(crate) open spec fn step_5b(s: NesCpu, t: NesCpu) -> bool {
    &&& s.subcycle == 2 ==> super::shows(s, t, "*SRE $"@ + super::hex_text(super::word(t.temp, t.temp2) as nat, 4, false) + ",Y"@)
    &&& s.subcycle != 2 ==> super::keeps_debugger(s, t)
    &&& s.subcycle == 1 ==> {
        &&& t.subcycle == 2
        &&& super::read_at(t, super::pc_plus(s.pc, 1))
        &&& t.temp == super::data(t)
    }
    &&& s.subcycle == 2 ==> {
        &&& t.subcycle == 3
        &&& super::read_at(t, super::pc_plus(s.pc, 2))
        &&& t.temp2 == super::data(t)
        &&& t.temp == s.temp
    }
    &&& s.subcycle == 3 ==> {
        &&& t.subcycle == 4
        &&& t.tempaddr == super::word(s.temp, s.temp2)
        &&& super::read_at(t, super::word(((s.temp + s.y) % 256) as u8, s.temp2))
    }
    &&& s.subcycle == 4 ==> {
        &&& t.subcycle == 5
        &&& t.tempaddr == super::abs_index(s.tempaddr, s.y)
        &&& super::read_at(t, super::abs_index(s.tempaddr, s.y))
        &&& t.temp == super::data(t)
    }
    &&& s.subcycle == 5 ==> {
        &&& t.subcycle == 6
        &&& t.tempaddr == s.tempaddr
    }
    &&& s.subcycle == 1 ==> {
        &&& super::read_at(t, super::pc_plus(s.pc, 1))
        &&& t.temp == super::data(t)
    }
    &&& super::finished(t) ==> {
        &&& t.last_bus@.write
        &&& t.pc == super::pc_plus(s.pc, 3)
    }
    &&& t.x == s.x
    &&& t.y == s.y
    &&& t.s == s.s
    &&& !super::finished(t) ==> t.pc == s.pc
    &&& s.subcycle == 4 ==> {
        &&& t.temp == super::data(t)
        &&& super::read_at(t, t.tempaddr)
    }
    &&& s.subcycle == 5 ==> {
        &&& super::write_at(t, s.tempaddr, s.temp)
        &&& t.temp == super::lsr_value(s.temp)
        &&& t.a == s.a
        &&& t.p == super::carry_flags(s.p, s.temp % 2 == 1)
    }
    &&& s.subcycle >= 6 ==> {
        &&& super::write_at(t, s.tempaddr, s.temp)
        &&& t.temp == s.temp
        &&& t.a == (s.a ^ s.temp)
        &&& t.p == super::or_nz(s.p, t.a)
    }
}

/// One bus cycle of sre absolute x, undocumented.
pub(crate) open spec fn step_5f(s: NesCpu, t: NesCpu) -> bool {
    &&& s.subcycle == 2 ==> super::shows(s, t, "*SRE $"@ + super::hex_text(super::word(t.temp, t.temp2) as nat, 4, false) + ",X"@)
    &&& s.subcycle != 2 ==> super::keeps_debugger(s, t)
    &&& s.subcycle == 1 ==> {
        &&& t.subcycle == 2
        &&& super::read_at(t, super::pc_plus(s.pc, 1))
        &&& t.temp == super::data(t)
    }
    &&& s.subcycle == 2 ==> {
        &&& t.subcycle == 3
        &&& super::read_at(t, super::pc_plus(s.pc, 2))
        &&& t.temp2 == super::data(t)
        &&& t.temp == s.temp
    }
    &&& s.subcycle == 3 ==> {
        &&& t.subcycle == 4
        &&& t.tempaddr == super::word(s.temp, s.temp2)
        &&& super::read_at(t, super::word(((s.temp + s.x) % 256) as u8, s.temp2))
    }
    &&& s.subcycle == 4 ==> {
        &&& t.subcycle == 5
        &&& t.tempaddr == super::abs_index(s.tempaddr, s.x)
        &&& super::read_at(t, super::abs_index(s.tempaddr, s.x))
        &&& t.temp == super::data(t)
    }
    &&& s.subcycle == 5 ==> {
        &&& t.subcycle == 6
        &&& t.tempaddr == s.tempaddr
    }
    &&& s.subcycle == 1 ==> {
        &&& super::read_at(t, super::pc_plus(s.pc, 1))
        &&& t.temp == super::data(t)
    }
    &&& super::finished(t) ==> {
        &&& t.last_bus@.write
        &&& t.pc == super::pc_plus(s.pc, 3)
    }
    &&& t.x == s.x
    &&& t.y == s.y
    &&& t.s == s.s
    &&& !super::finished(t) ==> t.pc == s.pc
    &&& s.subcycle == 4 ==> {
        &&& t.temp == super::data(t)
        &&& super::read_at(t, t.tempaddr)
    }
    &&& s.subcycle == 5 ==> {
        &&& super::write_at(t, s.tempaddr, s.temp)
        &&& t.temp == super::lsr_value(s.temp)
        &&& t.a == (s.a ^ super::lsr_value(s.temp))
        &&& t.p == super::shift_flags(s.p, t.a, s.temp % 2 == 1)
    }
    &&& s.subcycle >= 6 ==> {
        &&& super::write_at(t, s.tempaddr, s.temp)
        &&& t.temp == s.temp
    }
}

/// One bus cycle of rra, rotate right, then and with accumulator, undocumented.
pub(crate) open spec fn step_63(s: NesCpu, t: NesCpu) -> bool {
    &&& s.subcycle == 1 ==> super::shows(s, t, "*RRA ($"@ + super::hex_text(t.temp as nat, 2, false) + ",X)"@)
    &&& s.subcycle != 1 ==> super::keeps_debugger(s, t)
    &&& s.subcycle == 1 ==> {
        &&& t.subcycle == 2
        &&& super::read_at(t, super::pc_plus(s.pc, 1))
        &&& t.temp == super::data(t)
    }
    &&& s.subcycle == 2 ==> {
        &&& t.subcycle == 3
        &&& super::read_at(t, s.temp as u16)
        &&& t.temp == s.temp
    }
    &&& s.subcycle == 3 ==> {
        &&& t.subcycle == 4
        &&& t.temp == ((s.temp + s.x) % 256) as u8
        &&& super::read_at(t, super::zp_index(s.temp, s.x))
        &&& t.temp2 == super::data(t)
    }
    &&& s.subcycle == 4 ==> {
        &&& t.subcycle == 5
        &&& super::read_at(t, super::zp_index(s.temp, 1))
        &&& t.temp == super::data(t)
        &&& t.temp2 == s.temp2
    }
    &&& s.subcycle == 5 ==> {
        &&& t.subcycle == 6
        &&& t.tempaddr == super::word(s.temp2, s.temp)
        &&& super::read_at(t, super::word(s.temp2, s.temp))
        &&& t.temp == super::data(t)
    }
    &&& s.subcycle == 6 ==> {
        &&& t.subcycle == 7
        &&& t.tempaddr == s.tempaddr
    }
    &&& s.subcycle == 1 ==> {
        &&& super::read_at(t, super::pc_plus(s.pc, 1))
        &&& t.temp == super::data(t)
    }
    &&& super::finished(t) ==> {
        &&& t.last_bus@.write
        &&& t.pc == super::pc_plus(s.pc, 2)
    }
    &&& t.x == s.x
    &&& t.y == s.y
    &&& t.s == s.s
    &&& !super::finished(t) ==> t.pc == s.pc
    &&& s.subcycle == 5 ==> {
        &&& t.temp == super::data(t)
        &&& super::read_at(t, t.tempaddr)
    }
    &&& s.subcycle == 6 ==> {
        &&& super::write_at(t, s.tempaddr, s.temp)
        &&& t.temp == super::ror_value(s.p, s.temp)
        &&& t.a == super::adc_result(super::carry_flags(s.p, s.temp % 2 == 1), s.a, super::ror_value(s.p, s.temp))
        &&& t.p == super::adc_flags(super::carry_flags(s.p, s.temp % 2 == 1), s.a, super::ror_value(s.p, s.temp))
    }
    &&& s.subcycle >= 7 ==> {
        &&& super::write_at(t, s.tempaddr, s.temp)
        &&& t.temp == s.temp
    }
}

/// One bus cycle of rra zero page, undocumented.
pub(crate) open spec fn step_67(s: NesCpu, t: NesCpu) -> bool {
    &&& s.subcycle == 1 ==> super::shows(s, t, "*RRA $"@ + super::hex_text(t.temp2 as nat, 2, false) + ""@)
    &&& s.subcycle != 1 ==> super::keeps_debugger(s, t)
    &&& s.subcycle == 1 ==> {
        &&& t.subcycle == 2
        &&& super::read_at(t, super::pc_plus(s.pc, 1))
        &&& t.temp2 == super::data(t)
    }
    &&& s.subcycle == 2 ==> {
        &&& t.subcycle == 3
        &&& super::read_at(t, s.temp2 as u16)
        &&& t.temp == super::data(t)
        &&& t.temp2 == s.temp2
    }
    &&& s.subcycle == 3 ==> {
        &&& t.subcycle == 4
        &&& t.temp2 == s.temp2
    }
    &&& s.subcycle == 1 ==> super::read_at(t, super::pc_plus(s.pc, 1))
    &&& super::finished(t) ==> {
        &&& t.last_bus@.write
        &&& t.pc == super::pc_plus(s.pc, 2)
    }
    &&& t.x == s.x
    &&& t.y == s.y
    &&& t.s == s.s
    &&& !super::finished(t) ==> t.pc == s.pc
    &&& s.subcycle == 2 ==> {
        &&& t.temp == super::data(t)
        &&& super::read_at(t, t.temp2 as u16)
    }
    &&& s.subcycle == 3 ==> {
        &&& super::write_at(t, s.temp2 as u16, s.temp)
        &&& t.temp == s.temp
    }
    &&& s.subcycle >= 4 ==> {
        &&& super::write_at(t, s.temp2 as u16, super::ror_value(s.p, s.temp))
        &&& t.temp == super::ror_value(s.p, s.temp)
        &&& t.a == super::adc_result(super::carry_flags(s.p, s.temp % 2 == 1), s.a, super::ror_value(s.p, s.temp))
        &&& t.p == super::adc_flags(super::carry_flags(s.p, s.temp % 2 == 1), s.a, super::ror_value(s.p, s.temp))
    }
}

/// One bus cycle of rra absolute, undocumented.
pub(crate) open spec fn step_6f(s: NesCpu, t: NesCpu) -> bool {
    &&& s.subcycle == 2 ==> super::shows(s, t, "*RRA $"@ + super::hex_text(super::word(t.temp, t.temp2) as nat, 4, false) + ""@)
    &&& s.subcycle != 2 ==> super::keeps_debugger(s, t)
    &&& s.subcycle == 1 ==> {
        &&& t.subcycle == 2
        &&& super::read_at(t, super::pc_plus(s.pc, 1))
        &&& t.temp == super::data(t)
    }
    &&& s.subcycle == 2 ==> {
        &&& t.subcycle == 3
        &&& super::read_at(t, super::pc_plus(s.pc, 2))
        &&& t.temp2 == super::data(t)
        &&& t.temp == s.temp
    }
    &&& s.subcycle == 3 ==> {
        &&& t.subcycle == 4
        &&& t.tempaddr == super::word(s.temp, s.temp2)
        &&& super::read_at(t, super::word(s.temp, s.temp2))
        &&& t.temp == super::data(t)
    }
    &&& s.subcycle == 4 ==> {
        &&& t.subcycle == 5
        &&& t.tempaddr == s.tempaddr
    }
    &&& s.subcycle == 1 ==> {
        &&& super::read_at(t, super::pc_plus(s.pc, 1))
        &&& t.temp == super::data(t)
    }
    &&& super::finished(t) ==> {
        &&& t.last_bus@.write
        &&& t.pc == super::pc_plus(s.pc, 3)
    }
    &&& t.x == s.x
    &&& t.y == s.y
    &&& t.s == s.s
    &&& !super::finished(t) ==> t.pc == s.pc
    &&& s.subcycle == 3 ==> {
        &&& t.temp == super::data(t)
        &&& super::read_at(t, t.tempaddr)
    }
    &&& s.subcycle == 4 ==> {
        &&& super::write_at(t, s.tempaddr, s.temp)
        &&& t.temp == super::ror_value(s.p, s.temp)
        &&& t.a == super::adc_result(super::carry_flags(s.p, s.temp % 2 == 1), s.a, super::ror_value(s.p, s.temp))
        &&& t.p == super::adc_flags(super::carry_flags(s.p, s.temp % 2 == 1), s.a, super::ror_value(s.p, s.temp))
    }
    &&& s.subcycle >= 5 ==> {
        &&& super::write_at(t, s.tempaddr, s.temp)
        &&& t.temp == s.temp
    }
}

/// One bus cycle of rra indirect y.
pub(crate) open spec fn step_73(s: NesCpu, t: NesCpu) -> bool {
    &&& s.subcycle == 1 ==> super::shows(s, t, "*RRA ($"@ + super::hex_text(t.temp2 as nat, 2, false) + "),Y"@)
    &&& s.subcycle != 1 ==> super::keeps_debugger(s, t)
    &&& s.subcycle == 1 ==> {
        &&& t.subcycle == 2
        &&& super::read_at(t, super::pc_plus(s.pc, 1))
        &&& t.temp2 == super::data(t)
    }
    &&& s.subcycle == 2 ==> {
        &&& t.subcycle == 3
        &&& super::read_at(t, s.temp2 as u16)
        &&& t.temp == super::data(t)
        &&& t.temp2 == s.temp2
    }
    &&& s.subcycle == 3 ==> {
        &&& t.subcycle == 4
        &&& super::read_at(t, super::zp_index(s.temp2, 1))
        &&& t.temp2 == super::data(t)
        &&& t.temp == s.temp
    }
    &&& s.subcycle == 4 ==> {
        &&& t.subcycle == 5
        &&& t.tempaddr == super::word(s.temp, s.temp2)
        &&& super::read_at(t, super::word(((s.temp + s.y) % 256) as u8, s.temp2))
        &&& t.temp == s.temp
        &&& t.temp2 == s.temp2
    }
    &&& s.subcycle == 5 ==> {
        &&& t.subcycle == 6
        &&& t.tempaddr == super::abs_index(s.tempaddr, s.y)
        &&& super::read_at(t, super::abs_index(s.tempaddr, s.y))
        &&& t.temp == super::data(t)
    }
    &&& s.subcycle == 6 ==> {
        &&& t.subcycle == 7
        &&& t.tempaddr == s.tempaddr
    }
    &&& s.subcycle == 1 ==> super::read_at(t, super::pc_plus(s.pc, 1))
    &&& super::finished(t) ==> {
        &&& t.last_bus@.write
        &&& t.pc == super::pc_plus(s.pc, 2)
    }
    &&& t.x == s.x
    &&& t.y == s.y
    &&& t.s == s.s
    &&& !super::finished(t) ==> t.pc == s.pc
    &&& s.subcycle == 5 ==> {
        &&& t.temp == super::data(t)
        &&& super::read_at(t, t.tempaddr)
    }
    &&& s.subcycle == 6 ==> {
        &&& super::write_at(t, s.tempaddr, s.temp)
        &&& t.temp == s.temp
    }
    &&& s.subcycle >= 7 ==> {
        &&& super::write_at(t, s.tempaddr, super::ror_value(s.p, s.temp))
        &&& t.temp == super::ror_value(s.p, s.temp)
        &&& t.a == super::adc_result(super::carry_flags(s.p, s.temp % 2 == 1), s.a, super::ror_value(s.p, s.temp))
        &&& t.p == super::adc_flags(super::carry_flags(s.p, s.temp % 2 == 1), s.a, super::ror_value(s.p, s.temp))
    }
}

/// One bus cycle of rra zero page x, undocumented.
pub(crate) open spec fn step_77(s: NesCpu, t: NesCpu) -> bool {
    &&& s.subcycle == 1 ==> super::shows(s, t, "*RRA $"@ + super::hex_text(t.temp2 as nat, 2, false) + ",X"@)
    &&& s.subcycle != 1 ==> super::keeps_debugger(s, t)
    &&& s.subcycle == 1 ==> {
        &&& t.subcycle == 2
        &&& super::read_at(t, super::pc_plus(s.pc, 1))
        &&& t.temp2 == super::data(t)
    }
    &&& s.subcycle == 2 ==> {
        &&& t.subcycle == 3
        &&& super::read_at(t, s.temp2 as u16)
        &&& t.temp2 == s.temp2
    }
    &&& s.subcycle == 3 ==> {
        &&& t.subcycle == 4
        &&& t.temp2 == ((s.temp2 + s.x) % 256) as u8
        &&& super::read_at(t, super::zp_index(s.temp2, s.x))
        &&& t.temp == super::data(t)
    }
    &&& s.subcycle == 4 ==> {
        &&& t.subcycle == 5
        &&& t.temp2 == s.temp2
    }
    &&& s.subcycle == 1 ==> super::read_at(t, super::pc_plus(s.pc, 1))
    &&& super::finished(t) ==> {
        &&& t.last_bus@.write
        &&& t.pc == super::pc_plus(s.pc, 2)
    }
    &&& t.x == s.x
    &&& t.y == s.y
    &&& t.s == s.s
    &&& !super::finished(t) ==> t.pc == s.pc
    &&& s.subcycle == 3 ==> {
        &&& t.temp == super::data(t)
        &&& super::read_at(t, t.temp2 as u16)
    }
    &&& s.subcycle == 4 ==> {
        &&& super::write_at(t, s.temp2 as u16, s.temp)
        &&& t.temp == s.temp
    }
    &&& s.subcycle >= 5 ==> {
        &&& super::write_at(t, s.temp2 as u16, super::ror_value(s.p, s.temp))
        &&& t.temp == super::ror_value(s.p, s.temp)
        &&& t.a == super::adc_result(super::carry_flags(s.p, s.temp % 2 == 1), s.a, super::ror_value(s.p, s.temp))
        &&& t.p == super::adc_flags(super::carry_flags(s.p, s.temp % 2 == 1), s.a, super::ror_value(s.p, s.temp))
    }
}

/// One bus cycle of rra absolute y, undocumented.
pub(crate) open spec fn step_7b(s: NesCpu, t: NesCpu) -> bool {
    &&& s.subcycle == 2 ==> super::shows(s, t, "*RRA $"@ + super::hex_text(super::word(t.temp, t.temp2) as nat, 4, false) + ",Y"@)
    &&& s.subcycle != 2 ==> super::keeps_debugger(s, t)
    &&& s.subcycle == 1 ==> {
        &&& t.subcycle == 2
        &&& super::read_at(t, super::pc_plus(s.pc, 1))
        &&& t.temp == super::data(t)
    }
    &&& s.subcycle == 2 ==> {
        &&& t.subcycle == 3
        &&& super::read_at(t, super::pc_plus(s.pc, 2))
        &&& t.temp2 == super::data(t)
        &&& t.temp == s.temp
    }
    &&& s.subcycle == 3 ==> {
        &&& t.subcycle == 4
        &&& t.tempaddr == super::word(s.temp, s.temp2)
        &&& super::read_at(t, super::word(((s.temp + s.y) % 256) as u8, s.temp2))
    }
    &&& s.subcycle == 4 ==> {
        &&& t.subcycle == 5
        &&& t.tempaddr == super::abs_index(s.tempaddr, s.y)
        &&& super::read_at(t, super::abs_index(s.tempaddr, s.y))
        &&& t.temp == super::data(t)
    }
    &&& s.subcycle == 5 ==> {
        &&& t.subcycle == 6
        &&& t.tempaddr == s.tempaddr
    }
    &&& s.subcycle == 1 ==> {
        &&& super::read_at(t, super::pc_plus(s.pc, 1))
        &&& t.temp == super::data(t)
    }
    &&& super::finished(t) ==> {
        &&& t.last_bus@.write
        &&& t.pc == super::pc_plus(s.pc, 3)
    }
    &&& t.x == s.x
    &&& t.y == s.y
    &&& t.s == s.s
    &&& !super::finished(t) ==> t.pc == s.pc
    &&& s.subcycle == 4 ==> {
        &&& t.temp == super::data(t)
        &&& super::read_at(t, t.tempaddr)
    }
    &&& s.subcycle == 5 ==> {
        &&& super::write_at(t, s.tempaddr, s.temp)
        &&& t.temp == super::ror_value(s.p, s.temp)
        &&& t.a == s.a
        &&& t.p == super::carry_flags(s.p, s.temp % 2 == 1)
    }
    &&& s.subcycle >= 6 ==> {
        &&& super::write_at(t, s.tempaddr, s.temp)
        &&& t.temp == s.temp
        &&& t.a == super::adc_result(s.p, s.a, s.temp)
        &&& t.p == super::adc_flags(s.p, s.a, s.temp)
    }
}

/// One bus cycle of rra absolute x, undocumented.
pub(crate) open spec fn step_7f(s: NesCpu, t: NesCpu) -> bool {
    &&& s.subcycle == 2 ==> super::shows(s, t, "*RRA $"@ + super::hex_text(super::word(t.temp, t.temp2) as nat, 4, false) + ",X"@)
    &&& s.subcycle != 2 ==> super::keeps_debugger(s, t)
    &&& s.subcycle == 1 ==> {
        &&& t.subcycle == 2
        &&& super::read_at(t, super::pc_plus(s.pc, 1))
        &&& t.temp == super::data(t)
    }
    &&& s.subcycle == 2 ==> {
        &&& t.subcycle == 3
        &&& super::read_at(t, super::pc_plus(s.pc, 2))
        &&& t.temp2 == super::data(t)
        &&& t.temp == s.temp
    }
    &&& s.subcycle == 3 ==> {
        &&& t.subcycle == 4
        &&& t.tempaddr == super::word(s.temp, s.temp2)
        &&& super::read_at(t, super::word(((s.temp + s.x) % 256) as u8, s.temp2))
    }
    &&& s.subcycle == 4 ==> {
        &&& t.subcycle == 5
        &&& t.tempaddr == super::abs_index(s.tempaddr, s.x)
        &&& super::read_at(t, super::abs_index(s.tempaddr, s.x))
        &&& t.temp == super::data(t)
    }
    &&& s.subcycle == 5 ==> {
        &&& t.subcycle == 6
        &&& t.tempaddr == s.tempaddr
    }
    &&& s.subcycle == 1 ==> {
        &&& super::read_at(t, super::pc_plus(s.pc, 1))
        &&& t.temp == super::data(t)
    }
    &&& super::finished(t) ==> {
        &&& t.last_bus@.write
        &&& t.pc == super::pc_plus(s.pc, 3)
    }
    &&& t.x == s.x
    &&& t.y == s.y
    &&& t.s == s.s
    &&& !super::finished(t) ==> t.pc == s.pc
    &&& s.subcycle == 4 ==> {
        &&& t.temp == super::data(t)
        &&& super::read_at(t, t.tempaddr)
    }
    &&& s.subcycle == 5 ==> {
        &&& super::write_at(t, s.tempaddr, s.temp)
        &&& t.temp == super::ror_value(s.p, s.temp)
        &&& t.a == super::adc_result(super::carry_flags(s.p, s.temp % 2 == 1), s.a, super::ror_value(s.p, s.temp))
        &&& t.p == super::adc_flags(super::carry_flags(s.p, s.temp % 2 == 1), s.a, super::ror_value(s.p, s.temp))
    }
    &&& s.subcycle >= 6 ==> {
        &&& super::write_at(t, s.tempaddr, s.temp)
        &&& t.temp == s.temp
    }
}

impl NesCpu {
    /// inc increment zero page
    #[verifier::rlimit(100)]
    #[verifier::spinoff_prover]
    pub(crate) fn op_e6<C: CartridgeDevice, K: ControllerDevice, P: PpuDevice, A: ApuDevice>(
        &mut self,
        bus: &mut NesMotherboard<C, K>,
        cpu_peripherals: &mut NesCpuPeripherals<P, A>,
    )
        requires
            old(self).inv(),
            !old(self).reset,
            old(self).opcode == Some(0xe6u8),
            !old(self).bus_used@,
        ensures
            final(self).inv(),
            !final(self).reset,
            step_e6(*old(self), *final(self)),
            final(self).opcode == old(self).opcode || super::finished(*final(self)),
            super::ram_effect(old(bus).spec_ram(), final(bus).spec_ram(), final(self).bus_used@, final(self).last_bus@),
            super::bus_effect(*old(bus), *old(cpu_peripherals), *final(bus), *final(cpu_peripherals), final(self).bus_used@, final(self).last_bus@),
            final(self).dmc_dma == old(self).dmc_dma,
            final(self).nmi_detected == old(self).nmi_detected,
            final(self).prev_nmi == old(self).prev_nmi,
    {
        {
            match self.subcycle {
                1 => {
                    self.temp = self.memory_cycle_read(self.pc.wrapping_add(1),
                        bus,
                        cpu_peripherals,
                    );
                    {
                        self.copy_debugger(hex8_text("INC $", self.temp, ""));
                        self.done_fetching = true;
                    }
                    self.subcycle = 2;
                }
                2 => {
                    self.temp2 =
                    self.memory_cycle_read(self.temp as u16, bus, cpu_peripherals);
                    self.subcycle = 3;
                }
                3 => {
                    self.memory_cycle_write(self.temp as u16, self.temp2, bus, cpu_peripherals);
                    self.subcycle = 4;
                }
                _ => {
                    self.temp2 = self.temp2.wrapping_add(1);
                    self.p &= !(CPU_FLAG_ZERO | CPU_FLAG_NEGATIVE);
                    if self.temp2 == 0 {
                        self.p |= CPU_FLAG_ZERO;
                    }
                    if (self.temp2 & 0x80) != 0 {
                        self.p |= CPU_FLAG_NEGATIVE;
                    }
                    self.memory_cycle_write(self.temp as u16, self.temp2, bus, cpu_peripherals);
                    self.pc = self.pc.wrapping_add(2);
                    self.end_instruction();
                }
            }
        }
        proof {
            super::lemma_byte_ops(old(self).temp2, 0);
            super::lemma_nz(old(self).p, super::inc_value(old(self).temp2));
        }
    }

    /// inc increment zero page x
    #[verifier::rlimit(100)]
    #[verifier::spinoff_prover]
    pub(crate) fn op_f6<C: CartridgeDevice, K: ControllerDevice, P: PpuDevice, A: ApuDevice>(
        &mut self,
        bus: &mut NesMotherboard<C, K>,
        cpu_peripherals: &mut NesCpuPeripherals<P, A>,
    )
        requires
            old(self).inv(),
            !old(self).reset,
            old(self).opcode == Some(0xf6u8),
            !old(self).bus_used@,
        ensures
            final(self).inv(),
            !final(self).reset,
            step_f6(*old(self), *final(self)),
            final(self).opcode == old(self).opcode || super::finished(*final(self)),
            super::ram_effect(old(bus).spec_ram(), final(bus).spec_ram(), final(self).bus_used@, final(self).last_bus@),
            super::bus_effect(*old(bus), *old(cpu_peripherals), *final(bus), *final(cpu_peripherals), final(self).bus_used@, final(self).last_bus@),
            final(self).dmc_dma == old(self).dmc_dma,
            final(self).nmi_detected == old(self).nmi_detected,
            final(self).prev_nmi == old(self).prev_nmi,
    {
        {
            match self.subcycle {
                1 => {
                    self.temp = self.memory_cycle_read(self.pc.wrapping_add(1),
                        bus,
                        cpu_peripherals,
                    );
                    {
                        self.copy_debugger(hex8_text("INC $", self.temp, ",X"));
                        self.done_fetching = true;
                    }

                    self.subcycle = 2;
                }
                2 => {
                    self.memory_cycle_read(self.temp as u16, bus, cpu_peripherals);
                    self.subcycle = 3;
                }
                3 => {
                    self.temp = self.temp.wrapping_add(self.x);
                    self.temp2 =
                    self.memory_cycle_read(self.temp as u16, bus, cpu_peripherals);
                    self.subcycle = 4;
                }
                4 => {
                    self.memory_cycle_write(self.temp as u16, self.temp2, bus, cpu_peripherals);
                    self.subcycle = 5;
                }
                _ => {
                    self.temp2 = self.temp2.wrapping_add(1);
                    self.p &= !(CPU_FLAG_ZERO | CPU_FLAG_NEGATIVE);
                    if self.temp2 == 0 {
                        self.p |= CPU_FLAG_ZERO;
                    }
                    if (self.temp2 & 0x80) != 0 {
                        self.p |= CPU_FLAG_NEGATIVE;
                    }
                    self.memory_cycle_write(self.temp as u16, self.temp2, bus, cpu_peripherals);
                    self.pc = self.pc.wrapping_add(2);
                    self.end_instruction();
                }
            }
        }
        proof {
            super::lemma_byte_ops(old(self).temp2, 0);
            super::lemma_nz(old(self).p, super::inc_value(old(self).temp2));
        }
    }

    /// inc absolute
    #[verifier::rlimit(100)]
    #[verifier::spinoff_prover]
    pub(crate) fn op_ee<C: CartridgeDevice, K: ControllerDevice, P: PpuDevice, A: ApuDevice>(
        &mut self,
        bus: &mut NesMotherboard<C, K>,
        cpu_peripherals: &mut NesCpuPeripherals<P, A>,
    )
        requires
            old(self).inv(),
            !old(self).reset,
            old(self).opcode == Some(0xeeu8),
            !old(self).bus_used@,
        ensures
            final(self).inv(),
            !final(self).reset,
            step_ee(*old(self), *final(self)),
            final(self).opcode == old(self).opcode || super::finished(*final(self)),
            super::ram_effect(old(bus).spec_ram(), final(bus).spec_ram(), final(self).bus_used@, final(self).last_bus@),
            super::bus_effect(*old(bus), *old(cpu_peripherals), *final(bus), *final(cpu_peripherals), final(self).bus_used@, final(self).last_bus@),
            final(self).dmc_dma == old(self).dmc_dma,
            final(self).nmi_detected == old(self).nmi_detected,
            final(self).prev_nmi == old(self).prev_nmi,
    {
        {
            match self.subcycle {
                1 => {
                    self.temp = self.memory_cycle_read(self.pc.wrapping_add(1),
                        bus,
                        cpu_peripherals,
                    );
                    self.subcycle = 2;
                }
                2 => {
                    self.temp2 = self.memory_cycle_read(self.pc.wrapping_add(2),
                        bus,
                        cpu_peripherals,
                    );
                    {
                        let temp = (self.temp2 as u16) << 8 | self.temp as u16;
                        self.copy_debugger(hex16_text("INC $", temp, ""));
                        self.done_fetching = true;
                    }
                    proof {
                        super::lemma_word(self.temp, self.temp2);
                    }
                    self.subcycle = 3;
                }
                3 => {
                    self.tempaddr = (self.temp2 as u16) << 8 | (self.temp as u16);
                    self.temp =
                    self.memory_cycle_read(self.tempaddr, bus, cpu_peripherals);
                    self.subcycle = 4;
                }
                4 => {
                    self.memory_cycle_write(self.tempaddr, self.temp, bus, cpu_peripherals);
                    self.temp = self.temp.wrapping_add(1);
                    self.p &= !(CPU_FLAG_ZERO | CPU_FLAG_NEGATIVE);
                    if self.temp == 0 {
                        self.p |= CPU_FLAG_ZERO;
                    }
                    if (self.temp & 0x80) != 0 {
                        self.p |= CPU_FLAG_NEGATIVE;
                    }
                    self.subcycle = 5;
                }
                _ => {
                    self.memory_cycle_write(self.tempaddr, self.temp, bus, cpu_peripherals);
                    self.pc = self.pc.wrapping_add(3);
                    self.end_instruction();
                }
            }
        }
        proof {
            super::lemma_byte_ops(old(self).temp, 0);
            super::lemma_nz(old(self).p, super::inc_value(old(self).temp));
            super::lemma_word(old(self).temp, old(self).temp2);
        }
    }

    /// inc absolute x
    #[verifier::rlimit(100)]
    #[verifier::spinoff_prover]
    pub(crate) fn op_fe<C: CartridgeDevice, K: ControllerDevice, P: PpuDevice, A: ApuDevice>(
        &mut self,
        bus: &mut NesMotherboard<C, K>,
        cpu_peripherals: &mut NesCpuPeripherals<P, A>,
    )
        requires
            old(self).inv(),
            !old(self).reset,
            old(self).opcode == Some(0xfeu8),
            !old(self).bus_used@,
        ensures
            final(self).inv(),
            !final(self).reset,
            step_fe(*old(self), *final(self)),
            final(self).opcode == old(self).opcode || super::finished(*final(self)),
            super::ram_effect(old(bus).spec_ram(), final(bus).spec_ram(), final(self).bus_used@, final(self).last_bus@),
            super::bus_effect(*old(bus), *old(cpu_peripherals), *final(bus), *final(cpu_peripherals), final(self).bus_used@, final(self).last_bus@),
            final(self).dmc_dma == old(self).dmc_dma,
            final(self).nmi_detected == old(self).nmi_detected,
            final(self).prev_nmi == old(self).prev_nmi,
    {
        {
            match self.subcycle {
                1 => {
                    self.temp = self.memory_cycle_read(self.pc.wrapping_add(1),
                        bus,
                        cpu_peripherals,
                    );
                    self.subcycle = 2;
                }
                2 => {
                    self.temp2 = self.memory_cycle_read(self.pc.wrapping_add(2),
                        bus,
                        cpu_peripherals,
                    );
                    {
                        let temp = (self.temp2 as u16) << 8 | self.temp as u16;
                        self.copy_debugger(hex16_text("INC $", temp, ",X"));
                        self.done_fetching = true;
                    }
                    proof {
                        super::lemma_word(self.temp, self.temp2);
                    }
                    self.subcycle = 3;
                }
                3 => {
                    proof {
                        super::lemma_word(old(self).temp, old(self).temp2);
                        super::lemma_word(((old(self).temp as int + old(self).x as int) % 256) as u8, old(self).temp2);
                    }
                    let val = self.temp.wrapping_add(self.x);
                    self.memory_cycle_read((self.temp2 as u16) << 8 | val as u16,
                        bus,
                        cpu_peripherals,
                    );
                    self.subcycle = 4;
                }
                4 => {
                    proof {
                        super::lemma_word(old(self).temp, old(self).temp2);
                        super::lemma_word(((old(self).temp as int + old(self).x as int) % 256) as u8, old(self).temp2);
                    }
                    self.tempaddr = (self.temp2 as u16) << 8 | (self.temp as u16);
                    self.tempaddr = self.tempaddr.wrapping_add(self.x as u16);
                    self.temp =
                    self.memory_cycle_read(self.tempaddr, bus, cpu_peripherals);
                    self.subcycle = 5;
                }
                5 => {
                    proof {
                        super::lemma_byte_ops(old(self).temp, 0);
                        super::lemma_nz(old(self).p, super::inc_value(old(self).temp));
                    }
                    self.memory_cycle_write(self.tempaddr, self.temp, bus, cpu_peripherals);
                    self.temp = self.temp.wrapping_add(1);
                    self.p &= !(CPU_FLAG_ZERO | CPU_FLAG_NEGATIVE);
                    if self.temp == 0 {
                        self.p |= CPU_FLAG_ZERO;
                    }
                    if (self.temp & 0x80) != 0 {
                        self.p |= CPU_FLAG_NEGATIVE;
                    }
                    self.subcycle = 6;
                }
                _ => {
                    self.memory_cycle_write(self.tempaddr, self.temp, bus, cpu_peripherals);
                    self.pc = self.pc.wrapping_add(3);
                    self.end_instruction();
                }
            }
        }
    }

    /// dec decrement zero page
    #[verifier::rlimit(100)]
    #[verifier::spinoff_prover]
    pub(crate) fn op_c6<C: CartridgeDevice, K: ControllerDevice, P: PpuDevice, A: ApuDevice>(
        &mut self,
        bus: &mut NesMotherboard<C, K>,
        cpu_peripherals: &mut NesCpuPeripherals<P, A>,
    )
        requires
            old(self).inv(),
            !old(self).reset,
            old(self).opcode == Some(0xc6u8),
            !old(self).bus_used@,
        ensures
            final(self).inv(),
            !final(self).reset,
            step_c6(*old(self), *final(self)),
            final(self).opcode == old(self).opcode || super::finished(*final(self)),
            super::ram_effect(old(bus).spec_ram(), final(bus).spec_ram(), final(self).bus_used@, final(self).last_bus@),
            super::bus_effect(*old(bus), *old(cpu_peripherals), *final(bus), *final(cpu_peripherals), final(self).bus_used@, final(self).last_bus@),
            final(self).dmc_dma == old(self).dmc_dma,
            final(self).nmi_detected == old(self).nmi_detected,
            final(self).prev_nmi == old(self).prev_nmi,
    {
        {
            match self.subcycle {
                1 => {
                    self.temp = self.memory_cycle_read(self.pc.wrapping_add(1),
                        bus,
                        cpu_peripherals,
                    );
                    {
                        self.copy_debugger(hex8_text("DEC $", self.temp, ""));
                        self.done_fetching = true;
                    }
                    self.subcycle = 2;
                }
                2 => {
                    self.temp2 =
                    self.memory_cycle_read(self.temp as u16, bus, cpu_peripherals);
                    self.subcycle = 3;
                }
                3 => {
                    self.memory_cycle_write(self.temp as u16, self.temp2, bus, cpu_peripherals);
                    self.subcycle = 4;
                }
                _ => {
                    self.temp2 = self.temp2.wrapping_sub(1);
                    self.p &= !(CPU_FLAG_ZERO | CPU_FLAG_NEGATIVE);
                    if self.temp2 == 0 {
                        self.p |= CPU_FLAG_ZERO;
                    }
                    if (self.temp2 & 0x80) != 0 {
                        self.p |= CPU_FLAG_NEGATIVE;
                    }
                    self.memory_cycle_write(self.temp as u16, self.temp2, bus, cpu_peripherals);
                    self.pc = self.pc.wrapping_add(2);
                    self.end_instruction();
                }
            }
        }
        proof {
            super::lemma_byte_ops(old(self).temp2, 0);
            super::lemma_nz(old(self).p, super::dec_value(old(self).temp2));
        }
    }

    /// dec decrement zero page x
    #[verifier::rlimit(100)]
    #[verifier::spinoff_prover]
    pub(crate) fn op_d6<C: CartridgeDevice, K: ControllerDevice, P: PpuDevice, A: ApuDevice>(
        &mut self,
        bus: &mut NesMotherboard<C, K>,
        cpu_peripherals: &mut NesCpuPeripherals<P, A>,
    )
        requires
            old(self).inv(),
            !old(self).reset,
            old(self).opcode == Some(0xd6u8),
            !old(self).bus_used@,
        ensures
            final(self).inv(),
            !final(self).reset,
            step_d6(*old(self), *final(self)),
            final(self).opcode == old(self).opcode || super::finished(*final(self)),
            super::ram_effect(old(bus).spec_ram(), final(bus).spec_ram(), final(self).bus_used@, final(self).last_bus@),
            super::bus_effect(*old(bus), *old(cpu_peripherals), *final(bus), *final(cpu_peripherals), final(self).bus_used@, final(self).last_bus@),
            final(self).dmc_dma == old(self).dmc_dma,
            final(self).nmi_detected == old(self).nmi_detected,
            final(self).prev_nmi == old(self).prev_nmi,
    {
        {
            match self.subcycle {
                1 => {
                    self.temp = self.memory_cycle_read(self.pc.wrapping_add(1),
                        bus,
                        cpu_peripherals,
                    );
                    {
                        self.copy_debugger(hex8_text("DEC $", self.temp, ",X"));
                        self.done_fetching = true;
                    }
                    self.subcycle = 2;
                }
                2 => {
                    self.memory_cycle_read(self.temp as u16, bus, cpu_peripherals);
                    self.subcycle = 3;
                }
                3 => {
                    self.temp = self.temp.wrapping_add(self.x);
                    self.temp2 =
                    self.memory_cycle_read(self.temp as u16, bus, cpu_peripherals);
                    self.subcycle = 4;
                }
                4 => {
                    self.memory_cycle_write(self.temp as u16, self.temp2, bus, cpu_peripherals);
                    self.subcycle = 5;
                }
                _ => {
                    self.temp2 = self.temp2.wrapping_sub(1);
                    self.p &= !(CPU_FLAG_ZERO | CPU_FLAG_NEGATIVE);
                    if self.temp2 == 0 {
                        self.p |= CPU_FLAG_ZERO;
                    }
                    if (self.temp2 & 0x80) != 0 {
                        self.p |= CPU_FLAG_NEGATIVE;
                    }
                    self.memory_cycle_write(self.temp as u16, self.temp2, bus, cpu_peripherals);
                    self.pc = self.pc.wrapping_add(2);
                    self.end_instruction();
                }
            }
        }
        proof {
            super::lemma_byte_ops(old(self).temp2, 0);
            super::lemma_nz(old(self).p, super::dec_value(old(self).temp2));
        }
    }

    /// dec absolute
    #[verifier::rlimit(100)]
    #[verifier::spinoff_prover]
    pub(crate) fn op_ce<C: CartridgeDevice, K: ControllerDevice, P: PpuDevice, A: ApuDevice>(
        &mut self,
        bus: &mut NesMotherboard<C, K>,
        cpu_peripherals: &mut NesCpuPeripherals<P, A>,
    )
        requires
            old(self).inv(),
            !old(self).reset,
            old(self).opcode == Some(0xceu8),
            !old(self).bus_used@,
        ensures
            final(self).inv(),
            !final(self).reset,
            step_ce(*old(self), *final(self)),
            final(self).opcode == old(self).opcode || super::finished(*final(self)),
            super::ram_effect(old(bus).spec_ram(), final(bus).spec_ram(), final(self).bus_used@, final(self).last_bus@),
            super::bus_effect(*old(bus), *old(cpu_peripherals), *final(bus), *final(cpu_peripherals), final(self).bus_used@, final(self).last_bus@),
            final(self).dmc_dma == old(self).dmc_dma,
            final(self).nmi_detected == old(self).nmi_detected,
            final(self).prev_nmi == old(self).prev_nmi,
    {
        {
            match self.subcycle {
                1 => {
                    self.temp = self.memory_cycle_read(self.pc.wrapping_add(1),
                        bus,
                        cpu_peripherals,
                    );
                    self.subcycle = 2;
                }
                2 => {
                    self.temp2 = self.memory_cycle_read(self.pc.wrapping_add(2),
                        bus,
                        cpu_peripherals,
                    );
                    {
                        let temp = (self.temp2 as u16) << 8 | self.temp as u16;
                        self.copy_debugger(hex16_text("DEC $", temp, ""));
                        self.done_fetching = true;
                    }
                    proof {
                        super::lemma_word(self.temp, self.temp2);
                    }
                    self.subcycle = 3;
                }
                3 => {
                    self.tempaddr = (self.temp2 as u16) << 8 | (self.temp as u16);
                    self.temp =
                    self.memory_cycle_read(self.tempaddr, bus, cpu_peripherals);
                    self.subcycle = 4;
                }
                4 => {
                    self.memory_cycle_write(self.tempaddr, self.temp, bus, cpu_peripherals);
                    self.temp = self.temp.wrapping_sub(1);
                    self.p &= !(CPU_FLAG_ZERO | CPU_FLAG_NEGATIVE);
                    if self.temp == 0 {
                        self.p |= CPU_FLAG_ZERO;
                    }
                    if (self.temp & 0x80) != 0 {
                        self.p |= CPU_FLAG_NEGATIVE;
                    }
                    self.subcycle = 5;
                }
                _ => {
                    self.memory_cycle_write(self.tempaddr, self.temp, bus, cpu_peripherals);
                    self.pc = self.pc.wrapping_add(3);
                    self.end_instruction();
                }
            }
        }
        proof {
            super::lemma_byte_ops(old(self).temp, 0);
            super::lemma_nz(old(self).p, super::dec_value(old(self).temp));
            super::lemma_word(old(self).temp, old(self).temp2);
        }
    }

    /// dec absolute x
    #[verifier::rlimit(100)]
    #[verifier::spinoff_prover]
    pub(crate) fn op_de<C: CartridgeDevice, K: ControllerDevice, P: PpuDevice, A: ApuDevice>(
        &mut self,
        bus: &mut NesMotherboard<C, K>,
        cpu_peripherals: &mut NesCpuPeripherals<P, A>,
    )
        requires
            old(self).inv(),
            !old(self).reset,
            old(self).opcode == Some(0xdeu8),
            !old(self).bus_used@,
        ensures
            final(self).inv(),
            !final(self).reset,
            step_de(*old(self), *final(self)),
            final(self).opcode == old(self).opcode || super::finished(*final(self)),
            super::ram_effect(old(bus).spec_ram(), final(bus).spec_ram(), final(self).bus_used@, final(self).last_bus@),
            super::bus_effect(*old(bus), *old(cpu_peripherals), *final(bus), *final(cpu_peripherals), final(self).bus_used@, final(self).last_bus@),
            final(self).dmc_dma == old(self).dmc_dma,
            final(self).nmi_detected == old(self).nmi_detected,
            final(self).prev_nmi == old(self).prev_nmi,
    {
        {
            match self.subcycle {
                1 => {
                    self.temp = self.memory_cycle_read(self.pc.wrapping_add(1),
                        bus,
                        cpu_peripherals,
                    );
                    self.subcycle = 2;
                }
                2 => {
                    self.temp2 = self.memory_cycle_read(self.pc.wrapping_add(2),
                        bus,
                        cpu_peripherals,
                    );
                    {
                        let temp = (self.temp2 as u16) << 8 | self.temp as u16;
                        self.copy_debugger(hex16_text("DEC $", temp, ",X"));
                        self.done_fetching = true;
                    }
                    proof {
                        super::lemma_word(self.temp, self.temp2);
                    }
                    self.subcycle = 3;
                }
                3 => {
                    proof {
                        super::lemma_word(old(self).temp, old(self).temp2);
                        super::lemma_word(((old(self).temp as int + old(self).x as int) % 256) as u8, old(self).temp2);
                    }
                    let val = self.temp.wrapping_add(self.x);
                    self.memory_cycle_read((self.temp2 as u16) << 8 | val as u16,
                        bus,
                        cpu_peripherals,
                    );
                    self.subcycle = 4;
                }
                4 => {
                    proof {
                        super::lemma_word(old(self).temp, old(self).temp2);
                        super::lemma_word(((old(self).temp as int + old(self).x as int) % 256) as u8, old(self).temp2);
                    }
                    self.tempaddr = (self.temp2 as u16) << 8 | (self.temp as u16);
                    self.tempaddr = self.tempaddr.wrapping_add(self.x as u16);
                    self.temp =
                    self.memory_cycle_read(self.tempaddr, bus, cpu_peripherals);
                    self.subcycle = 5;
                }
                5 => {
                    proof {
                        super::lemma_byte_ops(old(self).temp, 0);
                        super::lemma_nz(old(self).p, super::dec_value(old(self).temp));
                    }
                    self.memory_cycle_write(self.tempaddr, self.temp, bus, cpu_peripherals);
                    self.temp = self.temp.wrapping_sub(1);
                    self.p &= !(CPU_FLAG_ZERO | CPU_FLAG_NEGATIVE);
                    if self.temp == 0 {
                        self.p |= CPU_FLAG_ZERO;
                    }
                    if (self.temp & 0x80) != 0 {
                        self.p |= CPU_FLAG_NEGATIVE;
                    }
                    self.subcycle = 6;
                }
                _ => {
                    self.memory_cycle_write(self.tempaddr, self.temp, bus, cpu_peripherals);
                    self.pc = self.pc.wrapping_add(3);
                    self.end_instruction();
                }
            }
        }
    }

    /// lsr zero page
    #[verifier::rlimit(100)]
    #[verifier::spinoff_prover]
    pub(crate) fn op_46<C: CartridgeDevice, K: ControllerDevice, P: PpuDevice, A: ApuDevice>(
        &mut self,
        bus: &mut NesMotherboard<C, K>,
        cpu_peripherals: &mut NesCpuPeripherals<P, A>,
    )
        requires
            old(self).inv(),
            !old(self).reset,
            old(self).opcode == Some(0x46u8),
            !old(self).bus_used@,
        ensures
            final(self).inv(),
            !final(self).reset,
            step_46(*old(self), *final(self)),
            final(self).opcode == old(self).opcode || super::finished(*final(self)),
            super::ram_effect(old(bus).spec_ram(), final(bus).spec_ram(), final(self).bus_used@, final(self).last_bus@),
            super::bus_effect(*old(bus), *old(cpu_peripherals), *final(bus), *final(cpu_peripherals), final(self).bus_used@, final(self).last_bus@),
            final(self).dmc_dma == old(self).dmc_dma,
            final(self).nmi_detected == old(self).nmi_detected,
            final(self).prev_nmi == old(self).prev_nmi,
    {
        {
            match self.subcycle {
                1 => {
                    self.temp = self.memory_cycle_read(self.pc.wrapping_add(1),
                        bus,
                        cpu_peripherals,
                    );
                    {
                        self.copy_debugger(hex8_text("LSR $", self.temp, ""));
                        self.done_fetching = true;
                    }
                    self.subcycle = 2;
                }
                2 => {
                    self.temp2 =
                    self.memory_cycle_read(self.temp as u16, bus, cpu_peripherals);
                    self.subcycle = 3;
                }
                3 => {
                    self.memory_cycle_write(self.temp as u16, self.temp2, bus, cpu_peripherals);
                    self.subcycle = 4;
                }
                _ => {
                    self.p &= !(CPU_FLAG_CARRY | CPU_FLAG_ZERO | CPU_FLAG_NEGATIVE);
                    if (self.temp2 & 1) != 0 {
                        self.p |= CPU_FLAG_CARRY;
                    }
                    self.temp2 >>= 1;
                    if self.temp2 == 0 {
                        self.p |= CPU_FLAG_ZERO;
                    }
                    if (self.temp2 & 0x80) != 0 {
                        self.p |= CPU_FLAG_NEGATIVE;
                    }
                    self.memory_cycle_write(self.temp as u16, self.temp2, bus, cpu_peripherals);
                    self.pc = self.pc.wrapping_add(2);
                    self.end_instruction();
                }
            }
        }
        proof {
            super::lemma_byte_ops(old(self).temp2, 0);
            super::lemma_shift_flags(old(self).p, super::lsr_value(old(self).temp2), (old(self).temp2 & 1) != 0);
            super::lemma_byte_ops(old(self).a, self.last_bus@.data);
        }
    }

    /// lsr zero page x
    #[verifier::rlimit(100)]
    #[verifier::spinoff_prover]
    pub(crate) fn op_56<C: CartridgeDevice, K: ControllerDevice, P: PpuDevice, A: ApuDevice>(
        &mut self,
        bus: &mut NesMotherboard<C, K>,
        cpu_peripherals: &mut NesCpuPeripherals<P, A>,
    )
        requires
            old(self).inv(),
            !old(self).reset,
            old(self).opcode == Some(0x56u8),
            !old(self).bus_used@,
        ensures
            final(self).inv(),
            !final(self).reset,
            step_56(*old(self), *final(self)),
            final(self).opcode == old(self).opcode || super::finished(*final(self)),
            super::ram_effect(old(bus).spec_ram(), final(bus).spec_ram(), final(self).bus_used@, final(self).last_bus@),
            super::bus_effect(*old(bus), *old(cpu_peripherals), *final(bus), *final(cpu_peripherals), final(self).bus_used@, final(self).last_bus@),
            final(self).dmc_dma == old(self).dmc_dma,
            final(self).nmi_detected == old(self).nmi_detected,
            final(self).prev_nmi == old(self).prev_nmi,
    {
        {
            match self.subcycle {
                1 => {
                    self.subcycle = 2;
                    self.temp = self.memory_cycle_read(self.pc.wrapping_add(1),
                        bus,
                        cpu_peripherals,
                    );
                    {
                        self.copy_debugger(hex8_text("LSR $", self.temp, ",X"));
                        self.done_fetching = true;
                    }
                }
                2 => {
                    self.memory_cycle_read(self.temp as u16, bus, cpu_peripherals);
                    self.subcycle = 3;
                }
                3 => {
                    self.temp = self.temp.wrapping_add(self.x);
                    self.temp2 =
                    self.memory_cycle_read(self.temp as u16, bus, cpu_peripherals);
                    self.subcycle = 4;
                }
                4 => {
                    self.memory_cycle_write(self.temp as u16, self.temp2, bus, cpu_peripherals);
                    self.subcycle = 5;
                }
                _ => {
                    self.p &= !(CPU_FLAG_CARRY | CPU_FLAG_ZERO | CPU_FLAG_NEGATIVE);
                    if (self.temp2 & 1) != 0 {
                        self.p |= CPU_FLAG_CARRY;
                    }
                    self.temp2 >>= 1;
                    if self.temp2 == 0 {
                        self.p |= CPU_FLAG_ZERO;
                    }
                    if (self.temp2 & 0x80) != 0 {
                        self.p |= CPU_FLAG_NEGATIVE;
                    }
                    self.memory_cycle_write(self.temp as u16, self.temp2, bus, cpu_peripherals);
                    self.pc = self.pc.wrapping_add(2);
                    self.end_instruction();
                }
            }
        }
        proof {
            super::lemma_byte_ops(old(self).temp2, 0);
            super::lemma_shift_flags(old(self).p, super::lsr_value(old(self).temp2), (old(self).temp2 & 1) != 0);
            super::lemma_byte_ops(old(self).a, self.last_bus@.data);
        }
    }

    /// lsr absolute
    #[verifier::rlimit(100)]
    #[verifier::spinoff_prover]
    pub(crate) fn op_4e<C: CartridgeDevice, K: ControllerDevice, P: PpuDevice, A: ApuDevice>(
        &mut self,
        bus: &mut NesMotherboard<C, K>,
        cpu_peripherals: &mut NesCpuPeripherals<P, A>,
    )
        requires
            old(self).inv(),
            !old(self).reset,
            old(self).opcode == Some(0x4eu8),
            !old(self).bus_used@,
        ensures
            final(self).inv(),
            !final(self).reset,
            step_4e(*old(self), *final(self)),
            final(self).opcode == old(self).opcode || super::finished(*final(self)),
            super::ram_effect(old(bus).spec_ram(), final(bus).spec_ram(), final(self).bus_used@, final(self).last_bus@),
            super::bus_effect(*old(bus), *old(cpu_peripherals), *final(bus), *final(cpu_peripherals), final(self).bus_used@, final(self).last_bus@),
            final(self).dmc_dma == old(self).dmc_dma,
            final(self).nmi_detected == old(self).nmi_detected,
            final(self).prev_nmi == old(self).prev_nmi,
    {
        {
            match self.subcycle {
                1 => {
                    self.temp = self.memory_cycle_read(self.pc.wrapping_add(1),
                        bus,
                        cpu_peripherals,
                    );
                    self.subcycle = 2;
                }
                2 => {
                    self.temp2 = self.memory_cycle_read(self.pc.wrapping_add(2),
                        bus,
                        cpu_peripherals,
                    );
                    {
                        let temp = (self.temp2 as u16) << 8 | self.temp as u16;
                        self.copy_debugger(hex16_text("LSR $", temp, ""));
                        self.done_fetching = true;
                    }
                    proof {
                        super::lemma_word(self.temp, self.temp2);
                    }
                    self.subcycle = 3;
                }
                3 => {
                    self.tempaddr = (self.temp2 as u16) << 8 | self.temp as u16;
                    self.temp =
                    self.memory_cycle_read(self.tempaddr, bus, cpu_peripherals);
                    self.subcycle = 4;
                }
                4 => {
                    self.memory_cycle_write(self.tempaddr, self.temp, bus, cpu_peripherals);
                    self.p &= !(CPU_FLAG_CARRY | CPU_FLAG_ZERO | CPU_FLAG_NEGATIVE);
                    if (self.temp & 1) != 0 {
                        self.p |= CPU_FLAG_CARRY;
                    }
                    self.temp >>= 1;
                    if self.temp == 0 {
                        self.p |= CPU_FLAG_ZERO;
                    }
                    if (self.temp & 0x80) != 0 {
                        self.p |= CPU_FLAG_NEGATIVE;
                    }
                    self.subcycle = 5;
                }
                _ => {
                    self.memory_cycle_write(self.tempaddr, self.temp, bus, cpu_peripherals);
                    self.pc = self.pc.wrapping_add(3);
                    self.end_instruction();
                }
            }
        }
        proof {
            super::lemma_byte_ops(old(self).temp, 0);
            super::lemma_shift_flags(old(self).p, super::lsr_value(old(self).temp), (old(self).temp & 1) != 0);
            super::lemma_byte_ops(old(self).a, self.last_bus@.data);
            super::lemma_word(old(self).temp, old(self).temp2);
        }
    }

    /// lsr absolute x
    #[verifier::rlimit(100)]
    #[verifier::spinoff_prover]
    pub(crate) fn op_5e<C: CartridgeDevice, K: ControllerDevice, P: PpuDevice, A: ApuDevice>(
        &mut self,
        bus: &mut NesMotherboard<C, K>,
        cpu_peripherals: &mut NesCpuPeripherals<P, A>,
    )
        requires
            old(self).inv(),
            !old(self).reset,
            old(self).opcode == Some(0x5eu8),
            !old(self).bus_used@,
        ensures
            final(self).inv(),
            !final(self).reset,
            step_5e(*old(self), *final(self)),
            final(self).opcode == old(self).opcode || super::finished(*final(self)),
            super::ram_effect(old(bus).spec_ram(), final(bus).spec_ram(), final(self).bus_used@, final(self).last_bus@),
            super::bus_effect(*old(bus), *old(cpu_peripherals), *final(bus), *final(cpu_peripherals), final(self).bus_used@, final(self).last_bus@),
            final(self).dmc_dma == old(self).dmc_dma,
            final(self).nmi_detected == old(self).nmi_detected,
            final(self).prev_nmi == old(self).prev_nmi,
    {
        {
            match self.subcycle {
                1 => {
                    self.temp = self.memory_cycle_read(self.pc.wrapping_add(1),
                        bus,
                        cpu_peripherals,
                    );
                    self.subcycle = 2;
                }
                2 => {
                    self.temp2 = self.memory_cycle_read(self.pc.wrapping_add(2),
                        bus,
                        cpu_peripherals,
                    );
                    {
                        let temp = (self.temp2 as u16) << 8 | self.temp as u16;
                        self.copy_debugger(hex16_text("LSR $", temp, ",X"));
                        self.done_fetching = true;
                    }
                    proof {
                        super::lemma_word(self.temp, self.temp2);
                    }
                    self.subcycle = 3;
                }
                3 => {
                    proof {
                        super::lemma_word(old(self).temp, old(self).temp2);
                        super::lemma_word(((old(self).temp as int + old(self).x as int) % 256) as u8, old(self).temp2);
                    }
                    let val = self.temp.wrapping_add(self.x);
                    self.memory_cycle_read((self.temp2 as u16) << 8 | val as u16,
                        bus,
                        cpu_peripherals,
                    );
                    self.subcycle = 4;
                }
                4 => {
                    proof {
                        super::lemma_word(old(self).temp, old(self).temp2);
                        super::lemma_word(((old(self).temp as int + old(self).x as int) % 256) as u8, old(self).temp2);
                    }
                    self.tempaddr = (self.temp2 as u16) << 8 | self.temp as u16;
                    self.tempaddr = self.tempaddr.wrapping_add(self.x as u16);
                    self.temp =
                    self.memory_cycle_read(self.tempaddr, bus, cpu_peripherals);
                    self.subcycle = 5;
                }
                5 => {
                    proof {
                        super::lemma_byte_ops(old(self).temp, 0);
                        super::lemma_shift_flags(old(self).p, super::lsr_value(old(self).temp), (old(self).temp & 1) != 0);
                        super::lemma_byte_ops(old(self).a, self.last_bus@.data);
                    }
                    self.memory_cycle_write(self.tempaddr, self.temp, bus, cpu_peripherals);
                    self.p &= !(CPU_FLAG_CARRY | CPU_FLAG_ZERO | CPU_FLAG_NEGATIVE);
                    if (self.temp & 1) != 0 {
                        self.p |= CPU_FLAG_CARRY;
                    }
                    self.temp >>= 1;
                    if self.temp == 0 {
                        self.p |= CPU_FLAG_ZERO;
                    }
                    if (self.temp & 0x80) != 0 {
                        self.p |= CPU_FLAG_NEGATIVE;
                    }
                    self.subcycle = 6;
                }
                _ => {
                    self.memory_cycle_write(self.tempaddr, self.temp, bus, cpu_peripherals);
                    self.pc = self.pc.wrapping_add(3);
                    self.end_instruction();
                }
            }
        }
    }

    /// asl zero page
    #[verifier::rlimit(100)]
    #[verifier::spinoff_prover]
    pub(crate) fn op_06<C: CartridgeDevice, K: ControllerDevice, P: PpuDevice, A: ApuDevice>(
        &mut self,
        bus: &mut NesMotherboard<C, K>,
        cpu_peripherals: &mut NesCpuPeripherals<P, A>,
    )
        requires
            old(self).inv(),
            !old(self).reset,
            old(self).opcode == Some(0x06u8),
            !old(self).bus_used@,
        ensures
            final(self).inv(),
            !final(self).reset,
            step_06(*old(self), *final(self)),
            final(self).opcode == old(self).opcode || super::finished(*final(self)),
            super::ram_effect(old(bus).spec_ram(), final(bus).spec_ram(), final(self).bus_used@, final(self).last_bus@),
            super::bus_effect(*old(bus), *old(cpu_peripherals), *final(bus), *final(cpu_peripherals), final(self).bus_used@, final(self).last_bus@),
            final(self).dmc_dma == old(self).dmc_dma,
            final(self).nmi_detected == old(self).nmi_detected,
            final(self).prev_nmi == old(self).prev_nmi,
    {
        {
            match self.subcycle {
                1 => {
                    self.subcycle = 2;
                    self.temp = self.memory_cycle_read(self.pc.wrapping_add(1),
                        bus,
                        cpu_peripherals,
                    );
                    {
                        self.copy_debugger(hex8_text("ASL $", self.temp, ""));
                        self.done_fetching = true;
                    }
                }
                2 => {
                    self.temp2 =
                    self.memory_cycle_read(self.temp as u16, bus, cpu_peripherals);
                    self.subcycle = 3;
                }
                3 => {
                    self.memory_cycle_write(self.temp as u16, self.temp2, bus, cpu_peripherals);
                    self.subcycle = 4;
                }
                _ => {
                    self.p &= !(CPU_FLAG_CARRY | CPU_FLAG_ZERO | CPU_FLAG_NEGATIVE);
                    if (self.temp2 & 0x80) != 0 {
                        self.p |= CPU_FLAG_CARRY;
                    }
                    self.temp2 <<= 1;
                    if self.temp2 == 0 {
                        self.p |= CPU_FLAG_ZERO;
                    }
                    if (self.temp2 & 0x80) != 0 {
                        self.p |= CPU_FLAG_NEGATIVE;
                    }
                    self.memory_cycle_write(self.temp as u16, self.temp2, bus, cpu_peripherals);
                    self.pc = self.pc.wrapping_add(2);
                    self.end_instruction();
                }
            }
        }
        proof {
            super::lemma_byte_ops(old(self).temp2, 0);
            super::lemma_shift_flags(old(self).p, super::asl_value(old(self).temp2), (old(self).temp2 & 0x80) != 0);
            super::lemma_byte_ops(old(self).a, self.last_bus@.data);
        }
    }

    /// asl zero page x
    #[verifier::rlimit(100)]
    #[verifier::spinoff_prover]
    pub(crate) fn op_16<C: CartridgeDevice, K: ControllerDevice, P: PpuDevice, A: ApuDevice>(
        &mut self,
        bus: &mut NesMotherboard<C, K>,
        cpu_peripherals: &mut NesCpuPeripherals<P, A>,
    )
        requires
            old(self).inv(),
            !old(self).reset,
            old(self).opcode == Some(0x16u8),
            !old(self).bus_used@,
        ensures
            final(self).inv(),
            !final(self).reset,
            step_16(*old(self), *final(self)),
            final(self).opcode == old(self).opcode || super::finished(*final(self)),
            super::ram_effect(old(bus).spec_ram(), final(bus).spec_ram(), final(self).bus_used@, final(self).last_bus@),
            super::bus_effect(*old(bus), *old(cpu_peripherals), *final(bus), *final(cpu_peripherals), final(self).bus_used@, final(self).last_bus@),
            final(self).dmc_dma == old(self).dmc_dma,
            final(self).nmi_detected == old(self).nmi_detected,
            final(self).prev_nmi == old(self).prev_nmi,
    {
        {
            match self.subcycle {
                1 => {
                    self.subcycle = 2;
                    self.temp = self.memory_cycle_read(self.pc.wrapping_add(1),
                        bus,
                        cpu_peripherals,
                    );
                    {
                        self.copy_debugger(hex8_text("ASL $", self.temp, ",X"));
                        self.done_fetching = true;
                    }
                }
                2 => {
                    self.memory_cycle_read(self.temp as u16, bus, cpu_peripherals);
                    self.subcycle = 3;
                }
                3 => {
                    self.temp = self.temp.wrapping_add(self.x);
                    self.temp2 =
                    self.memory_cycle_read(self.temp as u16, bus, cpu_peripherals);
                    self.subcycle = 4;
                }
                4 => {
                    self.memory_cycle_write(self.temp as u16, self.temp2, bus, cpu_peripherals);
                    self.subcycle = 5;
                }
                _ => {
                    self.p &= !(CPU_FLAG_CARRY | CPU_FLAG_ZERO | CPU_FLAG_NEGATIVE);
                    if (self.temp2 & 0x80) != 0 {
                        self.p |= CPU_FLAG_CARRY;
                    }
                    self.temp2 <<= 1;
                    if self.temp2 == 0 {
                        self.p |= CPU_FLAG_ZERO;
                    }
                    if (self.temp2 & 0x80) != 0 {
                        self.p |= CPU_FLAG_NEGATIVE;
                    }
                    self.memory_cycle_write(self.temp as u16, self.temp2, bus, cpu_peripherals);
                    self.pc = self.pc.wrapping_add(2);
                    self.end_instruction();
                }
            }
        }
        proof {
            super::lemma_byte_ops(old(self).temp2, 0);
            super::lemma_shift_flags(old(self).p, super::asl_value(old(self).temp2), (old(self).temp2 & 0x80) != 0);
            super::lemma_byte_ops(old(self).a, self.last_bus@.data);
        }
    }

    /// asl absolute
    #[verifier::rlimit(100)]
    #[verifier::spinoff_prover]
    pub(crate) fn op_0e<C: CartridgeDevice, K: ControllerDevice, P: PpuDevice, A: ApuDevice>(
        &mut self,
        bus: &mut NesMotherboard<C, K>,
        cpu_peripherals: &mut NesCpuPeripherals<P, A>,
    )
        requires
            old(self).inv(),
            !old(self).reset,
            old(self).opcode == Some(0x0eu8),
            !old(self).bus_used@,
        ensures
            final(self).inv(),
            !final(self).reset,
            step_0e(*old(self), *final(self)),
            final(self).opcode == old(self).opcode || super::finished(*final(self)),
            super::ram_effect(old(bus).spec_ram(), final(bus).spec_ram(), final(self).bus_used@, final(self).last_bus@),
            super::bus_effect(*old(bus), *old(cpu_peripherals), *final(bus), *final(cpu_peripherals), final(self).bus_used@, final(self).last_bus@),
            final(self).dmc_dma == old(self).dmc_dma,
            final(self).nmi_detected == old(self).nmi_detected,
            final(self).prev_nmi == old(self).prev_nmi,
    {
        {
            match self.subcycle {
                1 => {
                    self.temp = self.memory_cycle_read(self.pc.wrapping_add(1),
                        bus,
                        cpu_peripherals,
                    );
                    self.subcycle = 2;
                }
                2 => {
                    self.temp2 = self.memory_cycle_read(self.pc.wrapping_add(2),
                        bus,
                        cpu_peripherals,
                    );
                    {
                        let temp = (self.temp2 as u16) << 8 | self.temp as u16;
                        self.copy_debugger(hex16_text("ASL $", temp, ""));
                        self.done_fetching = true;
                    }
                    proof {
                        super::lemma_word(self.temp, self.temp2);
                    }
                    self.subcycle = 3;
                }
                3 => {
                    self.tempaddr = (self.temp2 as u16) << 8 | self.temp as u16;
                    self.temp =
                    self.memory_cycle_read(self.tempaddr, bus, cpu_peripherals);
                    self.subcycle = 4;
                }
                4 => {
                    self.memory_cycle_write(self.tempaddr, self.temp, bus, cpu_peripherals);
                    self.p &= !(CPU_FLAG_CARRY | CPU_FLAG_ZERO | CPU_FLAG_NEGATIVE);
                    if (self.temp & 0x80) != 0 {
                        self.p |= CPU_FLAG_CARRY;
                    }
                    self.temp <<= 1;
                    if self.temp == 0 {
                        self.p |= CPU_FLAG_ZERO;
                    }
                    if (self.temp & 0x80) != 0 {
                        self.p |= CPU_FLAG_NEGATIVE;
                    }
                    self.subcycle = 5;
                }
                _ => {
                    self.memory_cycle_write(self.tempaddr, self.temp, bus, cpu_peripherals);
                    self.pc = self.pc.wrapping_add(3);
                    self.end_instruction();
                }
            }
        }
        proof {
            super::lemma_byte_ops(old(self).temp, 0);
            super::lemma_shift_flags(old(self).p, super::asl_value(old(self).temp), (old(self).temp & 0x80) != 0);
            super::lemma_byte_ops(old(self).a, self.last_bus@.data);
            super::lemma_word(old(self).temp, old(self).temp2);
        }
    }

    /// asl absolute x
    #[verifier::rlimit(100)]
    #[verifier::spinoff_prover]
    pub(crate) fn op_1e<C: CartridgeDevice, K: ControllerDevice, P: PpuDevice, A: ApuDevice>(
        &mut self,
        bus: &mut NesMotherboard<C, K>,
        cpu_peripherals: &mut NesCpuPeripherals<P, A>,
    )
        requires
            old(self).inv(),
            !old(self).reset,
            old(self).opcode == Some(0x1eu8),
            !old(self).bus_used@,
        ensures
            final(self).inv(),
            !final(self).reset,
            step_1e(*old(self), *final(self)),
            final(self).opcode == old(self).opcode || super::finished(*final(self)),
            super::ram_effect(old(bus).spec_ram(), final(bus).spec_ram(), final(self).bus_used@, final(self).last_bus@),
            super::bus_effect(*old(bus), *old(cpu_peripherals), *final(bus), *final(cpu_peripherals), final(self).bus_used@, final(self).last_bus@),
            final(self).dmc_dma == old(self).dmc_dma,
            final(self).nmi_detected == old(self).nmi_detected,
            final(self).prev_nmi == old(self).prev_nmi,
    {
        {
            match self.subcycle {
                1 => {
                    self.temp = self.memory_cycle_read(self.pc.wrapping_add(1),
                        bus,
                        cpu_peripherals,
                    );
                    self.subcycle = 2;
                }
                2 => {
                    self.temp2 = self.memory_cycle_read(self.pc.wrapping_add(2),
                        bus,
                        cpu_peripherals,
                    );
                    {
                        let temp = (self.temp2 as u16) << 8 | self.temp as u16;
                        self.copy_debugger(hex16_text("ASL $", temp, ",X"));
                        self.done_fetching = true;
                    }
                    proof {
                        super::lemma_word(self.temp, self.temp2);
                    }
                    self.subcycle = 3;
                }
                3 => {
                    proof {
                        super::lemma_word(old(self).temp, old(self).temp2);
                        super::lemma_word(((old(self).temp as int + old(self).x as int) % 256) as u8, old(self).temp2);
                    }
                    let val = self.temp.wrapping_add(self.x);
                    self.memory_cycle_read((self.temp2 as u16) << 8 | val as u16,
                        bus,
                        cpu_peripherals,
                    );
                    self.subcycle = 4;
                }
                4 => {
                    proof {
                        super::lemma_word(old(self).temp, old(self).temp2);
                        super::lemma_word(((old(self).temp as int + old(self).x as int) % 256) as u8, old(self).temp2);
                    }
                    self.tempaddr = (self.temp2 as u16) << 8 | self.temp as u16;
                    self.tempaddr = self.tempaddr.wrapping_add(self.x as u16);
                    self.temp =
                    self.memory_cycle_read(self.tempaddr, bus, cpu_peripherals);
                    self.subcycle = 5;
                }
                5 => {
                    proof {
                        super::lemma_byte_ops(old(self).temp, 0);
                        super::lemma_shift_flags(old(self).p, super::asl_value(old(self).temp), (old(self).temp & 0x80) != 0);
                        super::lemma_byte_ops(old(self).a, self.last_bus@.data);
                    }
                    self.memory_cycle_write(self.tempaddr, self.temp, bus, cpu_peripherals);
                    self.p &= !(CPU_FLAG_CARRY | CPU_FLAG_ZERO | CPU_FLAG_NEGATIVE);
                    if (self.temp & 0x80) != 0 {
                        self.p |= CPU_FLAG_CARRY;
                    }
                    self.temp <<= 1;
                    if self.temp == 0 {
                        self.p |= CPU_FLAG_ZERO;
                    }
                    if (self.temp & 0x80) != 0 {
                        self.p |= CPU_FLAG_NEGATIVE;
                    }
                    self.subcycle = 6;
                }
                _ => {
                    self.memory_cycle_write(self.tempaddr, self.temp, bus, cpu_peripherals);
                    self.pc = self.pc.wrapping_add(3);
                    self.end_instruction();
                }
            }
        }
    }

    /// ror zero page
    #[verifier::rlimit(100)]
    #[verifier::spinoff_prover]
    pub(crate) fn op_66<C: CartridgeDevice, K: ControllerDevice, P: PpuDevice, A: ApuDevice>(
        &mut self,
        bus: &mut NesMotherboard<C, K>,
        cpu_peripherals: &mut NesCpuPeripherals<P, A>,
    )
        requires
            old(self).inv(),
            !old(self).reset,
            old(self).opcode == Some(0x66u8),
            !old(self).bus_used@,
        ensures
            final(self).inv(),
            !final(self).reset,
            step_66(*old(self), *final(self)),
            final(self).opcode == old(self).opcode || super::finished(*final(self)),
            super::ram_effect(old(bus).spec_ram(), final(bus).spec_ram(), final(self).bus_used@, final(self).last_bus@),
            super::bus_effect(*old(bus), *old(cpu_peripherals), *final(bus), *final(cpu_peripherals), final(self).bus_used@, final(self).last_bus@),
            final(self).dmc_dma == old(self).dmc_dma,
            final(self).nmi_detected == old(self).nmi_detected,
            final(self).prev_nmi == old(self).prev_nmi,
    {
        {
            match self.subcycle {
                1 => {
                    self.subcycle = 2;
                    self.temp = self.memory_cycle_read(self.pc.wrapping_add(1),
                        bus,
                        cpu_peripherals,
                    );
                    {
                        self.copy_debugger(hex8_text("ROR $", self.temp, ""));
                        self.done_fetching = true;
                    }
                }
                2 => {
                    self.temp2 =
                    self.memory_cycle_read(self.temp as u16, bus, cpu_peripherals);
                    self.subcycle = 3;
                }
                3 => {
                    self.memory_cycle_write(self.temp as u16, self.temp2, bus, cpu_peripherals);
                    self.subcycle = 4;
                }
                _ => {
                    let old_carry = (self.p & CPU_FLAG_CARRY) != 0;
                    self.p &= !(CPU_FLAG_CARRY | CPU_FLAG_ZERO | CPU_FLAG_NEGATIVE);
                    if (self.temp2 & 1) != 0 {
                        self.p |= CPU_FLAG_CARRY;
                    }
                    self.temp2 >>= 1;
                    if old_carry {
                        self.temp2 |= 0x80;
                    }
                    if self.temp2 == 0 {
                        self.p |= CPU_FLAG_ZERO;
                    }
                    if (self.temp2 & 0x80) != 0 {
                        self.p |= CPU_FLAG_NEGATIVE;
                    }
                    self.memory_cycle_write(self.temp as u16, self.temp2, bus, cpu_peripherals);
                    self.pc = self.pc.wrapping_add(2);
                    self.end_instruction();
                }
            }
        }
        proof {
            super::lemma_byte_ops(old(self).temp2, 0);
            super::lemma_shift_flags(old(self).p, super::ror_value(old(self).p, old(self).temp2), (old(self).temp2 & 1) != 0);
            super::lemma_byte_ops(old(self).a, self.last_bus@.data);
        }
    }

    /// ror zero page x
    #[verifier::rlimit(100)]
    #[verifier::spinoff_prover]
    pub(crate) fn op_76<C: CartridgeDevice, K: ControllerDevice, P: PpuDevice, A: ApuDevice>(
        &mut self,
        bus: &mut NesMotherboard<C, K>,
        cpu_peripherals: &mut NesCpuPeripherals<P, A>,
    )
        requires
            old(self).inv(),
            !old(self).reset,
            old(self).opcode == Some(0x76u8),
            !old(self).bus_used@,
        ensures
            final(self).inv(),
            !final(self).reset,
            step_76(*old(self), *final(self)),
            final(self).opcode == old(self).opcode || super::finished(*final(self)),
            super::ram_effect(old(bus).spec_ram(), final(bus).spec_ram(), final(self).bus_used@, final(self).last_bus@),
            super::bus_effect(*old(bus), *old(cpu_peripherals), *final(bus), *final(cpu_peripherals), final(self).bus_used@, final(self).last_bus@),
            final(self).dmc_dma == old(self).dmc_dma,
            final(self).nmi_detected == old(self).nmi_detected,
            final(self).prev_nmi == old(self).prev_nmi,
    {
        {
            match self.subcycle {
                1 => {
                    self.subcycle = 2;
                    self.temp = self.memory_cycle_read(self.pc.wrapping_add(1),
                        bus,
                        cpu_peripherals,
                    );
                    {
                        self.copy_debugger(hex8_text("ROR $", self.temp, ",X"));
                        self.done_fetching = true;
                    }
                }
                2 => {
                    self.memory_cycle_read(self.temp as u16, bus, cpu_peripherals);
                    self.subcycle = 3;
                }
                3 => {
                    self.temp = self.temp.wrapping_add(self.x);
                    self.temp2 =
                    self.memory_cycle_read(self.temp as u16, bus, cpu_peripherals);
                    self.subcycle = 4;
                }
                4 => {
                    self.memory_cycle_write(self.temp as u16, self.temp2, bus, cpu_peripherals);
                    self.subcycle = 5;
                }
                _ => {
                    let old_carry = (self.p & CPU_FLAG_CARRY) != 0;
                    self.p &= !(CPU_FLAG_CARRY | CPU_FLAG_ZERO | CPU_FLAG_NEGATIVE);
                    if (self.temp2 & 1) != 0 {
                        self.p |= CPU_FLAG_CARRY;
                    }
                    self.temp2 >>= 1;
                    if old_carry {
                        self.temp2 |= 0x80;
                    }
                    if self.temp2 == 0 {
                        self.p |= CPU_FLAG_ZERO;
                    }
                    if (self.temp2 & 0x80) != 0 {
                        self.p |= CPU_FLAG_NEGATIVE;
                    }
                    self.memory_cycle_write(self.temp as u16, self.temp2, bus, cpu_peripherals);
                    self.pc = self.pc.wrapping_add(2);
                    self.end_instruction();
                }
            }
        }
        proof {
            super::lemma_byte_ops(old(self).temp2, 0);
            super::lemma_shift_flags(old(self).p, super::ror_value(old(self).p, old(self).temp2), (old(self).temp2 & 1) != 0);
            super::lemma_byte_ops(old(self).a, self.last_bus@.data);
        }
    }

    /// ror absolute
    #[verifier::rlimit(100)]
    #[verifier::spinoff_prover]
    pub(crate) fn op_6e<C: CartridgeDevice, K: ControllerDevice, P: PpuDevice, A: ApuDevice>(
        &mut self,
        bus: &mut NesMotherboard<C, K>,
        cpu_peripherals: &mut NesCpuPeripherals<P, A>,
    )
        requires
            old(self).inv(),
            !old(self).reset,
            old(self).opcode == Some(0x6eu8),
            !old(self).bus_used@,
        ensures
            final(self).inv(),
            !final(self).reset,
            step_6e(*old(self), *final(self)),
            final(self).opcode == old(self).opcode || super::finished(*final(self)),
            super::ram_effect(old(bus).spec_ram(), final(bus).spec_ram(), final(self).bus_used@, final(self).last_bus@),
            super::bus_effect(*old(bus), *old(cpu_peripherals), *final(bus), *final(cpu_peripherals), final(self).bus_used@, final(self).last_bus@),
            final(self).dmc_dma == old(self).dmc_dma,
            final(self).nmi_detected == old(self).nmi_detected,
            final(self).prev_nmi == old(self).prev_nmi,
    {
        {
            match self.subcycle {
                1 => {
                    self.temp = self.memory_cycle_read(self.pc.wrapping_add(1),
                        bus,
                        cpu_peripherals,
                    );
                    self.subcycle = 2;
                }
                2 => {
                    self.temp2 = self.memory_cycle_read(self.pc.wrapping_add(2),
                        bus,
                        cpu_peripherals,
                    );
                    {
                        let temp = (self.temp2 as u16) << 8 | self.temp as u16;
                        self.copy_debugger(hex16_text("ROR $", temp, ""));
                        self.done_fetching = true;
                    }
                    proof {
                        super::lemma_word(self.temp, self.temp2);
                    }
                    self.subcycle = 3;
                }
                3 => {
                    self.tempaddr = (self.temp2 as u16) << 8 | self.temp as u16;
                    self.temp =
                    self.memory_cycle_read(self.tempaddr, bus, cpu_peripherals);
                    self.subcycle = 4;
                }
                4 => {
                    self.memory_cycle_write(self.tempaddr, self.temp, bus, cpu_peripherals);
                    let old_carry = (self.p & CPU_FLAG_CARRY) != 0;
                    self.p &= !(CPU_FLAG_CARRY | CPU_FLAG_ZERO | CPU_FLAG_NEGATIVE);
                    if (self.temp & 1) != 0 {
                        self.p |= CPU_FLAG_CARRY;
                    }
                    self.temp >>= 1;
                    if old_carry {
                        self.temp |= 0x80;
                    }
                    if self.temp == 0 {
                        self.p |= CPU_FLAG_ZERO;
                    }
                    if (self.temp & 0x80) != 0 {
                        self.p |= CPU_FLAG_NEGATIVE;
                    }
                    self.subcycle = 5;
                }
                _ => {
                    self.memory_cycle_write(self.tempaddr, self.temp, bus, cpu_peripherals);
                    self.pc = self.pc.wrapping_add(3);
                    self.end_instruction();
                }
            }
        }
        proof {
            super::lemma_byte_ops(old(self).temp, 0);
            super::lemma_shift_flags(old(self).p, super::ror_value(old(self).p, old(self).temp), (old(self).temp & 1) != 0);
            super::lemma_byte_ops(old(self).a, self.last_bus@.data);
            super::lemma_word(old(self).temp, old(self).temp2);
        }
    }

    /// ror absolute x
    #[verifier::rlimit(100)]
    #[verifier::spinoff_prover]
    pub(crate) fn op_7e<C: CartridgeDevice, K: ControllerDevice, P: PpuDevice, A: ApuDevice>(
        &mut self,
        bus: &mut NesMotherboard<C, K>,
        cpu_peripherals: &mut NesCpuPeripherals<P, A>,
    )
        requires
            old(self).inv(),
            !old(self).reset,
            old(self).opcode == Some(0x7eu8),
            !old(self).bus_used@,
        ensures
            final(self).inv(),
            !final(self).reset,
            step_7e(*old(self), *final(self)),
            final(self).opcode == old(self).opcode || super::finished(*final(self)),
            super::ram_effect(old(bus).spec_ram(), final(bus).spec_ram(), final(self).bus_used@, final(self).last_bus@),
            super::bus_effect(*old(bus), *old(cpu_peripherals), *final(bus), *final(cpu_peripherals), final(self).bus_used@, final(self).last_bus@),
            final(self).dmc_dma == old(self).dmc_dma,
            final(self).nmi_detected == old(self).nmi_detected,
            final(self).prev_nmi == old(self).prev_nmi,
    {
        {
            match self.subcycle {
                1 => {
                    self.temp = self.memory_cycle_read(self.pc.wrapping_add(1),
                        bus,
                        cpu_peripherals,
                    );
                    self.subcycle = 2;
                }
                2 => {
                    self.temp2 = self.memory_cycle_read(self.pc.wrapping_add(2),
                        bus,
                        cpu_peripherals,
                    );
                    {
                        let temp = (self.temp2 as u16) << 8 | self.temp as u16;
                        self.copy_debugger(hex16_text("ROR $", temp, ",X"));
                        self.done_fetching = true;
                    }
                    proof {
                        super::lemma_word(self.temp, self.temp2);
                    }
                    self.subcycle = 3;
                }
                3 => {
                    proof {
                        super::lemma_word(old(self).temp, old(self).temp2);
                        super::lemma_word(((old(self).temp as int + old(self).x as int) % 256) as u8, old(self).temp2);
                    }
                    let val = self.temp.wrapping_add(self.x);
                    self.memory_cycle_read((self.temp2 as u16) << 8 | val as u16,
                        bus,
                        cpu_peripherals,
                    );
                    self.subcycle = 4;
                }
                4 => {
                    proof {
                        super::lemma_word(old(self).temp, old(self).temp2);
                        super::lemma_word(((old(self).temp as int + old(self).x as int) % 256) as u8, old(self).temp2);
                    }
                    self.tempaddr = (self.temp2 as u16) << 8 | self.temp as u16;
                    self.tempaddr = self.tempaddr.wrapping_add(self.x as u16);
                    self.temp =
                    self.memory_cycle_read(self.tempaddr, bus, cpu_peripherals);
                    self.subcycle = 5;
                }
                5 => {
                    proof {
                        super::lemma_byte_ops(old(self).temp, 0);
                        super::lemma_shift_flags(old(self).p, super::ror_value(old(self).p, old(self).temp), (old(self).temp & 1) != 0);
                        super::lemma_byte_ops(old(self).a, self.last_bus@.data);
                    }
                    self.memory_cycle_write(self.tempaddr, self.temp, bus, cpu_peripherals);
                    let old_carry = (self.p & CPU_FLAG_CARRY) != 0;
                    self.p &= !(CPU_FLAG_CARRY | CPU_FLAG_ZERO | CPU_FLAG_NEGATIVE);
                    if (self.temp & 1) != 0 {
                        self.p |= CPU_FLAG_CARRY;
                    }
                    self.temp >>= 1;
                    if old_carry {
                        self.temp |= 0x80;
                    }
                    if self.temp == 0 {
                        self.p |= CPU_FLAG_ZERO;
                    }
                    if (self.temp & 0x80) != 0 {
                        self.p |= CPU_FLAG_NEGATIVE;
                    }
                    self.subcycle = 6;
                }
                _ => {
                    self.memory_cycle_write(self.tempaddr, self.temp, bus, cpu_peripherals);
                    self.pc = self.pc.wrapping_add(3);
                    self.end_instruction();
                }
            }
        }
    }

    /// rol zero page
    #[verifier::rlimit(100)]
    #[verifier::spinoff_prover]
    pub(crate) fn op_26<C: CartridgeDevice, K: ControllerDevice, P: PpuDevice, A: ApuDevice>(
        &mut self,
        bus: &mut NesMotherboard<C, K>,
        cpu_peripherals: &mut NesCpuPeripherals<P, A>,
    )
        requires
            old(self).inv(),
            !old(self).reset,
            old(self).opcode == Some(0x26u8),
            !old(self).bus_used@,
        ensures
            final(self).inv(),
            !final(self).reset,
            step_26(*old(self), *final(self)),
            final(self).opcode == old(self).opcode || super::finished(*final(self)),
            super::ram_effect(old(bus).spec_ram(), final(bus).spec_ram(), final(self).bus_used@, final(self).last_bus@),
            super::bus_effect(*old(bus), *old(cpu_peripherals), *final(bus), *final(cpu_peripherals), final(self).bus_used@, final(self).last_bus@),
            final(self).dmc_dma == old(self).dmc_dma,
            final(self).nmi_detected == old(self).nmi_detected,
            final(self).prev_nmi == old(self).prev_nmi,
    {
        {
            match self.subcycle {
                1 => {
                    self.subcycle = 2;
                    self.temp = self.memory_cycle_read(self.pc.wrapping_add(1),
                        bus,
                        cpu_peripherals,
                    );
                    {
                        self.copy_debugger(hex8_text("ROL $", self.temp, ""));
                        self.done_fetching = true;
                    }
                }
                2 => {
                    self.temp2 =
                    self.memory_cycle_read(self.temp as u16, bus, cpu_peripherals);
                    self.subcycle = 3;
                }
                3 => {
                    self.memory_cycle_write(self.temp as u16, self.temp2, bus, cpu_peripherals);
                    self.subcycle = 4;
                }
                _ => {
                    let old_carry = (self.p & CPU_FLAG_CARRY) != 0;
                    self.p &= !(CPU_FLAG_CARRY | CPU_FLAG_ZERO | CPU_FLAG_NEGATIVE);
                    if (self.temp2 & 0x80) != 0 {
                        self.p |= CPU_FLAG_CARRY;
                    }
                    self.temp2 <<= 1;
                    if old_carry {
                        self.temp2 |= 1;
                    }
                    if self.temp2 == 0 {
                        self.p |= CPU_FLAG_ZERO;
                    }
                    if (self.temp2 & 0x80) != 0 {
                        self.p |= CPU_FLAG_NEGATIVE;
                    }
                    self.memory_cycle_write(self.temp as u16, self.temp2, bus, cpu_peripherals);
                    self.pc = self.pc.wrapping_add(2);
                    self.end_instruction();
                }
            }
        }
        proof {
            super::lemma_byte_ops(old(self).temp2, 0);
            super::lemma_shift_flags(old(self).p, super::rol_value(old(self).p, old(self).temp2), (old(self).temp2 & 0x80) != 0);
            super::lemma_byte_ops(old(self).a, self.last_bus@.data);
        }
    }

    /// rol zero page x
    #[verifier::rlimit(100)]
    #[verifier::spinoff_prover]
    pub(crate) fn op_36<C: CartridgeDevice, K: ControllerDevice, P: PpuDevice, A: ApuDevice>(
        &mut self,
        bus: &mut NesMotherboard<C, K>,
        cpu_peripherals: &mut NesCpuPeripherals<P, A>,
    )
        requires
            old(self).inv(),
            !old(self).reset,
            old(self).opcode == Some(0x36u8),
            !old(self).bus_used@,
        ensures
            final(self).inv(),
            !final(self).reset,
            step_36(*old(self), *final(self)),
            final(self).opcode == old(self).opcode || super::finished(*final(self)),
            super::ram_effect(old(bus).spec_ram(), final(bus).spec_ram(), final(self).bus_used@, final(self).last_bus@),
            super::bus_effect(*old(bus), *old(cpu_peripherals), *final(bus), *final(cpu_peripherals), final(self).bus_used@, final(self).last_bus@),
            final(self).dmc_dma == old(self).dmc_dma,
            final(self).nmi_detected == old(self).nmi_detected,
            final(self).prev_nmi == old(self).prev_nmi,
    {
        {
            match self.subcycle {
                1 => {
                    self.subcycle = 2;
                    self.temp = self.memory_cycle_read(self.pc.wrapping_add(1),
                        bus,
                        cpu_peripherals,
                    );
                    {
                        self.copy_debugger(hex8_text("ROL $", self.temp, ",X"));
                        self.done_fetching = true;
                    }
                }
                2 => {
                    self.memory_cycle_read(self.temp as u16, bus, cpu_peripherals);
                    self.subcycle = 3;
                }
                3 => {
                    self.temp = self.temp.wrapping_add(self.x);
                    self.temp2 =
                    self.memory_cycle_read(self.temp as u16, bus, cpu_peripherals);
                    self.subcycle = 4;
                }
                4 => {
                    self.memory_cycle_write(self.temp as u16, self.temp2, bus, cpu_peripherals);
                    self.subcycle = 5;
                }
                _ => {
                    let old_carry = (self.p & CPU_FLAG_CARRY) != 0;
                    self.p &= !(CPU_FLAG_CARRY | CPU_FLAG_ZERO | CPU_FLAG_NEGATIVE);
                    if (self.temp2 & 0x80) != 0 {
                        self.p |= CPU_FLAG_CARRY;
                    }
                    self.temp2 <<= 1;
                    if old_carry {
                        self.temp2 |= 1;
                    }
                    if self.temp2 == 0 {
                        self.p |= CPU_FLAG_ZERO;
                    }
                    if (self.temp2 & 0x80) != 0 {
                        self.p |= CPU_FLAG_NEGATIVE;
                    }
                    self.memory_cycle_write(self.temp as u16, self.temp2, bus, cpu_peripherals);
                    self.pc = self.pc.wrapping_add(2);
                    self.end_instruction();
                }
            }
        }
        proof {
            super::lemma_byte_ops(old(self).temp2, 0);
            super::lemma_shift_flags(old(self).p, super::rol_value(old(self).p, old(self).temp2), (old(self).temp2 & 0x80) != 0);
            super::lemma_byte_ops(old(self).a, self.last_bus@.data);
        }
    }

    /// rol absolute
    #[verifier::rlimit(100)]
    #[verifier::spinoff_prover]
    pub(crate) fn op_2e<C: CartridgeDevice, K: ControllerDevice, P: PpuDevice, A: ApuDevice>(
        &mut self,
        bus: &mut NesMotherboard<C, K>,
        cpu_peripherals: &mut NesCpuPeripherals<P, A>,
    )
        requires
            old(self).inv(),
            !old(self).reset,
            old(self).opcode == Some(0x2eu8),
            !old(self).bus_used@,
        ensures
            final(self).inv(),
            !final(self).reset,
            step_2e(*old(self), *final(self)),
            final(self).opcode == old(self).opcode || super::finished(*final(self)),
            super::ram_effect(old(bus).spec_ram(), final(bus).spec_ram(), final(self).bus_used@, final(self).last_bus@),
            super::bus_effect(*old(bus), *old(cpu_peripherals), *final(bus), *final(cpu_peripherals), final(self).bus_used@, final(self).last_bus@),
            final(self).dmc_dma == old(self).dmc_dma,
            final(self).nmi_detected == old(self).nmi_detected,
            final(self).prev_nmi == old(self).prev_nmi,
    {
        {
            match self.subcycle {
                1 => {
                    self.temp = self.memory_cycle_read(self.pc.wrapping_add(1),
                        bus,
                        cpu_peripherals,
                    );
                    self.subcycle = 2;
                }
                2 => {
                    self.temp2 = self.memory_cycle_read(self.pc.wrapping_add(2),
                        bus,
                        cpu_peripherals,
                    );
                    {
                        let temp = (self.temp2 as u16) << 8 | self.temp as u16;
                        self.copy_debugger(hex16_text("ROL $", temp, ""));
                        self.done_fetching = true;
                    }
                    proof {
                        super::lemma_word(self.temp, self.temp2);
                    }
                    self.subcycle = 3;
                }
                3 => {
                    self.tempaddr = (self.temp2 as u16) << 8 | self.temp as u16;
                    self.temp =
                    self.memory_cycle_read(self.tempaddr, bus, cpu_peripherals);
                    self.subcycle = 4;
                }
                4 => {
                    self.memory_cycle_write(self.tempaddr, self.temp, bus, cpu_peripherals);
                    let old_carry = (self.p & CPU_FLAG_CARRY) != 0;
                    self.p &= !(CPU_FLAG_CARRY | CPU_FLAG_ZERO | CPU_FLAG_NEGATIVE);
                    if (self.temp & 0x80) != 0 {
                        self.p |= CPU_FLAG_CARRY;
                    }
                    self.temp <<= 1;
                    if old_carry {
                        self.temp |= 1;
                    }
                    if self.temp == 0 {
                        self.p |= CPU_FLAG_ZERO;
                    }
                    if (self.temp & 0x80) != 0 {
                        self.p |= CPU_FLAG_NEGATIVE;
                    }
                    self.subcycle = 5;
                }
                _ => {
                    self.memory_cycle_write(self.tempaddr, self.temp, bus, cpu_peripherals);
                    self.pc = self.pc.wrapping_add(3);
                    self.end_instruction();
                }
            }
        }
        proof {
            super::lemma_byte_ops(old(self).temp, 0);
            super::lemma_shift_flags(old(self).p, super::rol_value(old(self).p, old(self).temp), (old(self).temp & 0x80) != 0);
            super::lemma_byte_ops(old(self).a, self.last_bus@.data);
            super::lemma_word(old(self).temp, old(self).temp2);
        }
    }

    /// rol absolute x
    #[verifier::rlimit(100)]
    #[verifier::spinoff_prover]
    pub(crate) fn op_3e<C: CartridgeDevice, K: ControllerDevice, P: PpuDevice, A: ApuDevice>(
        &mut self,
        bus: &mut NesMotherboard<C, K>,
        cpu_peripherals: &mut NesCpuPeripherals<P, A>,
    )
        requires
            old(self).inv(),
            !old(self).reset,
            old(self).opcode == Some(0x3eu8),
            !old(self).bus_used@,
        ensures
            final(self).inv(),
            !final(self).reset,
            step_3e(*old(self), *final(self)),
            final(self).opcode == old(self).opcode || super::finished(*final(self)),
            super::ram_effect(old(bus).spec_ram(), final(bus).spec_ram(), final(self).bus_used@, final(self).last_bus@),
            super::bus_effect(*old(bus), *old(cpu_peripherals), *final(bus), *final(cpu_peripherals), final(self).bus_used@, final(self).last_bus@),
            final(self).dmc_dma == old(self).dmc_dma,
            final(self).nmi_detected == old(self).nmi_detected,
            final(self).prev_nmi == old(self).prev_nmi,
    {
        {
            match self.subcycle {
                1 => {
                    self.temp = self.memory_cycle_read(self.pc.wrapping_add(1),
                        bus,
                        cpu_peripherals,
                    );
                    self.subcycle = 2;
                }
                2 => {
                    self.temp2 = self.memory_cycle_read(self.pc.wrapping_add(2),
                        bus,
                        cpu_peripherals,
                    );
                    {
                        let temp = (self.temp2 as u16) << 8 | self.temp as u16;
                        self.copy_debugger(hex16_text("ROL $", temp, ",X"));
                        self.done_fetching = true;
                    }
                    proof {
                        super::lemma_word(self.temp, self.temp2);
                    }
                    self.subcycle = 3;
                }
                3 => {
                    proof {
                        super::lemma_word(old(self).temp, old(self).temp2);
                        super::lemma_word(((old(self).temp as int + old(self).x as int) % 256) as u8, old(self).temp2);
                    }
                    self.tempaddr = (self.temp2 as u16) << 8 | self.temp as u16;
                    self.tempaddr = self.tempaddr.wrapping_add(self.x as u16);
                    let temp = self.temp.wrapping_add(self.x);
                    self.memory_cycle_read((self.temp2 as u16) << 8 | temp as u16,
                        bus,
                        cpu_peripherals,
                    );
                    self.subcycle = 4;
                }
                4 => {
                    proof {
                        super::lemma_word(old(self).temp, old(self).temp2);
                        super::lemma_word(((old(self).temp as int + old(self).x as int) % 256) as u8, old(self).temp2);
                    }
                    self.temp =
                    self.memory_cycle_read(self.tempaddr, bus, cpu_peripherals);
                    self.subcycle = 5;
                }
                5 => {
                    proof {
                        super::lemma_byte_ops(old(self).temp, 0);
                        super::lemma_shift_flags(old(self).p, super::rol_value(old(self).p, old(self).temp), (old(self).temp & 0x80) != 0);
                        super::lemma_byte_ops(old(self).a, self.last_bus@.data);
                    }
                    self.memory_cycle_write(self.tempaddr, self.temp, bus, cpu_peripherals);
                    let old_carry = (self.p & CPU_FLAG_CARRY) != 0;
                    self.p &= !(CPU_FLAG_CARRY | CPU_FLAG_ZERO | CPU_FLAG_NEGATIVE);
                    if (self.temp & 0x80) != 0 {
                        self.p |= CPU_FLAG_CARRY;
                    }
                    self.temp <<= 1;
                    if old_carry {
                        self.temp |= 1;
                    }
                    if self.temp == 0 {
                        self.p |= CPU_FLAG_ZERO;
                    }
                    if (self.temp & 0x80) != 0 {
                        self.p |= CPU_FLAG_NEGATIVE;
                    }
                    self.subcycle = 6;
                }
                _ => {
                    self.memory_cycle_write(self.tempaddr, self.temp, bus, cpu_peripherals);
                    self.pc = self.pc.wrapping_add(3);
                    self.end_instruction();
                }
            }
        }
    }

    /// dcp, undocumented, decrement and compare indirect x
    #[verifier::rlimit(100)]
    #[verifier::spinoff_prover]
    pub(crate) fn op_c3<C: CartridgeDevice, K: ControllerDevice, P: PpuDevice, A: ApuDevice>(
        &mut self,
        bus: &mut NesMotherboard<C, K>,
        cpu_peripherals: &mut NesCpuPeripherals<P, A>,
    )
        requires
            old(self).inv(),
            !old(self).reset,
            old(self).opcode == Some(0xc3u8),
            !old(self).bus_used@,
        ensures
            final(self).inv(),
            !final(self).reset,
            step_c3(*old(self), *final(self)),
            final(self).opcode == old(self).opcode || super::finished(*final(self)),
            super::ram_effect(old(bus).spec_ram(), final(bus).spec_ram(), final(self).bus_used@, final(self).last_bus@),
            super::bus_effect(*old(bus), *old(cpu_peripherals), *final(bus), *final(cpu_peripherals), final(self).bus_used@, final(self).last_bus@),
            final(self).dmc_dma == old(self).dmc_dma,
            final(self).nmi_detected == old(self).nmi_detected,
            final(self).prev_nmi == old(self).prev_nmi,
    {
        {
            match self.subcycle {
                1 => {
                    self.temp = self.memory_cycle_read(self.pc.wrapping_add(1),
                        bus,
                        cpu_peripherals,
                    );
                    {
                        self.copy_debugger(hex8_text("*DCP ($", self.temp, ",X)"));
                        self.done_fetching = true;
                    }
                    self.subcycle = 2;
                }
                2 => {
                    self.temp = self.temp.wrapping_add(self.x);
                    self.temp2 =
                    self.memory_cycle_read(self.temp as u16, bus, cpu_peripherals);
                    self.subcycle = 3;
                }
                3 => {
                    self.memory_cycle_read(self.temp as u16, bus, cpu_peripherals);
                    self.subcycle = 4;
                }
                4 => {
                    self.temp = self.memory_cycle_read(self.temp.wrapping_add(1) as u16,
                        bus,
                        cpu_peripherals,
                    );
                    self.subcycle = 5;
                }
                5 => {
                    proof {
                        super::lemma_word(old(self).temp2, old(self).temp);
                        super::lemma_word(((old(self).temp2 as int + old(self).y as int) % 256) as u8, old(self).temp);
                    }
                    self.tempaddr = (self.temp as u16) << 8 | (self.temp2 as u16);
                    self.temp =
                    self.memory_cycle_read(self.tempaddr, bus, cpu_peripherals);
                    self.subcycle = 6;
                }
                6 => {
                    proof {
                        super::lemma_byte_ops(old(self).temp, 0);
                        super::lemma_compare_flags(old(self).p, old(self).a, old(self).temp);
                        super::lemma_compare_flags(old(self).p, old(self).a, super::dec_value(old(self).temp));
                    }
                    self.memory_cycle_write(self.tempaddr, self.temp, bus, cpu_peripherals);
                    self.temp = self.temp.wrapping_sub(1);
                    self.subcycle = 7;
                }
                _ => {
                    proof {
                        super::lemma_byte_ops(old(self).temp, 0);
                        super::lemma_compare_flags(old(self).p, old(self).a, old(self).temp);
                        super::lemma_compare_flags(old(self).p, old(self).a, super::dec_value(old(self).temp));
                    }
                    self.p &= !(CPU_FLAG_ZERO | CPU_FLAG_CARRY | CPU_FLAG_NEGATIVE);
                    if self.a == self.temp {
                        self.p |= CPU_FLAG_ZERO;
                    }
                    if self.a >= self.temp {
                        self.p |= CPU_FLAG_CARRY;
                    }
                    if ((self.a.wrapping_sub(self.temp)) & 0x80) != 0 {
                        self.p |= CPU_FLAG_NEGATIVE;
                    }
                    self.memory_cycle_write(self.tempaddr, self.temp, bus, cpu_peripherals);
                    self.pc = self.pc.wrapping_add(2);
                    self.end_instruction();
                }
            }
        }
    }

    /// dcp zero page, undocumented
    #[verifier::rlimit(100)]
    #[verifier::spinoff_prover]
    pub(crate) fn op_c7<C: CartridgeDevice, K: ControllerDevice, P: PpuDevice, A: ApuDevice>(
        &mut self,
        bus: &mut NesMotherboard<C, K>,
        cpu_peripherals: &mut NesCpuPeripherals<P, A>,
    )
        requires
            old(self).inv(),
            !old(self).reset,
            old(self).opcode == Some(0xc7u8),
            !old(self).bus_used@,
        ensures
            final(self).inv(),
            !final(self).reset,
            step_c7(*old(self), *final(self)),
            final(self).opcode == old(self).opcode || super::finished(*final(self)),
            super::ram_effect(old(bus).spec_ram(), final(bus).spec_ram(), final(self).bus_used@, final(self).last_bus@),
            super::bus_effect(*old(bus), *old(cpu_peripherals), *final(bus), *final(cpu_peripherals), final(self).bus_used@, final(self).last_bus@),
            final(self).dmc_dma == old(self).dmc_dma,
            final(self).nmi_detected == old(self).nmi_detected,
            final(self).prev_nmi == old(self).prev_nmi,
    {
        {
            match self.subcycle {
                1 => {
                    self.temp2 = self.memory_cycle_read(self.pc.wrapping_add(1),
                        bus,
                        cpu_peripherals,
                    );
                    {
                        self.copy_debugger(hex8_text("*DCP $", self.temp2, ""));
                        self.done_fetching = true;
                    }
                    self.subcycle = 2;
                }
                2 => {
                    self.temp =
                    self.memory_cycle_read(self.temp2 as u16, bus, cpu_peripherals);
                    self.subcycle = 3;
                }
                3 => {
                    self.memory_cycle_write(self.temp2 as u16, self.temp, bus, cpu_peripherals);
                    self.subcycle = 4;
                }
                _ => {
                    self.temp = self.temp.wrapping_sub(1);
                    self.memory_cycle_write(self.temp2 as u16, self.temp, bus, cpu_peripherals);
                    self.p &= !(CPU_FLAG_ZERO | CPU_FLAG_CARRY | CPU_FLAG_NEGATIVE);
                    if self.a == self.temp {
                        self.p |= CPU_FLAG_ZERO;
                    }
                    if self.a >= self.temp {
                        self.p |= CPU_FLAG_CARRY;
                    }
                    if ((self.a.wrapping_sub(self.temp)) & 0x80) != 0 {
                        self.p |= CPU_FLAG_NEGATIVE;
                    }
                    self.pc = self.pc.wrapping_add(2);
                    self.end_instruction();
                }
            }
        }
        proof {
            super::lemma_byte_ops(old(self).temp, 0);
            super::lemma_compare_flags(old(self).p, old(self).a, old(self).temp);
            super::lemma_compare_flags(old(self).p, old(self).a, super::dec_value(old(self).temp));
        }
    }

    /// dcp absolute, undocumented
    #[verifier::rlimit(100)]
    #[verifier::spinoff_prover]
    pub(crate) fn op_cf<C: CartridgeDevice, K: ControllerDevice, P: PpuDevice, A: ApuDevice>(
        &mut self,
        bus: &mut NesMotherboard<C, K>,
        cpu_peripherals: &mut NesCpuPeripherals<P, A>,
    )
        requires
            old(self).inv(),
            !old(self).reset,
            old(self).opcode == Some(0xcfu8),
            !old(self).bus_used@,
        ensures
            final(self).inv(),
            !final(self).reset,
            step_cf(*old(self), *final(self)),
            final(self).opcode == old(self).opcode || super::finished(*final(self)),
            super::ram_effect(old(bus).spec_ram(), final(bus).spec_ram(), final(self).bus_used@, final(self).last_bus@),
            super::bus_effect(*old(bus), *old(cpu_peripherals), *final(bus), *final(cpu_peripherals), final(self).bus_used@, final(self).last_bus@),
            final(self).dmc_dma == old(self).dmc_dma,
            final(self).nmi_detected == old(self).nmi_detected,
            final(self).prev_nmi == old(self).prev_nmi,
    {
        {
            match self.subcycle {
                1 => {
                    self.temp = self.memory_cycle_read(self.pc.wrapping_add(1),
                        bus,
                        cpu_peripherals,
                    );
                    self.subcycle = 2;
                }
                2 => {
                    self.temp2 = self.memory_cycle_read(self.pc.wrapping_add(2),
                        bus,
                        cpu_peripherals,
                    );
                    {
                        let temp = (self.temp2 as u16) << 8 | self.temp as u16;
                        self.copy_debugger(hex16_text("*DCP $", temp, ""));
                        self.done_fetching = true;
                    }
                    proof {
                        super::lemma_word(self.temp, self.temp2);
                    }
                    self.subcycle = 3;
                }
                3 => {
                    self.tempaddr = (self.temp2 as u16) << 8 | (self.temp as u16);
                    self.temp =
                    self.memory_cycle_read(self.tempaddr, bus, cpu_peripherals);
                    self.subcycle = 4;
                }
                4 => {
                    self.memory_cycle_write(self.tempaddr, self.temp, bus, cpu_peripherals);
                    self.temp = self.temp.wrapping_sub(1);
                    self.subcycle = 5;
                }
                _ => {
                    self.p &= !(CPU_FLAG_ZERO | CPU_FLAG_CARRY | CPU_FLAG_NEGATIVE);
                    if self.a == self.temp {
                        self.p |= CPU_FLAG_ZERO;
                    }
                    if self.a >= self.temp {
                        self.p |= CPU_FLAG_CARRY;
                    }
                    if ((self.a.wrapping_sub(self.temp)) & 0x80) != 0 {
                        self.p |= CPU_FLAG_NEGATIVE;
                    }
                    self.memory_cycle_write(self.tempaddr, self.temp, bus, cpu_peripherals);
                    self.pc = self.pc.wrapping_add(3);
                    self.end_instruction();
                }
            }
        }
        proof {
            super::lemma_byte_ops(old(self).temp, 0);
            super::lemma_compare_flags(old(self).p, old(self).a, old(self).temp);
            super::lemma_compare_flags(old(self).p, old(self).a, super::dec_value(old(self).temp));
            super::lemma_word(old(self).temp, old(self).temp2);
        }
    }

    /// dcp indirect y
    #[verifier::rlimit(100)]
    #[verifier::spinoff_prover]
    pub(crate) fn op_d3<C: CartridgeDevice, K: ControllerDevice, P: PpuDevice, A: ApuDevice>(
        &mut self,
        bus: &mut NesMotherboard<C, K>,
        cpu_peripherals: &mut NesCpuPeripherals<P, A>,
    )
        requires
            old(self).inv(),
            !old(self).reset,
            old(self).opcode == Some(0xd3u8),
            !old(self).bus_used@,
        ensures
            final(self).inv(),
            !final(self).reset,
            step_d3(*old(self), *final(self)),
            final(self).opcode == old(self).opcode || super::finished(*final(self)),
            super::ram_effect(old(bus).spec_ram(), final(bus).spec_ram(), final(self).bus_used@, final(self).last_bus@),
            super::bus_effect(*old(bus), *old(cpu_peripherals), *final(bus), *final(cpu_peripherals), final(self).bus_used@, final(self).last_bus@),
            final(self).dmc_dma == old(self).dmc_dma,
            final(self).nmi_detected == old(self).nmi_detected,
            final(self).prev_nmi == old(self).prev_nmi,
    {
        {
            match self.subcycle {
                1 => {
                    self.temp2 = self.memory_cycle_read(self.pc.wrapping_add(1),
                        bus,
                        cpu_peripherals,
                    );
                    {
                        self.copy_debugger(hex8_text("*DCP ($", self.temp2, "),Y"));
                        self.done_fetching = true;
                    }
                    self.subcycle = 2;
                }
                2 => {
                    self.temp =
                    self.memory_cycle_read(self.temp2 as u16, bus, cpu_peripherals);
                    self.subcycle = 3;
                }
                3 => {
                    self.temp2 = self.memory_cycle_read(self.temp2.wrapping_add(1) as u16,
                        bus,
                        cpu_peripherals,
                    );
                    self.subcycle = 4;
                }
                4 => {
                    self.subcycle = 5;
                }
                5 => {
                    self.tempaddr = (self.temp2 as u16) << 8 | (self.temp as u16);
                    self.tempaddr = self.tempaddr.wrapping_add(self.y as u16);
                    self.temp =
                    self.memory_cycle_read(self.tempaddr, bus, cpu_peripherals);
                    self.subcycle = 6;
                }
                6 => {
                    self.memory_cycle_write(self.tempaddr, self.temp, bus, cpu_peripherals);
                    self.subcycle = 7;
                }
                _ => {
                    self.temp = self.temp.wrapping_sub(1);
                    self.memory_cycle_write(self.tempaddr, self.temp, bus, cpu_peripherals);
                    self.p &= !(CPU_FLAG_ZERO | CPU_FLAG_CARRY | CPU_FLAG_NEGATIVE);
                    if self.a == self.temp {
                        self.p |= CPU_FLAG_ZERO;
                    }
                    if self.a >= self.temp {
                        self.p |= CPU_FLAG_CARRY;
                    }
                    if ((self.a.wrapping_sub(self.temp)) & 0x80) != 0 {
                        self.p |= CPU_FLAG_NEGATIVE;
                    }
                    self.pc = self.pc.wrapping_add(2);
                    self.end_instruction();
                }
            }
        }
        proof {
            super::lemma_word(old(self).temp, old(self).temp2);
            super::lemma_word(((old(self).temp as int + old(self).y as int) % 256) as u8, old(self).temp2);
            super::lemma_byte_ops(old(self).temp, 0);
            super::lemma_compare_flags(old(self).p, old(self).a, old(self).temp);
            super::lemma_compare_flags(old(self).p, old(self).a, super::dec_value(old(self).temp));
            super::lemma_word(old(self).temp2, old(self).temp);
            super::lemma_word(((old(self).temp2 as int + old(self).y as int) % 256) as u8, old(self).temp);
        }
    }

    /// dcp zero page x, undocumented
    #[verifier::rlimit(100)]
    #[verifier::spinoff_prover]
    pub(crate) fn op_d7<C: CartridgeDevice, K: ControllerDevice, P: PpuDevice, A: ApuDevice>(
        &mut self,
        bus: &mut NesMotherboard<C, K>,
        cpu_peripherals: &mut NesCpuPeripherals<P, A>,
    )
        requires
            old(self).inv(),
            !old(self).reset,
            old(self).opcode == Some(0xd7u8),
            !old(self).bus_used@,
        ensures
            final(self).inv(),
            !final(self).reset,
            step_d7(*old(self), *final(self)),
            final(self).opcode == old(self).opcode || super::finished(*final(self)),
            super::ram_effect(old(bus).spec_ram(), final(bus).spec_ram(), final(self).bus_used@, final(self).last_bus@),
            super::bus_effect(*old(bus), *old(cpu_peripherals), *final(bus), *final(cpu_peripherals), final(self).bus_used@, final(self).last_bus@),
            final(self).dmc_dma == old(self).dmc_dma,
            final(self).nmi_detected == old(self).nmi_detected,
            final(self).prev_nmi == old(self).prev_nmi,
    {
        {
            match self.subcycle {
                1 => {
                    self.temp2 = self.memory_cycle_read(self.pc.wrapping_add(1),
                        bus,
                        cpu_peripherals,
                    );
                    {
                        self.copy_debugger(hex8_text("*DCP $", self.temp2, ",X"));
                        self.done_fetching = true;
                    }
                    self.subcycle = 2;
                }
                2 => {
                    self.memory_cycle_read(self.temp2 as u16, bus, cpu_peripherals);
                    self.subcycle = 3;
                }
                3 => {
                    self.temp2 = self.temp2.wrapping_add(self.x);
                    self.temp =
                    self.memory_cycle_read(self.temp2 as u16, bus, cpu_peripherals);
                    self.subcycle = 4;
                }
                4 => {
                    self.memory_cycle_write(self.temp2 as u16, self.temp, bus, cpu_peripherals);
                    self.subcycle = 5;
                }
                _ => {
                    self.temp = self.temp.wrapping_sub(1);
                    self.memory_cycle_write(self.temp2 as u16, self.temp, bus, cpu_peripherals);
                    self.p &= !(CPU_FLAG_ZERO | CPU_FLAG_CARRY | CPU_FLAG_NEGATIVE);
                    if self.a == self.temp {
                        self.p |= CPU_FLAG_ZERO;
                    }
                    if self.a >= self.temp {
                        self.p |= CPU_FLAG_CARRY;
                    }
                    if ((self.a.wrapping_sub(self.temp)) & 0x80) != 0 {
                        self.p |= CPU_FLAG_NEGATIVE;
                    }
                    self.pc = self.pc.wrapping_add(2);
                    self.end_instruction();
                }
            }
        }
        proof {
            super::lemma_byte_ops(old(self).temp, 0);
            super::lemma_compare_flags(old(self).p, old(self).a, old(self).temp);
            super::lemma_compare_flags(old(self).p, old(self).a, super::dec_value(old(self).temp));
        }
    }

    /// dcp absolute y, undocumented
    #[verifier::rlimit(100)]
    #[verifier::spinoff_prover]
    pub(crate) fn op_db<C: CartridgeDevice, K: ControllerDevice, P: PpuDevice, A: ApuDevice>(
        &mut self,
        bus: &mut NesMotherboard<C, K>,
        cpu_peripherals: &mut NesCpuPeripherals<P, A>,
    )
        requires
            old(self).inv(),
            !old(self).reset,
            old(self).opcode == Some(0xdbu8),
            !old(self).bus_used@,
        ensures
            final(self).inv(),
            !final(self).reset,
            step_db(*old(self), *final(self)),
            final(self).opcode == old(self).opcode || super::finished(*final(self)),
            super::ram_effect(old(bus).spec_ram(), final(bus).spec_ram(), final(self).bus_used@, final(self).last_bus@),
            super::bus_effect(*old(bus), *old(cpu_peripherals), *final(bus), *final(cpu_peripherals), final(self).bus_used@, final(self).last_bus@),
            final(self).dmc_dma == old(self).dmc_dma,
            final(self).nmi_detected == old(self).nmi_detected,
            final(self).prev_nmi == old(self).prev_nmi,
    {
        {
            match self.subcycle {
                1 => {
                    self.temp = self.memory_cycle_read(self.pc.wrapping_add(1),
                        bus,
                        cpu_peripherals,
                    );
                    self.subcycle = 2;
                }
                2 => {
                    self.temp2 = self.memory_cycle_read(self.pc.wrapping_add(2),
                        bus,
                        cpu_peripherals,
                    );
                    {
                        let temp = (self.temp2 as u16) << 8 | self.temp as u16;
                        self.copy_debugger(hex16_text("*DCP $", temp, ",Y"));
                        self.done_fetching = true;
                    }
                    proof {
                        super::lemma_word(self.temp, self.temp2);
                    }
                    self.subcycle = 3;
                }
                3 => {
                    self.tempaddr = (self.temp2 as u16) << 8 | (self.temp as u16);
                    self.memory_cycle_read((self.temp2 as u16) << 8 | (self.temp.wrapping_add(self.y) as u16),
                        bus,
                        cpu_peripherals,
                    );
                    self.subcycle = 4;
                }
                4 => {
                    self.tempaddr = self.tempaddr.wrapping_add(self.y as u16);
                    self.temp =
                    self.memory_cycle_read(self.tempaddr, bus, cpu_peripherals);
                    self.subcycle = 5;
                }
                5 => {
                    self.memory_cycle_write(self.tempaddr, self.temp, bus, cpu_peripherals);
                    self.subcycle = 6;
                }
                _ => {
                    self.temp = self.temp.wrapping_sub(1);
                    self.memory_cycle_write(self.tempaddr, self.temp, bus, cpu_peripherals);
                    self.p &= !(CPU_FLAG_ZERO | CPU_FLAG_CARRY | CPU_FLAG_NEGATIVE);
                    if self.a == self.temp {
                        self.p |= CPU_FLAG_ZERO;
                    }
                    if self.a >= self.temp {
                        self.p |= CPU_FLAG_CARRY;
                    }
                    if ((self.a.wrapping_sub(self.temp)) & 0x80) != 0 {
                        self.p |= CPU_FLAG_NEGATIVE;
                    }
                    self.pc = self.pc.wrapping_add(3);
                    self.end_instruction();
                }
            }
        }
        proof {
            super::lemma_byte_ops(old(self).temp, 0);
            super::lemma_compare_flags(old(self).p, old(self).a, old(self).temp);
            super::lemma_compare_flags(old(self).p, old(self).a, super::dec_value(old(self).temp));
            super::lemma_word(old(self).temp, old(self).temp2);
            super::lemma_word(((old(self).temp as int + old(self).y as int) % 256) as u8, old(self).temp2);
        }
    }

    /// dcp absolute x, undocumented
    #[verifier::rlimit(100)]
    #[verifier::spinoff_prover]
    pub(crate) fn op_df<C: CartridgeDevice, K: ControllerDevice, P: PpuDevice, A: ApuDevice>(
        &mut self,
        bus: &mut NesMotherboard<C, K>,
        cpu_peripherals: &mut NesCpuPeripherals<P, A>,
    )
        requires
            old(self).inv(),
            !old(self).reset,
            old(self).opcode == Some(0xdfu8),
            !old(self).bus_used@,
        ensures
            final(self).inv(),
            !final(self).reset,
            step_df(*old(self), *final(self)),
            final(self).opcode == old(self).opcode || super::finished(*final(self)),
            super::ram_effect(old(bus).spec_ram(), final(bus).spec_ram(), final(self).bus_used@, final(self).last_bus@),
            super::bus_effect(*old(bus), *old(cpu_peripherals), *final(bus), *final(cpu_peripherals), final(self).bus_used@, final(self).last_bus@),
            final(self).dmc_dma == old(self).dmc_dma,
            final(self).nmi_detected == old(self).nmi_detected,
            final(self).prev_nmi == old(self).prev_nmi,
    {
        {
            match self.subcycle {
                1 => {
                    self.temp = self.memory_cycle_read(self.pc.wrapping_add(1),
                        bus,
                        cpu_peripherals,
                    );
                    self.subcycle = 2;
                }
                2 => {
                    self.temp2 = self.memory_cycle_read(self.pc.wrapping_add(2),
                        bus,
                        cpu_peripherals,
                    );
                    {
                        let temp = (self.temp2 as u16) << 8 | self.temp as u16;
                        self.copy_debugger(hex16_text("*DCP $", temp, ",X"));
                        self.done_fetching = true;
                    }
                    proof {
                        super::lemma_word(self.temp, self.temp2);
                    }
                    self.subcycle = 3;
                }
                3 => {
                    proof {
                        super::lemma_word(old(self).temp, old(self).temp2);
                        super::lemma_word(((old(self).temp as int + old(self).x as int) % 256) as u8, old(self).temp2);
                    }
                    self.tempaddr = (self.temp2 as u16) << 8 | (self.temp as u16);
                    self.memory_cycle_read((self.temp2 as u16) << 8 | (self.temp.wrapping_add(self.x) as u16),
                        bus,
                        cpu_peripherals,
                    );
                    self.subcycle = 4;
                }
                4 => {
                    proof {
                        super::lemma_word(old(self).temp, old(self).temp2);
                        super::lemma_word(((old(self).temp as int + old(self).x as int) % 256) as u8, old(self).temp2);
                    }
                    self.tempaddr = self.tempaddr.wrapping_add(self.x as u16);
                    self.temp =
                    self.memory_cycle_read(self.tempaddr, bus, cpu_peripherals);
                    self.subcycle = 5;
                }
                5 => {
                    proof {
                        super::lemma_byte_ops(old(self).temp, 0);
                        super::lemma_compare_flags(old(self).p, old(self).a, old(self).temp);
                        super::lemma_compare_flags(old(self).p, old(self).a, super::dec_value(old(self).temp));
                    }
                    self.memory_cycle_write(self.tempaddr, self.temp, bus, cpu_peripherals);
                    self.temp = self.temp.wrapping_sub(1);
                    self.subcycle = 6;
                }
                _ => {
                    proof {
                        super::lemma_byte_ops(old(self).temp, 0);
                        super::lemma_compare_flags(old(self).p, old(self).a, old(self).temp);
                        super::lemma_compare_flags(old(self).p, old(self).a, super::dec_value(old(self).temp));
                    }
                    self.p &= !(CPU_FLAG_ZERO | CPU_FLAG_CARRY | CPU_FLAG_NEGATIVE);
                    if self.a == self.temp {
                        self.p |= CPU_FLAG_ZERO;
                    }
                    if self.a >= self.temp {
                        self.p |= CPU_FLAG_CARRY;
                    }
                    if ((self.a.wrapping_sub(self.temp)) & 0x80) != 0 {
                        self.p |= CPU_FLAG_NEGATIVE;
                    }
                    self.memory_cycle_write(self.tempaddr, self.temp, bus, cpu_peripherals);
                    self.pc = self.pc.wrapping_add(3);
                    self.end_instruction();
                }
            }
        }
    }

    /// isb indirect x, increment memory, sub memory from accumulator, undocumented
    #[verifier::rlimit(100)]
    #[verifier::spinoff_prover]
    pub(crate) fn op_e3<C: CartridgeDevice, K: ControllerDevice, P: PpuDevice, A: ApuDevice>(
        &mut self,
        bus: &mut NesMotherboard<C, K>,
        cpu_peripherals: &mut NesCpuPeripherals<P, A>,
    )
        requires
            old(self).inv(),
            !old(self).reset,
            old(self).opcode == Some(0xe3u8),
            !old(self).bus_used@,
        ensures
            final(self).inv(),
            !final(self).reset,
            step_e3(*old(self), *final(self)),
            final(self).opcode == old(self).opcode || super::finished(*final(self)),
            super::ram_effect(old(bus).spec_ram(), final(bus).spec_ram(), final(self).bus_used@, final(self).last_bus@),
            super::bus_effect(*old(bus), *old(cpu_peripherals), *final(bus), *final(cpu_peripherals), final(self).bus_used@, final(self).last_bus@),
            final(self).dmc_dma == old(self).dmc_dma,
            final(self).nmi_detected == old(self).nmi_detected,
            final(self).prev_nmi == old(self).prev_nmi,
    {
        {
            match self.subcycle {
                1 => {
                    self.temp = self.memory_cycle_read(self.pc.wrapping_add(1),
                        bus,
                        cpu_peripherals,
                    );
                    {
                        self.copy_debugger(hex8_text("*ISB ($", self.temp, ",X)"));
                        self.done_fetching = true;
                    }
                    self.subcycle = 2;
                }
                2 => {
                    self.memory_cycle_read(self.temp as u16, bus, cpu_peripherals);
                    self.subcycle = 3;
                }
                3 => {
                    self.temp = self.temp.wrapping_add(self.x);
                    self.temp2 =
                    self.memory_cycle_read(self.temp as u16, bus, cpu_peripherals);
                    self.subcycle = 4;
                }
                4 => {
                    self.temp = self.memory_cycle_read(self.temp.wrapping_add(1) as u16,
                        bus,
                        cpu_peripherals,
                    );
                    self.subcycle = 5;
                }
                5 => {
                    self.tempaddr = (self.temp as u16) << 8 | (self.temp2 as u16);
                    self.temp =
                    self.memory_cycle_read(self.tempaddr, bus, cpu_peripherals);
                    self.subcycle = 6;
                }
                6 => {
                    self.memory_cycle_write(self.tempaddr, self.temp, bus, cpu_peripherals);
                    self.temp = self.temp.wrapping_add(1);
                    self.subcycle = 7;
                }
                _ => {
                    self.cpu_sbc(self.temp);
                    self.memory_cycle_write(self.tempaddr, self.temp, bus, cpu_peripherals);
                    self.pc = self.pc.wrapping_add(2);
                    self.end_instruction();
                }
            }
        }
        proof {
            super::lemma_byte_ops(old(self).temp, 0);
            super::lemma_word(old(self).temp2, old(self).temp);
            super::lemma_word(((old(self).temp2 as int + old(self).y as int) % 256) as u8, old(self).temp);
        }
    }

    /// isb zero page, undocumented
    #[verifier::rlimit(100)]
    #[verifier::spinoff_prover]
    pub(crate) fn op_e7<C: CartridgeDevice, K: ControllerDevice, P: PpuDevice, A: ApuDevice>(
        &mut self,
        bus: &mut NesMotherboard<C, K>,
        cpu_peripherals: &mut NesCpuPeripherals<P, A>,
    )
        requires
            old(self).inv(),
            !old(self).reset,
            old(self).opcode == Some(0xe7u8),
            !old(self).bus_used@,
        ensures
            final(self).inv(),
            !final(self).reset,
            step_e7(*old(self), *final(self)),
            final(self).opcode == old(self).opcode || super::finished(*final(self)),
            super::ram_effect(old(bus).spec_ram(), final(bus).spec_ram(), final(self).bus_used@, final(self).last_bus@),
            super::bus_effect(*old(bus), *old(cpu_peripherals), *final(bus), *final(cpu_peripherals), final(self).bus_used@, final(self).last_bus@),
            final(self).dmc_dma == old(self).dmc_dma,
            final(self).nmi_detected == old(self).nmi_detected,
            final(self).prev_nmi == old(self).prev_nmi,
    {
        {
            match self.subcycle {
                1 => {
                    self.temp2 = self.memory_cycle_read(self.pc.wrapping_add(1),
                        bus,
                        cpu_peripherals,
                    );
                    {
                        self.copy_debugger(hex8_text("*ISB $", self.temp2, ""));
                        self.done_fetching = true;
                    }
                    self.subcycle = 2;
                }
                2 => {
                    self.temp =
                    self.memory_cycle_read(self.temp2 as u16, bus, cpu_peripherals);
                    self.subcycle = 3;
                }
                3 => {
                    self.temp = self.temp.wrapping_add(1);
                    self.memory_cycle_write(self.temp2 as u16, self.temp, bus, cpu_peripherals);
                    self.subcycle = 4;
                }
                _ => {
                    self.cpu_sbc(self.temp);
                    self.pc = self.pc.wrapping_add(2);
                    self.end_instruction();
                }
            }
        }
        proof {
            super::lemma_byte_ops(old(self).temp, 0);
        }
    }

    /// isb absolute, undocumented
    #[verifier::rlimit(100)]
    #[verifier::spinoff_prover]
    pub(crate) fn op_ef<C: CartridgeDevice, K: ControllerDevice, P: PpuDevice, A: ApuDevice>(
        &mut self,
        bus: &mut NesMotherboard<C, K>,
        cpu_peripherals: &mut NesCpuPeripherals<P, A>,
    )
        requires
            old(self).inv(),
            !old(self).reset,
            old(self).opcode == Some(0xefu8),
            !old(self).bus_used@,
        ensures
            final(self).inv(),
            !final(self).reset,
            step_ef(*old(self), *final(self)),
            final(self).opcode == old(self).opcode || super::finished(*final(self)),
            super::ram_effect(old(bus).spec_ram(), final(bus).spec_ram(), final(self).bus_used@, final(self).last_bus@),
            super::bus_effect(*old(bus), *old(cpu_peripherals), *final(bus), *final(cpu_peripherals), final(self).bus_used@, final(self).last_bus@),
            final(self).dmc_dma == old(self).dmc_dma,
            final(self).nmi_detected == old(self).nmi_detected,
            final(self).prev_nmi == old(self).prev_nmi,
    {
        {
            match self.subcycle {
                1 => {
                    self.temp = self.memory_cycle_read(self.pc.wrapping_add(1),
                        bus,
                        cpu_peripherals,
                    );
                    self.subcycle = 2;
                }
                2 => {
                    self.temp2 = self.memory_cycle_read(self.pc.wrapping_add(2),
                        bus,
                        cpu_peripherals,
                    );
                    {
                        let temp = (self.temp2 as u16) << 8 | self.temp as u16;
                        self.copy_debugger(hex16_text("*ISB $", temp, ""));
                        self.done_fetching = true;
                    }
                    proof {
                        super::lemma_word(self.temp, self.temp2);
                    }
                    self.subcycle = 3;
                }
                3 => {
                    self.tempaddr = (self.temp2 as u16) << 8 | (self.temp as u16);
                    self.temp =
                    self.memory_cycle_read(self.tempaddr, bus, cpu_peripherals);
                    self.subcycle = 4;
                }
                4 => {
                    self.memory_cycle_write(self.tempaddr, self.temp, bus, cpu_peripherals);
                    self.temp = self.temp.wrapping_add(1);
                    self.subcycle = 5;
                }
                _ => {
                    self.cpu_sbc(self.temp);
                    self.memory_cycle_write(self.tempaddr, self.temp, bus, cpu_peripherals);
                    self.pc = self.pc.wrapping_add(3);
                    self.end_instruction();
                }
            }
        }
        proof {
            super::lemma_byte_ops(old(self).temp, 0);
            super::lemma_word(old(self).temp, old(self).temp2);
        }
    }

    /// isb indirect y, undocumented
    #[verifier::rlimit(100)]
    #[verifier::spinoff_prover]
    pub(crate) fn op_f3<C: CartridgeDevice, K: ControllerDevice, P: PpuDevice, A: ApuDevice>(
        &mut self,
        bus: &mut NesMotherboard<C, K>,
        cpu_peripherals: &mut NesCpuPeripherals<P, A>,
    )
        requires
            old(self).inv(),
            !old(self).reset,
            old(self).opcode == Some(0xf3u8),
            !old(self).bus_used@,
        ensures
            final(self).inv(),
            !final(self).reset,
            step_f3(*old(self), *final(self)),
            final(self).opcode == old(self).opcode || super::finished(*final(self)),
            super::ram_effect(old(bus).spec_ram(), final(bus).spec_ram(), final(self).bus_used@, final(self).last_bus@),
            super::bus_effect(*old(bus), *old(cpu_peripherals), *final(bus), *final(cpu_peripherals), final(self).bus_used@, final(self).last_bus@),
            final(self).dmc_dma == old(self).dmc_dma,
            final(self).nmi_detected == old(self).nmi_detected,
            final(self).prev_nmi == old(self).prev_nmi,
    {
        {
            match self.subcycle {
                1 => {
                    self.temp2 = self.memory_cycle_read(self.pc.wrapping_add(1),
                        bus,
                        cpu_peripherals,
                    );
                    {
                        self.copy_debugger(hex8_text("*ISB ($", self.temp2, "),Y"));
                        self.done_fetching = true;
                    }
                    self.subcycle = 2;
                }
                2 => {
                    self.temp =
                    self.memory_cycle_read(self.temp2 as u16, bus, cpu_peripherals);
                    self.subcycle = 3;
                }
                3 => {
                    self.temp2 = self.memory_cycle_read(self.temp2.wrapping_add(1) as u16,
                        bus,
                        cpu_peripherals,
                    );
                    self.subcycle = 4;
                }
                4 => {
                    self.tempaddr = (self.temp2 as u16) << 8 | (self.temp as u16);
                    self.memory_cycle_read((self.temp2 as u16) << 8 | (self.temp.wrapping_add(self.y) as u16),
                        bus,
                        cpu_peripherals,
                    );
                    self.subcycle = 5;
                }
                5 => {
                    self.tempaddr = (self.temp2 as u16) << 8 | (self.temp as u16);
                    self.tempaddr = self.tempaddr.wrapping_add(self.y as u16);
                    self.temp =
                    self.memory_cycle_read(self.tempaddr, bus, cpu_peripherals);
                    self.subcycle = 6;
                }
                6 => {
                    self.memory_cycle_write(self.tempaddr, self.temp, bus, cpu_peripherals);
                    self.subcycle = 7;
                }
                _ => {
                    self.temp = self.temp.wrapping_add(1);
                    self.memory_cycle_write(self.tempaddr, self.temp, bus, cpu_peripherals);
                    self.cpu_sbc(self.temp);
                    self.pc = self.pc.wrapping_add(2);
                    self.end_instruction();
                }
            }
        }
        proof {
            super::lemma_word(old(self).temp, old(self).temp2);
            super::lemma_word(((old(self).temp as int + old(self).y as int) % 256) as u8, old(self).temp2);
            super::lemma_byte_ops(old(self).temp, 0);
            super::lemma_word(old(self).temp2, old(self).temp);
            super::lemma_word(((old(self).temp2 as int + old(self).y as int) % 256) as u8, old(self).temp);
        }
    }

    /// isb zero page x, undocumented
    #[verifier::rlimit(100)]
    #[verifier::spinoff_prover]
    pub(crate) fn op_f7<C: CartridgeDevice, K: ControllerDevice, P: PpuDevice, A: ApuDevice>(
        &mut self,
        bus: &mut NesMotherboard<C, K>,
        cpu_peripherals: &mut NesCpuPeripherals<P, A>,
    )
        requires
            old(self).inv(),
            !old(self).reset,
            old(self).opcode == Some(0xf7u8),
            !old(self).bus_used@,
        ensures
            final(self).inv(),
            !final(self).reset,
            step_f7(*old(self), *final(self)),
            final(self).opcode == old(self).opcode || super::finished(*final(self)),
            super::ram_effect(old(bus).spec_ram(), final(bus).spec_ram(), final(self).bus_used@, final(self).last_bus@),
            super::bus_effect(*old(bus), *old(cpu_peripherals), *final(bus), *final(cpu_peripherals), final(self).bus_used@, final(self).last_bus@),
            final(self).dmc_dma == old(self).dmc_dma,
            final(self).nmi_detected == old(self).nmi_detected,
            final(self).prev_nmi == old(self).prev_nmi,
    {
        {
            match self.subcycle {
                1 => {
                    self.temp2 = self.memory_cycle_read(self.pc.wrapping_add(1),
                        bus,
                        cpu_peripherals,
                    );
                    {
                        self.copy_debugger(hex8_text("*ISB $", self.temp2, ",X"));
                        self.done_fetching = true;
                    }
                    self.subcycle = 2;
                }
                2 => {
                    self.memory_cycle_read(self.temp2 as u16, bus, cpu_peripherals);
                    self.subcycle = 3;
                }
                3 => {
                    self.temp2 = self.temp2.wrapping_add(self.x);
                    self.temp =
                    self.memory_cycle_read(self.temp2 as u16, bus, cpu_peripherals);
                    self.subcycle = 4;
                }
                4 => {
                    self.memory_cycle_write(self.temp2 as u16, self.temp, bus, cpu_peripherals);
                    self.subcycle = 5;
                }
                _ => {
                    self.temp = self.temp.wrapping_add(1);
                    self.memory_cycle_write(self.temp2 as u16, self.temp, bus, cpu_peripherals);
                    self.cpu_sbc(self.temp);
                    self.pc = self.pc.wrapping_add(2);
                    self.end_instruction();
                }
            }
        }
        proof {
            super::lemma_byte_ops(old(self).temp, 0);
        }
    }

    /// isb absolute y, undocumented
    #[verifier::rlimit(100)]
    #[verifier::spinoff_prover]
    pub(crate) fn op_fb<C: CartridgeDevice, K: ControllerDevice, P: PpuDevice, A: ApuDevice>(
        &mut self,
        bus: &mut NesMotherboard<C, K>,
        cpu_peripherals: &mut NesCpuPeripherals<P, A>,
    )
        requires
            old(self).inv(),
            !old(self).reset,
            old(self).opcode == Some(0xfbu8),
            !old(self).bus_used@,
        ensures
            final(self).inv(),
            !final(self).reset,
            step_fb(*old(self), *final(self)),
            final(self).opcode == old(self).opcode || super::finished(*final(self)),
            super::ram_effect(old(bus).spec_ram(), final(bus).spec_ram(), final(self).bus_used@, final(self).last_bus@),
            super::bus_effect(*old(bus), *old(cpu_peripherals), *final(bus), *final(cpu_peripherals), final(self).bus_used@, final(self).last_bus@),
            final(self).dmc_dma == old(self).dmc_dma,
            final(self).nmi_detected == old(self).nmi_detected,
            final(self).prev_nmi == old(self).prev_nmi,
    {
        {
            match self.subcycle {
                1 => {
                    self.temp = self.memory_cycle_read(self.pc.wrapping_add(1),
                        bus,
                        cpu_peripherals,
                    );
                    self.subcycle = 2;
                }
                2 => {
                    self.temp2 = self.memory_cycle_read(self.pc.wrapping_add(2),
                        bus,
                        cpu_peripherals,
                    );
                    {
                        let temp = (self.temp2 as u16) << 8 | self.temp as u16;
                        self.copy_debugger(hex16_text("*ISB $", temp, ",Y"));
                        self.done_fetching = true;
                    }
                    proof {
                        super::lemma_word(self.temp, self.temp2);
                    }
                    self.subcycle = 3;
                }
                3 => {
                    self.tempaddr = (self.temp2 as u16) << 8 | (self.temp as u16);
                    self.memory_cycle_read((self.temp2 as u16) << 8 | (self.temp.wrapping_add(self.y) as u16),
                        bus,
                        cpu_peripherals,
                    );
                    self.subcycle = 4;
                }
                4 => {
                    self.tempaddr = self.tempaddr.wrapping_add(self.y as u16);
                    self.temp =
                    self.memory_cycle_read(self.tempaddr, bus, cpu_peripherals);
                    self.subcycle = 5;
                }
                5 => {
                    self.memory_cycle_write(self.tempaddr, self.temp, bus, cpu_peripherals);
                    self.temp = self.temp.wrapping_add(1);
                    self.subcycle = 6;
                }
                _ => {
                    self.memory_cycle_write(self.tempaddr, self.temp, bus, cpu_peripherals);
                    self.cpu_sbc(self.temp);
                    self.pc = self.pc.wrapping_add(3);
                    self.end_instruction();
                }
            }
        }
        proof {
            super::lemma_byte_ops(old(self).temp, 0);
            super::lemma_word(old(self).temp, old(self).temp2);
            super::lemma_word(((old(self).temp as int + old(self).y as int) % 256) as u8, old(self).temp2);
        }
    }

    /// isb absolute x, undocumented
    #[verifier::rlimit(100)]
    #[verifier::spinoff_prover]
    pub(crate) fn op_ff<C: CartridgeDevice, K: ControllerDevice, P: PpuDevice, A: ApuDevice>(
        &mut self,
        bus: &mut NesMotherboard<C, K>,
        cpu_peripherals: &mut NesCpuPeripherals<P, A>,
    )
        requires
            old(self).inv(),
            !old(self).reset,
            old(self).opcode == Some(0xffu8),
            !old(self).bus_used@,
        ensures
            final(self).inv(),
            !final(self).reset,
            step_ff(*old(self), *final(self)),
            final(self).opcode == old(self).opcode || super::finished(*final(self)),
            super::ram_effect(old(bus).spec_ram(), final(bus).spec_ram(), final(self).bus_used@, final(self).last_bus@),
            super::bus_effect(*old(bus), *old(cpu_peripherals), *final(bus), *final(cpu_peripherals), final(self).bus_used@, final(self).last_bus@),
            final(self).dmc_dma == old(self).dmc_dma,
            final(self).nmi_detected == old(self).nmi_detected,
            final(self).prev_nmi == old(self).prev_nmi,
    {
        {
            match self.subcycle {
                1 => {
                    self.temp = self.memory_cycle_read(self.pc.wrapping_add(1),
                        bus,
                        cpu_peripherals,
                    );
                    self.subcycle = 2;
                }
                2 => {
                    self.temp2 = self.memory_cycle_read(self.pc.wrapping_add(2),
                        bus,
                        cpu_peripherals,
                    );
                    {
                        let temp = (self.temp2 as u16) << 8 | self.temp as u16;
                        self.copy_debugger(hex16_text("*ISB $", temp, ",X"));
                        self.done_fetching = true;
                    }
                    proof {
                        super::lemma_word(self.temp, self.temp2);
                    }
                    self.subcycle = 3;
                }
                3 => {
                    self.tempaddr = (self.temp2 as u16) << 8 | (self.temp as u16);
                    self.memory_cycle_read((self.temp2 as u16) << 8 | (self.temp.wrapping_add(self.x) as u16),
                        bus,
                        cpu_peripherals,
                    );
                    self.subcycle = 4;
                }
                4 => {
                    self.tempaddr = self.tempaddr.wrapping_add(self.x as u16);
                    self.temp =
                    self.memory_cycle_read(self.tempaddr, bus, cpu_peripherals);
                    self.subcycle = 5;
                }
                5 => {
                    self.memory_cycle_write(self.tempaddr, self.temp, bus, cpu_peripherals);
                    self.temp = self.temp.wrapping_add(1);
                    self.subcycle = 6;
                }
                _ => {
                    self.cpu_sbc(self.temp);
                    self.memory_cycle_write(self.tempaddr, self.temp, bus, cpu_peripherals);
                    self.pc = self.pc.wrapping_add(3);
                    self.end_instruction();
                }
            }
        }
        proof {
            super::lemma_byte_ops(old(self).temp, 0);
            super::lemma_word(old(self).temp, old(self).temp2);
            super::lemma_word(((old(self).temp as int + old(self).x as int) % 256) as u8, old(self).temp2);
        }
    }

    /// slo shift left, then or with accumulator, undocumented
    /// indirect x
    #[verifier::rlimit(100)]
    #[verifier::spinoff_prover]
    pub(crate) fn op_03<C: CartridgeDevice, K: ControllerDevice, P: PpuDevice, A: ApuDevice>(
        &mut self,
        bus: &mut NesMotherboard<C, K>,
        cpu_peripherals: &mut NesCpuPeripherals<P, A>,
    )
        requires
            old(self).inv(),
            !old(self).reset,
            old(self).opcode == Some(0x03u8),
            !old(self).bus_used@,
        ensures
            final(self).inv(),
            !final(self).reset,
            step_03(*old(self), *final(self)),
            final(self).opcode == old(self).opcode || super::finished(*final(self)),
            super::ram_effect(old(bus).spec_ram(), final(bus).spec_ram(), final(self).bus_used@, final(self).last_bus@),
            super::bus_effect(*old(bus), *old(cpu_peripherals), *final(bus), *final(cpu_peripherals), final(self).bus_used@, final(self).last_bus@),
            final(self).dmc_dma == old(self).dmc_dma,
            final(self).nmi_detected == old(self).nmi_detected,
            final(self).prev_nmi == old(self).prev_nmi,
    {
        {
            match self.subcycle {
                1 => {
                    self.temp = self.memory_cycle_read(self.pc.wrapping_add(1),
                        bus,
                        cpu_peripherals,
                    );
                    {
                        self.copy_debugger(hex8_text("*SLO ($", self.temp, ",X)"));
                        self.done_fetching = true;
                    }
                    self.subcycle = 2;
                }
                2 => {
                    self.memory_cycle_read(self.temp as u16, bus, cpu_peripherals);
                    self.subcycle = 3;
                }
                3 => {
                    self.temp = self.temp.wrapping_add(self.x);
                    self.temp2 =
                    self.memory_cycle_read(self.temp as u16, bus, cpu_peripherals);
                    self.subcycle = 4;
                }
                4 => {
                    self.temp = self.memory_cycle_read(self.temp.wrapping_add(1) as u16,
                        bus,
                        cpu_peripherals,
                    );
                    self.subcycle = 5;
                }
                5 => {
                    self.tempaddr = (self.temp as u16) << 8 | (self.temp2 as u16);
                    self.temp =
                    self.memory_cycle_read(self.tempaddr, bus, cpu_peripherals);
                    self.subcycle = 6;
                }
                6 => {
                    self.memory_cycle_write(self.tempaddr, self.temp, bus, cpu_peripherals);
                    self.subcycle = 7;
                }
                _ => {
                    self.p &= !(CPU_FLAG_NEGATIVE | CPU_FLAG_ZERO | CPU_FLAG_CARRY);
                    if (self.temp & 0x80) != 0 {
                        self.p |= CPU_FLAG_CARRY;
                    }
                    self.temp <<= 1;
                    self.a |= self.temp;
                    if self.a == 0 {
                        self.p |= CPU_FLAG_ZERO;
                    }
                    if (self.a & 0x80) != 0 {
                        self.p |= CPU_FLAG_NEGATIVE;
                    }
                    self.memory_cycle_write(self.tempaddr, self.temp, bus, cpu_peripherals);
                    self.pc = self.pc.wrapping_add(2);
                    self.end_instruction();
                }
            }
        }
        proof {
            super::lemma_byte_ops(old(self).temp, 0);
            super::lemma_carry_flags(old(self).p, (old(self).temp & 0x80) != 0);
            super::lemma_shift_flags(old(self).p, self.a, (old(self).temp & 0x80) != 0);
            super::lemma_or_nz(old(self).p, self.a);
            super::lemma_word(old(self).temp2, old(self).temp);
            super::lemma_word(((old(self).temp2 as int + old(self).y as int) % 256) as u8, old(self).temp);
        }
    }

    /// slo zero page, undocumented
    #[verifier::rlimit(100)]
    #[verifier::spinoff_prover]
    pub(crate) fn op_07<C: CartridgeDevice, K: ControllerDevice, P: PpuDevice, A: ApuDevice>(
        &mut self,
        bus: &mut NesMotherboard<C, K>,
        cpu_peripherals: &mut NesCpuPeripherals<P, A>,
    )
        requires
            old(self).inv(),
            !old(self).reset,
            old(self).opcode == Some(0x07u8),
            !old(self).bus_used@,
        ensures
            final(self).inv(),
            !final(self).reset,
            step_07(*old(self), *final(self)),
            final(self).opcode == old(self).opcode || super::finished(*final(self)),
            super::ram_effect(old(bus).spec_ram(), final(bus).spec_ram(), final(self).bus_used@, final(self).last_bus@),
            super::bus_effect(*old(bus), *old(cpu_peripherals), *final(bus), *final(cpu_peripherals), final(self).bus_used@, final(self).last_bus@),
            final(self).dmc_dma == old(self).dmc_dma,
            final(self).nmi_detected == old(self).nmi_detected,
            final(self).prev_nmi == old(self).prev_nmi,
    {
        {
            match self.subcycle {
                1 => {
                    self.temp2 = self.memory_cycle_read(self.pc.wrapping_add(1),
                        bus,
                        cpu_peripherals,
                    );
                    {
                        self.copy_debugger(hex8_text("*SLO $", self.temp2, ""));
                        self.done_fetching = true;
                    }
                    self.subcycle = 2;
                }
                2 => {
                    self.temp =
                    self.memory_cycle_read(self.temp2 as u16, bus, cpu_peripherals);
                    self.subcycle = 3;
                }
                3 => {
                    self.p &= !(CPU_FLAG_NEGATIVE | CPU_FLAG_ZERO | CPU_FLAG_CARRY);
                    if (self.temp & 0x80) != 0 {
                        self.p |= CPU_FLAG_CARRY;
                    }
                    self.temp <<= 1;
                    self.memory_cycle_write(self.temp2 as u16, self.temp, bus, cpu_peripherals);
                    self.subcycle = 4;
                }
                _ => {
                    self.a |= self.temp;
                    if self.a == 0 {
                        self.p |= CPU_FLAG_ZERO;
                    }
                    if (self.a & 0x80) != 0 {
                        self.p |= CPU_FLAG_NEGATIVE;
                    }
                    self.pc = self.pc.wrapping_add(2);
                    self.end_instruction();
                }
            }
        }
        proof {
            super::lemma_byte_ops(old(self).temp, 0);
            super::lemma_carry_flags(old(self).p, (old(self).temp & 0x80) != 0);
            super::lemma_shift_flags(old(self).p, self.a, (old(self).temp & 0x80) != 0);
            super::lemma_or_nz(old(self).p, self.a);
        }
    }

    /// slo absolute, undocumented
    #[verifier::rlimit(100)]
    #[verifier::spinoff_prover]
    pub(crate) fn op_0f<C: CartridgeDevice, K: ControllerDevice, P: PpuDevice, A: ApuDevice>(
        &mut self,
        bus: &mut NesMotherboard<C, K>,
        cpu_peripherals: &mut NesCpuPeripherals<P, A>,
    )
        requires
            old(self).inv(),
            !old(self).reset,
            old(self).opcode == Some(0x0fu8),
            !old(self).bus_used@,
        ensures
            final(self).inv(),
            !final(self).reset,
            step_0f(*old(self), *final(self)),
            final(self).opcode == old(self).opcode || super::finished(*final(self)),
            super::ram_effect(old(bus).spec_ram(), final(bus).spec_ram(), final(self).bus_used@, final(self).last_bus@),
            super::bus_effect(*old(bus), *old(cpu_peripherals), *final(bus), *final(cpu_peripherals), final(self).bus_used@, final(self).last_bus@),
            final(self).dmc_dma == old(self).dmc_dma,
            final(self).nmi_detected == old(self).nmi_detected,
            final(self).prev_nmi == old(self).prev_nmi,
    {
        {
            match self.subcycle {
                1 => {
                    self.temp = self.memory_cycle_read(self.pc.wrapping_add(1),
                        bus,
                        cpu_peripherals,
                    );
                    self.subcycle = 2;
                }
                2 => {
                    self.temp2 = self.memory_cycle_read(self.pc.wrapping_add(2),
                        bus,
                        cpu_peripherals,
                    );
                    {
                        let temp = (self.temp2 as u16) << 8 | self.temp as u16;
                        self.copy_debugger(hex16_text("*SLO $", temp, ""));
                        self.done_fetching = true;
                    }
                    proof {
                        super::lemma_word(self.temp, self.temp2);
                    }
                    self.subcycle = 3;
                }
                3 => {
                    self.tempaddr = (self.temp2 as u16) << 8 | (self.temp as u16);
                    self.temp =
                    self.memory_cycle_read(self.tempaddr, bus, cpu_peripherals);
                    self.subcycle = 4;
                }
                4 => {
                    self.memory_cycle_write(self.tempaddr, self.temp, bus, cpu_peripherals);
                    self.p &= !(CPU_FLAG_NEGATIVE | CPU_FLAG_ZERO | CPU_FLAG_CARRY);
                    if (self.temp & 0x80) != 0 {
                        self.p |= CPU_FLAG_CARRY;
                    }
                    self.temp <<= 1;
                    self.subcycle = 5;
                }
                _ => {
                    self.a |= self.temp;
                    if self.a == 0 {
                        self.p |= CPU_FLAG_ZERO;
                    }
                    if (self.a & 0x80) != 0 {
                        self.p |= CPU_FLAG_NEGATIVE;
                    }
                    self.memory_cycle_write(self.tempaddr, self.temp, bus, cpu_peripherals);
                    self.pc = self.pc.wrapping_add(3);
                    self.end_instruction();
                }
            }
        }
        proof {
            super::lemma_byte_ops(old(self).temp, 0);
            super::lemma_carry_flags(old(self).p, (old(self).temp & 0x80) != 0);
            super::lemma_shift_flags(old(self).p, self.a, (old(self).temp & 0x80) != 0);
            super::lemma_or_nz(old(self).p, self.a);
            super::lemma_word(old(self).temp, old(self).temp2);
        }
    }

    /// slo indirect y, undocumented
    #[verifier::rlimit(100)]
    #[verifier::spinoff_prover]
    pub(crate) fn op_13<C: CartridgeDevice, K: ControllerDevice, P: PpuDevice, A: ApuDevice>(
        &mut self,
        bus: &mut NesMotherboard<C, K>,
        cpu_peripherals: &mut NesCpuPeripherals<P, A>,
    )
        requires
            old(self).inv(),
            !old(self).reset,
            old(self).opcode == Some(0x13u8),
            !old(self).bus_used@,
        ensures
            final(self).inv(),
            !final(self).reset,
            step_13(*old(self), *final(self)),
            final(self).opcode == old(self).opcode || super::finished(*final(self)),
            super::ram_effect(old(bus).spec_ram(), final(bus).spec_ram(), final(self).bus_used@, final(self).last_bus@),
            super::bus_effect(*old(bus), *old(cpu_peripherals), *final(bus), *final(cpu_peripherals), final(self).bus_used@, final(self).last_bus@),
            final(self).dmc_dma == old(self).dmc_dma,
            final(self).nmi_detected == old(self).nmi_detected,
            final(self).prev_nmi == old(self).prev_nmi,
    {
        {
            match self.subcycle {
                1 => {
                    self.temp2 = self.memory_cycle_read(self.pc.wrapping_add(1),
                        bus,
                        cpu_peripherals,
                    );
                    {
                        self.copy_debugger(hex8_text("*SLO ($", self.temp2, "),Y"));
                        self.done_fetching = true;
                    }
                    self.subcycle = 2;
                }
                2 => {
                    self.temp =
                    self.memory_cycle_read(self.temp2 as u16, bus, cpu_peripherals);
                    self.subcycle = 3;
                }
                3 => {
                    self.temp2 = self.memory_cycle_read(self.temp2.wrapping_add(1) as u16,
                        bus,
                        cpu_peripherals,
                    );
                    self.subcycle = 4;
                }
                4 => {
                    self.tempaddr = (self.temp2 as u16) << 8 | (self.temp as u16);
                    self.memory_cycle_read((self.temp2 as u16) << 8 | (self.temp.wrapping_add(self.y) as u16),
                        bus,
                        cpu_peripherals,
                    );
                    self.subcycle = 5;
                }
                5 => {
                    self.tempaddr = self.tempaddr.wrapping_add(self.y as u16);
                    self.temp =
                    self.memory_cycle_read(self.tempaddr, bus, cpu_peripherals);
                    self.subcycle = 6;
                }
                6 => {
                    self.memory_cycle_write(self.tempaddr, self.temp, bus, cpu_peripherals);
                    self.subcycle = 7;
                }
                _ => {
                    self.p &= !(CPU_FLAG_NEGATIVE | CPU_FLAG_ZERO | CPU_FLAG_CARRY);
                    if (self.temp & 0x80) != 0 {
                        self.p |= CPU_FLAG_CARRY;
                    }
                    self.temp <<= 1;
                    self.memory_cycle_write(self.tempaddr, self.temp, bus, cpu_peripherals);
                    self.a |= self.temp;
                    if self.a == 0 {
                        self.p |= CPU_FLAG_ZERO;
                    }
                    if (self.a & 0x80) != 0 {
                        self.p |= CPU_FLAG_NEGATIVE;
                    }
                    self.pc = self.pc.wrapping_add(2);
                    self.end_instruction();
                }
            }
        }
        proof {
            super::lemma_word(old(self).temp, old(self).temp2);
            super::lemma_word(((old(self).temp as int + old(self).y as int) % 256) as u8, old(self).temp2);
            super::lemma_byte_ops(old(self).temp, 0);
            super::lemma_carry_flags(old(self).p, (old(self).temp & 0x80) != 0);
            super::lemma_shift_flags(old(self).p, self.a, (old(self).temp & 0x80) != 0);
            super::lemma_or_nz(old(self).p, self.a);
            super::lemma_word(old(self).temp2, old(self).temp);
            super::lemma_word(((old(self).temp2 as int + old(self).y as int) % 256) as u8, old(self).temp);
        }
    }

    /// slo zero page x, undocumented
    #[verifier::rlimit(100)]
    #[verifier::spinoff_prover]
    pub(crate) fn op_17<C: CartridgeDevice, K: ControllerDevice, P: PpuDevice, A: ApuDevice>(
        &mut self,
        bus: &mut NesMotherboard<C, K>,
        cpu_peripherals: &mut NesCpuPeripherals<P, A>,
    )
        requires
            old(self).inv(),
            !old(self).reset,
            old(self).opcode == Some(0x17u8),
            !old(self).bus_used@,
        ensures
            final(self).inv(),
            !final(self).reset,
            step_17(*old(self), *final(self)),
            final(self).opcode == old(self).opcode || super::finished(*final(self)),
            super::ram_effect(old(bus).spec_ram(), final(bus).spec_ram(), final(self).bus_used@, final(self).last_bus@),
            super::bus_effect(*old(bus), *old(cpu_peripherals), *final(bus), *final(cpu_peripherals), final(self).bus_used@, final(self).last_bus@),
            final(self).dmc_dma == old(self).dmc_dma,
            final(self).nmi_detected == old(self).nmi_detected,
            final(self).prev_nmi == old(self).prev_nmi,
    {
        {
            match self.subcycle {
                1 => {
                    self.temp2 = self.memory_cycle_read(self.pc.wrapping_add(1),
                        bus,
                        cpu_peripherals,
                    );
                    {
                        self.copy_debugger(hex8_text("*SLO $", self.temp2, ",X"));
                        self.done_fetching = true;
                    }
                    self.subcycle = 2;
                }
                2 => {
                    self.memory_cycle_read(self.temp2 as u16, bus, cpu_peripherals);
                    self.subcycle = 3;
                }
                3 => {
                    self.temp2 = self.temp2.wrapping_add(self.x);
                    self.temp =
                    self.memory_cycle_read(self.temp2 as u16, bus, cpu_peripherals);
                    self.subcycle = 4;
                }
                4 => {
                    self.memory_cycle_write(self.temp2 as u16, self.temp, bus, cpu_peripherals);
                    self.subcycle = 5;
                }
                _ => {
                    self.p &= !(CPU_FLAG_NEGATIVE | CPU_FLAG_ZERO | CPU_FLAG_CARRY);
                    if (self.temp & 0x80) != 0 {
                        self.p |= CPU_FLAG_CARRY;
                    }
                    self.temp <<= 1;
                    self.memory_cycle_write(self.temp2 as u16, self.temp, bus, cpu_peripherals);
                    self.a |= self.temp;
                    if self.a == 0 {
                        self.p |= CPU_FLAG_ZERO;
                    }
                    if (self.a & 0x80) != 0 {
                        self.p |= CPU_FLAG_NEGATIVE;
                    }
                    self.pc = self.pc.wrapping_add(2);
                    self.end_instruction();
                }
            }
        }
        proof {
            super::lemma_byte_ops(old(self).temp, 0);
            super::lemma_carry_flags(old(self).p, (old(self).temp & 0x80) != 0);
            super::lemma_shift_flags(old(self).p, self.a, (old(self).temp & 0x80) != 0);
            super::lemma_or_nz(old(self).p, self.a);
        }
    }

    /// slo absolute y, undocumented
    #[verifier::rlimit(100)]
    #[verifier::spinoff_prover]
    pub(crate) fn op_1b<C: CartridgeDevice, K: ControllerDevice, P: PpuDevice, A: ApuDevice>(
        &mut self,
        bus: &mut NesMotherboard<C, K>,
        cpu_peripherals: &mut NesCpuPeripherals<P, A>,
    )
        requires
            old(self).inv(),
            !old(self).reset,
            old(self).opcode == Some(0x1bu8),
            !old(self).bus_used@,
        ensures
            final(self).inv(),
            !final(self).reset,
            step_1b(*old(self), *final(self)),
            final(self).opcode == old(self).opcode || super::finished(*final(self)),
            super::ram_effect(old(bus).spec_ram(), final(bus).spec_ram(), final(self).bus_used@, final(self).last_bus@),
            super::bus_effect(*old(bus), *old(cpu_peripherals), *final(bus), *final(cpu_peripherals), final(self).bus_used@, final(self).last_bus@),
            final(self).dmc_dma == old(self).dmc_dma,
            final(self).nmi_detected == old(self).nmi_detected,
            final(self).prev_nmi == old(self).prev_nmi,
    {
        {
            match self.subcycle {
                1 => {
                    self.temp = self.memory_cycle_read(self.pc.wrapping_add(1),
                        bus,
                        cpu_peripherals,
                    );
                    self.subcycle = 2;
                }
                2 => {
                    self.temp2 = self.memory_cycle_read(self.pc.wrapping_add(2),
                        bus,
                        cpu_peripherals,
                    );
                    {
                        let temp = (self.temp2 as u16) << 8 | self.temp as u16;
                        self.copy_debugger(hex16_text("*SLO $", temp, ",Y"));
                        self.done_fetching = true;
                    }
                    proof {
                        super::lemma_word(self.temp, self.temp2);
                    }
                    self.subcycle = 3;
                }
                3 => {
                    self.tempaddr = (self.temp2 as u16) << 8 | (self.temp as u16);
                    self.memory_cycle_read((self.temp2 as u16) << 8 | (self.temp.wrapping_add(self.y) as u16),
                        bus,
                        cpu_peripherals,
                    );
                    self.subcycle = 4;
                }
                4 => {
                    self.tempaddr = self.tempaddr.wrapping_add(self.y as u16);
                    self.temp =
                    self.memory_cycle_read(self.tempaddr, bus, cpu_peripherals);
                    self.subcycle = 5;
                }
                5 => {
                    self.memory_cycle_write(self.tempaddr, self.temp, bus, cpu_peripherals);
                    self.p &= !(CPU_FLAG_NEGATIVE | CPU_FLAG_ZERO | CPU_FLAG_CARRY);
                    if (self.temp & 0x80) != 0 {
                        self.p |= CPU_FLAG_CARRY;
                    }
                    self.temp <<= 1;
                    self.subcycle = 6;
                }
                _ => {
                    self.memory_cycle_write(self.tempaddr, self.temp, bus, cpu_peripherals);
                    self.a |= self.temp;
                    if self.a == 0 {
                        self.p |= CPU_FLAG_ZERO;
                    }
                    if (self.a & 0x80) != 0 {
                        self.p |= CPU_FLAG_NEGATIVE;
                    }
                    self.pc = self.pc.wrapping_add(3);
                    self.end_instruction();
                }
            }
        }
        proof {
            super::lemma_byte_ops(old(self).temp, 0);
            super::lemma_carry_flags(old(self).p, (old(self).temp & 0x80) != 0);
            super::lemma_shift_flags(old(self).p, self.a, (old(self).temp & 0x80) != 0);
            super::lemma_or_nz(old(self).p, self.a);
            super::lemma_word(old(self).temp, old(self).temp2);
            super::lemma_word(((old(self).temp as int + old(self).y as int) % 256) as u8, old(self).temp2);
        }
    }

    /// slo absolute x, undocumented
    #[verifier::rlimit(100)]
    #[verifier::spinoff_prover]
    pub(crate) fn op_1f<C: CartridgeDevice, K: ControllerDevice, P: PpuDevice, A: ApuDevice>(
        &mut self,
        bus: &mut NesMotherboard<C, K>,
        cpu_peripherals: &mut NesCpuPeripherals<P, A>,
    )
        requires
            old(self).inv(),
            !old(self).reset,
            old(self).opcode == Some(0x1fu8),
            !old(self).bus_used@,
        ensures
            final(self).inv(),
            !final(self).reset,
            step_1f(*old(self), *final(self)),
            final(self).opcode == old(self).opcode || super::finished(*final(self)),
            super::ram_effect(old(bus).spec_ram(), final(bus).spec_ram(), final(self).bus_used@, final(self).last_bus@),
            super::bus_effect(*old(bus), *old(cpu_peripherals), *final(bus), *final(cpu_peripherals), final(self).bus_used@, final(self).last_bus@),
            final(self).dmc_dma == old(self).dmc_dma,
            final(self).nmi_detected == old(self).nmi_detected,
            final(self).prev_nmi == old(self).prev_nmi,
    {
        {
            match self.subcycle {
                1 => {
                    self.temp = self.memory_cycle_read(self.pc.wrapping_add(1),
                        bus,
                        cpu_peripherals,
                    );
                    self.subcycle = 2;
                }
                2 => {
                    self.temp2 = self.memory_cycle_read(self.pc.wrapping_add(2),
                        bus,
                        cpu_peripherals,
                    );
                    {
                        let temp = (self.temp2 as u16) << 8 | self.temp as u16;
                        self.copy_debugger(hex16_text("*SLO $", temp, ",X"));
                        self.done_fetching = true;
                    }
                    proof {
                        super::lemma_word(self.temp, self.temp2);
                    }
                    self.subcycle = 3;
                }
                3 => {
                    self.tempaddr = (self.temp2 as u16) << 8 | (self.temp as u16);
                    self.memory_cycle_read((self.temp2 as u16) << 8 | (self.temp.wrapping_add(self.x) as u16),
                        bus,
                        cpu_peripherals,
                    );
                    self.subcycle = 4;
                }
                4 => {
                    self.tempaddr = self.tempaddr.wrapping_add(self.x as u16);
                    self.temp =
                    self.memory_cycle_read(self.tempaddr, bus, cpu_peripherals);
                    self.subcycle = 5;
                }
                5 => {
                    self.memory_cycle_write(self.tempaddr, self.temp, bus, cpu_peripherals);
                    self.p &= !(CPU_FLAG_NEGATIVE | CPU_FLAG_ZERO | CPU_FLAG_CARRY);
                    if (self.temp & 0x80) != 0 {
                        self.p |= CPU_FLAG_CARRY;
                    }
                    self.temp <<= 1;
                    self.subcycle = 6;
                }
                _ => {
                    self.a |= self.temp;
                    if self.a == 0 {
                        self.p |= CPU_FLAG_ZERO;
                    }
                    if (self.a & 0x80) != 0 {
                        self.p |= CPU_FLAG_NEGATIVE;
                    }
                    self.memory_cycle_write(self.tempaddr, self.temp, bus, cpu_peripherals);
                    self.pc = self.pc.wrapping_add(3);
                    self.end_instruction();
                }
            }
        }
        proof {
            super::lemma_byte_ops(old(self).temp, 0);
            super::lemma_carry_flags(old(self).p, (old(self).temp & 0x80) != 0);
            super::lemma_shift_flags(old(self).p, self.a, (old(self).temp & 0x80) != 0);
            super::lemma_or_nz(old(self).p, self.a);
            super::lemma_word(old(self).temp, old(self).temp2);
            super::lemma_word(((old(self).temp as int + old(self).x as int) % 256) as u8, old(self).temp2);
        }
    }

    /// rla, rotate left, then and with accumulator, undocumented
    /// indirect x
    #[verifier::rlimit(100)]
    #[verifier::spinoff_prover]
    pub(crate) fn op_23<C: CartridgeDevice, K: ControllerDevice, P: PpuDevice, A: ApuDevice>(
        &mut self,
        bus: &mut NesMotherboard<C, K>,
        cpu_peripherals: &mut NesCpuPeripherals<P, A>,
    )
        requires
            old(self).inv(),
            !old(self).reset,
            old(self).opcode == Some(0x23u8),
            !old(self).bus_used@,
        ensures
            final(self).inv(),
            !final(self).reset,
            step_23(*old(self), *final(self)),
            final(self).opcode == old(self).opcode || super::finished(*final(self)),
            super::ram_effect(old(bus).spec_ram(), final(bus).spec_ram(), final(self).bus_used@, final(self).last_bus@),
            super::bus_effect(*old(bus), *old(cpu_peripherals), *final(bus), *final(cpu_peripherals), final(self).bus_used@, final(self).last_bus@),
            final(self).dmc_dma == old(self).dmc_dma,
            final(self).nmi_detected == old(self).nmi_detected,
            final(self).prev_nmi == old(self).prev_nmi,
    {
        {
            match self.subcycle {
                1 => {
                    self.temp = self.memory_cycle_read(self.pc.wrapping_add(1),
                        bus,
                        cpu_peripherals,
                    );
                    {
                        self.copy_debugger(hex8_text("*RLA ($", self.temp, ",X)"));
                        self.done_fetching = true;
                    }
                    self.subcycle = 2;
                }
                2 => {
                    self.memory_cycle_read(self.temp as u16, bus, cpu_peripherals);
                    self.subcycle = 3;
                }
                3 => {
                    self.temp = self.temp.wrapping_add(self.x);
                    self.temp2 =
                    self.memory_cycle_read(self.temp as u16, bus, cpu_peripherals);
                    self.subcycle = 4;
                }
                4 => {
                    self.temp = self.memory_cycle_read(self.temp.wrapping_add(1) as u16,
                        bus,
                        cpu_peripherals,
                    );
                    self.subcycle = 5;
                }
                5 => {
                    self.tempaddr = (self.temp as u16) << 8 | (self.temp2 as u16);
                    self.temp =
                    self.memory_cycle_read(self.tempaddr, bus, cpu_peripherals);
                    self.subcycle = 6;
                }
                6 => {
                    self.memory_cycle_write(self.tempaddr, self.temp, bus, cpu_peripherals);
                    let old_carry = (self.p & CPU_FLAG_CARRY) != 0;
                    self.p &= !(CPU_FLAG_CARRY | CPU_FLAG_ZERO | CPU_FLAG_NEGATIVE);
                    if (self.temp & 0x80) != 0 {
                        self.p |= CPU_FLAG_CARRY;
                    }
                    self.temp <<= 1;
                    if old_carry {
                        self.temp |= 0x1;
                    }
                    self.a &= self.temp;
                    if self.a == 0 {
                        self.p |= CPU_FLAG_ZERO;
                    }
                    if (self.a & 0x80) != 0 {
                        self.p |= CPU_FLAG_NEGATIVE;
                    }
                    self.subcycle = 7;
                }
                _ => {
                    self.memory_cycle_write(self.tempaddr, self.temp, bus, cpu_peripherals);
                    self.pc = self.pc.wrapping_add(2);
                    self.end_instruction();
                }
            }
        }
        proof {
            super::lemma_byte_ops(old(self).temp, 0);
            super::lemma_carry_flags(old(self).p, (old(self).temp & 0x80) != 0);
            super::lemma_shift_flags(old(self).p, self.a, (old(self).temp & 0x80) != 0);
            super::lemma_or_nz(old(self).p, self.a);
            super::lemma_word(old(self).temp2, old(self).temp);
            super::lemma_word(((old(self).temp2 as int + old(self).y as int) % 256) as u8, old(self).temp);
        }
    }

    /// rla zero page, undocumented
    #[verifier::rlimit(100)]
    #[verifier::spinoff_prover]
    pub(crate) fn op_27<C: CartridgeDevice, K: ControllerDevice, P: PpuDevice, A: ApuDevice>(
        &mut self,
        bus: &mut NesMotherboard<C, K>,
        cpu_peripherals: &mut NesCpuPeripherals<P, A>,
    )
        requires
            old(self).inv(),
            !old(self).reset,
            old(self).opcode == Some(0x27u8),
            !old(self).bus_used@,
        ensures
            final(self).inv(),
            !final(self).reset,
            step_27(*old(self), *final(self)),
            final(self).opcode == old(self).opcode || super::finished(*final(self)),
            super::ram_effect(old(bus).spec_ram(), final(bus).spec_ram(), final(self).bus_used@, final(self).last_bus@),
            super::bus_effect(*old(bus), *old(cpu_peripherals), *final(bus), *final(cpu_peripherals), final(self).bus_used@, final(self).last_bus@),
            final(self).dmc_dma == old(self).dmc_dma,
            final(self).nmi_detected == old(self).nmi_detected,
            final(self).prev_nmi == old(self).prev_nmi,
    {
        {
            match self.subcycle {
                1 => {
                    self.temp2 = self.memory_cycle_read(self.pc.wrapping_add(1),
                        bus,
                        cpu_peripherals,
                    );
                    {
                        self.copy_debugger(hex8_text("*RLA $", self.temp2, ""));
                        self.done_fetching = true;
                    }
                    self.subcycle = 2;
                }
                2 => {
                    self.temp =
                    self.memory_cycle_read(self.temp2 as u16, bus, cpu_peripherals);
                    self.subcycle = 3;
                }
                3 => {
                    let old_carry = (self.p & CPU_FLAG_CARRY) != 0;
                    self.p &= !(CPU_FLAG_CARRY | CPU_FLAG_ZERO | CPU_FLAG_NEGATIVE);
                    if (self.temp & 0x80) != 0 {
                        self.p |= CPU_FLAG_CARRY;
                    }
                    self.temp <<= 1;
                    if old_carry {
                        self.temp |= 0x1;
                    }
                    self.memory_cycle_write(self.temp2 as u16, self.temp, bus, cpu_peripherals);
                    self.a &= self.temp;
                    if self.a == 0 {
                        self.p |= CPU_FLAG_ZERO;
                    }
                    if (self.a & 0x80) != 0 {
                        self.p |= CPU_FLAG_NEGATIVE;
                    }
                    self.subcycle = 4;
                }
                _ => {
                    self.pc = self.pc.wrapping_add(2);
                    self.end_instruction();
                }
            }
        }
        proof {
            super::lemma_byte_ops(old(self).temp, 0);
            super::lemma_carry_flags(old(self).p, (old(self).temp & 0x80) != 0);
            super::lemma_shift_flags(old(self).p, self.a, (old(self).temp & 0x80) != 0);
            super::lemma_or_nz(old(self).p, self.a);
        }
    }

    /// rla absolute, undocumented
    #[verifier::rlimit(100)]
    #[verifier::spinoff_prover]
    pub(crate) fn op_2f<C: CartridgeDevice, K: ControllerDevice, P: PpuDevice, A: ApuDevice>(
        &mut self,
        bus: &mut NesMotherboard<C, K>,
        cpu_peripherals: &mut NesCpuPeripherals<P, A>,
    )
        requires
            old(self).inv(),
            !old(self).reset,
            old(self).opcode == Some(0x2fu8),
            !old(self).bus_used@,
        ensures
            final(self).inv(),
            !final(self).reset,
            step_2f(*old(self), *final(self)),
            final(self).opcode == old(self).opcode || super::finished(*final(self)),
            super::ram_effect(old(bus).spec_ram(), final(bus).spec_ram(), final(self).bus_used@, final(self).last_bus@),
            super::bus_effect(*old(bus), *old(cpu_peripherals), *final(bus), *final(cpu_peripherals), final(self).bus_used@, final(self).last_bus@),
            final(self).dmc_dma == old(self).dmc_dma,
            final(self).nmi_detected == old(self).nmi_detected,
            final(self).prev_nmi == old(self).prev_nmi,
    {
        {
            match self.subcycle {
                1 => {
                    self.temp = self.memory_cycle_read(self.pc.wrapping_add(1),
                        bus,
                        cpu_peripherals,
                    );
                    self.subcycle = 2;
                }
                2 => {
                    self.temp2 = self.memory_cycle_read(self.pc.wrapping_add(2),
                        bus,
                        cpu_peripherals,
                    );
                    {
                        let temp = (self.temp2 as u16) << 8 | self.temp as u16;
                        self.copy_debugger(hex16_text("*RLA $", temp, ""));
                        self.done_fetching = true;
                    }
                    proof {
                        super::lemma_word(self.temp, self.temp2);
                    }
                    self.subcycle = 3;
                }
                3 => {
                    self.tempaddr = (self.temp2 as u16) << 8 | (self.temp as u16);
                    self.temp =
                    self.memory_cycle_read(self.tempaddr, bus, cpu_peripherals);
                    self.subcycle = 4;
                }
                4 => {
                    self.memory_cycle_write(self.tempaddr, self.temp, bus, cpu_peripherals);
                    let old_carry = (self.p & CPU_FLAG_CARRY) != 0;
                    self.p &= !(CPU_FLAG_CARRY | CPU_FLAG_ZERO | CPU_FLAG_NEGATIVE);
                    if (self.temp & 0x80) != 0 {
                        self.p |= CPU_FLAG_CARRY;
                    }
                    self.temp <<= 1;
                    if old_carry {
                        self.temp |= 0x1;
                    }
                    self.a &= self.temp;
                    if self.a == 0 {
                        self.p |= CPU_FLAG_ZERO;
                    }
                    if (self.a & 0x80) != 0 {
                        self.p |= CPU_FLAG_NEGATIVE;
                    }
                    self.subcycle = 5;
                }
                _ => {
                    self.memory_cycle_write(self.tempaddr, self.temp, bus, cpu_peripherals);
                    self.pc = self.pc.wrapping_add(3);
                    self.end_instruction();
                }
            }
        }
        proof {
            super::lemma_byte_ops(old(self).temp, 0);
            super::lemma_carry_flags(old(self).p, (old(self).temp & 0x80) != 0);
            super::lemma_shift_flags(old(self).p, self.a, (old(self).temp & 0x80) != 0);
            super::lemma_or_nz(old(self).p, self.a);
            super::lemma_word(old(self).temp, old(self).temp2);
        }
    }

    /// rla indirect y
    #[verifier::rlimit(100)]
    #[verifier::spinoff_prover]
    pub(crate) fn op_33<C: CartridgeDevice, K: ControllerDevice, P: PpuDevice, A: ApuDevice>(
        &mut self,
        bus: &mut NesMotherboard<C, K>,
        cpu_peripherals: &mut NesCpuPeripherals<P, A>,
    )
        requires
            old(self).inv(),
            !old(self).reset,
            old(self).opcode == Some(0x33u8),
            !old(self).bus_used@,
        ensures
            final(self).inv(),
            !final(self).reset,
            step_33(*old(self), *final(self)),
            final(self).opcode == old(self).opcode || super::finished(*final(self)),
            super::ram_effect(old(bus).spec_ram(), final(bus).spec_ram(), final(self).bus_used@, final(self).last_bus@),
            super::bus_effect(*old(bus), *old(cpu_peripherals), *final(bus), *final(cpu_peripherals), final(self).bus_used@, final(self).last_bus@),
            final(self).dmc_dma == old(self).dmc_dma,
            final(self).nmi_detected == old(self).nmi_detected,
            final(self).prev_nmi == old(self).prev_nmi,
    {
        {
            match self.subcycle {
                1 => {
                    self.temp2 = self.memory_cycle_read(self.pc.wrapping_add(1),
                        bus,
                        cpu_peripherals,
                    );
                    {
                        self.copy_debugger(hex8_text("*RLA ($", self.temp2, "),Y"));
                        self.done_fetching = true;
                    }
                    self.subcycle = 2;
                }
                2 => {
                    self.temp =
                    self.memory_cycle_read(self.temp2 as u16, bus, cpu_peripherals);
                    self.subcycle = 3;
                }
                3 => {
                    self.temp2 = self.memory_cycle_read(self.temp2.wrapping_add(1) as u16,
                        bus,
                        cpu_peripherals,
                    );
                    self.subcycle = 4;
                }
                4 => {
                    self.tempaddr = (self.temp2 as u16) << 8 | (self.temp as u16);
                    self.memory_cycle_read((self.temp2 as u16) << 8 | (self.temp.wrapping_add(self.y) as u16),
                        bus,
                        cpu_peripherals,
                    );
                    self.subcycle = 5;
                }
                5 => {
                    self.tempaddr = self.tempaddr.wrapping_add(self.y as u16);
                    self.temp =
                    self.memory_cycle_read(self.tempaddr, bus, cpu_peripherals);
                    self.subcycle = 6;
                }
                6 => {
                    self.memory_cycle_write(self.tempaddr, self.temp, bus, cpu_peripherals);
                    self.subcycle = 7;
                }
                _ => {
                    let old_carry = (self.p & CPU_FLAG_CARRY) != 0;
                    self.p &= !(CPU_FLAG_CARRY | CPU_FLAG_ZERO | CPU_FLAG_NEGATIVE);
                    if (self.temp & 0x80) != 0 {
                        self.p |= CPU_FLAG_CARRY;
                    }
                    self.temp <<= 1;
                    if old_carry {
                        self.temp |= 0x1;
                    }
                    self.memory_cycle_write(self.tempaddr, self.temp, bus, cpu_peripherals);
                    self.a &= self.temp;
                    if self.a == 0 {
                        self.p |= CPU_FLAG_ZERO;
                    }
                    if (self.a & 0x80) != 0 {
                        self.p |= CPU_FLAG_NEGATIVE;
                    }
                    self.pc = self.pc.wrapping_add(2);
                    self.end_instruction();
                }
            }
        }
        proof {
            super::lemma_word(old(self).temp, old(self).temp2);
            super::lemma_word(((old(self).temp as int + old(self).y as int) % 256) as u8, old(self).temp2);
            super::lemma_byte_ops(old(self).temp, 0);
            super::lemma_carry_flags(old(self).p, (old(self).temp & 0x80) != 0);
            super::lemma_shift_flags(old(self).p, self.a, (old(self).temp & 0x80) != 0);
            super::lemma_or_nz(old(self).p, self.a);
            super::lemma_word(old(self).temp2, old(self).temp);
            super::lemma_word(((old(self).temp2 as int + old(self).y as int) % 256) as u8, old(self).temp);
        }
    }

    /// rla zero page x, undocumented
    #[verifier::rlimit(100)]
    #[verifier::spinoff_prover]
    pub(crate) fn op_37<C: CartridgeDevice, K: ControllerDevice, P: PpuDevice, A: ApuDevice>(
        &mut self,
        bus: &mut NesMotherboard<C, K>,
        cpu_peripherals: &mut NesCpuPeripherals<P, A>,
    )
        requires
            old(self).inv(),
            !old(self).reset,
            old(self).opcode == Some(0x37u8),
            !old(self).bus_used@,
        ensures
            final(self).inv(),
            !final(self).reset,
            step_37(*old(self), *final(self)),
            final(self).opcode == old(self).opcode || super::finished(*final(self)),
            super::ram_effect(old(bus).spec_ram(), final(bus).spec_ram(), final(self).bus_used@, final(self).last_bus@),
            super::bus_effect(*old(bus), *old(cpu_peripherals), *final(bus), *final(cpu_peripherals), final(self).bus_used@, final(self).last_bus@),
            final(self).dmc_dma == old(self).dmc_dma,
            final(self).nmi_detected == old(self).nmi_detected,
            final(self).prev_nmi == old(self).prev_nmi,
    {
        {
            match self.subcycle {
                1 => {
                    self.temp2 = self.memory_cycle_read(self.pc.wrapping_add(1),
                        bus,
                        cpu_peripherals,
                    );
                    {
                        self.copy_debugger(hex8_text("*RLA $", self.temp2, ",X"));
                        self.done_fetching = true;
                    }
                    self.subcycle = 2;
                }
                2 => {
                    self.memory_cycle_read(self.temp2 as u16, bus, cpu_peripherals);
                    self.subcycle = 3;
                }
                3 => {
                    self.temp2 = self.temp2.wrapping_add(self.x);
                    self.temp =
                    self.memory_cycle_read(self.temp2 as u16, bus, cpu_peripherals);
                    self.subcycle = 4;
                }
                4 => {
                    self.memory_cycle_write(self.temp2 as u16, self.temp, bus, cpu_peripherals);
                    self.subcycle = 5;
                }
                _ => {
                    let old_carry = (self.p & CPU_FLAG_CARRY) != 0;
                    self.p &= !(CPU_FLAG_CARRY | CPU_FLAG_ZERO | CPU_FLAG_NEGATIVE);
                    if (self.temp & 0x80) != 0 {
                        self.p |= CPU_FLAG_CARRY;
                    }
                    self.temp <<= 1;
                    if old_carry {
                        self.temp |= 0x1;
                    }
                    self.memory_cycle_write(self.temp2 as u16, self.temp, bus, cpu_peripherals);
                    self.a &= self.temp;
                    if self.a == 0 {
                        self.p |= CPU_FLAG_ZERO;
                    }
                    if (self.a & 0x80) != 0 {
                        self.p |= CPU_FLAG_NEGATIVE;
                    }
                    self.pc = self.pc.wrapping_add(2);
                    self.end_instruction();
                }
            }
        }
        proof {
            super::lemma_byte_ops(old(self).temp, 0);
            super::lemma_carry_flags(old(self).p, (old(self).temp & 0x80) != 0);
            super::lemma_shift_flags(old(self).p, self.a, (old(self).temp & 0x80) != 0);
            super::lemma_or_nz(old(self).p, self.a);
        }
    }

    /// rla absolute y, undocumented
    #[verifier::rlimit(100)]
    #[verifier::spinoff_prover]
    pub(crate) fn op_3b<C: CartridgeDevice, K: ControllerDevice, P: PpuDevice, A: ApuDevice>(
        &mut self,
        bus: &mut NesMotherboard<C, K>,
        cpu_peripherals: &mut NesCpuPeripherals<P, A>,
    )
        requires
            old(self).inv(),
            !old(self).reset,
            old(self).opcode == Some(0x3bu8),
            !old(self).bus_used@,
        ensures
            final(self).inv(),
            !final(self).reset,
            step_3b(*old(self), *final(self)),
            final(self).opcode == old(self).opcode || super::finished(*final(self)),
            super::ram_effect(old(bus).spec_ram(), final(bus).spec_ram(), final(self).bus_used@, final(self).last_bus@),
            super::bus_effect(*old(bus), *old(cpu_peripherals), *final(bus), *final(cpu_peripherals), final(self).bus_used@, final(self).last_bus@),
            final(self).dmc_dma == old(self).dmc_dma,
            final(self).nmi_detected == old(self).nmi_detected,
            final(self).prev_nmi == old(self).prev_nmi,
    {
        {
            match self.subcycle {
                1 => {
                    self.temp = self.memory_cycle_read(self.pc.wrapping_add(1),
                        bus,
                        cpu_peripherals,
                    );
                    self.subcycle = 2;
                }
                2 => {
                    self.temp2 = self.memory_cycle_read(self.pc.wrapping_add(2),
                        bus,
                        cpu_peripherals,
                    );
                    {
                        let temp = (self.temp2 as u16) << 8 | self.temp as u16;
                        self.copy_debugger(hex16_text("*RLA $", temp, ",Y"));
                        self.done_fetching = true;
                    }
                    proof {
                        super::lemma_word(self.temp, self.temp2);
                    }
                    self.subcycle = 3;
                }
                3 => {
                    self.tempaddr = (self.temp2 as u16) << 8 | (self.temp as u16);
                    self.memory_cycle_read((self.temp2 as u16) << 8 | (self.temp.wrapping_add(self.y) as u16),
                        bus,
                        cpu_peripherals,
                    );
                    self.subcycle = 4;
                }
                4 => {
                    self.tempaddr = self.tempaddr.wrapping_add(self.y as u16);
                    self.temp =
                    self.memory_cycle_read(self.tempaddr, bus, cpu_peripherals);
                    self.subcycle = 5;
                }
                5 => {
                    self.memory_cycle_write(self.tempaddr, self.temp, bus, cpu_peripherals);
                    let old_carry = (self.p & CPU_FLAG_CARRY) != 0;
                    self.p &= !(CPU_FLAG_CARRY | CPU_FLAG_ZERO | CPU_FLAG_NEGATIVE);
                    if (self.temp & 0x80) != 0 {
                        self.p |= CPU_FLAG_CARRY;
                    }
                    self.temp <<= 1;
                    if old_carry {
                        self.temp |= 0x1;
                    }
                    self.subcycle = 6;
                }
                _ => {
                    self.memory_cycle_write(self.tempaddr, self.temp, bus, cpu_peripherals);
                    self.a &= self.temp;
                    if self.a == 0 {
                        self.p |= CPU_FLAG_ZERO;
                    }
                    if (self.a & 0x80) != 0 {
                        self.p |= CPU_FLAG_NEGATIVE;
                    }
                    self.pc = self.pc.wrapping_add(3);
                    self.end_instruction();
                }
            }
        }
        proof {
            super::lemma_byte_ops(old(self).temp, 0);
            super::lemma_carry_flags(old(self).p, (old(self).temp & 0x80) != 0);
            super::lemma_shift_flags(old(self).p, self.a, (old(self).temp & 0x80) != 0);
            super::lemma_or_nz(old(self).p, self.a);
            super::lemma_word(old(self).temp, old(self).temp2);
            super::lemma_word(((old(self).temp as int + old(self).y as int) % 256) as u8, old(self).temp2);
        }
    }

    /// rla absolute x, undocumented
    #[verifier::rlimit(100)]
    #[verifier::spinoff_prover]
    pub(crate) fn op_3f<C: CartridgeDevice, K: ControllerDevice, P: PpuDevice, A: ApuDevice>(
        &mut self,
        bus: &mut NesMotherboard<C, K>,
        cpu_peripherals: &mut NesCpuPeripherals<P, A>,
    )
        requires
            old(self).inv(),
            !old(self).reset,
            old(self).opcode == Some(0x3fu8),
            !old(self).bus_used@,
        ensures
            final(self).inv(),
            !final(self).reset,
            step_3f(*old(self), *final(self)),
            final(self).opcode == old(self).opcode || super::finished(*final(self)),
            super::ram_effect(old(bus).spec_ram(), final(bus).spec_ram(), final(self).bus_used@, final(self).last_bus@),
            super::bus_effect(*old(bus), *old(cpu_peripherals), *final(bus), *final(cpu_peripherals), final(self).bus_used@, final(self).last_bus@),
            final(self).dmc_dma == old(self).dmc_dma,
            final(self).nmi_detected == old(self).nmi_detected,
            final(self).prev_nmi == old(self).prev_nmi,
    {
        {
            match self.subcycle {
                1 => {
                    self.temp = self.memory_cycle_read(self.pc.wrapping_add(1),
                        bus,
                        cpu_peripherals,
                    );
                    self.subcycle = 2;
                }
                2 => {
                    self.temp2 = self.memory_cycle_read(self.pc.wrapping_add(2),
                        bus,
                        cpu_peripherals,
                    );
                    {
                        let temp = (self.temp2 as u16) << 8 | self.temp as u16;
                        self.copy_debugger(hex16_text("*RLA $", temp, ",X"));
                        self.done_fetching = true;
                    }
                    proof {
                        super::lemma_word(self.temp, self.temp2);
                    }
                    self.subcycle = 3;
                }
                3 => {
                    self.tempaddr = (self.temp2 as u16) << 8 | (self.temp as u16);
                    self.memory_cycle_read((self.temp2 as u16) << 8 | (self.temp.wrapping_add(self.x) as u16),
                        bus,
                        cpu_peripherals,
                    );
                    self.subcycle = 4;
                }
                4 => {
                    self.tempaddr = self.tempaddr.wrapping_add(self.x as u16);
                    self.temp =
                    self.memory_cycle_read(self.tempaddr, bus, cpu_peripherals);
                    self.subcycle = 5;
                }
                5 => {
                    self.memory_cycle_write(self.tempaddr, self.temp, bus, cpu_peripherals);
                    let old_carry = (self.p & CPU_FLAG_CARRY) != 0;
                    self.p &= !(CPU_FLAG_CARRY | CPU_FLAG_ZERO | CPU_FLAG_NEGATIVE);
                    if (self.temp & 0x80) != 0 {
                        self.p |= CPU_FLAG_CARRY;
                    }
                    self.temp <<= 1;
                    if old_carry {
                        self.temp |= 0x1;
                    }
                    self.a &= self.temp;
                    if self.a == 0 {
                        self.p |= CPU_FLAG_ZERO;
                    }
                    if (self.a & 0x80) != 0 {
                        self.p |= CPU_FLAG_NEGATIVE;
                    }
                    self.subcycle = 6;
                }
                _ => {
                    self.memory_cycle_write(self.tempaddr, self.temp, bus, cpu_peripherals);
                    self.pc = self.pc.wrapping_add(3);
                    self.end_instruction();
                }
            }
        }
        proof {
            super::lemma_byte_ops(old(self).temp, 0);
            super::lemma_carry_flags(old(self).p, (old(self).temp & 0x80) != 0);
            super::lemma_shift_flags(old(self).p, self.a, (old(self).temp & 0x80) != 0);
            super::lemma_or_nz(old(self).p, self.a);
            super::lemma_word(old(self).temp, old(self).temp2);
            super::lemma_word(((old(self).temp as int + old(self).x as int) % 256) as u8, old(self).temp2);
        }
    }

    /// sre, shift right, then xor with accumulator, undocumented
    /// indirect x
    #[verifier::rlimit(100)]
    #[verifier::spinoff_prover]
    pub(crate) fn op_43<C: CartridgeDevice, K: ControllerDevice, P: PpuDevice, A: ApuDevice>(
        &mut self,
        bus: &mut NesMotherboard<C, K>,
        cpu_peripherals: &mut NesCpuPeripherals<P, A>,
    )
        requires
            old(self).inv(),
            !old(self).reset,
            old(self).opcode == Some(0x43u8),
            !old(self).bus_used@,
        ensures
            final(self).inv(),
            !final(self).reset,
            step_43(*old(self), *final(self)),
            final(self).opcode == old(self).opcode || super::finished(*final(self)),
            super::ram_effect(old(bus).spec_ram(), final(bus).spec_ram(), final(self).bus_used@, final(self).last_bus@),
            super::bus_effect(*old(bus), *old(cpu_peripherals), *final(bus), *final(cpu_peripherals), final(self).bus_used@, final(self).last_bus@),
            final(self).dmc_dma == old(self).dmc_dma,
            final(self).nmi_detected == old(self).nmi_detected,
            final(self).prev_nmi == old(self).prev_nmi,
    {
        {
            match self.subcycle {
                1 => {
                    self.temp = self.memory_cycle_read(self.pc.wrapping_add(1),
                        bus,
                        cpu_peripherals,
                    );
                    {
                        self.copy_debugger(hex8_text("*SRE ($", self.temp, ",X)"));
                        self.done_fetching = true;
                    }
                    self.subcycle = 2;
                }
                2 => {
                    self.memory_cycle_read(self.temp as u16, bus, cpu_peripherals);
                    self.subcycle = 3;
                }
                3 => {
                    self.temp = self.temp.wrapping_add(self.x);
                    self.temp2 =
                    self.memory_cycle_read(self.temp as u16, bus, cpu_peripherals);
                    self.subcycle = 4;
                }
                4 => {
                    self.temp = self.memory_cycle_read(self.temp.wrapping_add(1) as u16,
                        bus,
                        cpu_peripherals,
                    );
                    self.subcycle = 5;
                }
                5 => {
                    self.tempaddr = (self.temp as u16) << 8 | (self.temp2 as u16);
                    self.temp =
                    self.memory_cycle_read(self.tempaddr, bus, cpu_peripherals);
                    self.subcycle = 6;
                }
                6 => {
                    self.memory_cycle_write(self.tempaddr, self.temp, bus, cpu_peripherals);
                    self.p &= !(CPU_FLAG_CARRY | CPU_FLAG_ZERO | CPU_FLAG_NEGATIVE);
                    if (self.temp & 0x1) != 0 {
                        self.p |= CPU_FLAG_CARRY;
                    }
                    self.temp >>= 1;
                    self.a ^= self.temp;
                    if self.a == 0 {
                        self.p |= CPU_FLAG_ZERO;
                    }
                    if (self.a & 0x80) != 0 {
                        self.p |= CPU_FLAG_NEGATIVE;
                    }
                    self.subcycle = 7;
                }
                _ => {
                    self.memory_cycle_write(self.tempaddr, self.temp, bus, cpu_peripherals);
                    self.pc = self.pc.wrapping_add(2);
                    self.end_instruction();
                }
            }
        }
        proof {
            super::lemma_byte_ops(old(self).temp, 0);
            super::lemma_carry_flags(old(self).p, (old(self).temp & 1) != 0);
            super::lemma_shift_flags(old(self).p, self.a, (old(self).temp & 1) != 0);
            super::lemma_or_nz(old(self).p, self.a);
            super::lemma_word(old(self).temp2, old(self).temp);
            super::lemma_word(((old(self).temp2 as int + old(self).y as int) % 256) as u8, old(self).temp);
        }
    }

    /// sre zero page, undocumented
    #[verifier::rlimit(100)]
    #[verifier::spinoff_prover]
    pub(crate) fn op_47<C: CartridgeDevice, K: ControllerDevice, P: PpuDevice, A: ApuDevice>(
        &mut self,
        bus: &mut NesMotherboard<C, K>,
        cpu_peripherals: &mut NesCpuPeripherals<P, A>,
    )
        requires
            old(self).inv(),
            !old(self).reset,
            old(self).opcode == Some(0x47u8),
            !old(self).bus_used@,
        ensures
            final(self).inv(),
            !final(self).reset,
            step_47(*old(self), *final(self)),
            final(self).opcode == old(self).opcode || super::finished(*final(self)),
            super::ram_effect(old(bus).spec_ram(), final(bus).spec_ram(), final(self).bus_used@, final(self).last_bus@),
            super::bus_effect(*old(bus), *old(cpu_peripherals), *final(bus), *final(cpu_peripherals), final(self).bus_used@, final(self).last_bus@),
            final(self).dmc_dma == old(self).dmc_dma,
            final(self).nmi_detected == old(self).nmi_detected,
            final(self).prev_nmi == old(self).prev_nmi,
    {
        {
            match self.subcycle {
                1 => {
                    self.temp2 = self.memory_cycle_read(self.pc.wrapping_add(1),
                        bus,
                        cpu_peripherals,
                    );
                    {
                        self.copy_debugger(hex8_text("*SRE $", self.temp2, ""));
                        self.done_fetching = true;
                    }
                    self.subcycle = 2;
                }
                2 => {
                    self.temp =
                    self.memory_cycle_read(self.temp2 as u16, bus, cpu_peripherals);
                    self.subcycle = 3;
                }
                3 => {
                    self.p &= !(CPU_FLAG_CARRY | CPU_FLAG_ZERO | CPU_FLAG_NEGATIVE);
                    if (self.temp & 0x1) != 0 {
                        self.p |= CPU_FLAG_CARRY;
                    }
                    self.temp >>= 1;
                    self.memory_cycle_write(self.temp2 as u16, self.temp, bus, cpu_peripherals);
                    self.a ^= self.temp;
                    if self.a == 0 {
                        self.p |= CPU_FLAG_ZERO;
                    }
                    if (self.a & 0x80) != 0 {
                        self.p |= CPU_FLAG_NEGATIVE;
                    }
                    self.subcycle = 7;
                }
                _ => {
                    self.pc = self.pc.wrapping_add(2);
                    self.end_instruction();
                }
            }
        }
        proof {
            super::lemma_byte_ops(old(self).temp, 0);
            super::lemma_carry_flags(old(self).p, (old(self).temp & 1) != 0);
            super::lemma_shift_flags(old(self).p, self.a, (old(self).temp & 1) != 0);
            super::lemma_or_nz(old(self).p, self.a);
        }
    }

    /// sre absolute, undocumented
    #[verifier::rlimit(100)]
    #[verifier::spinoff_prover]
    pub(crate) fn op_4f<C: CartridgeDevice, K: ControllerDevice, P: PpuDevice, A: ApuDevice>(
        &mut self,
        bus: &mut NesMotherboard<C, K>,
        cpu_peripherals: &mut NesCpuPeripherals<P, A>,
    )
        requires
            old(self).inv(),
            !old(self).reset,
            old(self).opcode == Some(0x4fu8),
            !old(self).bus_used@,
        ensures
            final(self).inv(),
            !final(self).reset,
            step_4f(*old(self), *final(self)),
            final(self).opcode == old(self).opcode || super::finished(*final(self)),
            super::ram_effect(old(bus).spec_ram(), final(bus).spec_ram(), final(self).bus_used@, final(self).last_bus@),
            super::bus_effect(*old(bus), *old(cpu_peripherals), *final(bus), *final(cpu_peripherals), final(self).bus_used@, final(self).last_bus@),
            final(self).dmc_dma == old(self).dmc_dma,
            final(self).nmi_detected == old(self).nmi_detected,
            final(self).prev_nmi == old(self).prev_nmi,
    {
        {
            match self.subcycle {
                1 => {
                    self.temp = self.memory_cycle_read(self.pc.wrapping_add(1),
                        bus,
                        cpu_peripherals,
                    );
                    self.subcycle = 2;
                }
                2 => {
                    self.temp2 = self.memory_cycle_read(self.pc.wrapping_add(2),
                        bus,
                        cpu_peripherals,
                    );
                    {
                        let temp = (self.temp2 as u16) << 8 | self.temp as u16;
                        self.copy_debugger(hex16_text("*SRE $", temp, ""));
                        self.done_fetching = true;
                    }
                    proof {
                        super::lemma_word(self.temp, self.temp2);
                    }
                    self.subcycle = 3;
                }
                3 => {
                    self.tempaddr = (self.temp2 as u16) << 8 | (self.temp as u16);
                    self.temp =
                    self.memory_cycle_read(self.tempaddr, bus, cpu_peripherals);
                    self.subcycle = 4;
                }
                4 => {
                    self.memory_cycle_write(self.tempaddr, self.temp, bus, cpu_peripherals);
                    self.p &= !(CPU_FLAG_CARRY | CPU_FLAG_ZERO | CPU_FLAG_NEGATIVE);
                    if (self.temp & 0x1) != 0 {
                        self.p |= CPU_FLAG_CARRY;
                    }
                    self.temp >>= 1;
                    self.a ^= self.temp;
                    if self.a == 0 {
                        self.p |= CPU_FLAG_ZERO;
                    }
                    if (self.a & 0x80) != 0 {
                        self.p |= CPU_FLAG_NEGATIVE;
                    }
                    self.subcycle = 5;
                }
                _ => {
                    self.memory_cycle_write(self.tempaddr, self.temp, bus, cpu_peripherals);
                    self.pc = self.pc.wrapping_add(3);
                    self.end_instruction();
                }
            }
        }
        proof {
            super::lemma_byte_ops(old(self).temp, 0);
            super::lemma_carry_flags(old(self).p, (old(self).temp & 1) != 0);
            super::lemma_shift_flags(old(self).p, self.a, (old(self).temp & 1) != 0);
            super::lemma_or_nz(old(self).p, self.a);
            super::lemma_word(old(self).temp, old(self).temp2);
        }
    }

    /// sre indirect y, undocumented
    #[verifier::rlimit(100)]
    #[verifier::spinoff_prover]
    pub(crate) fn op_53<C: CartridgeDevice, K: ControllerDevice, P: PpuDevice, A: ApuDevice>(
        &mut self,
        bus: &mut NesMotherboard<C, K>,
        cpu_peripherals: &mut NesCpuPeripherals<P, A>,
    )
        requires
            old(self).inv(),
            !old(self).reset,
            old(self).opcode == Some(0x53u8),
            !old(self).bus_used@,
        ensures
            final(self).inv(),
            !final(self).reset,
            step_53(*old(self), *final(self)),
            final(self).opcode == old(self).opcode || super::finished(*final(self)),
            super::ram_effect(old(bus).spec_ram(), final(bus).spec_ram(), final(self).bus_used@, final(self).last_bus@),
            super::bus_effect(*old(bus), *old(cpu_peripherals), *final(bus), *final(cpu_peripherals), final(self).bus_used@, final(self).last_bus@),
            final(self).dmc_dma == old(self).dmc_dma,
            final(self).nmi_detected == old(self).nmi_detected,
            final(self).prev_nmi == old(self).prev_nmi,
    {
        {
            match self.subcycle {
                1 => {
                    self.temp2 = self.memory_cycle_read(self.pc.wrapping_add(1),
                        bus,
                        cpu_peripherals,
                    );
                    {
                        self.copy_debugger(hex8_text("*SRE ($", self.temp2, "),Y"));
                        self.done_fetching = true;
                    }
                    self.subcycle = 2;
                }
                2 => {
                    self.temp =
                    self.memory_cycle_read(self.temp2 as u16, bus, cpu_peripherals);
                    self.subcycle = 3;
                }
                3 => {
                    self.temp2 = self.memory_cycle_read(self.temp2.wrapping_add(1) as u16,
                        bus,
                        cpu_peripherals,
                    );
                    self.subcycle = 4;
                }
                4 => {
                    proof {
                        super::lemma_word(old(self).temp, old(self).temp2);
                        super::lemma_word(((old(self).temp as int + old(self).y as int) % 256) as u8, old(self).temp2);
                    }
                    self.tempaddr = (self.temp2 as u16) << 8 | (self.temp as u16);
                    self.memory_cycle_read((self.temp2 as u16) << 8 | (self.temp.wrapping_add(self.y) as u16),
                        bus,
                        cpu_peripherals,
                    );
                    self.subcycle = 5;
                }
                5 => {
                    self.tempaddr = self.tempaddr.wrapping_add(self.y as u16);
                    self.temp =
                    self.memory_cycle_read(self.tempaddr, bus, cpu_peripherals);
                    self.subcycle = 6;
                }
                6 => {
                    self.memory_cycle_write(self.tempaddr, self.temp, bus, cpu_peripherals);
                    self.subcycle = 7;
                }
                _ => {
                    self.p &= !(CPU_FLAG_CARRY | CPU_FLAG_ZERO | CPU_FLAG_NEGATIVE);
                    if (self.temp & 0x1) != 0 {
                        self.p |= CPU_FLAG_CARRY;
                    }
                    self.temp >>= 1;
                    self.memory_cycle_write(self.tempaddr, self.temp, bus, cpu_peripherals);
                    self.a ^= self.temp;
                    if self.a == 0 {
                        self.p |= CPU_FLAG_ZERO;
                    }
                    if (self.a & 0x80) != 0 {
                        self.p |= CPU_FLAG_NEGATIVE;
                    }
                    self.pc = self.pc.wrapping_add(2);
                    self.end_instruction();
                    proof {
                        super::lemma_byte_ops(old(self).temp, 0);
                        super::lemma_carry_flags(old(self).p, (old(self).temp & 1) != 0);
                        super::lemma_shift_flags(old(self).p, self.a, (old(self).temp & 1) != 0);
                        super::lemma_or_nz(old(self).p, self.a);
                    }
                }
            }
        }
    }

    /// sre zero page x, undocumented
    #[verifier::rlimit(100)]
    #[verifier::spinoff_prover]
    pub(crate) fn op_57<C: CartridgeDevice, K: ControllerDevice, P: PpuDevice, A: ApuDevice>(
        &mut self,
        bus: &mut NesMotherboard<C, K>,
        cpu_peripherals: &mut NesCpuPeripherals<P, A>,
    )
        requires
            old(self).inv(),
            !old(self).reset,
            old(self).opcode == Some(0x57u8),
            !old(self).bus_used@,
        ensures
            final(self).inv(),
            !final(self).reset,
            step_57(*old(self), *final(self)),
            final(self).opcode == old(self).opcode || super::finished(*final(self)),
            super::ram_effect(old(bus).spec_ram(), final(bus).spec_ram(), final(self).bus_used@, final(self).last_bus@),
            super::bus_effect(*old(bus), *old(cpu_peripherals), *final(bus), *final(cpu_peripherals), final(self).bus_used@, final(self).last_bus@),
            final(self).dmc_dma == old(self).dmc_dma,
            final(self).nmi_detected == old(self).nmi_detected,
            final(self).prev_nmi == old(self).prev_nmi,
    {
        {
            match self.subcycle {
                1 => {
                    self.temp2 = self.memory_cycle_read(self.pc.wrapping_add(1),
                        bus,
                        cpu_peripherals,
                    );
                    {
                        self.copy_debugger(hex8_text("*SRE $", self.temp2, ",X"));
                        self.done_fetching = true;
                    }
                    self.subcycle = 2;
                }
                2 => {
                    self.memory_cycle_read(self.temp2 as u16, bus, cpu_peripherals);
                    self.subcycle = 3;
                }
                3 => {
                    self.temp2 = self.temp2.wrapping_add(self.x);
                    self.temp =
                    self.memory_cycle_read(self.temp2 as u16, bus, cpu_peripherals);
                    self.subcycle = 4;
                }
                4 => {
                    self.memory_cycle_write(self.temp2 as u16, self.temp, bus, cpu_peripherals);
                    self.subcycle = 5;
                }
                _ => {
                    self.p &= !(CPU_FLAG_CARRY | CPU_FLAG_ZERO | CPU_FLAG_NEGATIVE);
                    if (self.temp & 0x1) != 0 {
                        self.p |= CPU_FLAG_CARRY;
                    }
                    self.temp >>= 1;
                    self.memory_cycle_write(self.temp2 as u16, self.temp, bus, cpu_peripherals);
                    self.a ^= self.temp;
                    if self.a == 0 {
                        self.p |= CPU_FLAG_ZERO;
                    }
                    if (self.a & 0x80) != 0 {
                        self.p |= CPU_FLAG_NEGATIVE;
                    }
                    self.pc = self.pc.wrapping_add(2);
                    self.end_instruction();
                }
            }
        }
        proof {
            super::lemma_byte_ops(old(self).temp, 0);
            super::lemma_carry_flags(old(self).p, (old(self).temp & 1) != 0);
            super::lemma_shift_flags(old(self).p, self.a, (old(self).temp & 1) != 0);
            super::lemma_or_nz(old(self).p, self.a);
        }
    }

    /// sre absolute y, undocumented
    #[verifier::rlimit(100)]
    #[verifier::spinoff_prover]
    pub(crate) fn op_5b<C: CartridgeDevice, K: ControllerDevice, P: PpuDevice, A: ApuDevice>(
        &mut self,
        bus: &mut NesMotherboard<C, K>,
        cpu_peripherals: &mut NesCpuPeripherals<P, A>,
    )
        requires
            old(self).inv(),
            !old(self).reset,
            old(self).opcode == Some(0x5bu8),
            !old(self).bus_used@,
        ensures
            final(self).inv(),
            !final(self).reset,
            step_5b(*old(self), *final(self)),
            final(self).opcode == old(self).opcode || super::finished(*final(self)),
            super::ram_effect(old(bus).spec_ram(), final(bus).spec_ram(), final(self).bus_used@, final(self).last_bus@),
            super::bus_effect(*old(bus), *old(cpu_peripherals), *final(bus), *final(cpu_peripherals), final(self).bus_used@, final(self).last_bus@),
            final(self).dmc_dma == old(self).dmc_dma,
            final(self).nmi_detected == old(self).nmi_detected,
            final(self).prev_nmi == old(self).prev_nmi,
    {
        {
            match self.subcycle {
                1 => {
                    self.temp = self.memory_cycle_read(self.pc.wrapping_add(1),
                        bus,
                        cpu_peripherals,
                    );
                    self.subcycle = 2;
                }
                2 => {
                    self.temp2 = self.memory_cycle_read(self.pc.wrapping_add(2),
                        bus,
                        cpu_peripherals,
                    );
                    {
                        let temp = (self.temp2 as u16) << 8 | self.temp as u16;
                        self.copy_debugger(hex16_text("*SRE $", temp, ",Y"));
                        self.done_fetching = true;
                    }
                    proof {
                        super::lemma_word(self.temp, self.temp2);
                    }
                    self.subcycle = 3;
                }
                3 => {
                    proof {
                        super::lemma_word(old(self).temp, old(self).temp2);
                        super::lemma_word(((old(self).temp as int + old(self).y as int) % 256) as u8, old(self).temp2);
                    }
                    self.tempaddr = (self.temp2 as u16) << 8 | (self.temp as u16);
                    self.memory_cycle_read((self.temp2 as u16) << 8 | (self.temp.wrapping_add(self.y) as u16),
                        bus,
                        cpu_peripherals,
                    );
                    self.subcycle = 4;
                }
                4 => {
                    proof {
                        super::lemma_word(old(self).temp, old(self).temp2);
                        super::lemma_word(((old(self).temp as int + old(self).y as int) % 256) as u8, old(self).temp2);
                    }
                    self.tempaddr = self.tempaddr.wrapping_add(self.y as u16);
                    self.temp =
                    self.memory_cycle_read(self.tempaddr, bus, cpu_peripherals);
                    self.subcycle = 5;
                }
                5 => {
                    self.memory_cycle_write(self.tempaddr, self.temp, bus, cpu_peripherals);
                    self.p &= !(CPU_FLAG_CARRY | CPU_FLAG_ZERO | CPU_FLAG_NEGATIVE);
                    if (self.temp & 0x1) != 0 {
                        self.p |= CPU_FLAG_CARRY;
                    }
                    self.temp >>= 1;
                    self.subcycle = 6;
                }
                _ => {
                    self.memory_cycle_write(self.tempaddr, self.temp, bus, cpu_peripherals);
                    self.a ^= self.temp;
                    if self.a == 0 {
                        self.p |= CPU_FLAG_ZERO;
                    }
                    if (self.a & 0x80) != 0 {
                        self.p |= CPU_FLAG_NEGATIVE;
                    }
                    self.pc = self.pc.wrapping_add(3);
                    self.end_instruction();
                }
            }
        }
        proof {
            super::lemma_byte_ops(old(self).temp, 0);
            super::lemma_carry_flags(old(self).p, (old(self).temp & 1) != 0);
            super::lemma_shift_flags(old(self).p, self.a, (old(self).temp & 1) != 0);
            super::lemma_or_nz(old(self).p, self.a);
        }
    }

    /// sre absolute x, undocumented
    #[verifier::rlimit(100)]
    #[verifier::spinoff_prover]
    pub(crate) fn op_5f<C: CartridgeDevice, K: ControllerDevice, P: PpuDevice, A: ApuDevice>(
        &mut self,
        bus: &mut NesMotherboard<C, K>,
        cpu_peripherals: &mut NesCpuPeripherals<P, A>,
    )
        requires
            old(self).inv(),
            !old(self).reset,
            old(self).opcode == Some(0x5fu8),
            !old(self).bus_used@,
        ensures
            final(self).inv(),
            !final(self).reset,
            step_5f(*old(self), *final(self)),
            final(self).opcode == old(self).opcode || super::finished(*final(self)),
            super::ram_effect(old(bus).spec_ram(), final(bus).spec_ram(), final(self).bus_used@, final(self).last_bus@),
            super::bus_effect(*old(bus), *old(cpu_peripherals), *final(bus), *final(cpu_peripherals), final(self).bus_used@, final(self).last_bus@),
            final(self).dmc_dma == old(self).dmc_dma,
            final(self).nmi_detected == old(self).nmi_detected,
            final(self).prev_nmi == old(self).prev_nmi,
    {
        {
            match self.subcycle {
                1 => {
                    self.temp = self.memory_cycle_read(self.pc.wrapping_add(1),
                        bus,
                        cpu_peripherals,
                    );
                    self.subcycle = 2;
                }
                2 => {
                    self.temp2 = self.memory_cycle_read(self.pc.wrapping_add(2),
                        bus,
                        cpu_peripherals,
                    );
                    {
                        let temp = (self.temp2 as u16) << 8 | self.temp as u16;
                        self.copy_debugger(hex16_text("*SRE $", temp, ",X"));
                        self.done_fetching = true;
                    }
                    proof {
                        super::lemma_word(self.temp, self.temp2);
                    }
                    self.subcycle = 3;
                }
                3 => {
                    self.tempaddr = (self.temp2 as u16) << 8 | (self.temp as u16);
                    self.memory_cycle_read((self.temp2 as u16) << 8 | (self.temp.wrapping_add(self.x) as u16),
                        bus,
                        cpu_peripherals,
                    );
                    self.subcycle = 4;
                }
                4 => {
                    self.tempaddr = self.tempaddr.wrapping_add(self.x as u16);
                    self.temp =
                    self.memory_cycle_read(self.tempaddr, bus, cpu_peripherals);
                    self.subcycle = 5;
                }
                5 => {
                    self.memory_cycle_write(self.tempaddr, self.temp, bus, cpu_peripherals);
                    self.p &= !(CPU_FLAG_CARRY | CPU_FLAG_ZERO | CPU_FLAG_NEGATIVE);
                    if (self.temp & 0x1) != 0 {
                        self.p |= CPU_FLAG_CARRY;
                    }
                    self.temp >>= 1;

                    self.a ^= self.temp;
                    if self.a == 0 {
                        self.p |= CPU_FLAG_ZERO;
                    }
                    if (self.a & 0x80) != 0 {
                        self.p |= CPU_FLAG_NEGATIVE;
                    }
                    self.subcycle = 6;
                }
                _ => {
                    self.memory_cycle_write(self.tempaddr, self.temp, bus, cpu_peripherals);
                    self.pc = self.pc.wrapping_add(3);
                    self.end_instruction();
                }
            }
        }
        proof {
            super::lemma_byte_ops(old(self).temp, 0);
            super::lemma_carry_flags(old(self).p, (old(self).temp & 1) != 0);
            super::lemma_shift_flags(old(self).p, self.a, (old(self).temp & 1) != 0);
            super::lemma_or_nz(old(self).p, self.a);
            super::lemma_word(old(self).temp, old(self).temp2);
            super::lemma_word(((old(self).temp as int + old(self).x as int) % 256) as u8, old(self).temp2);
        }
    }

    /// rra, rotate right, then and with accumulator, undocumented
    /// indirect x
    #[verifier::rlimit(100)]
    #[verifier::spinoff_prover]
    pub(crate) fn op_63<C: CartridgeDevice, K: ControllerDevice, P: PpuDevice, A: ApuDevice>(
        &mut self,
        bus: &mut NesMotherboard<C, K>,
        cpu_peripherals: &mut NesCpuPeripherals<P, A>,
    )
        requires
            old(self).inv(),
            !old(self).reset,
            old(self).opcode == Some(0x63u8),
            !old(self).bus_used@,
        ensures
            final(self).inv(),
            !final(self).reset,
            step_63(*old(self), *final(self)),
            final(self).opcode == old(self).opcode || super::finished(*final(self)),
            super::ram_effect(old(bus).spec_ram(), final(bus).spec_ram(), final(self).bus_used@, final(self).last_bus@),
            super::bus_effect(*old(bus), *old(cpu_peripherals), *final(bus), *final(cpu_peripherals), final(self).bus_used@, final(self).last_bus@),
            final(self).dmc_dma == old(self).dmc_dma,
            final(self).nmi_detected == old(self).nmi_detected,
            final(self).prev_nmi == old(self).prev_nmi,
    {
        {
            match self.subcycle {
                1 => {
                    self.temp = self.memory_cycle_read(self.pc.wrapping_add(1),
                        bus,
                        cpu_peripherals,
                    );
                    {
                        self.copy_debugger(hex8_text("*RRA ($", self.temp, ",X)"));
                        self.done_fetching = true;
                    }
                    self.subcycle = 2;
                }
                2 => {
                    self.memory_cycle_read(self.temp as u16, bus, cpu_peripherals);
                    self.subcycle = 3;
                }
                3 => {
                    self.temp = self.temp.wrapping_add(self.x);
                    self.temp2 =
                    self.memory_cycle_read(self.temp as u16, bus, cpu_peripherals);
                    self.subcycle = 4;
                }
                4 => {
                    self.temp = self.memory_cycle_read(self.temp.wrapping_add(1) as u16,
                        bus,
                        cpu_peripherals,
                    );
                    self.subcycle = 5;
                }
                5 => {
                    self.tempaddr = (self.temp as u16) << 8 | (self.temp2 as u16);
                    self.temp =
                    self.memory_cycle_read(self.tempaddr, bus, cpu_peripherals);
                    self.subcycle = 6;
                }
                6 => {
                    self.memory_cycle_write(self.tempaddr, self.temp, bus, cpu_peripherals);
                    let old_carry = (self.p & CPU_FLAG_CARRY) != 0;
                    self.p &= !(CPU_FLAG_CARRY | CPU_FLAG_ZERO | CPU_FLAG_NEGATIVE);
                    if (self.temp & 0x1) != 0 {
                        self.p |= CPU_FLAG_CARRY;
                    }
                    self.temp >>= 1;
                    if old_carry {
                        self.temp |= 0x80;
                    }
                    self.cpu_adc(self.temp);
                    self.subcycle = 7;
                }
                _ => {
                    self.memory_cycle_write(self.tempaddr, self.temp, bus, cpu_peripherals);
                    self.pc = self.pc.wrapping_add(2);
                    self.end_instruction();
                }
            }
        }
        proof {
            super::lemma_byte_ops(old(self).temp, 0);
            super::lemma_carry_flags(old(self).p, (old(self).temp & 1) != 0);
            super::lemma_word(old(self).temp2, old(self).temp);
            super::lemma_word(((old(self).temp2 as int + old(self).y as int) % 256) as u8, old(self).temp);
        }
    }

    /// rra zero page, undocumented
    #[verifier::rlimit(100)]
    #[verifier::spinoff_prover]
    pub(crate) fn op_67<C: CartridgeDevice, K: ControllerDevice, P: PpuDevice, A: ApuDevice>(
        &mut self,
        bus: &mut NesMotherboard<C, K>,
        cpu_peripherals: &mut NesCpuPeripherals<P, A>,
    )
        requires
            old(self).inv(),
            !old(self).reset,
            old(self).opcode == Some(0x67u8),
            !old(self).bus_used@,
        ensures
            final(self).inv(),
            !final(self).reset,
            step_67(*old(self), *final(self)),
            final(self).opcode == old(self).opcode || super::finished(*final(self)),
            super::ram_effect(old(bus).spec_ram(), final(bus).spec_ram(), final(self).bus_used@, final(self).last_bus@),
            super::bus_effect(*old(bus), *old(cpu_peripherals), *final(bus), *final(cpu_peripherals), final(self).bus_used@, final(self).last_bus@),
            final(self).dmc_dma == old(self).dmc_dma,
            final(self).nmi_detected == old(self).nmi_detected,
            final(self).prev_nmi == old(self).prev_nmi,
    {
        {
            match self.subcycle {
                1 => {
                    self.temp2 = self.memory_cycle_read(self.pc.wrapping_add(1),
                        bus,
                        cpu_peripherals,
                    );
                    {
                        self.copy_debugger(hex8_text("*RRA $", self.temp2, ""));
                        self.done_fetching = true;
                    }
                    self.subcycle = 2;
                }
                2 => {
                    self.temp =
                    self.memory_cycle_read(self.temp2 as u16, bus, cpu_peripherals);
                    self.subcycle = 3;
                }
                3 => {
                    self.memory_cycle_write(self.temp2 as u16, self.temp, bus, cpu_peripherals);
                    self.subcycle = 4;
                }
                _ => {
                    let old_carry = (self.p & CPU_FLAG_CARRY) != 0;
                    self.p &= !(CPU_FLAG_CARRY | CPU_FLAG_ZERO | CPU_FLAG_NEGATIVE);
                    if (self.temp & 0x1) != 0 {
                        self.p |= CPU_FLAG_CARRY;
                    }
                    self.temp >>= 1;
                    if old_carry {
                        self.temp |= 0x80;
                    }
                    self.memory_cycle_write(self.temp2 as u16, self.temp, bus, cpu_peripherals);
                    self.cpu_adc(self.temp);
                    self.pc = self.pc.wrapping_add(2);
                    self.end_instruction();
                }
            }
        }
        proof {
            super::lemma_byte_ops(old(self).temp, 0);
            super::lemma_carry_flags(old(self).p, (old(self).temp & 1) != 0);
        }
    }

    /// rra absolute, undocumented
    #[verifier::rlimit(100)]
    #[verifier::spinoff_prover]
    pub(crate) fn op_6f<C: CartridgeDevice, K: ControllerDevice, P: PpuDevice, A: ApuDevice>(
        &mut self,
        bus: &mut NesMotherboard<C, K>,
        cpu_peripherals: &mut NesCpuPeripherals<P, A>,
    )
        requires
            old(self).inv(),
            !old(self).reset,
            old(self).opcode == Some(0x6fu8),
            !old(self).bus_used@,
        ensures
            final(self).inv(),
            !final(self).reset,
            step_6f(*old(self), *final(self)),
            final(self).opcode == old(self).opcode || super::finished(*final(self)),
            super::ram_effect(old(bus).spec_ram(), final(bus).spec_ram(), final(self).bus_used@, final(self).last_bus@),
            super::bus_effect(*old(bus), *old(cpu_peripherals), *final(bus), *final(cpu_peripherals), final(self).bus_used@, final(self).last_bus@),
            final(self).dmc_dma == old(self).dmc_dma,
            final(self).nmi_detected == old(self).nmi_detected,
            final(self).prev_nmi == old(self).prev_nmi,
    {
        {
            match self.subcycle {
                1 => {
                    self.temp = self.memory_cycle_read(self.pc.wrapping_add(1),
                        bus,
                        cpu_peripherals,
                    );
                    self.subcycle = 2;
                }
                2 => {
                    self.temp2 = self.memory_cycle_read(self.pc.wrapping_add(2),
                        bus,
                        cpu_peripherals,
                    );
                    {
                        let temp = (self.temp2 as u16) << 8 | self.temp as u16;
                        self.copy_debugger(hex16_text("*RRA $", temp, ""));
                        self.done_fetching = true;
                    }
                    proof {
                        super::lemma_word(self.temp, self.temp2);
                    }
                    self.subcycle = 3;
                }
                3 => {
                    self.tempaddr = (self.temp2 as u16) << 8 | (self.temp as u16);
                    self.temp =
                    self.memory_cycle_read(self.tempaddr, bus, cpu_peripherals);
                    self.subcycle = 4;
                }
                4 => {
                    self.memory_cycle_write(self.tempaddr, self.temp, bus, cpu_peripherals);
                    let old_carry = (self.p & CPU_FLAG_CARRY) != 0;
                    self.p &= !(CPU_FLAG_CARRY | CPU_FLAG_ZERO | CPU_FLAG_NEGATIVE);
                    if (self.temp & 0x1) != 0 {
                        self.p |= CPU_FLAG_CARRY;
                    }
                    self.temp >>= 1;
                    if old_carry {
                        self.temp |= 0x80;
                    }
                    self.cpu_adc(self.temp);
                    self.subcycle = 5;
                }
                _ => {
                    self.memory_cycle_write(self.tempaddr, self.temp, bus, cpu_peripherals);
                    self.pc = self.pc.wrapping_add(3);
                    self.end_instruction();
                }
            }
        }
        proof {
            super::lemma_byte_ops(old(self).temp, 0);
            super::lemma_carry_flags(old(self).p, (old(self).temp & 1) != 0);
            super::lemma_word(old(self).temp, old(self).temp2);
        }
    }

    /// rra indirect y
    #[verifier::rlimit(100)]
    #[verifier::spinoff_prover]
    pub(crate) fn op_73<C: CartridgeDevice, K: ControllerDevice, P: PpuDevice, A: ApuDevice>(
        &mut self,
        bus: &mut NesMotherboard<C, K>,
        cpu_peripherals: &mut NesCpuPeripherals<P, A>,
    )
        requires
            old(self).inv(),
            !old(self).reset,
            old(self).opcode == Some(0x73u8),
            !old(self).bus_used@,
        ensures
            final(self).inv(),
            !final(self).reset,
            step_73(*old(self), *final(self)),
            final(self).opcode == old(self).opcode || super::finished(*final(self)),
            super::ram_effect(old(bus).spec_ram(), final(bus).spec_ram(), final(self).bus_used@, final(self).last_bus@),
            super::bus_effect(*old(bus), *old(cpu_peripherals), *final(bus), *final(cpu_peripherals), final(self).bus_used@, final(self).last_bus@),
            final(self).dmc_dma == old(self).dmc_dma,
            final(self).nmi_detected == old(self).nmi_detected,
            final(self).prev_nmi == old(self).prev_nmi,
    {
        {
            match self.subcycle {
                1 => {
                    self.temp2 = self.memory_cycle_read(self.pc.wrapping_add(1),
                        bus,
                        cpu_peripherals,
                    );
                    {
                        self.copy_debugger(hex8_text("*RRA ($", self.temp2, "),Y"));
                        self.done_fetching = true;
                    }
                    self.subcycle = 2;
                }
                2 => {
                    self.temp =
                    self.memory_cycle_read(self.temp2 as u16, bus, cpu_peripherals);
                    self.subcycle = 3;
                }
                3 => {
                    self.temp2 = self.memory_cycle_read(self.temp2.wrapping_add(1) as u16,
                        bus,
                        cpu_peripherals,
                    );
                    self.subcycle = 4;
                }
                4 => {
                    self.tempaddr = (self.temp2 as u16) << 8 | (self.temp as u16);
                    self.memory_cycle_read((self.temp2 as u16) << 8 | (self.temp.wrapping_add(self.y) as u16),
                        bus,
                        cpu_peripherals,
                    );
                    self.subcycle = 5;
                }
                5 => {
                    self.tempaddr = self.tempaddr.wrapping_add(self.y as u16);
                    self.temp =
                    self.memory_cycle_read(self.tempaddr, bus, cpu_peripherals);
                    self.subcycle = 6;
                }
                6 => {
                    self.memory_cycle_write(self.tempaddr, self.temp, bus, cpu_peripherals);
                    self.subcycle = 7;
                }
                _ => {
                    let old_carry = (self.p & CPU_FLAG_CARRY) != 0;
                    self.p &= !(CPU_FLAG_CARRY | CPU_FLAG_ZERO | CPU_FLAG_NEGATIVE);
                    if (self.temp & 0x1) != 0 {
                        self.p |= CPU_FLAG_CARRY;
                    }
                    self.temp >>= 1;
                    if old_carry {
                        self.temp |= 0x80;
                    }
                    self.memory_cycle_write(self.tempaddr, self.temp, bus, cpu_peripherals);
                    self.cpu_adc(self.temp);
                    self.pc = self.pc.wrapping_add(2);
                    self.end_instruction();
                }
            }
        }
        proof {
            super::lemma_word(old(self).temp, old(self).temp2);
            super::lemma_word(((old(self).temp as int + old(self).y as int) % 256) as u8, old(self).temp2);
            super::lemma_byte_ops(old(self).temp, 0);
            super::lemma_carry_flags(old(self).p, (old(self).temp & 1) != 0);
            super::lemma_word(old(self).temp2, old(self).temp);
            super::lemma_word(((old(self).temp2 as int + old(self).y as int) % 256) as u8, old(self).temp);
        }
    }

    /// rra zero page x, undocumented
    #[verifier::rlimit(100)]
    #[verifier::spinoff_prover]
    pub(crate) fn op_77<C: CartridgeDevice, K: ControllerDevice, P: PpuDevice, A: ApuDevice>(
        &mut self,
        bus: &mut NesMotherboard<C, K>,
        cpu_peripherals: &mut NesCpuPeripherals<P, A>,
    )
        requires
            old(self).inv(),
            !old(self).reset,
            old(self).opcode == Some(0x77u8),
            !old(self).bus_used@,
        ensures
            final(self).inv(),
            !final(self).reset,
            step_77(*old(self), *final(self)),
            final(self).opcode == old(self).opcode || super::finished(*final(self)),
            super::ram_effect(old(bus).spec_ram(), final(bus).spec_ram(), final(self).bus_used@, final(self).last_bus@),
            super::bus_effect(*old(bus), *old(cpu_peripherals), *final(bus), *final(cpu_peripherals), final(self).bus_used@, final(self).last_bus@),
            final(self).dmc_dma == old(self).dmc_dma,
            final(self).nmi_detected == old(self).nmi_detected,
            final(self).prev_nmi == old(self).prev_nmi,
    {
        {
            match self.subcycle {
                1 => {
                    self.temp2 = self.memory_cycle_read(self.pc.wrapping_add(1),
                        bus,
                        cpu_peripherals,
                    );
                    {
                        self.copy_debugger(hex8_text("*RRA $", self.temp2, ",X"));
                        self.done_fetching = true;
                    }

                    self.subcycle = 2;
                }
                2 => {
                    self.memory_cycle_read(self.temp2 as u16, bus, cpu_peripherals);
                    self.subcycle = 3;
                }
                3 => {
                    self.temp2 = self.temp2.wrapping_add(self.x);
                    self.temp =
                    self.memory_cycle_read(self.temp2 as u16, bus, cpu_peripherals);
                    self.subcycle = 4;
                }
                4 => {
                    self.memory_cycle_write(self.temp2 as u16, self.temp, bus, cpu_peripherals);
                    self.subcycle = 5;
                }
                _ => {
                    let old_carry = (self.p & CPU_FLAG_CARRY) != 0;
                    self.p &= !(CPU_FLAG_CARRY | CPU_FLAG_ZERO | CPU_FLAG_NEGATIVE);
                    if (self.temp & 0x1) != 0 {
                        self.p |= CPU_FLAG_CARRY;
                    }
                    self.temp >>= 1;
                    if old_carry {
                        self.temp |= 0x80;
                    }
                    self.memory_cycle_write(self.temp2 as u16, self.temp, bus, cpu_peripherals);
                    self.cpu_adc(self.temp);
                    self.pc = self.pc.wrapping_add(2);
                    self.end_instruction();
                }
            }
        }
        proof {
            super::lemma_byte_ops(old(self).temp, 0);
            super::lemma_carry_flags(old(self).p, (old(self).temp & 1) != 0);
        }
    }

    /// rra absolute y, undocumented
    #[verifier::rlimit(100)]
    #[verifier::spinoff_prover]
    pub(crate) fn op_7b<C: CartridgeDevice, K: ControllerDevice, P: PpuDevice, A: ApuDevice>(
        &mut self,
        bus: &mut NesMotherboard<C, K>,
        cpu_peripherals: &mut NesCpuPeripherals<P, A>,
    )
        requires
            old(self).inv(),
            !old(self).reset,
            old(self).opcode == Some(0x7bu8),
            !old(self).bus_used@,
        ensures
            final(self).inv(),
            !final(self).reset,
            step_7b(*old(self), *final(self)),
            final(self).opcode == old(self).opcode || super::finished(*final(self)),
            super::ram_effect(old(bus).spec_ram(), final(bus).spec_ram(), final(self).bus_used@, final(self).last_bus@),
            super::bus_effect(*old(bus), *old(cpu_peripherals), *final(bus), *final(cpu_peripherals), final(self).bus_used@, final(self).last_bus@),
            final(self).dmc_dma == old(self).dmc_dma,
            final(self).nmi_detected == old(self).nmi_detected,
            final(self).prev_nmi == old(self).prev_nmi,
    {
        {
            match self.subcycle {
                1 => {
                    self.temp = self.memory_cycle_read(self.pc.wrapping_add(1),
                        bus,
                        cpu_peripherals,
                    );
                    self.subcycle = 2;
                }
                2 => {
                    self.temp2 = self.memory_cycle_read(self.pc.wrapping_add(2),
                        bus,
                        cpu_peripherals,
                    );
                    {
                        let temp = (self.temp2 as u16) << 8 | self.temp as u16;
                        self.copy_debugger(hex16_text("*RRA $", temp, ",Y"));
                        self.done_fetching = true;
                    }
                    proof {
                        super::lemma_word(self.temp, self.temp2);
                    }
                    self.subcycle = 3;
                }
                3 => {
                    self.tempaddr = (self.temp2 as u16) << 8 | (self.temp as u16);
                    self.memory_cycle_read((self.temp2 as u16) << 8 | (self.temp.wrapping_add(self.y) as u16),
                        bus,
                        cpu_peripherals,
                    );
                    self.subcycle = 4;
                }
                4 => {
                    self.tempaddr = self.tempaddr.wrapping_add(self.y as u16);
                    self.temp =
                    self.memory_cycle_read(self.tempaddr, bus, cpu_peripherals);
                    self.subcycle = 5;
                }
                5 => {
                    self.memory_cycle_write(self.tempaddr, self.temp, bus, cpu_peripherals);
                    let old_carry = (self.p & CPU_FLAG_CARRY) != 0;
                    self.p &= !(CPU_FLAG_CARRY | CPU_FLAG_ZERO | CPU_FLAG_NEGATIVE);
                    if (self.temp & 0x1) != 0 {
                        self.p |= CPU_FLAG_CARRY;
                    }
                    self.temp >>= 1;
                    if old_carry {
                        self.temp |= 0x80;
                    }
                    self.subcycle = 6;
                }
                _ => {
                    self.memory_cycle_write(self.tempaddr, self.temp, bus, cpu_peripherals);
                    self.cpu_adc(self.temp);
                    self.pc = self.pc.wrapping_add(3);
                    self.end_instruction();
                }
            }
        }
        proof {
            super::lemma_byte_ops(old(self).temp, 0);
            super::lemma_carry_flags(old(self).p, (old(self).temp & 1) != 0);
            super::lemma_word(old(self).temp, old(self).temp2);
            super::lemma_word(((old(self).temp as int + old(self).y as int) % 256) as u8, old(self).temp2);
        }
    }

    /// rra absolute x, undocumented
    #[verifier::rlimit(100)]
    #[verifier::spinoff_prover]
    pub(crate) fn op_7f<C: CartridgeDevice, K: ControllerDevice, P: PpuDevice, A: ApuDevice>(
        &mut self,
        bus: &mut NesMotherboard<C, K>,
        cpu_peripherals: &mut NesCpuPeripherals<P, A>,
    )
        requires
            old(self).inv(),
            !old(self).reset,
            old(self).opcode == Some(0x7fu8),
            !old(self).bus_used@,
        ensures
            final(self).inv(),
            !final(self).reset,
            step_7f(*old(self), *final(self)),
            final(self).opcode == old(self).opcode || super::finished(*final(self)),
            super::ram_effect(old(bus).spec_ram(), final(bus).spec_ram(), final(self).bus_used@, final(self).last_bus@),
            super::bus_effect(*old(bus), *old(cpu_peripherals), *final(bus), *final(cpu_peripherals), final(self).bus_used@, final(self).last_bus@),
            final(self).dmc_dma == old(self).dmc_dma,
            final(self).nmi_detected == old(self).nmi_detected,
            final(self).prev_nmi == old(self).prev_nmi,
    {
        {
            match self.subcycle {
                1 => {
                    self.temp = self.memory_cycle_read(self.pc.wrapping_add(1),
                        bus,
                        cpu_peripherals,
                    );
                    self.subcycle = 2;
                }
                2 => {
                    self.temp2 = self.memory_cycle_read(self.pc.wrapping_add(2),
                        bus,
                        cpu_peripherals,
                    );
                    {
                        let temp = (self.temp2 as u16) << 8 | self.temp as u16;
                        self.copy_debugger(hex16_text("*RRA $", temp, ",X"));
                        self.done_fetching = true;
                    }
                    proof {
                        super::lemma_word(self.temp, self.temp2);
                    }
                    self.subcycle = 3;
                }
                3 => {
                    self.tempaddr = (self.temp2 as u16) << 8 | (self.temp as u16);
                    self.memory_cycle_read((self.temp2 as u16) << 8 | (self.temp.wrapping_add(self.x) as u16),
                        bus,
                        cpu_peripherals,
                    );
                    self.subcycle = 4;
                }
                4 => {
                    self.tempaddr = self.tempaddr.wrapping_add(self.x as u16);
                    self.temp =
                    self.memory_cycle_read(self.tempaddr, bus, cpu_peripherals);
                    self.subcycle = 5;
                }
                5 => {
                    self.memory_cycle_write(self.tempaddr, self.temp, bus, cpu_peripherals);
                    let old_carry = (self.p & CPU_FLAG_CARRY) != 0;
                    self.p &= !(CPU_FLAG_CARRY | CPU_FLAG_ZERO | CPU_FLAG_NEGATIVE);
                    if (self.temp & 0x1) != 0 {
                        self.p |= CPU_FLAG_CARRY;
                    }
                    self.temp >>= 1;
                    if old_carry {
                        self.temp |= 0x80;
                    }
                    self.cpu_adc(self.temp);
                    self.subcycle = 6;
                }
                _ => {
                    self.memory_cycle_write(self.tempaddr, self.temp, bus, cpu_peripherals);
                    self.pc = self.pc.wrapping_add(3);
                    self.end_instruction();
                }
            }
        }
        proof {
            super::lemma_byte_ops(old(self).temp, 0);
            super::lemma_carry_flags(old(self).p, (old(self).temp & 1) != 0);
            super::lemma_word(old(self).temp, old(self).temp2);
            super::lemma_word(((old(self).temp as int + old(self).x as int) % 256) as u8, old(self).temp2);
        }
    }
}

} // verus!

use vstd::prelude::*;

use crate::cpu::{
    adc_flags, adc_sum, branch_condition, flag_on, is_branch, page, pulled_status,
    pushed_status, stack_addr, with_zn, word, Instr, Mode, CARRY, CPU, DECIMAL,
    INTERRUPT_DISABLE, NEGATIVE, OVERFLOW, UNUSED, ZERO,
};

verus! {

/// The value of a byte read as a two's-complement number.
pub open spec fn signed(b: u8) -> int {
    if b < 128 {
        b as int
    } else {
        b as int - 256
    }
}

/// A push moves the stack pointer down by one and a pull moves it up by one, both
/// modulo 256; the pushed byte lands in page 1.
pub proof fn lemma_stack_pointer_moves(s: CPU, v: u8)
    ensures
        s.pushed(v).sp as int == (s.sp as int - 1) % 256,
        s.pulled().sp as int == (s.sp as int + 1) % 256,
        page(stack_addr(s.sp)) == 0x0100,
{
    let a = stack_addr(s.sp);
    assert(0x100u16 <= a <= 0x1FFu16 ==> a & 0xFF00u16 == 0x0100u16) by (bit_vector);
}

/// Every pointer that zero-page and indirect-indexed modes take from page zero stays in
/// page zero: its high byte is 0.
pub proof fn lemma_zero_page_wraps(s: CPU, mode: Mode)
    ensures
        (mode is ZeroPage || mode is ZeroPageX || mode is ZeroPageY) ==> s.fetch(mode).addr
            < 0x100,
        (mode is IndirectX || mode is IndirectY) ==> s.pointer_cells(mode).0 < 0x100
            && s.pointer_cells(mode).1 < 0x100,
{
    assert(forall|w: u16| #[trigger] (w & 0xFFu16) < 0x100u16) by (bit_vector);
}

/// ADC sets C exactly when the unsigned 9-bit sum exceeds 0xFF, and V exactly when the
/// sum of the operands read as signed bytes leaves -128..=127. SBC is ADC of the
/// complemented operand, so the same holds of it with `!m` in place of `m`.
pub proof fn lemma_adc_carry_overflow(p: u8, a: u8, m: u8)
    ensures
        ({
            let c: int = if flag_on(p, CARRY) { 1 } else { 0 };
            let q = adc_flags(p, a, m);
            &&& flag_on(q, CARRY) == (a as int + m as int + c > 0xFF)
            &&& flag_on(q, OVERFLOW) == !(-128 <= signed(a) + signed(m) + c <= 127)
        }),
{
    let c: bool = p & 1 == 1;
    let q = adc_flags(p, a, m);
    assert({
        let ci: u16 = if p & 1u8 == 1u8 { 1 } else { 0 };
        let sum: u16 = (a as u16 + m as u16 + ci) as u16;
        let r: u8 = sum as u8;
        let v = (a ^ r) & (m ^ r) & 0x80u8 != 0;
        let q1: u8 = if v { p | 0x40u8 } else { p & !0x40u8 };
        let q2: u8 = if sum > 0xFF { q1 | 1u8 } else { q1 & !1u8 };
        let q3: u8 = if r == 0 { q2 | 2u8 } else { q2 & !2u8 };
        let q4: u8 = if r & 0x80u8 != 0 { q3 | 0x80u8 } else { q3 & !0x80u8 };
        let sa: int = if a < 128 { a as int } else { a as int - 256 };
        let sm: int = if m < 128 { m as int } else { m as int - 256 };
        &&& (q4 & 1u8 == 1u8) == (sum > 0xFF)
        &&& (q4 & 0x40u8 == 0x40u8) == !(-128 <= sa + sm + ci <= 127)
    }) by (bit_vector);
}

/// JMP through a pointer at the last byte of a page takes the high byte of the target from
/// the start of that same page, not from the next page.
pub proof fn lemma_indirect_jump_page_bug(s: CPU)
    ensures
        ({
            let ptr = word(s.bus.peek(s.pc), s.bus.peek(s.pc.wrapping_add(1)));
            ptr & 0xFF == 0xFF ==> s.fetch(Mode::Indirect).addr == word(
                s.bus.peek(ptr),
                s.bus.peek(ptr & 0xFF00),
            )
        }),
{
    let ptr = word(s.bus.peek(s.pc), s.bus.peek(s.pc.wrapping_add(1)));
    assert(ptr & 0xFFu16 == 0xFFu16 ==> (ptr & 0xFF00u16) | (ptr.wrapping_add(1) & 0xFFu16)
        == ptr & 0xFF00u16) by (bit_vector);
}

/// A branch not taken costs its base cycles; taken, one more; taken to another page,
/// two more.
pub proof fn lemma_branch_cycles(s: CPU, i: Instr, mode: Mode, next: CPU)
    requires
        is_branch(i),
        s.cycles < 254,
        s.performs(i, mode, next),
    ensures
        ({
            let after = s.pc.wrapping_add(1);
            let target = next.pc;
            &&& !branch_condition(i, s.p) ==> next.cycles == s.cycles && next.pc == after
            &&& branch_condition(i, s.p) && page(target) == page(after) ==> next.cycles
                == s.cycles + 1
            &&& branch_condition(i, s.p) && page(target) != page(after) ==> next.cycles
                == s.cycles + 2
        }),
{
    reveal(CPU::performs);
}

/// PHA then PLA leaves A, X, Y, the stack pointer and the program counter as they were,
/// and sets Z and N from A.
pub proof fn lemma_pha_pla(s0: CPU, s1: CPU, s2: CPU, m1: Mode, m2: Mode)
    requires
        s0.performs(Instr::Pha, m1, s1),
        s1.performs(Instr::Pla, m2, s2),
    ensures
        s2.a == s0.a,
        s2.x == s0.x,
        s2.y == s0.y,
        s2.sp == s0.sp,
        s2.pc == s0.pc,
        s2.p == with_zn(s0.p, s0.a),
{
    reveal(CPU::performs);
    lemma_pushed_then_top(s0, s0.a);
}

/// PHP then PLP restores C, Z, I, D, V and N, and leaves U set.
pub proof fn lemma_php_plp(s0: CPU, s1: CPU, s2: CPU, m1: Mode, m2: Mode)
    requires
        s0.performs(Instr::Php, m1, s1),
        s1.performs(Instr::Plp, m2, s2),
    ensures
        flag_on(s2.p, CARRY) == flag_on(s0.p, CARRY),
        flag_on(s2.p, ZERO) == flag_on(s0.p, ZERO),
        flag_on(s2.p, INTERRUPT_DISABLE) == flag_on(s0.p, INTERRUPT_DISABLE),
        flag_on(s2.p, DECIMAL) == flag_on(s0.p, DECIMAL),
        flag_on(s2.p, OVERFLOW) == flag_on(s0.p, OVERFLOW),
        flag_on(s2.p, NEGATIVE) == flag_on(s0.p, NEGATIVE),
        flag_on(s2.p, UNUSED),
        s2.sp == s0.sp,
{
    reveal(CPU::performs);
    lemma_pushed_then_top(s0, pushed_status(s0.p));
    let p = s0.p;
    assert({
        let q = ((p | 0x10u8 | 0x20u8) & 0xCFu8) | (p & 0x10u8) | 0x20u8;
        &&& (q & 0x01u8 == 0x01u8) == (p & 0x01u8 == 0x01u8)
        &&& (q & 0x02u8 == 0x02u8) == (p & 0x02u8 == 0x02u8)
        &&& (q & 0x04u8 == 0x04u8) == (p & 0x04u8 == 0x04u8)
        &&& (q & 0x08u8 == 0x08u8) == (p & 0x08u8 == 0x08u8)
        &&& (q & 0x40u8 == 0x40u8) == (p & 0x40u8 == 0x40u8)
        &&& (q & 0x80u8 == 0x80u8) == (p & 0x80u8 == 0x80u8)
        &&& q & 0x20u8 == 0x20u8
    }) by (bit_vector);
}

/// JSR then RTS returns to the instruction after the JSR (whose operand starts at `s0.pc`),
/// with the stack pointer and the other registers as they were.
pub proof fn lemma_jsr_rts(s0: CPU, s1: CPU, s2: CPU, m1: Mode, m2: Mode)
    requires
        s0.performs(Instr::Jsr, m1, s1),
        s1.performs(Instr::Rts, m2, s2),
    ensures
        s2.pc == s0.pc.wrapping_add(2),
        s2.sp == s0.sp,
        s2.a == s0.a,
        s2.x == s0.x,
        s2.y == s0.y,
        s2.p == s0.p,
{
    reveal(CPU::performs);
    let f = s0.fetched(Mode::Absolute, false);
    let ret = f.pc.wrapping_sub(1);
    let hi = (ret / 256) as u8;
    let lo = (ret % 256) as u8;
    let t1 = f.pushed(hi);
    lemma_pushed_then_top(f, hi);
    lemma_pushed_then_top(t1, lo);
    lemma_pushed_keeps_other_slot(t1, lo, f.sp);
    assert(word(lo, hi) == ret);
}

/// After a push, the top of the stack is the pushed byte.
pub proof fn lemma_pushed_then_top(s: CPU, v: u8)
    ensures
        s.pushed(v).top() == v,
        s.pushed(v).pulled().sp == s.sp,
{
    crate::cpu::lemma_stack_in_ram(s.sp);
    assert(s.pushed(v).sp.wrapping_add(1) == s.sp);
    assert(s.pushed(v).bus.memory@ == s.bus.memory@.update(stack_addr(s.sp) as int, v));
}

/// A push leaves the stack slot of every other stack pointer value as it was.
pub proof fn lemma_pushed_keeps_other_slot(s: CPU, v: u8, sp: u8)
    requires
        sp != s.sp,
    ensures
        s.pushed(v).bus.peek(stack_addr(sp)) == s.bus.peek(stack_addr(sp)),
{
    crate::cpu::lemma_stack_in_ram(s.sp);
    crate::cpu::lemma_stack_in_ram(sp);
    assert(s.pushed(v).bus.memory@ == s.bus.memory@.update(stack_addr(s.sp) as int, v));
}

} // verus!

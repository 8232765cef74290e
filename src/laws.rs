use vstd::prelude::*;

use crate::error::Chip8Error;
use crate::instruction::{decode_spec, field_kk, field_n, field_nnn, field_x, field_y};
use crate::semantics::{
    first_pressed, first_pressed_from, sprite_pixel, step_spec, view_wf, word_at, MachineView,
    MEMORY_SIZE, NUM_KEYS, VIDEO_SIZE,
};

verus! {

/// The opcode with top nibble `top` and nibbles `x`, `y`, `n` after it.
pub open spec fn opcode(top: int, x: int, y: int, n: int) -> u16 {
    (top * 4096 + x * 256 + y * 16 + n) as u16
}

/// Whether the word at the program counter lies in memory and is `op`.
pub open spec fn fetches(s: MachineView, op: u16) -> bool {
    &&& s.pc + 1 < MEMORY_SIZE
    &&& word_at(s.memory, s.pc as int) == op
}

/// The fields of an opcode built from its nibbles are those nibbles.
pub proof fn lemma_opcode_nibbles(top: int, x: int, y: int, n: int)
    requires
        0 <= top < 16,
        0 <= x < 16,
        0 <= y < 16,
        0 <= n < 16,
    ensures
        opcode(top, x, y, n) / 4096 == top,
        field_x(opcode(top, x, y, n)) == x,
        field_y(opcode(top, x, y, n)) == y,
        field_n(opcode(top, x, y, n)) == n,
        field_kk(opcode(top, x, y, n)) == y * 16 + n,
        field_nnn(opcode(top, x, y, n)) == x * 256 + y * 16 + n,
{
    let op = top * 4096 + x * 256 + y * 16 + n;
    assert(0 <= op < 65536);
    assert(op / 4096 == top) by (nonlinear_arith)
        requires
            op == top * 4096 + x * 256 + y * 16 + n,
            0 <= x < 16,
            0 <= y < 16,
            0 <= n < 16,
    ;
    assert((op / 256) % 16 == x) by (nonlinear_arith)
        requires
            op == top * 4096 + x * 256 + y * 16 + n,
            0 <= top < 16,
            0 <= x < 16,
            0 <= y < 16,
            0 <= n < 16,
    ;
    assert((op / 16) % 16 == y) by (nonlinear_arith)
        requires
            op == top * 4096 + x * 256 + y * 16 + n,
            0 <= top < 16,
            0 <= x < 16,
            0 <= y < 16,
            0 <= n < 16,
    ;
    assert(op % 16 == n) by (nonlinear_arith)
        requires
            op == top * 4096 + x * 256 + y * 16 + n,
            0 <= n < 16,
    ;
    assert(op % 256 == y * 16 + n) by (nonlinear_arith)
        requires
            op == top * 4096 + x * 256 + y * 16 + n,
            0 <= y < 16,
            0 <= n < 16,
    ;
    assert(op % 4096 == x * 256 + y * 16 + n) by (nonlinear_arith)
        requires
            op == top * 4096 + x * 256 + y * 16 + n,
            0 <= x < 16,
            0 <= y < 16,
            0 <= n < 16,
    ;
}

/// `8xy4` leaves the sum of Vx and Vy modulo 256 in Vx, and VF is 1 exactly
/// when the sum exceeds 255. Vx is not VF, whose flag the result would replace.
pub proof fn law_add_wraps(s: MachineView, random: u8, x: u8, y: u8)
    requires
        view_wf(s),
        x < 15,
        y < 16,
        fetches(s, opcode(8, x as int, y as int, 4)),
    ensures
        ({
            let (t, r) = step_spec(s, random);
            let vx = s.registers[x as int];
            let vy = s.registers[y as int];
            &&& r is Ok
            &&& t.registers[x as int] == vx.wrapping_add(vy)
            &&& t.registers[x as int] == (vx + vy) % 256
            &&& t.registers[0xF] == if vx + vy > 255 { 1u8 } else { 0u8 }
            &&& t.pc == s.pc + 2
        }),
{
    lemma_opcode_nibbles(8, x as int, y as int, 4);
}

/// `8xy5` leaves Vx - Vy modulo 256 in Vx, and VF is 1 exactly when no borrow
/// occurs (Vx >= Vy). Vx is not VF.
pub proof fn law_sub_wraps(s: MachineView, random: u8, x: u8, y: u8)
    requires
        view_wf(s),
        x < 15,
        y < 16,
        fetches(s, opcode(8, x as int, y as int, 5)),
    ensures
        ({
            let (t, r) = step_spec(s, random);
            let vx = s.registers[x as int];
            let vy = s.registers[y as int];
            &&& r is Ok
            &&& t.registers[x as int] == vx.wrapping_sub(vy)
            &&& t.registers[x as int] == (vx - vy) % 256
            &&& t.registers[0xF] == if vx >= vy { 1u8 } else { 0u8 }
            &&& t.pc == s.pc + 2
        }),
{
    lemma_opcode_nibbles(8, x as int, y as int, 5);
}

/// `8xy7` leaves Vy - Vx modulo 256 in Vx, and VF is 1 exactly when no borrow
/// occurs (Vy >= Vx). Vx is not VF.
pub proof fn law_sub_reversed_wraps(s: MachineView, random: u8, x: u8, y: u8)
    requires
        view_wf(s),
        x < 15,
        y < 16,
        fetches(s, opcode(8, x as int, y as int, 7)),
    ensures
        ({
            let (t, r) = step_spec(s, random);
            let vx = s.registers[x as int];
            let vy = s.registers[y as int];
            &&& r is Ok
            &&& t.registers[x as int] == vy.wrapping_sub(vx)
            &&& t.registers[x as int] == (vy - vx) % 256
            &&& t.registers[0xF] == if vy >= vx { 1u8 } else { 0u8 }
            &&& t.pc == s.pc + 2
        }),
{
    lemma_opcode_nibbles(8, x as int, y as int, 7);
}

/// After `00E0` every framebuffer cell is off and `redraw` is raised.
pub proof fn law_clear_screen(s: MachineView, random: u8)
    requires
        view_wf(s),
        fetches(s, 0x00E0),
    ensures
        ({
            let (t, r) = step_spec(s, random);
            &&& r is Ok
            &&& t.video.len() == VIDEO_SIZE
            &&& forall|c: int| 0 <= c < VIDEO_SIZE ==> !#[trigger] t.video[c]
            &&& t.redraw
        }),
{
}

/// A call `2nnn` followed by a return `00EE` at `nnn` comes back to the
/// instruction after the call, with the stack pointer as it was.
pub proof fn law_call_then_return(s: MachineView, random1: u8, random2: u8, addr: u16)
    requires
        view_wf(s),
        s.sp < 16,
        addr + 1 < MEMORY_SIZE,
        fetches(s, (0x2000 + addr) as u16),
        word_at(s.memory, addr as int) == 0x00EE,
    ensures
        ({
            let (s1, r1) = step_spec(s, random1);
            let (s2, r2) = step_spec(s1, random2);
            &&& r1 is Ok
            &&& r2 is Ok
            &&& s1.pc == addr
            &&& s2.pc == s.pc + 2
            &&& s2.sp == s.sp
            &&& s2.registers == s.registers
            &&& s2.memory == s.memory
        }),
{
    let a = addr as int;
    lemma_opcode_nibbles(2, a / 256, (a / 16) % 16, a % 16);
    assert(opcode(2, a / 256, (a / 16) % 16, a % 16) == 0x2000 + addr);
}

/// A sprite drawn with its left edge at the last column, x = 63, and its top
/// at row 0 has its first column on cell (63, 0) and its second column wrapped
/// onto cell (0, 0).
pub proof fn law_draw_wraps(s: MachineView, random: u8, x: u8, y: u8, rows: u8)
    requires
        view_wf(s),
        x < 16,
        y < 16,
        1 <= rows < 16,
        s.registers[x as int] == 63,
        s.registers[y as int] == 0,
        s.index + rows <= MEMORY_SIZE,
        fetches(s, opcode(0xD, x as int, y as int, rows as int)),
    ensures
        ({
            let (t, r) = step_spec(s, random);
            let row = s.memory[s.index as int];
            &&& r is Ok
            &&& t.video[63] == (s.video[63] != sprite_pixel(row, 0))
            &&& t.video[0] == (s.video[0] != sprite_pixel(row, 1))
        }),
{
    lemma_opcode_nibbles(0xD, x as int, y as int, rows as int);
}

/// With no key pressed, `Fx0A` leaves the whole state as it was, so that it
/// runs again on the next step.
pub proof fn law_wait_key_idle(s: MachineView, random: u8, x: u8)
    requires
        view_wf(s),
        x < 16,
        forall|k: int| 0 <= k < NUM_KEYS ==> !#[trigger] s.keypad[k],
        fetches(s, opcode(0xF, x as int, 0, 0xA)),
    ensures
        step_spec(s, random) == (s, Ok::<(), Chip8Error>(())),
{
    lemma_opcode_nibbles(0xF, x as int, 0, 0xA);
    lemma_first_pressed_none(s.keypad, 0);
}

/// With no key pressed until key `k` is set, `Fx0A` puts `k` in Vx and moves
/// on to the next instruction.
pub proof fn law_wait_key_press(s: MachineView, random: u8, x: u8, k: u8)
    requires
        view_wf(s),
        x < 16,
        k < NUM_KEYS,
        forall|j: int| 0 <= j < NUM_KEYS ==> !#[trigger] s.keypad[j],
        fetches(s, opcode(0xF, x as int, 0, 0xA)),
    ensures
        ({
            let pressed = MachineView { keypad: s.keypad.update(k as int, true), ..s };
            let (t, r) = step_spec(pressed, random);
            &&& r is Ok
            &&& t.registers[x as int] == k
            &&& t.pc == s.pc + 2
        }),
{
    lemma_opcode_nibbles(0xF, x as int, 0, 0xA);
    let keypad = s.keypad.update(k as int, true);
    lemma_first_pressed_some(keypad, 0, k as int);
}

/// No key pressed from `from` on: no key is found.
proof fn lemma_first_pressed_none(keypad: Seq<bool>, from: int)
    requires
        keypad.len() == NUM_KEYS,
        forall|k: int| 0 <= k < NUM_KEYS ==> !#[trigger] keypad[k],
    ensures
        first_pressed_from(keypad, from) is None,
    decreases NUM_KEYS - from,
{
    if 0 <= from < NUM_KEYS {
        lemma_first_pressed_none(keypad, from + 1);
    }
}

/// Key `k` pressed and none before it from `from` on: `k` is found.
proof fn lemma_first_pressed_some(keypad: Seq<bool>, from: int, k: int)
    requires
        keypad.len() == NUM_KEYS,
        0 <= from <= k < NUM_KEYS,
        keypad[k],
        forall|j: int| from <= j < k ==> !#[trigger] keypad[j],
    ensures
        first_pressed_from(keypad, from) == Some(k as u8),
    decreases k - from,
{
    if from < k {
        lemma_first_pressed_some(keypad, from + 1, k);
    }
}

/// A fetched word that decodes to no instruction makes the step fail with
/// `UnknownOpcode` carrying that word.
pub proof fn law_unknown_opcode(s: MachineView, random: u8, op: u16)
    requires
        view_wf(s),
        fetches(s, op),
        decode_spec(op) is Err,
    ensures
        step_spec(s, random).1 == Err::<(), Chip8Error>(Chip8Error::UnknownOpcode(op)),
{
}

/// `8xyN` with `N` outside 0 to 7 and E is an unknown opcode.
pub proof fn law_unknown_alu_opcode(x: u8, y: u8, n: u8)
    requires
        x < 16,
        y < 16,
        8 <= n < 16,
        n != 0xE,
    ensures
        decode_spec(opcode(8, x as int, y as int, n as int)) == Err::<
            crate::instruction::Instruction,
            Chip8Error,
        >(Chip8Error::UnknownOpcode(opcode(8, x as int, y as int, n as int))),
{
    lemma_opcode_nibbles(8, x as int, y as int, n as int);
}

} // verus!

//! The predefined font: 16 five-row glyph bitmaps for the hexadecimal
//! digits 0-F, and the routine that installs them into low memory.

use vstd::prelude::*;
use vstd::arithmetic::div_mod::lemma_fundamental_div_mod_converse;

use crate::Chip8State;

verus! {

/// Height in rows of one predefined glyph.
pub const DEF_SPRITE_HEIGHT: usize = 5;

/// The five rows of the predefined glyph for `digit` (0-F).
pub open spec fn sprite_rows(digit: int) -> Seq<u8> {
    if digit == 0 {
        seq![0xF0u8, 0x90, 0x90, 0x90, 0xF0]
    } else if digit == 1 {
        seq![0x20u8, 0x60, 0x20, 0x20, 0x70]
    } else if digit == 2 {
        seq![0xF0u8, 0x10, 0xF0, 0x80, 0xF0]
    } else if digit == 3 {
        seq![0xF0u8, 0x10, 0xF0, 0x10, 0xF0]
    } else if digit == 4 {
        seq![0x90u8, 0x90, 0xF0, 0x10, 0x10]
    } else if digit == 5 {
        seq![0xF0u8, 0x80, 0xF0, 0x10, 0xF0]
    } else if digit == 6 {
        seq![0xF0u8, 0x80, 0xF0, 0x90, 0xF0]
    } else if digit == 7 {
        seq![0xF0u8, 0x10, 0x20, 0x40, 0x40]
    } else if digit == 8 {
        seq![0xF0u8, 0x90, 0xF0, 0x90, 0xF0]
    } else if digit == 9 {
        seq![0xF0u8, 0x90, 0xF0, 0x10, 0xF0]
    } else if digit == 10 {
        seq![0xF0u8, 0x90, 0xF0, 0x90, 0x90]
    } else if digit == 11 {
        seq![0xE0u8, 0x90, 0xE0, 0x90, 0xE0]
    } else if digit == 12 {
        seq![0xF0u8, 0x80, 0x80, 0x80, 0xF0]
    } else if digit == 13 {
        seq![0xE0u8, 0x90, 0x90, 0x90, 0xE0]
    } else if digit == 14 {
        seq![0xF0u8, 0x80, 0xF0, 0x80, 0xF0]
    } else {
        seq![0xF0u8, 0x80, 0xF0, 0x80, 0x80]
    }
}

/// The byte at offset `k` of the installed 80-byte font region.
pub open spec fn font_byte(k: int) -> u8 {
    sprite_rows(k / 5)[k % 5]
}

/// One predefined glyph: five rows of eight pixels each.
pub struct DefaultSize {
    pub rows: Vec<u8>,
}

fn mk_sprite(r0: u8, r1: u8, r2: u8, r3: u8, r4: u8) -> (s: DefaultSize)
    ensures
        s.rows@ == seq![r0, r1, r2, r3, r4],
{
    let mut rows: Vec<u8> = Vec::new();
    rows.push(r0);
    rows.push(r1);
    rows.push(r2);
    rows.push(r3);
    rows.push(r4);
    proof {
        assert(rows@ =~= seq![r0, r1, r2, r3, r4]);
    }
    DefaultSize { rows }
}

/// The full table of 16 predefined glyphs, digit 0 first.
pub fn default_sprites() -> (v: Vec<DefaultSize>)
    ensures
        v@.len() == 16,
        forall|d: int| 0 <= d < 16 ==> (#[trigger] v@[d].rows)@ == sprite_rows(d),
{
    let mut v: Vec<DefaultSize> = Vec::new();
    v.push(mk_sprite(0xF0, 0x90, 0x90, 0x90, 0xF0));
    v.push(mk_sprite(0x20, 0x60, 0x20, 0x20, 0x70));
    v.push(mk_sprite(0xF0, 0x10, 0xF0, 0x80, 0xF0));
    v.push(mk_sprite(0xF0, 0x10, 0xF0, 0x10, 0xF0));
    v.push(mk_sprite(0x90, 0x90, 0xF0, 0x10, 0x10));
    v.push(mk_sprite(0xF0, 0x80, 0xF0, 0x10, 0xF0));
    v.push(mk_sprite(0xF0, 0x80, 0xF0, 0x90, 0xF0));
    v.push(mk_sprite(0xF0, 0x10, 0x20, 0x40, 0x40));
    v.push(mk_sprite(0xF0, 0x90, 0xF0, 0x90, 0xF0));
    v.push(mk_sprite(0xF0, 0x90, 0xF0, 0x10, 0xF0));
    v.push(mk_sprite(0xF0, 0x90, 0xF0, 0x90, 0x90));
    v.push(mk_sprite(0xE0, 0x90, 0xE0, 0x90, 0xE0));
    v.push(mk_sprite(0xF0, 0x80, 0x80, 0x80, 0xF0));
    v.push(mk_sprite(0xE0, 0x90, 0x90, 0x90, 0xE0));
    v.push(mk_sprite(0xF0, 0x80, 0xF0, 0x80, 0xF0));
    v.push(mk_sprite(0xF0, 0x80, 0xF0, 0x80, 0x80));
    v
}

/// Install the 16 predefined glyphs into memory 0x000-0x04F, five bytes
/// per digit; the rest of the state is untouched.
pub fn store_default_sprites(state: &mut Chip8State)
    requires
        old(state).wf(),
    ensures
        final(state).wf(),
        forall|k: int| 0 <= k < 80 ==> final(state).memory@[k] == font_byte(k),
        forall|k: int| 80 <= k < 4096 ==> final(state).memory@[k] == old(state).memory@[k],
        final(state).registers@ == old(state).registers@,
        final(state).index == old(state).index,
        final(state).stack@ == old(state).stack@,
        final(state).sp == old(state).sp,
        final(state).pc == old(state).pc,
        final(state).dt == old(state).dt,
        final(state).st == old(state).st,
        final(state).framebuffer@ == old(state).framebuffer@,
        final(state).input == old(state).input,
{
    let sprites = default_sprites();
    let mut s: usize = 0;
    while s < 16
        invariant
            state.wf(),
            0 <= s <= 16,
            sprites@.len() == 16,
            forall|d: int| 0 <= d < 16 ==> (#[trigger] sprites@[d].rows)@ == sprite_rows(d),
            forall|k: int| 0 <= k < 5 * s ==> state.memory@[k] == font_byte(k),
            forall|k: int| 5 * s <= k < 4096 ==> state.memory@[k] == old(state).memory@[k],
            state.registers@ == old(state).registers@,
            state.index == old(state).index,
            state.stack@ == old(state).stack@,
            state.sp == old(state).sp,
            state.pc == old(state).pc,
            state.dt == old(state).dt,
            state.st == old(state).st,
            state.framebuffer@ == old(state).framebuffer@,
            state.input == old(state).input,
        decreases 16 - s,
    {
        let mut i: usize = 0;
        while i < DEF_SPRITE_HEIGHT
            invariant
                state.wf(),
                0 <= s < 16,
                0 <= i <= 5,
                sprites@.len() == 16,
                forall|d: int| 0 <= d < 16 ==> (#[trigger] sprites@[d].rows)@ == sprite_rows(d),
                forall|k: int| 0 <= k < 5 * s + i ==> state.memory@[k] == font_byte(k),
                forall|k: int| 5 * s + i <= k < 4096 ==> state.memory@[k] == old(
                    state,
                ).memory@[k],
                state.registers@ == old(state).registers@,
                state.index == old(state).index,
                state.stack@ == old(state).stack@,
                state.sp == old(state).sp,
                state.pc == old(state).pc,
                state.dt == old(state).dt,
                state.st == old(state).st,
                state.framebuffer@ == old(state).framebuffer@,
                state.input == old(state).input,
            decreases 5 - i,
        {
            state.memory[s * DEF_SPRITE_HEIGHT + i] = sprites[s].rows[i];
            proof {
                lemma_fundamental_div_mod_converse(5 * s + i, 5, s as int, i as int);
                assert(font_byte(5 * s + i) == sprite_rows(s as int)[i as int]);
            }
            i += 1;
        }
        s += 1;
    }
}

} // verus!

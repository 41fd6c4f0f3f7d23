//! A verified CHIP-8 virtual machine core: machine state, instruction
//! decoding, and a fetch-decode-execute engine over a 35-instruction set.

pub mod opcode;
pub mod sprite;
pub mod util;

use vstd::prelude::*;

pub use opcode::{Opcode, WaitStatus};

verus! {

/// Size in bytes of one encoded instruction.
pub const INSTR_SIZE: u8 = 2;

/// For conveniently accessing registers in a 16-byte buffer.
#[derive(Clone, Copy, Debug, PartialEq, Eq, Structural)]
pub enum Reg {
    V0,
    V1,
    V2,
    V3,
    V4,
    V5,
    V6,
    V7,
    V8,
    V9,
    VA,
    VB,
    VC,
    VD,
    VE,
    VF,
}

impl Reg {
    /// The position of this register in the register file.
    pub open spec fn spec_idx(self) -> int {
        match self {
            Reg::V0 => 0,
            Reg::V1 => 1,
            Reg::V2 => 2,
            Reg::V3 => 3,
            Reg::V4 => 4,
            Reg::V5 => 5,
            Reg::V6 => 6,
            Reg::V7 => 7,
            Reg::V8 => 8,
            Reg::V9 => 9,
            Reg::VA => 10,
            Reg::VB => 11,
            Reg::VC => 12,
            Reg::VD => 13,
            Reg::VE => 14,
            Reg::VF => 15,
        }
    }

    /// The register named by the low nibble of `v`.
    pub open spec fn spec_from(v: u8) -> Reg {
        let n = v & 0x0F;
        if n == 0 {
            Reg::V0
        } else if n == 1 {
            Reg::V1
        } else if n == 2 {
            Reg::V2
        } else if n == 3 {
            Reg::V3
        } else if n == 4 {
            Reg::V4
        } else if n == 5 {
            Reg::V5
        } else if n == 6 {
            Reg::V6
        } else if n == 7 {
            Reg::V7
        } else if n == 8 {
            Reg::V8
        } else if n == 9 {
            Reg::V9
        } else if n == 10 {
            Reg::VA
        } else if n == 11 {
            Reg::VB
        } else if n == 12 {
            Reg::VC
        } else if n == 13 {
            Reg::VD
        } else if n == 14 {
            Reg::VE
        } else {
            Reg::VF
        }
    }

    /// The index of this register, usable to address the register file.
    pub fn idx(self) -> (i: usize)
        ensures
            i == self.spec_idx(),
    {
        match self {
            Reg::V0 => 0,
            Reg::V1 => 1,
            Reg::V2 => 2,
            Reg::V3 => 3,
            Reg::V4 => 4,
            Reg::V5 => 5,
            Reg::V6 => 6,
            Reg::V7 => 7,
            Reg::V8 => 8,
            Reg::V9 => 9,
            Reg::VA => 10,
            Reg::VB => 11,
            Reg::VC => 12,
            Reg::VD => 13,
            Reg::VE => 14,
            Reg::VF => 15,
        }
    }
}

impl From<u8> for Reg {
    /// The register named by the low nibble of `value`.
    fn from(value: u8) -> (r: Self)
        ensures
            r == Reg::spec_from(value),
    {
        match value & 0x0F {
            0 => Self::V0,
            1 => Self::V1,
            2 => Self::V2,
            3 => Self::V3,
            4 => Self::V4,
            5 => Self::V5,
            6 => Self::V6,
            7 => Self::V7,
            8 => Self::V8,
            9 => Self::V9,
            10 => Self::VA,
            11 => Self::VB,
            12 => Self::VC,
            13 => Self::VD,
            14 => Self::VE,
            _ => Self::VF,
        }
    }
}

impl vstd::std_specs::convert::FromSpecImpl<u8> for Reg {
    open spec fn obeys_from_spec() -> bool {
        true
    }

    open spec fn from_spec(v: u8) -> Reg {
        Reg::spec_from(v)
    }
}

/// The whole machine state of the CHIP-8 virtual machine: register file,
/// memory, stack, timers, program counter, framebuffer and input bitmask.
pub struct Chip8State {
    /// General-purpose registers V0 through VF.
    pub registers: Vec<u8>,
    /// Index register.
    pub index: u16,
    /// 64-byte stack of big-endian two-byte return addresses.
    pub stack: Vec<u8>,
    /// Stack pointer: byte offset into `stack`, 0 when empty.
    pub sp: u8,
    /// Program counter.
    pub pc: u16,
    /// Delay timer.
    pub dt: u8,
    /// Sound timer.
    pub st: u8,
    /// 64x32 monochrome framebuffer, 8 pixels packed per byte, row-major.
    pub framebuffer: Vec<u8>,
    /// 4K byte-addressable memory; programs start at 0x200.
    pub memory: Vec<u8>,
    /// Input bitmask: bit k is set iff key k (0-F) is currently held.
    pub input: u16,
}

/// Addition on bytes that wraps around at 256.
pub open spec fn wadd8(x: u8, y: u8) -> u8 {
    if x + y > 0xFF {
        (x + y - 0x100) as u8
    } else {
        (x + y) as u8
    }
}

/// Subtraction on bytes that wraps around below 0.
pub open spec fn wsub8(x: u8, y: u8) -> u8 {
    if x - y < 0 {
        (x - y + 0x100) as u8
    } else {
        (x - y) as u8
    }
}

/// Addition on 16-bit words that wraps around at 65536.
pub open spec fn wadd16(x: u16, y: u16) -> u16 {
    if x + y > 0xFFFF {
        (x + y - 0x10000) as u16
    } else {
        (x + y) as u16
    }
}

/// The high byte of a 16-bit word.
pub open spec fn spec_hi_byte(v: u16) -> u8 {
    (((v & 0xFF00) >> 8) as u8)
}

/// The low byte of a 16-bit word.
pub open spec fn spec_lo_byte(v: u16) -> u8 {
    ((v & 0x00FF) as u8)
}

/// The 16-bit word with high byte `hi` and low byte `lo`.
pub open spec fn spec_word(hi: u8, lo: u8) -> u16 {
    (((hi as u16) << 8) | (lo as u16))
}

/// The two bytes at `addr mod 4096` and the following address (also taken
/// mod 4096), big-endian-combined into one 16-bit word.
pub open spec fn spec_fetch(mem: Seq<u8>, addr: u16) -> u16 {
    let a = (addr % 4096) as int;
    spec_word(mem[a], mem[(a + 1) % 4096])
}

/// Whether key `key` is held in the input bitmask `input`: bit `key` is
/// set and `key` names one of the 16 keys.
pub open spec fn spec_key_pressed(input: u16, key: u16) -> bool {
    key < 16 && (input >> key) & 1 != 0
}

/// The byte-column of the framebuffer byte containing pixel column `x`
/// (wrapped to the visible 64 columns) in pixel row `y mod 32`.
pub open spec fn spec_fb_index(x: u8, y: u8) -> int {
    8 * ((y % 32) as int) + (((x / 8) % 8) as int)
}

/// The part of `pixels` that lands in the byte containing pixel `x`.
pub open spec fn spec_fb_left(pixels: u8, x: u8) -> u8 {
    (pixels >> (x % 8)) as u8
}

/// The part of `pixels` that spills into the following byte when `x` is
/// not byte-aligned; zero when it is.
pub open spec fn spec_fb_right(pixels: u8, x: u8) -> u8 {
    util::spec_shl_no(pixels, 8 - (x % 8) as int)
}

/// The framebuffer after XOR-drawing the 8-pixel row `pixels` at (x, y):
/// the byte at the target column takes the left part, and, when `x` is
/// not in the last byte-column, the following byte takes the spilled part.
pub open spec fn spec_write_fb(fb: Seq<u8>, pixels: u8, x: u8, y: u8) -> Seq<u8> {
    let first = spec_fb_index(x, y);
    let left = spec_fb_left(pixels, x);
    if (x / 8) % 8 < 7 {
        let right = spec_fb_right(pixels, x);
        fb.update(first, fb[first] ^ left).update(first + 1, fb[first + 1] ^ right)
    } else {
        fb.update(first, fb[first] ^ left)
    }
}

/// Whether XOR-drawing the row `pixels` at (x, y) clears a pixel that was
/// previously set.
pub open spec fn spec_write_collision(fb: Seq<u8>, pixels: u8, x: u8, y: u8) -> bool {
    let first = spec_fb_index(x, y);
    let left = spec_fb_left(pixels, x);
    if (x / 8) % 8 < 7 {
        let right = spec_fb_right(pixels, x);
        (fb[first] & left) != 0 || (fb[first + 1] & right) != 0
    } else {
        (fb[first] & left) != 0
    }
}

/// The memory after storing the three BCD digits of `b` at the masked
/// address and the two following (masked) addresses.
pub open spec fn spec_store_bcd(mem: Seq<u8>, b: util::BCD, address: u16) -> Seq<u8> {
    let a = (address & 0x0FFF) as u16;
    mem.update(((a & 0x0FFF) as u16) as int, b.hundreds).update(
        ((((a + 1) as u16) & 0x0FFF) as u16) as int,
        b.tens,
    ).update(((((a + 2) as u16) & 0x0FFF) as u16) as int, b.ones)
}

impl Chip8State {
    /// The buffers have their fixed sizes: 16 registers, a 64-byte stack,
    /// a 256-byte framebuffer and 4096 bytes of memory.
    pub open spec fn wf(&self) -> bool {
        &&& self.registers@.len() == 16
        &&& self.stack@.len() == 64
        &&& self.framebuffer@.len() == 256
        &&& self.memory@.len() == 4096
    }

    /// Install the font sprites at memory 0x000-0x04F and set the program
    /// counter to the program start 0x200; everything else is untouched.
    pub fn init(&mut self)
        requires
            old(self).wf(),
        ensures
            final(self).wf(),
            final(self).pc == 0x200,
            forall|k: int| 0 <= k < 80 ==> final(self).memory@[k] == sprite::font_byte(k),
            forall|k: int| 80 <= k < 4096 ==> final(self).memory@[k] == old(self).memory@[k],
            final(self).registers@ == old(self).registers@,
            final(self).index == old(self).index,
            final(self).stack@ == old(self).stack@,
            final(self).sp == old(self).sp,
            final(self).dt == old(self).dt,
            final(self).st == old(self).st,
            final(self).framebuffer@ == old(self).framebuffer@,
            final(self).input == old(self).input,
    {
        sprite::store_default_sprites(self);

        self.pc = 0x0200;
    }

    /// Read the two bytes at `addr mod 4096` (and the following address,
    /// wrapped the same way) and combine them big-endian into one word.
    pub fn fetch_instruction(&self, addr: u16) -> (r: u16)
        requires
            self.wf(),
        ensures
            r == spec_fetch(self.memory@, addr),
    {
        let a = (addr % 4096) as usize;
        let hi = self.memory[a];
        let lo = self.memory[(a + 1) % 4096];
        let r = (lo as u16) | ((hi as u16) << 8);
        proof {
            let h = hi;
            let l = lo;
            assert((l as u16) | ((h as u16) << 8) == ((h as u16) << 8) | (l as u16))
                by (bit_vector);
        }
        r
    }

    /// Decode the instruction word at the current program counter.
    pub fn decode_opcode(&self) -> (op: Opcode)
        requires
            self.wf(),
        ensures
            op == opcode::spec_decode(spec_fetch(self.memory@, self.pc)),
    {
        Opcode::from(self.fetch_instruction(self.pc))
    }

    /// Run one fetch-decode-execute cycle: decode the instruction at the
    /// program counter, execute it, and advance the program counter by one
    /// instruction unless the instruction set it itself, suspended, or
    /// faulted.
    pub fn tick(&mut self) -> (status: WaitStatus)
        requires
            old(self).wf(),
        ensures
            final(self).wf(),
            tick_rel(*old(self), *final(self), status),
    {
        let op = self.decode_opcode();
        let status = op.execute(self);
        let ghost mid_pc = self.pc;
        let advance = match status {
            WaitStatus::Running => !op.is_jump(),
            _ => false,
        };
        if advance {
            self.pc = self.pc.wrapping_add(INSTR_SIZE as u16);
        }
        proof {
            let pre = *old(self);
            let sop = opcode::spec_decode(spec_fetch(pre.memory@, pre.pc));
            assert(opcode::step_rel(sop, pre, with_pc(*self, mid_pc), status));
            assert(self.pc == spec_pc_after(sop, status, mid_pc));
        }
        status
    }

    /// Set the program counter to `address`, masked to the 12-bit address
    /// space; out-of-range targets silently wrap.
    pub fn jump_to_address(&mut self, address: u16)
        requires
            old(self).wf(),
        ensures
            final(self).wf(),
            final(self).pc == address & 0x0FFF,
            *final(self) == (Chip8State { pc: final(self).pc, ..*old(self) }),
    {
        let address = address & 0x0FFF;

        self.pc = address;
    }

    /// Count each timer down one step toward 0; a timer at 0 stays there.
    pub fn decrement_timers(&mut self)
        requires
            old(self).wf(),
        ensures
            final(self).wf(),
            final(self).dt == if old(self).dt > 0 {
                (old(self).dt - 1) as u8
            } else {
                0u8
            },
            final(self).st == if old(self).st > 0 {
                (old(self).st - 1) as u8
            } else {
                0u8
            },
            *final(self) == (Chip8State {
                dt: final(self).dt,
                st: final(self).st,
                ..*old(self)
            }),
    {
        if self.dt > 0 {
            self.dt = self.dt - 1;
        }
        if self.st > 0 {
            self.st = self.st - 1;
        }
    }

    /// Write `value` big-endian into the two stack bytes at the stack
    /// pointer, then advance the stack pointer by 2.
    pub fn push_stack(&mut self, value: u16)
        requires
            old(self).wf(),
            old(self).sp + 2 <= 64,
        ensures
            final(self).wf(),
            final(self).sp == old(self).sp + 2,
            final(self).stack@ == old(self).stack@.update(
                old(self).sp as int,
                spec_hi_byte(value),
            ).update(old(self).sp as int + 1, spec_lo_byte(value)),
            *final(self) == (Chip8State {
                sp: final(self).sp,
                stack: final(self).stack,
                ..*old(self)
            }),
    {
        self.stack[self.sp as usize] = ((value & 0xFF00) >> 8) as u8;
        self.stack[(self.sp + 1) as usize] = (value & 0x00FF) as u8;

        self.sp = self.sp + 2;
    }

    /// Move the stack pointer back by 2 and read the two stack bytes
    /// there as one big-endian word.
    pub fn pop_stack(&mut self) -> (value: u16)
        requires
            old(self).wf(),
            2 <= old(self).sp <= 64,
        ensures
            final(self).wf(),
            final(self).sp == old(self).sp - 2,
            value == spec_word(
                old(self).stack@[old(self).sp - 2],
                old(self).stack@[old(self).sp - 1],
            ),
            *final(self) == (Chip8State { sp: final(self).sp, ..*old(self) }),
    {
        self.sp = self.sp - 2;
        let value = ((self.stack[self.sp as usize] as u16) << 8) | (self.stack[(self.sp
            + 1) as usize] as u16);

        value
    }

    /// Store the provided byte value at the provided memory address; only
    /// the first 12 bits identify the destination address.
    pub fn store_to_memory(&mut self, value: u8, address: u16)
        requires
            old(self).wf(),
        ensures
            final(self).wf(),
            final(self).memory@ == old(self).memory@.update((address & 0x0FFF) as int, value),
            *final(self) == (Chip8State { memory: final(self).memory, ..*old(self) }),
    {
        proof {
            lemma_mask12(address);
        }
        let address = address & 0x0FFF;

        self.memory[address as usize] = value;
    }

    /// Whether the key numbered `key` is currently held: bit `key` of the
    /// input bitmask, with only the 16 keypad keys meaningful.
    pub fn read_input(&self, key: u16) -> (r: bool)
        ensures
            r == spec_key_pressed(self.input, key),
    {
        if key < 16 {
            (self.input >> key) & 1 != 0
        } else {
            false
        }
    }

    /// XOR one byte of pixels into the framebuffer with its leftmost pixel
    /// at (x, y); when `x` is not byte-aligned the byte is split across two
    /// adjacent framebuffer bytes. Returns true iff any previously set
    /// pixel was cleared.
    pub fn write_fb(&mut self, pixels: u8, x: u8, y: u8) -> (overwrite: bool)
        requires
            old(self).wf(),
        ensures
            final(self).wf(),
            final(self).framebuffer@ == spec_write_fb(old(self).framebuffer@, pixels, x, y),
            overwrite == spec_write_collision(old(self).framebuffer@, pixels, x, y),
            *final(self) == (Chip8State {
                framebuffer: final(self).framebuffer,
                ..*old(self)
            }),
    {
        let x_offset = x % 8;
        let x = x / 8;

        let x = x % 8;
        let y = y % 32;

        let first_index = ((8 * y) + x) as usize;

        if x < 7 {
            let second_index = first_index + 1;

            let left_pixels = pixels >> x_offset;
            let right_pixels = util::shl_no(pixels, (8 - x_offset) as usize);
            let left_oldval = self.framebuffer[first_index];
            let right_oldval = self.framebuffer[second_index];

            self.framebuffer[first_index] = left_oldval ^ left_pixels;
            self.framebuffer[second_index] = right_oldval ^ right_pixels;

            left_oldval & left_pixels != 0 || right_oldval & right_pixels != 0
        } else {
            let pixels = pixels >> x_offset;
            let oldval = self.framebuffer[first_index];
            self.framebuffer[first_index] = oldval ^ pixels;

            oldval & pixels != 0
        }
    }

    /// Store the three digits of the provided BCD value at three
    /// contiguous memory addresses beginning at the provided address; only
    /// the first 12 bits identify the first destination address.
    pub fn store_bcd(&mut self, bcd: util::BCD, address: u16)
        requires
            old(self).wf(),
        ensures
            final(self).wf(),
            final(self).memory@ == spec_store_bcd(old(self).memory@, bcd, address),
            *final(self) == (Chip8State { memory: final(self).memory, ..*old(self) }),
    {
        proof {
            lemma_mask12(address);
        }
        let address = address & 0x0FFF;

        self.store_to_memory(bcd.hundreds, address);
        self.store_to_memory(bcd.tens, address + 1);
        self.store_to_memory(bcd.ones, address + 2);
    }

    /// Copy a program verbatim into memory starting at offset 0x200; the
    /// rest of memory and all other state is untouched.
    pub fn load_program(&mut self, rom: &Vec<u8>)
        requires
            old(self).wf(),
            rom@.len() <= 4096 - 0x200,
        ensures
            final(self).wf(),
            forall|k: int|
                0x200 <= k < 0x200 + rom@.len() ==> final(self).memory@[k] == rom@[k - 0x200],
            forall|k: int|
                (0 <= k < 0x200 || 0x200 + rom@.len() <= k < 4096) ==> final(self).memory@[k]
                    == old(self).memory@[k],
            *final(self) == (Chip8State { memory: final(self).memory, ..*old(self) }),
    {
        let mut i: usize = 0;
        while i < rom.len()
            invariant
                self.wf(),
                rom@.len() <= 4096 - 0x200,
                0 <= i <= rom@.len(),
                forall|k: int| 0x200 <= k < 0x200 + i ==> self.memory@[k] == rom@[k - 0x200],
                forall|k: int|
                    (0 <= k < 0x200 || 0x200 + i <= k < 4096) ==> self.memory@[k] == old(
                        self,
                    ).memory@[k],
                *self == (Chip8State { memory: self.memory, ..*old(self) }),
            decreases rom@.len() - i,
        {
            self.memory[0x200 + i] = rom[i];
            i += 1;
        }
    }
}

impl Default for Chip8State {
    /// The default machine: all fields zero except the program counter at
    /// 0x200 and the font sprites installed in low memory.
    fn default() -> (s: Self)
        ensures
            s.wf(),
            s.pc == 0x200,
            s.index == 0,
            s.sp == 0,
            s.dt == 0,
            s.st == 0,
            s.input == 0,
            forall|i: int| 0 <= i < 16 ==> s.registers@[i] == 0,
            forall|i: int| 0 <= i < 64 ==> s.stack@[i] == 0,
            forall|i: int| 0 <= i < 256 ==> s.framebuffer@[i] == 0,
            forall|k: int| 0 <= k < 80 ==> s.memory@[k] == sprite::font_byte(k),
            forall|k: int| 80 <= k < 4096 ==> s.memory@[k] == 0,
    {
        let mut state = Chip8State {
            registers: zero_bytes(16),
            index: 0,
            stack: zero_bytes(64),
            sp: 0,
            pc: 0,
            dt: 0,
            st: 0,
            framebuffer: zero_bytes(256),
            memory: zero_bytes(4096),
            input: 0,
        };

        state.init();
        state
    }
}

/// A fresh all-zero byte buffer of the given length.
fn zero_bytes(n: usize) -> (v: Vec<u8>)
    ensures
        v@.len() == n,
        forall|i: int| 0 <= i < n ==> v@[i] == 0,
{
    let mut v: Vec<u8> = Vec::new();
    let mut i: usize = 0;
    while i < n
        invariant
            0 <= i <= n,
            v@.len() == i,
            forall|j: int| 0 <= j < i ==> v@[j] == 0,
        decreases n - i,
    {
        v.push(0);
        i += 1;
    }
    v
}

/// The state `s` with its program counter replaced by `pc`.
pub open spec fn with_pc(s: Chip8State, pc: u16) -> Chip8State {
    Chip8State { pc, ..s }
}

/// The program counter after the engine's post-execution advance: a
/// running instruction that did not set the program counter itself is
/// followed by an advance of one instruction size; a jump, a suspension
/// and a fault leave it where execution put it.
pub open spec fn spec_pc_after(op: Opcode, status: WaitStatus, mid_pc: u16) -> u16 {
    if status == WaitStatus::Running && !opcode::spec_is_jump(op) {
        wadd16(mid_pc, INSTR_SIZE as u16)
    } else {
        mid_pc
    }
}

/// The whole fetch-decode-execute cycle: the instruction fetched at the
/// old program counter steps the machine as `step_rel` says, and then the
/// program counter is advanced as `spec_pc_after` says.
pub open spec fn tick_rel(pre: Chip8State, post: Chip8State, status: WaitStatus) -> bool {
    let op = opcode::spec_decode(spec_fetch(pre.memory@, pre.pc));
    exists|mid_pc: u16|
        {
            &&& #[trigger] opcode::step_rel(op, pre, with_pc(post, mid_pc), status)
            &&& post.pc == spec_pc_after(op, status, mid_pc)
        }
}

/// A 12-bit mask leaves a value below 4096.
pub proof fn lemma_mask12(a: u16)
    ensures
        a & 0x0FFF < 4096,
{
    assert(a & 0x0FFF < 4096) by (bit_vector);
}

/// The byte-aligned draw law: when `x` is a multiple of 8, XOR-drawing a
/// pixel row is a direct XOR-assign of the single target framebuffer
/// byte, and the collision flag is set iff the old byte and the drawn row
/// share a set bit.
pub proof fn lemma_write_fb_aligned(fb: Seq<u8>, pixels: u8, x: u8, y: u8)
    requires
        fb.len() == 256,
        x % 8 == 0,
    ensures
        ({
            let first = spec_fb_index(x, y);
            &&& spec_write_fb(fb, pixels, x, y) == fb.update(first, fb[first] ^ pixels)
            &&& spec_write_collision(fb, pixels, x, y) == ((fb[first] & pixels) != 0)
        }),
{
    let first = spec_fb_index(x, y);
    let xo = x % 8;
    assert(xo == 0 ==> (pixels >> xo) == pixels) by (bit_vector);
    assert(spec_fb_left(pixels, x) == pixels);
    assert(spec_fb_right(pixels, x) == 0);
    assert(0 <= first < 256);
    if (x / 8) % 8 < 7 {
        let q = fb[first + 1];
        assert(q ^ 0 == q) by (bit_vector);
        assert(q & 0 == 0) by (bit_vector);
        assert(spec_write_fb(fb, pixels, x, y) =~= fb.update(first, fb[first] ^ pixels));
    }
}

/// Nanoseconds per 60 Hz timer period.
pub const TIMER_RATE: u128 = 16_666_666;

/// How many whole 60 Hz timer periods lie between two nanosecond
/// timestamps: the difference of their period numbers, or 0 when the
/// later timestamp does not follow the earlier one or the count does not
/// fit in 32 bits.
pub fn timer_ticks_between(last_nanos: u128, this_nanos: u128) -> (r: u32)
    ensures
        ({
            let d = this_nanos / TIMER_RATE - last_nanos / TIMER_RATE;
            r == if 0 <= d <= u32::MAX {
                d
            } else {
                0
            }
        }),
{
    let last_pos = last_nanos / TIMER_RATE;
    let this_pos = this_nanos / TIMER_RATE;

    let diff = if this_pos >= last_pos {
        this_pos - last_pos
    } else {
        0
    };
    if diff <= 0xFFFF_FFFF {
        diff as u32
    } else {
        0
    }
}

/// Pushing a word and then popping round-trips: the two bytes that
/// `push_stack` writes at the stack pointer reassemble, exactly as
/// `pop_stack` reads them, into the pushed word, and the stack pointer
/// (advanced by 2, then moved back by 2) returns to its old value.
pub proof fn lemma_push_pop_roundtrip(stack: Seq<u8>, sp: u8, v: u16)
    requires
        stack.len() == 64,
        sp + 2 <= 64,
    ensures
        ({
            let pushed = stack.update(sp as int, spec_hi_byte(v)).update(
                sp as int + 1,
                spec_lo_byte(v),
            );
            spec_word(pushed[(sp + 2) - 2], pushed[(sp + 2) - 1]) == v && ((sp + 2) - 2) as u8
                == sp
        }),
{
    assert(spec_word(spec_hi_byte(v), spec_lo_byte(v)) == v) by (bit_vector);
}

} // verus!

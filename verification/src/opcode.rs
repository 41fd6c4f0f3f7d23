//! The opcode engine: decoding a 16-bit instruction word into a tagged
//! variant and executing it against the machine state.

use vstd::prelude::*;

use crate::util::BCD;
use crate::{
    lemma_mask12, spec_key_pressed, spec_store_bcd, spec_word, spec_write_collision,
    spec_write_fb, wadd16, wadd8, wsub8, Chip8State, Reg, INSTR_SIZE,
};

verus! {

broadcast use vstd::std_specs::bits::axiom_u16_trailing_zeros;

/// Whether an executed instruction left the engine running or suspended
/// it, or whether it faulted on the call stack.
#[derive(Clone, Copy, Debug, PartialEq, Eq, Structural)]
pub enum WaitStatus {
    /// The instruction is waiting for a key press; the caller must
    /// re-invoke the same instruction until some key is held.
    Waiting,
    /// Normal completion.
    Running,
    /// A call or return found the stack pointer out of bounds. The
    /// machine is left unchanged: this hardens the 8-bit stack pointer's
    /// silent wrap into an explicit fault.
    StackFault,
}

/// One decoded CHIP-8 instruction.
#[derive(Clone, Copy, Debug, PartialEq, Eq, Structural)]
pub enum Opcode {
    /// Clear the display
    CLS,
    /// Return from subroutine
    RET,
    /// Jump to location nnn
    JP(u16),
    /// Call subroutine at nnn
    CALL(u16),
    /// Skip next instruction if Vx == kk
    SEVB(Reg, u8),
    /// Skip next instruction if Vx != kk
    SNEVB(Reg, u8),
    /// Skip next instruction if Vx == Vy
    SEVV(Reg, Reg),
    /// Set Vx = kk
    LDVB(Reg, u8),
    /// Set Vx = Vx + kk
    ADDVB(Reg, u8),
    /// Set Vx = Vy
    LDVV(Reg, Reg),
    /// Set Vx = Vx | Vy
    ORVV(Reg, Reg),
    /// Set Vx = Vx & Vy
    ANDVV(Reg, Reg),
    /// Set Vx = Vx ^ Vy
    XORVV(Reg, Reg),
    /// Set Vx = Vx + Vy; Set VF = carry
    ADDVV(Reg, Reg),
    /// Set VF = Vx > Vy; Set Vx = Vx - Vy
    SUB(Reg, Reg),
    /// Set VF = lsb Vx; Set Vx = Vx >> 1
    SHR(Reg),
    /// Set VF = Vy > Vx; Set Vx = Vy - Vx
    SUBN(Reg, Reg),
    /// Set VF = msb Vx; Set Vx = Vx << 1
    SHL(Reg),
    /// Skip next instruction if Vx != Vy
    SNEVV(Reg, Reg),
    /// Set I = nnn
    LDI(u16),
    /// Jump to location nnn + V0
    JPV0(u16),
    /// Set Vx = Random byte & kk
    RND(Reg, u8),
    /// Display n-byte sprite starting at memory location I at (Vx, Vy);
    /// Set VF = collision
    DRW(Reg, Reg, u8),
    /// Skip next instruction if key with the value of Vx is pressed
    SKP(Reg),
    /// Skip next instruction if key with the value of Vx is not pressed
    SKNP(Reg),
    /// Set Vx = delay timer value
    LDVDT(Reg),
    /// Wait for a key press, store the value of the key in Vx
    LDVK(Reg),
    /// Set delay timer = Vx
    LDDT(Reg),
    /// Set sound timer = Vx
    LDST(Reg),
    /// Set I = I + Vx
    ADDI(Reg),
    /// Set I = location of sprite for digit Vx
    LDF(Reg),
    /// Store BCD representation of Vx in memory locations I, I + 1, and
    /// I + 2
    LDB(Reg),
    /// Store V0 to Vx in memory starting at address I; Set I = I + x + 1
    LDIV(Reg),
    /// Fill V0 to Vx with values from memory starting at address I;
    /// Set I = I + x + 1
    LDVI(Reg),
    /// No operation
    NOP,
}

/// The instruction encoded by the 16-bit word `value`. Dispatch is by the
/// high nibble, with secondary dispatch on the low byte or low nibble for
/// the 0x8, 0xE and 0xF families; any unrecognized bit pattern decodes to
/// the inert no-op.
pub open spec fn spec_decode(value: u16) -> Opcode {
    let h = value >> 12;
    let x = Reg::spec_from(((value & 0x0F00) >> 8) as u8);
    let y = Reg::spec_from(((value & 0x00F0) >> 4) as u8);
    let kk = (value & 0x00FF) as u8;
    let nnn = value & 0x0FFF;
    let n = value & 0x000F;
    if value == 0x00E0 {
        Opcode::CLS
    } else if value == 0x00EE {
        Opcode::RET
    } else if h == 0x1 {
        Opcode::JP(nnn)
    } else if h == 0x2 {
        Opcode::CALL(nnn)
    } else if h == 0x3 {
        Opcode::SEVB(x, kk)
    } else if h == 0x4 {
        Opcode::SNEVB(x, kk)
    } else if h == 0x5 {
        Opcode::SEVV(x, y)
    } else if h == 0x6 {
        Opcode::LDVB(x, kk)
    } else if h == 0x7 {
        Opcode::ADDVB(x, kk)
    } else if h == 0x8 {
        if n == 0x0 {
            Opcode::LDVV(x, y)
        } else if n == 0x1 {
            Opcode::ORVV(x, y)
        } else if n == 0x2 {
            Opcode::ANDVV(x, y)
        } else if n == 0x3 {
            Opcode::XORVV(x, y)
        } else if n == 0x4 {
            Opcode::ADDVV(x, y)
        } else if n == 0x5 {
            Opcode::SUB(x, y)
        } else if n == 0x6 {
            Opcode::SHR(x)
        } else if n == 0x7 {
            Opcode::SUBN(x, y)
        } else if n == 0xE {
            Opcode::SHL(x)
        } else {
            Opcode::NOP
        }
    } else if h == 0x9 {
        Opcode::SNEVV(x, y)
    } else if h == 0xA {
        Opcode::LDI(nnn)
    } else if h == 0xB {
        Opcode::JPV0(nnn)
    } else if h == 0xC {
        Opcode::RND(x, kk)
    } else if h == 0xD {
        Opcode::DRW(x, y, n as u8)
    } else if h == 0xE {
        if kk == 0x9E {
            Opcode::SKP(x)
        } else if kk == 0xA1 {
            Opcode::SKNP(x)
        } else {
            Opcode::NOP
        }
    } else if h == 0xF {
        if kk == 0x07 {
            Opcode::LDVDT(x)
        } else if kk == 0x0A {
            Opcode::LDVK(x)
        } else if kk == 0x15 {
            Opcode::LDDT(x)
        } else if kk == 0x18 {
            Opcode::LDST(x)
        } else if kk == 0x1E {
            Opcode::ADDI(x)
        } else if kk == 0x29 {
            Opcode::LDF(x)
        } else if kk == 0x33 {
            Opcode::LDB(x)
        } else if kk == 0x55 {
            Opcode::LDIV(x)
        } else if kk == 0x65 {
            Opcode::LDVI(x)
        } else {
            Opcode::NOP
        }
    } else {
        Opcode::NOP
    }
}

impl From<u16> for Opcode {
    /// Decode a raw 16-bit instruction word.
    fn from(value: u16) -> (r: Self)
        ensures
            r == spec_decode(value),
    {
        let h = value >> 12;
        let x = Reg::from(((value & 0x0F00) >> 8) as u8);
        let y = Reg::from(((value & 0x00F0) >> 4) as u8);
        let kk = (value & 0x00FF) as u8;
        let nnn = value & 0x0FFF;
        let n = value & 0x000F;
        if value == 0x00E0 {
            Self::CLS
        } else if value == 0x00EE {
            Self::RET
        } else if h == 0x1 {
            Self::JP(nnn)
        } else if h == 0x2 {
            Self::CALL(nnn)
        } else if h == 0x3 {
            Self::SEVB(x, kk)
        } else if h == 0x4 {
            Self::SNEVB(x, kk)
        } else if h == 0x5 {
            Self::SEVV(x, y)
        } else if h == 0x6 {
            Self::LDVB(x, kk)
        } else if h == 0x7 {
            Self::ADDVB(x, kk)
        } else if h == 0x8 {
            if n == 0x0 {
                Self::LDVV(x, y)
            } else if n == 0x1 {
                Self::ORVV(x, y)
            } else if n == 0x2 {
                Self::ANDVV(x, y)
            } else if n == 0x3 {
                Self::XORVV(x, y)
            } else if n == 0x4 {
                Self::ADDVV(x, y)
            } else if n == 0x5 {
                Self::SUB(x, y)
            } else if n == 0x6 {
                Self::SHR(x)
            } else if n == 0x7 {
                Self::SUBN(x, y)
            } else if n == 0xE {
                Self::SHL(x)
            } else {
                Self::NOP
            }
        } else if h == 0x9 {
            Self::SNEVV(x, y)
        } else if h == 0xA {
            Self::LDI(nnn)
        } else if h == 0xB {
            Self::JPV0(nnn)
        } else if h == 0xC {
            Self::RND(x, kk)
        } else if h == 0xD {
            Self::DRW(x, y, n as u8)
        } else if h == 0xE {
            if kk == 0x9E {
                Self::SKP(x)
            } else if kk == 0xA1 {
                Self::SKNP(x)
            } else {
                Self::NOP
            }
        } else if h == 0xF {
            if kk == 0x07 {
                Self::LDVDT(x)
            } else if kk == 0x0A {
                Self::LDVK(x)
            } else if kk == 0x15 {
                Self::LDDT(x)
            } else if kk == 0x18 {
                Self::LDST(x)
            } else if kk == 0x1E {
                Self::ADDI(x)
            } else if kk == 0x29 {
                Self::LDF(x)
            } else if kk == 0x33 {
                Self::LDB(x)
            } else if kk == 0x55 {
                Self::LDIV(x)
            } else if kk == 0x65 {
                Self::LDVI(x)
            } else {
                Self::NOP
            }
        } else {
            Self::NOP
        }
    }
}

impl vstd::std_specs::convert::FromSpecImpl<u16> for Opcode {
    open spec fn obeys_from_spec() -> bool {
        true
    }

    open spec fn from_spec(v: u16) -> Opcode {
        spec_decode(v)
    }
}

/// Whether the instruction sets the program counter itself; for these the
/// engine does not advance the program counter after execution.
pub open spec fn spec_is_jump(op: Opcode) -> bool {
    match op {
        Opcode::JP(_) => true,
        Opcode::CALL(_) => true,
        Opcode::RET => true,
        Opcode::JPV0(_) => true,
        _ => false,
    }
}

/// The registers are the only field that may differ.
pub open spec fn same_but_regs(pre: Chip8State, post: Chip8State) -> bool {
    &&& post.index == pre.index
    &&& post.stack@ == pre.stack@
    &&& post.sp == pre.sp
    &&& post.pc == pre.pc
    &&& post.dt == pre.dt
    &&& post.st == pre.st
    &&& post.framebuffer@ == pre.framebuffer@
    &&& post.memory@ == pre.memory@
    &&& post.input == pre.input
}

/// The program counter is the only field that may differ.
pub open spec fn same_but_pc(pre: Chip8State, post: Chip8State) -> bool {
    &&& post.registers@ == pre.registers@
    &&& post.index == pre.index
    &&& post.stack@ == pre.stack@
    &&& post.sp == pre.sp
    &&& post.dt == pre.dt
    &&& post.st == pre.st
    &&& post.framebuffer@ == pre.framebuffer@
    &&& post.memory@ == pre.memory@
    &&& post.input == pre.input
}

/// The index register is the only field that may differ.
pub open spec fn same_but_index(pre: Chip8State, post: Chip8State) -> bool {
    &&& post.registers@ == pre.registers@
    &&& post.stack@ == pre.stack@
    &&& post.sp == pre.sp
    &&& post.pc == pre.pc
    &&& post.dt == pre.dt
    &&& post.st == pre.st
    &&& post.framebuffer@ == pre.framebuffer@
    &&& post.memory@ == pre.memory@
    &&& post.input == pre.input
}

/// The framebuffer is the only field that may differ.
pub open spec fn same_but_fb(pre: Chip8State, post: Chip8State) -> bool {
    &&& post.registers@ == pre.registers@
    &&& post.index == pre.index
    &&& post.stack@ == pre.stack@
    &&& post.sp == pre.sp
    &&& post.pc == pre.pc
    &&& post.dt == pre.dt
    &&& post.st == pre.st
    &&& post.memory@ == pre.memory@
    &&& post.input == pre.input
}

/// The memory is the only field that may differ.
pub open spec fn same_but_mem(pre: Chip8State, post: Chip8State) -> bool {
    &&& post.registers@ == pre.registers@
    &&& post.index == pre.index
    &&& post.stack@ == pre.stack@
    &&& post.sp == pre.sp
    &&& post.pc == pre.pc
    &&& post.dt == pre.dt
    &&& post.st == pre.st
    &&& post.framebuffer@ == pre.framebuffer@
    &&& post.input == pre.input
}

/// The delay timer is the only field that may differ.
pub open spec fn same_but_dt(pre: Chip8State, post: Chip8State) -> bool {
    &&& post.registers@ == pre.registers@
    &&& post.index == pre.index
    &&& post.stack@ == pre.stack@
    &&& post.sp == pre.sp
    &&& post.pc == pre.pc
    &&& post.st == pre.st
    &&& post.framebuffer@ == pre.framebuffer@
    &&& post.memory@ == pre.memory@
    &&& post.input == pre.input
}

/// The sound timer is the only field that may differ.
pub open spec fn same_but_st(pre: Chip8State, post: Chip8State) -> bool {
    &&& post.registers@ == pre.registers@
    &&& post.index == pre.index
    &&& post.stack@ == pre.stack@
    &&& post.sp == pre.sp
    &&& post.pc == pre.pc
    &&& post.dt == pre.dt
    &&& post.framebuffer@ == pre.framebuffer@
    &&& post.memory@ == pre.memory@
    &&& post.input == pre.input
}

/// Stack, stack pointer and program counter are the only fields that may
/// differ.
pub open spec fn same_but_stack_sp_pc(pre: Chip8State, post: Chip8State) -> bool {
    &&& post.registers@ == pre.registers@
    &&& post.index == pre.index
    &&& post.dt == pre.dt
    &&& post.st == pre.st
    &&& post.framebuffer@ == pre.framebuffer@
    &&& post.memory@ == pre.memory@
    &&& post.input == pre.input
}

/// Framebuffer and registers are the only fields that may differ.
pub open spec fn same_but_fb_regs(pre: Chip8State, post: Chip8State) -> bool {
    &&& post.index == pre.index
    &&& post.stack@ == pre.stack@
    &&& post.sp == pre.sp
    &&& post.pc == pre.pc
    &&& post.dt == pre.dt
    &&& post.st == pre.st
    &&& post.memory@ == pre.memory@
    &&& post.input == pre.input
}

/// Memory and index register are the only fields that may differ.
pub open spec fn same_but_mem_index(pre: Chip8State, post: Chip8State) -> bool {
    &&& post.registers@ == pre.registers@
    &&& post.stack@ == pre.stack@
    &&& post.sp == pre.sp
    &&& post.pc == pre.pc
    &&& post.dt == pre.dt
    &&& post.st == pre.st
    &&& post.framebuffer@ == pre.framebuffer@
    &&& post.input == pre.input
}

/// Registers and index register are the only fields that may differ.
pub open spec fn same_but_regs_index(pre: Chip8State, post: Chip8State) -> bool {
    &&& post.stack@ == pre.stack@
    &&& post.sp == pre.sp
    &&& post.pc == pre.pc
    &&& post.dt == pre.dt
    &&& post.st == pre.st
    &&& post.framebuffer@ == pre.framebuffer@
    &&& post.memory@ == pre.memory@
    &&& post.input == pre.input
}

/// No observable field differs.
pub open spec fn unchanged(pre: Chip8State, post: Chip8State) -> bool {
    &&& post.registers@ == pre.registers@
    &&& same_but_regs(pre, post)
}

/// The framebuffer after XOR-drawing `n` consecutive sprite rows read
/// from memory at `index..index+n` (addresses wrapped and masked to the
/// 12-bit space) to screen position (x, y), rows offset downward.
pub open spec fn spec_draw_fb(
    mem: Seq<u8>,
    fb: Seq<u8>,
    index: u16,
    x: u8,
    y: u8,
    n: nat,
) -> Seq<u8>
    decreases n,
{
    if n == 0 {
        fb
    } else {
        let i = (n - 1) as nat;
        let prev = spec_draw_fb(mem, fb, index, x, y, i);
        let pixels = mem[(wadd16(index, i as u16) & 0x0FFF) as int];
        spec_write_fb(prev, pixels, x, wadd8(y, i as u8))
    }
}

/// Whether any of the `n` drawn sprite rows cleared a previously set
/// pixel; the collision flag OR-accumulates across all rows.
pub open spec fn spec_draw_collision(
    mem: Seq<u8>,
    fb: Seq<u8>,
    index: u16,
    x: u8,
    y: u8,
    n: nat,
) -> bool
    decreases n,
{
    if n == 0 {
        false
    } else {
        let i = (n - 1) as nat;
        let prev = spec_draw_fb(mem, fb, index, x, y, i);
        let pixels = mem[(wadd16(index, i as u16) & 0x0FFF) as int];
        spec_draw_collision(mem, fb, index, x, y, i) || spec_write_collision(
            prev,
            pixels,
            x,
            wadd8(y, i as u8),
        )
    }
}

/// The memory after storing registers V0 through V(count-1) at the
/// consecutive (wrapped, masked) addresses starting at `index`.
pub open spec fn spec_store_regs(mem: Seq<u8>, regs: Seq<u8>, index: u16, count: int) -> Seq<u8>
    decreases count,
{
    if count <= 0 {
        mem
    } else {
        let k = count - 1;
        spec_store_regs(mem, regs, index, k).update(
            (wadd16(index, k as u16) & 0x0FFF) as int,
            regs[k],
        )
    }
}

/// The register file after filling V0 through V(count-1) from the
/// consecutive (wrapped, masked) addresses starting at `index`.
pub open spec fn spec_load_regs(regs: Seq<u8>, mem: Seq<u8>, index: u16, count: int) -> Seq<u8>
    decreases count,
{
    if count <= 0 {
        regs
    } else {
        let k = count - 1;
        spec_load_regs(regs, mem, index, k).update(
            k,
            mem[(wadd16(index, k as u16) & 0x0FFF) as int],
        )
    }
}

/// The one-instruction transition relation of the opcode engine: executing
/// `op` takes the machine from `pre` to `post` and reports `status`. Every
/// instruction completes as Running, except the key wait, which leaves the
/// state untouched and reports Waiting while no key is held, and a call or
/// return whose stack pointer is out of bounds, which leaves the state
/// untouched and reports StackFault.
pub open spec fn step_rel(
    op: Opcode,
    pre: Chip8State,
    post: Chip8State,
    status: WaitStatus,
) -> bool {
    let regs = pre.registers@;
    match op {
        Opcode::CLS => {
            &&& post.framebuffer@ == Seq::new(256, |i: int| 0u8)
            &&& same_but_fb(pre, post)
            &&& status == WaitStatus::Running
        },
        Opcode::RET => {
            if 2 <= pre.sp <= 64 {
                &&& post.pc == spec_word(pre.stack@[pre.sp - 2], pre.stack@[pre.sp - 1]) & 0x0FFF
                &&& post.sp == pre.sp - 2
                &&& post.stack@ == pre.stack@
                &&& same_but_stack_sp_pc(pre, post)
                &&& status == WaitStatus::Running
            } else {
                &&& unchanged(pre, post)
                &&& status == WaitStatus::StackFault
            }
        },
        Opcode::JP(addr) => {
            &&& post.pc == addr & 0x0FFF
            &&& same_but_pc(pre, post)
            &&& status == WaitStatus::Running
        },
        Opcode::CALL(addr) => {
            if pre.sp + 2 <= 64 {
                let ret = wadd16(pre.pc, INSTR_SIZE as u16);
                &&& post.stack@ == pre.stack@.update(
                    pre.sp as int,
                    crate::spec_hi_byte(ret),
                ).update(pre.sp as int + 1, crate::spec_lo_byte(ret))
                &&& post.sp == pre.sp + 2
                &&& post.pc == addr & 0x0FFF
                &&& same_but_stack_sp_pc(pre, post)
                &&& status == WaitStatus::Running
            } else {
                &&& unchanged(pre, post)
                &&& status == WaitStatus::StackFault
            }
        },
        Opcode::SEVB(rx, byte) => {
            &&& post.pc == if regs[rx.spec_idx()] == byte {
                wadd16(pre.pc, INSTR_SIZE as u16)
            } else {
                pre.pc
            }
            &&& same_but_pc(pre, post)
            &&& status == WaitStatus::Running
        },
        Opcode::SNEVB(rx, byte) => {
            &&& post.pc == if regs[rx.spec_idx()] != byte {
                wadd16(pre.pc, INSTR_SIZE as u16)
            } else {
                pre.pc
            }
            &&& same_but_pc(pre, post)
            &&& status == WaitStatus::Running
        },
        Opcode::SEVV(rx, ry) => {
            &&& post.pc == if regs[rx.spec_idx()] == regs[ry.spec_idx()] {
                wadd16(pre.pc, INSTR_SIZE as u16)
            } else {
                pre.pc
            }
            &&& same_but_pc(pre, post)
            &&& status == WaitStatus::Running
        },
        Opcode::LDVB(rx, byte) => {
            &&& post.registers@ == regs.update(rx.spec_idx(), byte)
            &&& same_but_regs(pre, post)
            &&& status == WaitStatus::Running
        },
        Opcode::ADDVB(rx, byte) => {
            &&& post.registers@ == regs.update(rx.spec_idx(), wadd8(regs[rx.spec_idx()], byte))
            &&& same_but_regs(pre, post)
            &&& status == WaitStatus::Running
        },
        Opcode::LDVV(rx, ry) => {
            &&& post.registers@ == regs.update(rx.spec_idx(), regs[ry.spec_idx()])
            &&& same_but_regs(pre, post)
            &&& status == WaitStatus::Running
        },
        Opcode::ORVV(rx, ry) => {
            &&& post.registers@ == regs.update(
                rx.spec_idx(),
                regs[rx.spec_idx()] | regs[ry.spec_idx()],
            )
            &&& same_but_regs(pre, post)
            &&& status == WaitStatus::Running
        },
        Opcode::ANDVV(rx, ry) => {
            &&& post.registers@ == regs.update(
                rx.spec_idx(),
                regs[rx.spec_idx()] & regs[ry.spec_idx()],
            )
            &&& same_but_regs(pre, post)
            &&& status == WaitStatus::Running
        },
        Opcode::XORVV(rx, ry) => {
            &&& post.registers@ == regs.update(
                rx.spec_idx(),
                regs[rx.spec_idx()] ^ regs[ry.spec_idx()],
            )
            &&& same_but_regs(pre, post)
            &&& status == WaitStatus::Running
        },
        Opcode::ADDVV(rx, ry) => {
            let result = wadd8(regs[rx.spec_idx()], regs[ry.spec_idx()]);
            let carry: u8 = if result < regs[rx.spec_idx()] {
                1
            } else {
                0
            };
            &&& post.registers@ == regs.update(15, carry).update(rx.spec_idx(), result)
            &&& same_but_regs(pre, post)
            &&& status == WaitStatus::Running
        },
        Opcode::SUB(rx, ry) => {
            let flag: u8 = if regs[rx.spec_idx()] > regs[ry.spec_idx()] {
                1
            } else {
                0
            };
            let mid = regs.update(15, flag);
            &&& post.registers@ == mid.update(
                rx.spec_idx(),
                wsub8(mid[rx.spec_idx()], mid[ry.spec_idx()]),
            )
            &&& same_but_regs(pre, post)
            &&& status == WaitStatus::Running
        },
        Opcode::SHR(rx) => {
            let mid = regs.update(15, regs[rx.spec_idx()] & 0x01);
            &&& post.registers@ == mid.update(rx.spec_idx(), mid[rx.spec_idx()] >> 1u8)
            &&& same_but_regs(pre, post)
            &&& status == WaitStatus::Running
        },
        Opcode::SUBN(rx, ry) => {
            let flag: u8 = if regs[ry.spec_idx()] > regs[rx.spec_idx()] {
                1
            } else {
                0
            };
            let mid = regs.update(15, flag);
            &&& post.registers@ == mid.update(
                rx.spec_idx(),
                wsub8(mid[ry.spec_idx()], mid[rx.spec_idx()]),
            )
            &&& same_but_regs(pre, post)
            &&& status == WaitStatus::Running
        },
        Opcode::SHL(rx) => {
            let mid = regs.update(15, (regs[rx.spec_idx()] & 0x80) >> 7u8);
            &&& post.registers@ == mid.update(rx.spec_idx(), mid[rx.spec_idx()] << 1u8)
            &&& same_but_regs(pre, post)
            &&& status == WaitStatus::Running
        },
        Opcode::SNEVV(rx, ry) => {
            &&& post.pc == if regs[rx.spec_idx()] != regs[ry.spec_idx()] {
                wadd16(pre.pc, INSTR_SIZE as u16)
            } else {
                pre.pc
            }
            &&& same_but_pc(pre, post)
            &&& status == WaitStatus::Running
        },
        Opcode::LDI(val) => {
            &&& post.index == val
            &&& same_but_index(pre, post)
            &&& status == WaitStatus::Running
        },
        Opcode::JPV0(addr) => {
            &&& post.pc == (((addr & 0x0FFF) + regs[0]) as u16) & 0x0FFF
            &&& same_but_pc(pre, post)
            &&& status == WaitStatus::Running
        },
        Opcode::RND(rx, mask) => {
            &&& post.registers@ == regs.update(rx.spec_idx(), post.registers@[rx.spec_idx()])
            &&& post.registers@[rx.spec_idx()] & !mask == 0
            &&& same_but_regs(pre, post)
            &&& status == WaitStatus::Running
        },
        Opcode::DRW(rx, ry, rows) => {
            let coll = spec_draw_collision(
                pre.memory@,
                pre.framebuffer@,
                pre.index,
                regs[rx.spec_idx()],
                regs[ry.spec_idx()],
                rows as nat,
            );
            &&& post.framebuffer@ == spec_draw_fb(
                pre.memory@,
                pre.framebuffer@,
                pre.index,
                regs[rx.spec_idx()],
                regs[ry.spec_idx()],
                rows as nat,
            )
            &&& post.registers@ == regs.update(
                15,
                if coll {
                    1u8
                } else {
                    0u8
                },
            )
            &&& same_but_fb_regs(pre, post)
            &&& status == WaitStatus::Running
        },
        Opcode::SKP(rx) => {
            &&& post.pc == if spec_key_pressed(pre.input, regs[rx.spec_idx()] as u16) {
                wadd16(pre.pc, INSTR_SIZE as u16)
            } else {
                pre.pc
            }
            &&& same_but_pc(pre, post)
            &&& status == WaitStatus::Running
        },
        Opcode::SKNP(rx) => {
            &&& post.pc == if !spec_key_pressed(pre.input, regs[rx.spec_idx()] as u16) {
                wadd16(pre.pc, INSTR_SIZE as u16)
            } else {
                pre.pc
            }
            &&& same_but_pc(pre, post)
            &&& status == WaitStatus::Running
        },
        Opcode::LDVDT(rx) => {
            &&& post.registers@ == regs.update(rx.spec_idx(), pre.dt)
            &&& same_but_regs(pre, post)
            &&& status == WaitStatus::Running
        },
        Opcode::LDVK(rx) => {
            if pre.input == 0 {
                &&& unchanged(pre, post)
                &&& status == WaitStatus::Waiting
            } else {
                &&& post.registers@ == regs.update(
                    rx.spec_idx(),
                    vstd::std_specs::bits::u16_trailing_zeros(pre.input) as u8,
                )
                &&& same_but_regs(pre, post)
                &&& status == WaitStatus::Running
            }
        },
        Opcode::LDDT(rx) => {
            &&& post.dt == regs[rx.spec_idx()]
            &&& same_but_dt(pre, post)
            &&& status == WaitStatus::Running
        },
        Opcode::LDST(rx) => {
            &&& post.st == regs[rx.spec_idx()]
            &&& same_but_st(pre, post)
            &&& status == WaitStatus::Running
        },
        Opcode::ADDI(rx) => {
            &&& post.index == wadd16(pre.index, regs[rx.spec_idx()] as u16)
            &&& same_but_index(pre, post)
            &&& status == WaitStatus::Running
        },
        Opcode::LDF(rx) => {
            &&& post.index == regs[rx.spec_idx()] * 5
            &&& same_but_index(pre, post)
            &&& status == WaitStatus::Running
        },
        Opcode::LDB(rx) => {
            &&& post.memory@ == spec_store_bcd(
                pre.memory@,
                BCD::spec_from(regs[rx.spec_idx()]),
                pre.index,
            )
            &&& same_but_mem(pre, post)
            &&& status == WaitStatus::Running
        },
        Opcode::LDIV(rx) => {
            &&& post.memory@ == spec_store_regs(
                pre.memory@,
                regs,
                pre.index,
                rx.spec_idx() + 1,
            )
            &&& post.index == wadd16(pre.index, (rx.spec_idx() + 1) as u16)
            &&& same_but_mem_index(pre, post)
            &&& status == WaitStatus::Running
        },
        Opcode::LDVI(rx) => {
            &&& post.registers@ == spec_load_regs(
                regs,
                pre.memory@,
                pre.index,
                rx.spec_idx() + 1,
            )
            &&& post.index == wadd16(pre.index, (rx.spec_idx() + 1) as u16)
            &&& same_but_regs_index(pre, post)
            &&& status == WaitStatus::Running
        },
        Opcode::NOP => {
            &&& unchanged(pre, post)
            &&& status == WaitStatus::Running
        },
    }
}

/// Relies on rand::random for a uniformly distributed random byte; nothing
/// is assumed of the returned value.
#[verifier::external_body]
fn random_byte() -> u8 {
    rand::random()
}

impl Opcode {
    /// Whether this instruction sets the program counter itself.
    pub fn is_jump(&self) -> (r: bool)
        ensures
            r == spec_is_jump(*self),
    {
        match self {
            Opcode::JP(_) => true,
            Opcode::CALL(_) => true,
            Opcode::RET => true,
            Opcode::JPV0(_) => true,
            _ => false,
        }
    }

    /// Apply this instruction's state transition to the machine, as
    /// `step_rel` states it.
    pub fn execute(&self, state: &mut Chip8State) -> (status: WaitStatus)
        requires
            old(state).wf(),
        ensures
            final(state).wf(),
            step_rel(*self, *old(state), *final(state), status),
    {
        match self {
            Opcode::CLS => self.execute_display(state),
            Opcode::DRW(_, _, _) => self.execute_display(state),
            Opcode::JP(_) => self.execute_branch(state),
            Opcode::JPV0(_) => self.execute_branch(state),
            Opcode::SEVB(_, _) => self.execute_branch(state),
            Opcode::SNEVB(_, _) => self.execute_branch(state),
            Opcode::SEVV(_, _) => self.execute_branch(state),
            Opcode::SNEVV(_, _) => self.execute_branch(state),
            Opcode::SKP(_) => self.execute_branch(state),
            Opcode::SKNP(_) => self.execute_branch(state),
            Opcode::LDVB(_, _) => self.execute_alu(state),
            Opcode::ADDVB(_, _) => self.execute_alu(state),
            Opcode::LDVV(_, _) => self.execute_alu(state),
            Opcode::ORVV(_, _) => self.execute_alu(state),
            Opcode::ANDVV(_, _) => self.execute_alu(state),
            Opcode::XORVV(_, _) => self.execute_alu(state),
            Opcode::ADDVV(_, _) => self.execute_alu(state),
            Opcode::SUB(_, _) => self.execute_alu(state),
            Opcode::SHR(_) => self.execute_alu(state),
            Opcode::SUBN(_, _) => self.execute_alu(state),
            Opcode::SHL(_) => self.execute_alu(state),
            Opcode::RND(_, _) => self.execute_alu(state),
            Opcode::LDVDT(_) => self.execute_alu(state),
            Opcode::LDVK(_) => self.execute_alu(state),
            Opcode::RET => self.execute_system(state),
            Opcode::CALL(_) => self.execute_system(state),
            Opcode::LDI(_) => self.execute_system(state),
            Opcode::LDDT(_) => self.execute_system(state),
            Opcode::LDST(_) => self.execute_system(state),
            Opcode::ADDI(_) => self.execute_system(state),
            Opcode::LDF(_) => self.execute_system(state),
            Opcode::LDB(_) => self.execute_system(state),
            Opcode::LDIV(_) => self.execute_system(state),
            Opcode::LDVI(_) => self.execute_system(state),
            Opcode::NOP => self.execute_system(state),
        }
    }

    /// The display family: clear screen and sprite draw.
    fn execute_display(&self, state: &mut Chip8State) -> (status: WaitStatus)
        requires
            old(state).wf(),
            self is CLS || self is DRW,
        ensures
            final(state).wf(),
            step_rel(*self, *old(state), *final(state), status),
    {
        match self {
            Opcode::CLS => {
                let mut i: usize = 0;
                while i < 256
                    invariant
                        state.wf(),
                        0 <= i <= 256,
                        forall|j: int| 0 <= j < i ==> state.framebuffer@[j] == 0,
                        same_but_fb(*old(state), *state),
                        forall|j: int|
                            i <= j < 256 ==> state.framebuffer@[j] == old(state).framebuffer@[j],
                    decreases 256 - i,
                {
                    state.framebuffer[i] = 0;
                    i += 1;
                }
                proof {
                    assert(state.framebuffer@ =~= Seq::new(256, |k: int| 0u8));
                }
            },
            Opcode::DRW(x_reg, y_reg, rows) => {
                let xi = x_reg.idx();
                let yi = y_reg.idx();
                let n = *rows;
                let mut overwrite = false;
                let mut i: u8 = 0;
                while i < n
                    invariant
                        state.wf(),
                        0 <= i <= n,
                        xi == x_reg.spec_idx(),
                        yi == y_reg.spec_idx(),
                        state.framebuffer@ == spec_draw_fb(
                            old(state).memory@,
                            old(state).framebuffer@,
                            old(state).index,
                            old(state).registers@[xi as int],
                            old(state).registers@[yi as int],
                            i as nat,
                        ),
                        overwrite == spec_draw_collision(
                            old(state).memory@,
                            old(state).framebuffer@,
                            old(state).index,
                            old(state).registers@[xi as int],
                            old(state).registers@[yi as int],
                            i as nat,
                        ),
                        state.registers@ == old(state).registers@,
                        same_but_fb_regs(*old(state), *state),
                    decreases n - i,
                {
                    let addr = state.index.wrapping_add(i as u16);
                    proof {
                        lemma_mask12(addr);
                    }
                    let pixels = state.memory[(addr & 0x0FFF) as usize];
                    let o = state.write_fb(
                        pixels,
                        state.registers[xi],
                        state.registers[yi].wrapping_add(i),
                    );
                    overwrite = overwrite || o;
                    i += 1;
                }
                state.registers[15] = if overwrite {
                    1
                } else {
                    0
                };
            },
            _ => {},
        }

        WaitStatus::Running
    }

    /// The branch family: jumps and conditional skips.
    fn execute_branch(&self, state: &mut Chip8State) -> (status: WaitStatus)
        requires
            old(state).wf(),
            self is JP || self is JPV0 || self is SEVB || self is SNEVB || self is SEVV
                || self is SNEVV || self is SKP || self is SKNP,
        ensures
            final(state).wf(),
            step_rel(*self, *old(state), *final(state), status),
    {
        match self {
            Opcode::JP(addr) => state.jump_to_address(*addr),
            Opcode::JPV0(addr) => {
                proof {
                    lemma_mask12(*addr);
                }
                state.jump_to_address((*addr & 0x0FFF) + (state.registers[0] as u16));
            },
            Opcode::SEVB(reg, byte) => {
                if state.registers[reg.idx()] == *byte {
                    state.pc = state.pc.wrapping_add(INSTR_SIZE as u16);
                }
            },
            Opcode::SNEVB(reg, byte) => {
                if state.registers[reg.idx()] != *byte {
                    state.pc = state.pc.wrapping_add(INSTR_SIZE as u16);
                }
            },
            Opcode::SEVV(reg1, reg2) => {
                if state.registers[reg1.idx()] == state.registers[reg2.idx()] {
                    state.pc = state.pc.wrapping_add(INSTR_SIZE as u16);
                }
            },
            Opcode::SNEVV(reg1, reg2) => {
                if state.registers[reg1.idx()] != state.registers[reg2.idx()] {
                    state.pc = state.pc.wrapping_add(INSTR_SIZE as u16);
                }
            },
            Opcode::SKP(reg) => {
                if state.read_input(state.registers[reg.idx()] as u16) {
                    state.pc = state.pc.wrapping_add(INSTR_SIZE as u16);
                }
            },
            Opcode::SKNP(reg) => {
                if !state.read_input(state.registers[reg.idx()] as u16) {
                    state.pc = state.pc.wrapping_add(INSTR_SIZE as u16);
                }
            },
            _ => {},
        }

        WaitStatus::Running
    }

    /// The arithmetic and register-load family, including the random byte
    /// and the key wait.
    fn execute_alu(&self, state: &mut Chip8State) -> (status: WaitStatus)
        requires
            old(state).wf(),
            self is LDVB || self is ADDVB || self is LDVV || self is ORVV || self is ANDVV
                || self is XORVV || self is ADDVV || self is SUB || self is SHR || self is SUBN
                || self is SHL || self is RND || self is LDVDT || self is LDVK,
        ensures
            final(state).wf(),
            step_rel(*self, *old(state), *final(state), status),
    {
        match self {
            Opcode::LDVB(reg, byte) => {
                state.registers[reg.idx()] = *byte;
            },
            Opcode::ADDVB(reg, byte) => {
                state.registers[reg.idx()] = state.registers[reg.idx()].wrapping_add(*byte);
            },
            Opcode::LDVV(reg1, reg2) => {
                state.registers[reg1.idx()] = state.registers[reg2.idx()];
            },
            Opcode::ORVV(reg1, reg2) => {
                state.registers[reg1.idx()] = state.registers[reg1.idx()] | state.registers[
                    reg2.idx()
                ];
            },
            Opcode::ANDVV(reg1, reg2) => {
                state.registers[reg1.idx()] = state.registers[reg1.idx()] & state.registers[
                    reg2.idx()
                ];
            },
            Opcode::XORVV(reg1, reg2) => {
                state.registers[reg1.idx()] = state.registers[reg1.idx()] ^ state.registers[
                    reg2.idx()
                ];
            },
            Opcode::ADDVV(reg1, reg2) => {
                let result = state.registers[reg1.idx()].wrapping_add(
                    state.registers[reg2.idx()],
                );
                let carry: u8 = if result < state.registers[reg1.idx()] {
                    1
                } else {
                    0
                };
                state.registers[15] = carry;
                state.registers[reg1.idx()] = result;
            },
            Opcode::SUB(reg1, reg2) => {
                let flag: u8 = if state.registers[reg1.idx()] > state.registers[reg2.idx()] {
                    1
                } else {
                    0
                };
                state.registers[15] = flag;
                state.registers[reg1.idx()] = state.registers[reg1.idx()].wrapping_sub(
                    state.registers[reg2.idx()],
                );
            },
            Opcode::SHR(reg) => {
                state.registers[15] = state.registers[reg.idx()] & 0x01;
                state.registers[reg.idx()] = state.registers[reg.idx()] >> 1u8;
            },
            Opcode::SUBN(reg1, reg2) => {
                let flag: u8 = if state.registers[reg2.idx()] > state.registers[reg1.idx()] {
                    1
                } else {
                    0
                };
                state.registers[15] = flag;
                state.registers[reg1.idx()] = state.registers[reg2.idx()].wrapping_sub(
                    state.registers[reg1.idx()],
                );
            },
            Opcode::SHL(reg) => {
                state.registers[15] = (state.registers[reg.idx()] & 0x80) >> 7u8;
                state.registers[reg.idx()] = state.registers[reg.idx()] << 1u8;
            },
            Opcode::RND(reg, mask) => {
                let r = random_byte();
                state.registers[reg.idx()] = r & *mask;
                proof {
                    let m = *mask;
                    assert(((r & m) & !m) == 0) by (bit_vector);
                }
            },
            Opcode::LDVDT(reg) => {
                state.registers[reg.idx()] = state.dt;
            },
            Opcode::LDVK(reg) => {
                if state.input == 0 {
                    return WaitStatus::Waiting;
                } else {
                    state.registers[reg.idx()] = state.input.trailing_zeros() as u8;
                }
            },
            _ => {},
        }

        WaitStatus::Running
    }

    /// The system family: stack calls and returns, index and timer loads,
    /// BCD and bulk register transfers, and the no-op.
    fn execute_system(&self, state: &mut Chip8State) -> (status: WaitStatus)
        requires
            old(state).wf(),
            self is RET || self is CALL || self is LDI || self is LDDT || self is LDST
                || self is ADDI || self is LDF || self is LDB || self is LDIV || self is LDVI
                || self is NOP,
        ensures
            final(state).wf(),
            step_rel(*self, *old(state), *final(state), status),
    {
        match self {
            Opcode::RET => {
                if state.sp < 2 || state.sp > 64 {
                    return WaitStatus::StackFault;
                }
                let ret_addr = state.pop_stack();
                state.jump_to_address(ret_addr);
            },
            Opcode::CALL(addr) => {
                if state.sp > 62 {
                    return WaitStatus::StackFault;
                }
                let ret_addr = state.pc.wrapping_add(INSTR_SIZE as u16);
                state.push_stack(ret_addr);
                state.jump_to_address(*addr);
            },
            Opcode::LDI(val) => {
                state.index = *val;
            },
            Opcode::LDDT(reg) => {
                state.dt = state.registers[reg.idx()];
            },
            Opcode::LDST(reg) => {
                state.st = state.registers[reg.idx()];
            },
            Opcode::ADDI(reg) => {
                state.index = state.index.wrapping_add(state.registers[reg.idx()] as u16);
            },
            Opcode::LDF(reg) => {
                state.index = (state.registers[reg.idx()] as u16) * 5;
            },
            Opcode::LDB(reg) => {
                let digits = BCD::from(state.registers[reg.idx()]);
                let address = state.index;
                state.store_bcd(digits, address);
            },
            Opcode::LDIV(reg) => {
                let x = reg.idx();
                let mut k: usize = 0;
                while k < x + 1
                    invariant
                        state.wf(),
                        x == reg.spec_idx(),
                        0 <= k <= x + 1 <= 16,
                        state.memory@ == spec_store_regs(
                            old(state).memory@,
                            old(state).registers@,
                            old(state).index,
                            k as int,
                        ),
                        state.index == old(state).index,
                        state.registers@ == old(state).registers@,
                        same_but_mem_index(*old(state), *state),
                    decreases x + 1 - k,
                {
                    let value = state.registers[k];
                    let address = state.index.wrapping_add(k as u16);
                    state.store_to_memory(value, address);
                    k += 1;
                }
                state.index = state.index.wrapping_add((x + 1) as u16);
            },
            Opcode::LDVI(reg) => {
                let x = reg.idx();
                let mut k: usize = 0;
                while k < x + 1
                    invariant
                        state.wf(),
                        x == reg.spec_idx(),
                        0 <= k <= x + 1 <= 16,
                        state.registers@ == spec_load_regs(
                            old(state).registers@,
                            old(state).memory@,
                            old(state).index,
                            k as int,
                        ),
                        state.index == old(state).index,
                        state.memory@ == old(state).memory@,
                        same_but_regs_index(*old(state), *state),
                    decreases x + 1 - k,
                {
                    let address = state.index.wrapping_add(k as u16);
                    proof {
                        lemma_mask12(address);
                    }
                    state.registers[k] = state.memory[(address & 0x0FFF) as usize];
                    k += 1;
                }
                state.index = state.index.wrapping_add((x + 1) as u16);
            },
            _ => {},
        }

        WaitStatus::Running
    }
}


/// The add-with-carry law: executing ADDVV on a target register other
/// than VF leaves that register holding the wrapped sum of the two
/// operand bytes, and sets VF to 1 iff the wrapped sum is below the
/// original left operand, i.e. iff the unsigned add overflowed.
pub proof fn lemma_addvv_carry(
    rx: Reg,
    ry: Reg,
    pre: Chip8State,
    post: Chip8State,
    status: WaitStatus,
)
    requires
        pre.wf(),
        rx.spec_idx() != 15,
        step_rel(Opcode::ADDVV(rx, ry), pre, post, status),
    ensures
        ({
            let a = pre.registers@[rx.spec_idx()];
            let b = pre.registers@[ry.spec_idx()];
            &&& post.registers@[rx.spec_idx()] == ((a + b) % 256) as u8
            &&& post.registers@[15] == (if (a + b) % 256 < a {
                1u8
            } else {
                0u8
            })
        }),
{
    let a = pre.registers@[rx.spec_idx()];
    let b = pre.registers@[ry.spec_idx()];
    assert(wadd8(a, b) == (a + b) % 256);
}

/// The subtract-borrow law: executing SUB on registers other than VF
/// leaves the target holding the wrapped difference of the two operand
/// bytes, and sets VF to 1 iff the left operand was strictly greater,
/// i.e. iff no borrow occurred.
pub proof fn lemma_sub_borrow(
    rx: Reg,
    ry: Reg,
    pre: Chip8State,
    post: Chip8State,
    status: WaitStatus,
)
    requires
        pre.wf(),
        rx.spec_idx() != 15,
        ry.spec_idx() != 15,
        step_rel(Opcode::SUB(rx, ry), pre, post, status),
    ensures
        ({
            let a = pre.registers@[rx.spec_idx()];
            let b = pre.registers@[ry.spec_idx()];
            &&& post.registers@[rx.spec_idx()] == ((a - b) % 256) as u8
            &&& post.registers@[15] == (if a > b {
                1u8
            } else {
                0u8
            })
        }),
{
    let a = pre.registers@[rx.spec_idx()];
    let b = pre.registers@[ry.spec_idx()];
    assert(wsub8(a, b) == (a - b) % 256);
}


/// The key-wait law: executing the key wait with no key held leaves the
/// machine unchanged and reports Waiting; with keys held it reports
/// Running and the target register receives the lowest held key: a key
/// number below 16 whose input bit is set while every lower bit is clear.
pub proof fn lemma_key_wait_lowest_key(
    rx: Reg,
    pre: Chip8State,
    post: Chip8State,
    status: WaitStatus,
)
    requires
        pre.wf(),
        step_rel(Opcode::LDVK(rx), pre, post, status),
    ensures
        pre.input == 0 ==> unchanged(pre, post) && status == WaitStatus::Waiting,
        pre.input != 0 ==> ({
            let k = post.registers@[rx.spec_idx()];
            &&& status == WaitStatus::Running
            &&& k < 16
            &&& (pre.input >> (k as u16)) & 1 == 1
            &&& forall|j: u16| j < k ==> #[trigger] (pre.input >> j) & 1 == 0
        }),
{
    if pre.input != 0 {
        let tz = vstd::std_specs::bits::u16_trailing_zeros(pre.input);
        vstd::std_specs::bits::axiom_u16_trailing_zeros(pre.input);
        assert(tz < 16);
        assert(post.registers@[rx.spec_idx()] == tz as u8);
    }
}

} // verus!

//! A small register machine with 16 registers and 4 KiB of byte-addressed
//! memory.
//!
//! Register 0 is the instruction pointer. Each instruction is an opcode byte
//! followed by register or immediate operand bytes; executing it first moves
//! the instruction pointer past the instruction, then performs its effect.
//! Output instructions append bytes to a caller-supplied buffer, so running
//! the machine is pure; the rim around the library prints that buffer.

use vstd::prelude::*;

verus! {

/// Bytes of machine memory.
pub const MEMORY_SIZE: usize = 4096;

/// Number of registers.
pub const NREGS: usize = 16;

/// The register used as instruction pointer.
pub const IP: usize = 0;

/// Why execution stopped.
#[derive(Clone, Copy, PartialEq, Eq, Structural, Debug)]
pub enum MachineError {
    /// The instruction pointer or an effective address reaches outside
    /// memory.
    OutOfMemory,
    /// The opcode byte is not an instruction.
    InexistantInstruction,
    /// A register operand names a register past the last one.
    InexistantRegister,
    /// Writing the produced output failed; the in-memory output buffer used
    /// here never fails, so no operation of this crate returns it.
    IoError,
}

/// The spec-level state of a [`Machine`]: its memory and registers.
pub struct MachineModel {
    /// The 4096 memory bytes.
    pub mem: Seq<u8>,
    /// The 16 registers; register 0 is the instruction pointer.
    pub regs: Seq<u32>,
}

/// The model after the instruction pointer moved past an instruction of
/// `inc` bytes at `adr`.
pub open spec fn ip_after(m: MachineModel, adr: int, inc: int) -> MachineModel {
    MachineModel { mem: m.mem, regs: m.regs.update(0, (adr + inc) as u32) }
}

/// Little-endian byte `k` of a 32-bit value.
pub open spec fn le_byte(v: u32, k: int) -> u8 {
    if k == 0 {
        (v % 256) as u8
    } else if k == 1 {
        ((v / 256) % 256) as u8
    } else if k == 2 {
        ((v / 65536) % 256) as u8
    } else {
        ((v / 16777216) % 256) as u8
    }
}

/// Memory with the four little-endian bytes of `v` written at `a`.
pub open spec fn write4(mem: Seq<u8>, a: int, v: u32) -> Seq<u8> {
    mem.update(a, le_byte(v, 0)).update(a + 1, le_byte(v, 1)).update(a + 2, le_byte(v, 2)).update(
        a + 3,
        le_byte(v, 3),
    )
}

/// The 32-bit value of four little-endian bytes.
pub open spec fn from_le(b0: u8, b1: u8, b2: u8, b3: u8) -> u32 {
    (b0 + b1 * 256 + b2 * 65536 + b3 * 16777216) as u32
}

/// `a - b` wrapped to 32 bits.
pub open spec fn wrap_sub(a: u32, b: u32) -> u32 {
    if a >= b {
        (a - b) as u32
    } else {
        (a - b + 0x1_0000_0000) as u32
    }
}

/// A 16-bit little-endian immediate sign-extended to 32 bits.
pub open spec fn sign_extend16(l: u8, h: u8) -> u32 {
    let v16 = l + h * 256;
    if v16 >= 0x8000 {
        (v16 + 0xFFFF_0000) as u32
    } else {
        v16 as u32
    }
}

/// The UTF-8 encoding of the character whose code point is byte `c`.
pub open spec fn utf8_of_byte(c: u8) -> Seq<u8> {
    if c < 0x80 {
        seq![c]
    } else {
        seq![(0xC0u8 | (c >> 6)) as u8, (0x80u8 | (c & 0x3F)) as u8]
    }
}

/// The decimal digits of `n`, most significant first, as ASCII bytes.
pub open spec fn dec_digits(n: nat) -> Seq<u8>
    decreases n,
{
    if n < 10 {
        seq![(48 + n) as u8]
    } else {
        dec_digits(n / 10) + seq![(48 + n % 10) as u8]
    }
}

/// The decimal rendering of a register value read as a signed 32-bit
/// number: a minus sign and the magnitude when the top bit is set.
pub open spec fn signed_decimal(v: u32) -> Seq<u8> {
    if v <= 0x7FFF_FFFF {
        dec_digits(v as nat)
    } else {
        seq![45u8] + dec_digits((0x1_0000_0000 - v) as nat)
    }
}

/// `mov if`: move register B into register A when register C is non-zero.
/// Operands are the three bytes after the opcode: A, B, C.
pub open spec fn mov_if_model(m: MachineModel, adr: int, inc: int) -> (
    MachineModel,
    Result<bool, MachineError>,
) {
    let m1 = ip_after(m, adr, inc);
    if adr + 3 >= MEMORY_SIZE {
        (m1, Err(MachineError::OutOfMemory))
    } else {
        let rc = m.mem[adr + 3];
        if rc > 15 {
            (m1, Err(MachineError::InexistantRegister))
        } else if m1.regs[rc as int] != 0 {
            let rb = m.mem[adr + 2];
            if rb > 15 {
                (m1, Err(MachineError::InexistantRegister))
            } else {
                let ra = m.mem[adr + 1];
                if ra > 15 {
                    (m1, Err(MachineError::InexistantRegister))
                } else {
                    (
                        MachineModel {
                            mem: m1.mem,
                            regs: m1.regs.update(ra as int, m1.regs[rb as int]),
                        },
                        Ok(false),
                    )
                }
            }
        } else {
            (m1, Ok(false))
        }
    }
}

/// `store`: write the four little-endian bytes of register B at the address
/// held in register A. Operands: A, B.
pub open spec fn store_model(m: MachineModel, adr: int, inc: int) -> (
    MachineModel,
    Result<bool, MachineError>,
) {
    let m1 = ip_after(m, adr, inc);
    if adr + 2 >= MEMORY_SIZE {
        (m1, Err(MachineError::OutOfMemory))
    } else {
        let ra = m.mem[adr + 1];
        let rb = m.mem[adr + 2];
        if ra > 15 || rb > 15 {
            (m1, Err(MachineError::InexistantRegister))
        } else {
            let addr = m1.regs[ra as int];
            if addr >= 4093 {
                (m1, Err(MachineError::OutOfMemory))
            } else {
                (
                    MachineModel { mem: write4(m1.mem, addr as int, m1.regs[rb as int]), regs: m1.regs },
                    Ok(false),
                )
            }
        }
    }
}

/// `load`: read a 32-bit little-endian value at the address held in
/// register B into register A. Operands: A, B.
pub open spec fn load_model(m: MachineModel, adr: int, inc: int) -> (
    MachineModel,
    Result<bool, MachineError>,
) {
    let m1 = ip_after(m, adr, inc);
    if adr + 2 >= MEMORY_SIZE {
        (m1, Err(MachineError::OutOfMemory))
    } else {
        let ra = m.mem[adr + 1];
        let rb = m.mem[adr + 2];
        if ra > 15 || rb > 15 {
            (m1, Err(MachineError::InexistantRegister))
        } else {
            let p = m1.regs[rb as int];
            if p >= 4093 {
                (m1, Err(MachineError::OutOfMemory))
            } else {
                let v = from_le(m.mem[p as int], m.mem[p + 1], m.mem[p + 2], m.mem[p + 3]);
                (MachineModel { mem: m1.mem, regs: m1.regs.update(ra as int, v) }, Ok(false))
            }
        }
    }
}

/// `loadimm`: sign-extend the 16-bit little-endian immediate into register
/// A. Operands: A, low byte, high byte.
pub open spec fn loadimm_model(m: MachineModel, adr: int, inc: int) -> (
    MachineModel,
    Result<bool, MachineError>,
) {
    let m1 = ip_after(m, adr, inc);
    if adr + 3 >= MEMORY_SIZE {
        (m1, Err(MachineError::OutOfMemory))
    } else {
        let ra = m.mem[adr + 1];
        if ra > 15 {
            (m1, Err(MachineError::InexistantRegister))
        } else {
            let v = sign_extend16(m.mem[adr + 2], m.mem[adr + 3]);
            (MachineModel { mem: m1.mem, regs: m1.regs.update(ra as int, v) }, Ok(false))
        }
    }
}

/// `sub`: register A takes register B minus register C, wrapping on
/// overflow. Operands: A, B, C.
pub open spec fn sub_model(m: MachineModel, adr: int, inc: int) -> (
    MachineModel,
    Result<bool, MachineError>,
) {
    let m1 = ip_after(m, adr, inc);
    if adr + 3 >= MEMORY_SIZE {
        (m1, Err(MachineError::OutOfMemory))
    } else {
        let ra = m.mem[adr + 1];
        let rb = m.mem[adr + 2];
        let rc = m.mem[adr + 3];
        if ra > 15 || rb > 15 || rc > 15 {
            (m1, Err(MachineError::InexistantRegister))
        } else {
            (
                MachineModel {
                    mem: m1.mem,
                    regs: m1.regs.update(ra as int, wrap_sub(m1.regs[rb as int], m1.regs[rc as int])),
                },
                Ok(false),
            )
        }
    }
}

/// `out`: append the UTF-8 encoding of the character held in the low byte
/// of register A. Operand: A.
pub open spec fn out_model(m: MachineModel, adr: int, inc: int) -> (
    MachineModel,
    Seq<u8>,
    Result<bool, MachineError>,
) {
    let m1 = ip_after(m, adr, inc);
    if adr + 1 >= MEMORY_SIZE {
        (m1, Seq::empty(), Err(MachineError::OutOfMemory))
    } else {
        let ra = m.mem[adr + 1];
        if ra > 15 {
            (m1, Seq::empty(), Err(MachineError::InexistantRegister))
        } else {
            (m1, utf8_of_byte((m1.regs[ra as int] % 256) as u8), Ok(false))
        }
    }
}

/// `out number`: append the decimal rendering of register A read as a
/// signed 32-bit number. Operand: A.
pub open spec fn out_number_model(m: MachineModel, adr: int, inc: int) -> (
    MachineModel,
    Seq<u8>,
    Result<bool, MachineError>,
) {
    let m1 = ip_after(m, adr, inc);
    if adr + 1 >= MEMORY_SIZE {
        (m1, Seq::empty(), Err(MachineError::OutOfMemory))
    } else {
        let ra = m.mem[adr + 1];
        if ra > 15 {
            (m1, Seq::empty(), Err(MachineError::InexistantRegister))
        } else {
            (m1, signed_decimal(m1.regs[ra as int]), Ok(false))
        }
    }
}

/// `exit`: stop the program.
pub open spec fn exit_model(m: MachineModel, adr: int, inc: int) -> (
    MachineModel,
    Result<bool, MachineError>,
) {
    (ip_after(m, adr, inc), Ok(true))
}

/// One fetch-decode-execute step from the instruction pointer.
pub open spec fn step_model(m: MachineModel) -> (MachineModel, Seq<u8>, Result<
    bool,
    MachineError,
>) {
    let adr = m.regs[0] as int;
    if adr > 4095 {
        (m, Seq::empty(), Err(MachineError::OutOfMemory))
    } else {
        let inst = m.mem[adr];
        if inst == 1 {
            let (m2, r) = mov_if_model(m, adr, 4);
            (m2, Seq::empty(), r)
        } else if inst == 2 {
            let (m2, r) = store_model(m, adr, 3);
            (m2, Seq::empty(), r)
        } else if inst == 3 {
            let (m2, r) = load_model(m, adr, 3);
            (m2, Seq::empty(), r)
        } else if inst == 4 {
            let (m2, r) = loadimm_model(m, adr, 4);
            (m2, Seq::empty(), r)
        } else if inst == 5 {
            let (m2, r) = sub_model(m, adr, 4);
            (m2, Seq::empty(), r)
        } else if inst == 6 {
            out_model(m, adr, 2)
        } else if inst == 7 {
            let (m2, r) = exit_model(m, adr, 1);
            (m2, Seq::empty(), r)
        } else if inst == 8 {
            out_number_model(m, adr, 2)
        } else {
            (m, Seq::empty(), Err(MachineError::InexistantInstruction))
        }
    }
}

/// The machine run for at most `fuel` steps: the final state, everything it
/// output, and whether it exited (`Ok(true)`), ran out of steps
/// (`Ok(false)`) or stopped on an error.
pub open spec fn run_model(m: MachineModel, fuel: nat) -> (MachineModel, Seq<u8>, Result<
    bool,
    MachineError,
>)
    decreases fuel,
{
    if fuel == 0 {
        (m, Seq::empty(), Ok(false))
    } else {
        let (m2, out, r) = step_model(m);
        if r == Ok::<bool, MachineError>(false) {
            let (m3, out2, r2) = run_model(m2, (fuel - 1) as nat);
            (m3, out + out2, r2)
        } else {
            (m2, out, r)
        }
    }
}

/// The register machine.
///
/// Its view is a [`MachineModel`].
pub struct Machine {
    memory: Vec<u8>,
    registers: Vec<u32>,
}

impl View for Machine {
    type V = MachineModel;

    closed spec fn view(&self) -> MachineModel {
        MachineModel { mem: self.memory@, regs: self.registers@ }
    }
}

impl Machine {
    /// Memory and register file have their fixed sizes.
    pub open spec fn wf(&self) -> bool {
        self@.mem.len() == MEMORY_SIZE && self@.regs.len() == NREGS
    }

    /// A machine in its reset state: `memory` copied to the start of the
    /// machine memory, the rest zero, every register zero.
    pub fn new(memory: &[u8]) -> (machine: Machine)
        requires
            memory@.len() <= MEMORY_SIZE,
        ensures
            machine.wf(),
            machine@.mem == memory@ + Seq::new((MEMORY_SIZE - memory@.len()) as nat, |i: int| 0u8),
            machine@.regs == Seq::new(NREGS as nat, |i: int| 0u32),
    {
        let mut mem: Vec<u8> = Vec::new();
        let mut i: usize = 0;
        while i < memory.len()
            invariant
                i <= memory@.len() <= MEMORY_SIZE,
                mem@ == memory@.subrange(0, i as int),
            decreases memory@.len() - i,
        {
            mem.push(*vstd::slice::slice_index_get(memory, i));
            proof {
                assert(mem@ =~= memory@.subrange(0, i + 1));
            }
            i = i + 1;
        }
        while i < MEMORY_SIZE
            invariant
                memory@.len() <= i <= MEMORY_SIZE,
                mem@.len() == i,
                mem@.subrange(0, memory@.len() as int) == memory@,
                forall|j: int| memory@.len() <= j < i ==> mem@[j] == 0u8,
            decreases MEMORY_SIZE - i,
        {
            mem.push(0);
            proof {
                assert(mem@.subrange(0, memory@.len() as int) =~= memory@);
            }
            i = i + 1;
        }
        let mut regs: Vec<u32> = Vec::new();
        let mut k: usize = 0;
        while k < NREGS
            invariant
                k <= NREGS,
                regs@.len() == k,
                forall|j: int| 0 <= j < k ==> regs@[j] == 0u32,
            decreases NREGS - k,
        {
            regs.push(0);
            k = k + 1;
        }
        let machine = Machine { memory: mem, registers: regs };
        proof {
            assert(machine@.mem =~= memory@ + Seq::new(
                (MEMORY_SIZE - memory@.len()) as nat,
                |i: int| 0u8,
            ));
            assert(machine@.regs =~= Seq::new(NREGS as nat, |i: int| 0u32));
        }
        machine
    }

    /// Fail with [`MachineError::InexistantRegister`] when `indice` does not
    /// name one of the 16 registers.
    pub fn check_registers(&mut self, indice: u8) -> (r: Result<(), MachineError>)
        ensures
            *final(self) == *old(self),
            r == if indice > 15 {
                Err::<(), MachineError>(MachineError::InexistantRegister)
            } else {
                Ok::<(), MachineError>(())
            },
    {
        if indice > 15 {
            Err(MachineError::InexistantRegister)
        } else {
            Ok(())
        }
    }

    /// Move the instruction pointer past an instruction of `inc_adr` bytes
    /// at `adr`.
    pub fn update_ip(&mut self, adr: u32, inc_adr: u8) -> (r: Result<(), MachineError>)
        requires
            old(self).wf(),
            adr + inc_adr <= u32::MAX,
        ensures
            final(self).wf(),
            final(self)@ == ip_after(old(self)@, adr as int, inc_adr as int),
            r == Ok::<(), MachineError>(()),
    {
        self.set_reg(IP, adr + inc_adr as u32)
    }

    /// The machine's registers, instruction pointer first.
    pub fn regs(&self) -> (r: &[u32])
        ensures
            r@ == self@.regs,
    {
        self.registers.as_slice()
    }

    /// Set register `reg` to `value`; registers past the last one are an
    /// [`MachineError::InexistantRegister`] error.
    pub fn set_reg(&mut self, reg: usize, value: u32) -> (r: Result<(), MachineError>)
        requires
            old(self).wf(),
            reg <= u8::MAX,
        ensures
            final(self).wf(),
            reg > 15 ==> *final(self) == *old(self) && r == Err::<(), MachineError>(
                MachineError::InexistantRegister,
            ),
            reg <= 15 ==> final(self)@ == (MachineModel {
                mem: old(self)@.mem,
                regs: old(self)@.regs.update(reg as int, value),
            }) && r == Ok::<(), MachineError>(()),
    {
        match self.check_registers(reg as u8) {
            Err(e) => Err(e),
            Ok(()) => {
                self.registers[reg] = value;
                Ok(())
            },
        }
    }

    /// The machine's memory.
    pub fn memory(&self) -> (r: &[u8])
        ensures
            r@ == self@.mem,
    {
        self.memory.as_slice()
    }

    /// Execute `mov if` at `adr`: move register B into register A when
    /// register C is non-zero.
    pub fn mov_if(&mut self, adr: u32, inc: u8) -> (r: Result<bool, MachineError>)
        requires
            old(self).wf(),
            adr < MEMORY_SIZE,
        ensures
            final(self).wf(),
            (final(self)@, r) == mov_if_model(old(self)@, adr as int, inc as int),
    {
        self.update_ip(adr, inc)?;
        if adr + 3 >= MEMORY_SIZE as u32 {
            return Err(MachineError::OutOfMemory);
        }
        let reg_c = self.memory[(adr + 3) as usize];
        match self.check_registers(reg_c) {
            Err(e) => {
                return Err(e);
            },
            Ok(()) => {},
        }
        if self.registers[reg_c as usize] != 0 {
            let reg_b = self.memory[(adr + 2) as usize];
            match self.check_registers(reg_b) {
                Err(e) => {
                    return Err(e);
                },
                Ok(()) => {},
            }
            let reg_a = self.memory[(adr + 1) as usize];
            let value = self.registers[reg_b as usize];
            match self.set_reg(reg_a as usize, value) {
                Err(e) => Err(e),
                Ok(()) => Ok(false),
            }
        } else {
            Ok(false)
        }
    }

    /// Execute `store` at `adr`: write the four little-endian bytes of
    /// register B at the address held in register A.
    pub fn store(&mut self, adr: u32, inc: u8) -> (r: Result<bool, MachineError>)
        requires
            old(self).wf(),
            adr < MEMORY_SIZE,
        ensures
            final(self).wf(),
            (final(self)@, r) == store_model(old(self)@, adr as int, inc as int),
    {
        self.update_ip(adr, inc)?;
        if adr + 2 >= MEMORY_SIZE as u32 {
            return Err(MachineError::OutOfMemory);
        }
        let reg_a = self.memory[(adr + 1) as usize];
        let reg_b = self.memory[(adr + 2) as usize];
        if reg_a > 15 || reg_b > 15 {
            return Err(MachineError::InexistantRegister);
        }
        let addr = self.registers[reg_a as usize];
        if addr >= 4093 {
            return Err(MachineError::OutOfMemory);
        }
        let val = self.registers[reg_b as usize];
        self.memory[addr as usize] = (val % 256) as u8;
        self.memory[(addr + 1) as usize] = ((val / 256) % 256) as u8;
        self.memory[(addr + 2) as usize] = ((val / 65536) % 256) as u8;
        self.memory[(addr + 3) as usize] = ((val / 16777216) % 256) as u8;
        Ok(false)
    }

    /// Execute `load` at `adr`: read a 32-bit little-endian value at the
    /// address held in register B into register A.
    pub fn load(&mut self, adr: u32, inc: u8) -> (r: Result<bool, MachineError>)
        requires
            old(self).wf(),
            adr < MEMORY_SIZE,
        ensures
            final(self).wf(),
            (final(self)@, r) == load_model(old(self)@, adr as int, inc as int),
    {
        self.update_ip(adr, inc)?;
        if adr + 2 >= MEMORY_SIZE as u32 {
            return Err(MachineError::OutOfMemory);
        }
        let reg_a = self.memory[(adr + 1) as usize];
        let reg_b = self.memory[(adr + 2) as usize];
        if reg_a > 15 || reg_b > 15 {
            return Err(MachineError::InexistantRegister);
        }
        let adr_pointed = self.registers[reg_b as usize];
        if adr_pointed >= 4093 {
            return Err(MachineError::OutOfMemory);
        }
        let b0 = self.memory[adr_pointed as usize];
        let b1 = self.memory[(adr_pointed + 1) as usize];
        let b2 = self.memory[(adr_pointed + 2) as usize];
        let b3 = self.memory[(adr_pointed + 3) as usize];
        let concat: u32 = b0 as u32 + b1 as u32 * 256 + b2 as u32 * 65536 + b3 as u32 * 16777216;
        match self.set_reg(reg_a as usize, concat) {
            Err(e) => Err(e),
            Ok(()) => Ok(false),
        }
    }

    /// Execute `loadimm` at `adr`: sign-extend the 16-bit little-endian
    /// immediate into register A.
    pub fn loadimm(&mut self, adr: u32, inc: u8) -> (r: Result<bool, MachineError>)
        requires
            old(self).wf(),
            adr < MEMORY_SIZE,
        ensures
            final(self).wf(),
            (final(self)@, r) == loadimm_model(old(self)@, adr as int, inc as int),
    {
        self.update_ip(adr, inc)?;
        if adr + 3 >= MEMORY_SIZE as u32 {
            return Err(MachineError::OutOfMemory);
        }
        let reg_a = self.memory[(adr + 1) as usize];
        if reg_a > 15 {
            return Err(MachineError::InexistantRegister);
        }
        let l = self.memory[(adr + 2) as usize];
        let h = self.memory[(adr + 3) as usize];
        let v16: u32 = l as u32 + h as u32 * 256;
        let val: u32 = if v16 >= 0x8000 {
            v16 + 0xFFFF_0000
        } else {
            v16
        };
        match self.set_reg(reg_a as usize, val) {
            Err(e) => Err(e),
            Ok(()) => Ok(false),
        }
    }

    /// Execute `sub` at `adr`: register A takes register B minus register
    /// C, wrapping on overflow.
    pub fn sub(&mut self, adr: u32, inc: u8) -> (r: Result<bool, MachineError>)
        requires
            old(self).wf(),
            adr < MEMORY_SIZE,
        ensures
            final(self).wf(),
            (final(self)@, r) == sub_model(old(self)@, adr as int, inc as int),
    {
        self.update_ip(adr, inc)?;
        if adr + 3 >= MEMORY_SIZE as u32 {
            return Err(MachineError::OutOfMemory);
        }
        let reg_a = self.memory[(adr + 1) as usize];
        let reg_b = self.memory[(adr + 2) as usize];
        let reg_c = self.memory[(adr + 3) as usize];
        if reg_a > 15 || reg_b > 15 || reg_c > 15 {
            return Err(MachineError::InexistantRegister);
        }
        let b = self.registers[reg_b as usize];
        let c = self.registers[reg_c as usize];
        let diff = if b >= c {
            b - c
        } else {
            ((b as u64 + 0x1_0000_0000u64 - c as u64) as u32)
        };
        match self.set_reg(reg_a as usize, diff) {
            Err(e) => Err(e),
            Ok(()) => Ok(false),
        }
    }

    /// Execute `out` at `adr`: append the UTF-8 encoding of the character
    /// held in the low byte of register A to `fd`.
    pub fn out(&mut self, adr: u32, inc: u8, fd: &mut Vec<u8>) -> (r: Result<bool, MachineError>)
        requires
            old(self).wf(),
            adr < MEMORY_SIZE,
        ensures
            final(self).wf(),
            ({
                let (m2, out, res) = out_model(old(self)@, adr as int, inc as int);
                &&& final(self)@ == m2
                &&& final(fd)@ == old(fd)@ + out
                &&& r == res
            }),
    {
        self.update_ip(adr, inc)?;
        if adr + 1 >= MEMORY_SIZE as u32 {
            return Err(MachineError::OutOfMemory);
        }
        let reg_a = self.memory[(adr + 1) as usize];
        match self.check_registers(reg_a) {
            Err(e) => {
                return Err(e);
            },
            Ok(()) => {},
        }
        let c: u8 = (self.registers[reg_a as usize] % 256) as u8;
        if c < 0x80 {
            fd.push(c);
        } else {
            fd.push(0xC0u8 | (c >> 6));
            fd.push(0x80u8 | (c & 0x3F));
        }
        proof {
            assert(final(fd)@ =~= old(fd)@ + utf8_of_byte(c));
        }
        Ok(false)
    }

    /// Execute `exit` at `adr`: report that the program is finished.
    pub fn exit(&mut self, adr: u32, inc: u8) -> (r: Result<bool, MachineError>)
        requires
            old(self).wf(),
            adr < MEMORY_SIZE,
        ensures
            final(self).wf(),
            (final(self)@, r) == exit_model(old(self)@, adr as int, inc as int),
    {
        self.update_ip(adr, inc)?;
        Ok(true)
    }

    /// Execute `out number` at `adr`: append the decimal rendering of
    /// register A, read as a signed 32-bit number, to `fd`.
    pub fn out_number(&mut self, adr: u32, inc: u8, fd: &mut Vec<u8>) -> (r: Result<
        bool,
        MachineError,
    >)
        requires
            old(self).wf(),
            adr < MEMORY_SIZE,
        ensures
            final(self).wf(),
            ({
                let (m2, out, res) = out_number_model(old(self)@, adr as int, inc as int);
                &&& final(self)@ == m2
                &&& final(fd)@ == old(fd)@ + out
                &&& r == res
            }),
    {
        self.update_ip(adr, inc)?;
        if adr + 1 >= MEMORY_SIZE as u32 {
            return Err(MachineError::OutOfMemory);
        }
        let reg_a = self.memory[(adr + 1) as usize];
        match self.check_registers(reg_a) {
            Err(e) => {
                return Err(e);
            },
            Ok(()) => {},
        }
        let v = self.registers[reg_a as usize];
        if v <= 0x7FFF_FFFF {
            push_decimal(fd, v);
        } else {
            fd.push(45);
            let magnitude: u32 = (0x1_0000_0000u64 - v as u64) as u32;
            push_decimal(fd, magnitude);
            proof {
                assert(final(fd)@ =~= old(fd)@ + signed_decimal(v));
            }
        }
        Ok(false)
    }

    /// Fetch, decode and execute the instruction at the instruction
    /// pointer, first moving the pointer past it. Output lands in `fd`.
    /// `Ok(true)` means the program exited.
    pub fn step_on(&mut self, fd: &mut Vec<u8>) -> (r: Result<bool, MachineError>)
        requires
            old(self).wf(),
        ensures
            final(self).wf(),
            ({
                let (m2, out, res) = step_model(old(self)@);
                &&& final(self)@ == m2
                &&& final(fd)@ == old(fd)@ + out
                &&& r == res
            }),
    {
        let adr: u32 = self.registers[IP];
        if adr > 4095 {
            return Err(MachineError::OutOfMemory);
        }
        let inst: u8 = self.memory[adr as usize];
        match inst {
            1 => self.mov_if(adr, 4),
            2 => self.store(adr, 3),
            3 => self.load(adr, 3),
            4 => self.loadimm(adr, 4),
            5 => self.sub(adr, 4),
            6 => self.out(adr, 2, fd),
            7 => self.exit(adr, 1),
            8 => self.out_number(adr, 2, fd),
            _ => Err(MachineError::InexistantInstruction),
        }
    }

    /// Run until the program exits, an error happens, or `max_steps`
    /// instructions have executed. Output lands in `fd`. `Ok(true)` means
    /// the program exited; `Ok(false)` that the step budget ran out first.
    pub fn run_on(&mut self, fd: &mut Vec<u8>, max_steps: usize) -> (r: Result<bool, MachineError>)
        requires
            old(self).wf(),
        ensures
            final(self).wf(),
            ({
                let (m2, out, res) = run_model(old(self)@, max_steps as nat);
                &&& final(self)@ == m2
                &&& final(fd)@ == old(fd)@ + out
                &&& r == res
            }),
    {
        let mut steps: usize = max_steps;
        loop
            invariant
                self.wf(),
                steps <= max_steps,
                old(fd)@.is_prefix_of(fd@),
                run_model(old(self)@, max_steps as nat) == ({
                    let (m2, out, res) = run_model(self@, steps as nat);
                    (m2, fd@.skip(old(fd)@.len() as int) + out, res)
                }),
            decreases steps,
        {
            if steps == 0 {
                proof {
                    assert(fd@.skip(old(fd)@.len() as int) + Seq::<u8>::empty() =~= fd@.skip(
                        old(fd)@.len() as int,
                    ));
                    assert(old(fd)@ + fd@.skip(old(fd)@.len() as int) =~= fd@);
                }
                return Ok(false);
            }
            let ghost pre = self@;
            let ghost fd_pre = fd@;
            let step_result = self.step_on(fd);
            proof {
                let (sm, sout, sres) = step_model(pre);
                let (m2, out, res) = run_model(pre, steps as nat);
                assert(fd@ =~= fd_pre + sout);
                if sres == Ok::<bool, MachineError>(false) {
                    let (m3, out2, res2) = run_model(sm, (steps - 1) as nat);
                    assert(fd@.skip(old(fd)@.len() as int) + out2 =~= fd_pre.skip(
                        old(fd)@.len() as int,
                    ) + (sout + out2));
                } else {
                    assert(fd@.skip(old(fd)@.len() as int) =~= fd_pre.skip(old(fd)@.len() as int)
                        + sout);
                    assert(old(fd)@ + fd@.skip(old(fd)@.len() as int) =~= fd@);
                }
            }
            match step_result {
                Err(e) => {
                    return Err(e);
                },
                Ok(true) => {
                    return Ok(true);
                },
                Ok(false) => {
                    steps = steps - 1;
                },
            }
        }
    }
}

/// Append the decimal digits of `n`, most significant first.
fn push_decimal(fd: &mut Vec<u8>, n: u32)
    ensures
        final(fd)@ == old(fd)@ + dec_digits(n as nat),
    decreases n,
{
    if n >= 10 {
        push_decimal(fd, n / 10);
    }
    fd.push(48 + (n % 10) as u8);
    proof {
        if n < 10 {
            assert(final(fd)@ =~= old(fd)@ + dec_digits(n as nat));
        } else {
            assert(final(fd)@ =~= old(fd)@ + (dec_digits((n / 10) as nat) + seq![
                (48 + (n as nat) % 10) as u8,
            ]));
        }
    }
}

} // verus!

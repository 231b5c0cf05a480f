//! The instruction set: a closed family of opcode variants, each able to
//! extract its operands from a raw 16-bit word and to apply its effect to the
//! machine state, together with the decoder that maps a word to its variant.

use vstd::prelude::*;

use crate::error::EmuError;
use crate::mem::EmuState;
use crate::mem::NUM_REGISTERS;
use crate::mem::Registers;
use crate::mem::all_off;
use crate::mem::reg_written;

verus! {

/// The screen, the memory and the program image are untouched.
pub open spec fn same_env(pre: EmuState, post: EmuState) -> bool {
    &&& post.screen == pre.screen
    &&& post.ram == pre.ram
    &&& post.loaded_rom == pre.loaded_rom
}

/// Every part of the register file but the program counter is untouched.
pub open spec fn same_regs_except_ip(pre: Registers, post: Registers) -> bool {
    &&& post.variables == pre.variables
    &&& post.carry_flag == pre.carry_flag
}

/// The program counter advanced by one instruction slot, wrapping at the top
/// of the 16-bit address space.
pub open spec fn wrap_inc(ip: u16) -> u16 {
    if ip == 0xffff {
        0u16
    } else {
        (ip + 1) as u16
    }
}

/// One opcode variant: it can be constructed blank, fill its operand fields
/// from a raw 16-bit word, and apply its effect to the machine state.
///
/// Every variant conforms to the same fallible `execute` contract, even those
/// that can never fail, so the dispatcher handles all of them identically.
/// Each implementation pins its exact behaviour down in `spec_exec`.
pub trait Instruction: Sized {
    /// The freshly constructed, not-yet-extracted value.
    spec fn spec_new() -> Self;

    /// The operand fields this variant extracts from a raw word.
    spec fn spec_extract(ins: u16) -> Self;

    /// The exact relation between the machine state before and after
    /// `execute`, and the result `execute` returns.
    spec fn spec_exec(self, pre: EmuState, post: EmuState, r: Result<(), EmuError>) -> bool;

    /// Constructs the variant with blank operand fields.
    fn new() -> (r: Self)
        ensures
            r == Self::spec_new(),
    ;

    /// Fills the operand fields from the raw word `ins`.
    fn extract_data(&mut self, ins: u16)
        ensures
            *final(self) == Self::spec_extract(ins),
    ;

    /// Applies the variant's effect to the machine state, yielding success or
    /// a named failure.
    fn execute(&self, state: &mut EmuState) -> (r: Result<(), EmuError>)
        requires
            old(state).wf(),
        ensures
            final(state).wf(),
            self.spec_exec(*old(state), *final(state), r),
    ;
}

/// Clears the display plane.
#[derive(Clone, Copy, Debug, PartialEq, Eq, Structural)]
pub struct ClearScreen {}

impl Instruction for ClearScreen {
    open spec fn spec_new() -> Self {
        ClearScreen {  }
    }

    open spec fn spec_extract(ins: u16) -> Self {
        ClearScreen {  }
    }

    open spec fn spec_exec(self, pre: EmuState, post: EmuState, r: Result<(), EmuError>) -> bool {
        &&& r == Result::<(), EmuError>::Ok(())
        &&& post.screen.wf()
        &&& all_off(post.screen.pixels())
        &&& post.ram == pre.ram
        &&& post.loaded_rom == pre.loaded_rom
        &&& post.stack == pre.stack
        &&& post.registers == pre.registers
    }

    fn new() -> Self {
        ClearScreen {  }
    }

    fn extract_data(&mut self, _ins: u16) {
    }

    fn execute(&self, state: &mut EmuState) -> Result<(), EmuError> {
        state.screen.clear();
        Ok(())
    }
}

/// Pops the call stack into the program counter; fails with `StackUnderflow`
/// if the stack is empty, leaving the machine untouched.
#[derive(Clone, Copy, Debug, PartialEq, Eq, Structural)]
pub struct Return {}

impl Instruction for Return {
    open spec fn spec_new() -> Self {
        Return {  }
    }

    open spec fn spec_extract(ins: u16) -> Self {
        Return {  }
    }

    open spec fn spec_exec(self, pre: EmuState, post: EmuState, r: Result<(), EmuError>) -> bool {
        if pre.stack@.len() == 0 {
            r == Result::<(), EmuError>::Err(EmuError::StackUnderflow) && post == pre
        } else {
            &&& r == Result::<(), EmuError>::Ok(())
            &&& post.stack@ == pre.stack@.drop_last()
            &&& post.registers.instruction_pointer == pre.stack@.last()
            &&& same_regs_except_ip(pre.registers, post.registers)
            &&& same_env(pre, post)
        }
    }

    fn new() -> Self {
        Return {  }
    }

    fn extract_data(&mut self, _ins: u16) {
    }

    fn execute(&self, state: &mut EmuState) -> Result<(), EmuError> {
        if state.stack.len() == 0 {
            return Err(EmuError::StackUnderflow);
        }
        match state.stack.pop() {
            Some(return_address) => {
                state.registers.instruction_pointer = return_address;
                Ok(())
            },
            None => Err(EmuError::StackUnderflow),
        }
    }
}

/// Sets the program counter to a 12-bit address.
#[derive(Clone, Copy, Debug, PartialEq, Eq, Structural)]
pub struct Jump {
    pub address: u16,
}

impl Instruction for Jump {
    open spec fn spec_new() -> Self {
        Jump { address: 0 }
    }

    open spec fn spec_extract(ins: u16) -> Self {
        Jump { address: ins & 0x0fff }
    }

    open spec fn spec_exec(self, pre: EmuState, post: EmuState, r: Result<(), EmuError>) -> bool {
        &&& r == Result::<(), EmuError>::Ok(())
        &&& post.registers.instruction_pointer == self.address
        &&& same_regs_except_ip(pre.registers, post.registers)
        &&& post.stack == pre.stack
        &&& same_env(pre, post)
    }

    fn new() -> Self {
        Jump { address: 0 }
    }

    fn extract_data(&mut self, ins: u16) {
        self.address = ins & 0x0fff;
    }

    fn execute(&self, state: &mut EmuState) -> Result<(), EmuError> {
        state.registers.instruction_pointer = self.address;
        Ok(())
    }
}

/// Pushes the current program counter — the return site — onto the call
/// stack, then sets the program counter to a 12-bit address.
#[derive(Clone, Copy, Debug, PartialEq, Eq, Structural)]
pub struct Call {
    pub address: u16,
}

impl Instruction for Call {
    open spec fn spec_new() -> Self {
        Call { address: 0 }
    }

    open spec fn spec_extract(ins: u16) -> Self {
        Call { address: ins & 0x0fff }
    }

    open spec fn spec_exec(self, pre: EmuState, post: EmuState, r: Result<(), EmuError>) -> bool {
        &&& r == Result::<(), EmuError>::Ok(())
        &&& post.stack@ == pre.stack@.push(pre.registers.instruction_pointer)
        &&& post.registers.instruction_pointer == self.address
        &&& same_regs_except_ip(pre.registers, post.registers)
        &&& same_env(pre, post)
    }

    fn new() -> Self {
        Call { address: 0 }
    }

    fn extract_data(&mut self, ins: u16) {
        self.address = ins & 0x0fff;
    }

    fn execute(&self, state: &mut EmuState) -> Result<(), EmuError> {
        let return_site: u16 = state.registers.instruction_pointer;
        state.stack.push(return_site);
        state.registers.instruction_pointer = self.address;
        Ok(())
    }
}

/// Skips the next instruction slot if the named register's stored value
/// equals the immediate operand.
#[derive(Clone, Copy, Debug, PartialEq, Eq, Structural)]
pub struct CondEq {
    pub register_num: u8,
    pub compare: u8,
}

impl Instruction for CondEq {
    open spec fn spec_new() -> Self {
        CondEq { register_num: 0, compare: 0 }
    }

    open spec fn spec_extract(ins: u16) -> Self {
        CondEq { register_num: ((ins & 0x0f00) >> 8) as u8, compare: (ins & 0xff) as u8 }
    }

    open spec fn spec_exec(self, pre: EmuState, post: EmuState, r: Result<(), EmuError>) -> bool {
        if self.register_num < NUM_REGISTERS {
            &&& r == Result::<(), EmuError>::Ok(())
            &&& post.registers.instruction_pointer == (if pre.registers.variables@[self.register_num as int]
                == self.compare {
                wrap_inc(pre.registers.instruction_pointer)
            } else {
                pre.registers.instruction_pointer
            })
            &&& same_regs_except_ip(pre.registers, post.registers)
            &&& post.stack == pre.stack
            &&& same_env(pre, post)
        } else {
            r == Result::<(), EmuError>::Err(EmuError::RegisterIndexOutOfRange) && post == pre
        }
    }

    fn new() -> Self {
        CondEq { register_num: 0, compare: 0 }
    }

    fn extract_data(&mut self, ins: u16) {
        self.register_num = ((ins & 0x0f00) >> 8) as u8;
        self.compare = (ins & 0xff) as u8;
    }

    fn execute(&self, state: &mut EmuState) -> Result<(), EmuError> {
        let value: u8 = match state.registers.get(self.register_num) {
            Ok(v) => v,
            Err(e) => {
                return Err(e);
            },
        };
        if value == self.compare {
            let ip: u16 = state.registers.instruction_pointer;
            state.registers.instruction_pointer = if ip == 0xffff {
                0
            } else {
                ip + 1
            };
        }
        Ok(())
    }
}

/// Skips the next instruction slot if the named register's stored value
/// differs from the immediate operand.
#[derive(Clone, Copy, Debug, PartialEq, Eq, Structural)]
pub struct CondNeq {
    pub register_num: u8,
    pub compare: u8,
}

impl Instruction for CondNeq {
    open spec fn spec_new() -> Self {
        CondNeq { register_num: 0, compare: 0 }
    }

    open spec fn spec_extract(ins: u16) -> Self {
        CondNeq { register_num: ((ins & 0x0f00) >> 8) as u8, compare: (ins & 0xff) as u8 }
    }

    open spec fn spec_exec(self, pre: EmuState, post: EmuState, r: Result<(), EmuError>) -> bool {
        if self.register_num < NUM_REGISTERS {
            &&& r == Result::<(), EmuError>::Ok(())
            &&& post.registers.instruction_pointer == (if pre.registers.variables@[self.register_num as int]
                != self.compare {
                wrap_inc(pre.registers.instruction_pointer)
            } else {
                pre.registers.instruction_pointer
            })
            &&& same_regs_except_ip(pre.registers, post.registers)
            &&& post.stack == pre.stack
            &&& same_env(pre, post)
        } else {
            r == Result::<(), EmuError>::Err(EmuError::RegisterIndexOutOfRange) && post == pre
        }
    }

    fn new() -> Self {
        CondNeq { register_num: 0, compare: 0 }
    }

    fn extract_data(&mut self, ins: u16) {
        self.register_num = ((ins & 0x0f00) >> 8) as u8;
        self.compare = (ins & 0xff) as u8;
    }

    fn execute(&self, state: &mut EmuState) -> Result<(), EmuError> {
        let value: u8 = match state.registers.get(self.register_num) {
            Ok(v) => v,
            Err(e) => {
                return Err(e);
            },
        };
        if value != self.compare {
            let ip: u16 = state.registers.instruction_pointer;
            state.registers.instruction_pointer = if ip == 0xffff {
                0
            } else {
                ip + 1
            };
        }
        Ok(())
    }
}

/// Skips the next instruction slot if the two named registers hold equal
/// values.
#[derive(Clone, Copy, Debug, PartialEq, Eq, Structural)]
pub struct CondVEq {
    pub register_num1: u8,
    pub register_num2: u8,
}

impl Instruction for CondVEq {
    open spec fn spec_new() -> Self {
        CondVEq { register_num1: 0, register_num2: 0 }
    }

    open spec fn spec_extract(ins: u16) -> Self {
        CondVEq {
            register_num1: ((ins & 0x0f00) >> 8) as u8,
            register_num2: ((ins & 0xf0) >> 4) as u8,
        }
    }

    open spec fn spec_exec(self, pre: EmuState, post: EmuState, r: Result<(), EmuError>) -> bool {
        if self.register_num1 < NUM_REGISTERS && self.register_num2 < NUM_REGISTERS {
            &&& r == Result::<(), EmuError>::Ok(())
            &&& post.registers.instruction_pointer == (if pre.registers.variables@[self.register_num1 as int]
                == pre.registers.variables@[self.register_num2 as int] {
                wrap_inc(pre.registers.instruction_pointer)
            } else {
                pre.registers.instruction_pointer
            })
            &&& same_regs_except_ip(pre.registers, post.registers)
            &&& post.stack == pre.stack
            &&& same_env(pre, post)
        } else {
            r == Result::<(), EmuError>::Err(EmuError::RegisterIndexOutOfRange) && post == pre
        }
    }

    fn new() -> Self {
        CondVEq { register_num1: 0, register_num2: 0 }
    }

    fn extract_data(&mut self, ins: u16) {
        let (r1, r2) = extract_reg_nums(ins);
        self.register_num1 = r1;
        self.register_num2 = r2;
    }

    fn execute(&self, state: &mut EmuState) -> Result<(), EmuError> {
        let v1: u8 = match state.registers.get(self.register_num1) {
            Ok(v) => v,
            Err(e) => {
                return Err(e);
            },
        };
        let v2: u8 = match state.registers.get(self.register_num2) {
            Ok(v) => v,
            Err(e) => {
                return Err(e);
            },
        };
        if v1 == v2 {
            let ip: u16 = state.registers.instruction_pointer;
            state.registers.instruction_pointer = if ip == 0xffff {
                0
            } else {
                ip + 1
            };
        }
        Ok(())
    }
}

/// Overwrites the named register with the immediate operand.
#[derive(Clone, Copy, Debug, PartialEq, Eq, Structural)]
pub struct SetV {
    pub register_num: u8,
    pub value: u8,
}

impl Instruction for SetV {
    open spec fn spec_new() -> Self {
        SetV { register_num: 0, value: 0 }
    }

    open spec fn spec_extract(ins: u16) -> Self {
        SetV { register_num: ((ins & 0x0f00) >> 8) as u8, value: (ins & 0xff) as u8 }
    }

    open spec fn spec_exec(self, pre: EmuState, post: EmuState, r: Result<(), EmuError>) -> bool {
        if self.register_num < NUM_REGISTERS {
            &&& r == Result::<(), EmuError>::Ok(())
            &&& reg_written(pre.registers, post.registers, self.register_num, self.value)
            &&& post.stack == pre.stack
            &&& same_env(pre, post)
        } else {
            r == Result::<(), EmuError>::Err(EmuError::RegisterIndexOutOfRange) && post == pre
        }
    }

    fn new() -> Self {
        SetV { register_num: 0, value: 0 }
    }

    fn extract_data(&mut self, ins: u16) {
        self.register_num = ((ins & 0x0f00) >> 8) as u8;
        self.value = (ins & 0xff) as u8;
    }

    fn execute(&self, state: &mut EmuState) -> Result<(), EmuError> {
        match state.registers.set(self.register_num, self.value) {
            Ok(()) => Ok(()),
            Err(e) => Err(e),
        }
    }
}

/// Adds the immediate operand to the named register, wrapping on 8-bit
/// overflow, with no carry-flag side effect — architecturally distinct from
/// the carry-tracked register-to-register add.
#[derive(Clone, Copy, Debug, PartialEq, Eq, Structural)]
pub struct AddV {
    pub register_num: u8,
    pub value: u8,
}

impl Instruction for AddV {
    open spec fn spec_new() -> Self {
        AddV { register_num: 0, value: 0 }
    }

    open spec fn spec_extract(ins: u16) -> Self {
        AddV { register_num: ((ins & 0x0f00) >> 8) as u8, value: (ins & 0xff) as u8 }
    }

    open spec fn spec_exec(self, pre: EmuState, post: EmuState, r: Result<(), EmuError>) -> bool {
        if self.register_num < NUM_REGISTERS {
            &&& r == Result::<(), EmuError>::Ok(())
            &&& reg_written(
                pre.registers,
                post.registers,
                self.register_num,
                (((pre.registers.variables@[self.register_num as int] + self.value) % 256) as u8),
            )
            &&& post.stack == pre.stack
            &&& same_env(pre, post)
        } else {
            r == Result::<(), EmuError>::Err(EmuError::RegisterIndexOutOfRange) && post == pre
        }
    }

    fn new() -> Self {
        AddV { register_num: 0, value: 0 }
    }

    fn extract_data(&mut self, ins: u16) {
        self.register_num = ((ins & 0x0f00) >> 8) as u8;
        self.value = (ins & 0xff) as u8;
    }

    fn execute(&self, state: &mut EmuState) -> Result<(), EmuError> {
        let cur: u8 = match state.registers.get(self.register_num) {
            Ok(v) => v,
            Err(e) => {
                return Err(e);
            },
        };
        let sum: u16 = (cur as u16) + (self.value as u16);
        let wrapped: u8 = (sum % 256) as u8;
        match state.registers.set(self.register_num, wrapped) {
            Ok(()) => Ok(()),
            Err(e) => Err(e),
        }
    }
}

/// Splits a word's two middle nibbles into the (dest, src) register indices.
fn extract_reg_nums(ins: u16) -> (r: (u8, u8))
    ensures
        r.0 == ((ins & 0x0f00) >> 8) as u8,
        r.1 == ((ins & 0xf0) >> 4) as u8,
{
    (((ins & 0x0f00) >> 8) as u8, ((ins & 0xf0) >> 4) as u8)
}

/// Copies the source register into the destination register.
#[derive(Clone, Copy, Debug, PartialEq, Eq, Structural)]
pub struct VSetV {
    pub register_num1: u8,
    pub register_num2: u8,
}

impl Instruction for VSetV {
    open spec fn spec_new() -> Self {
        VSetV { register_num1: 0, register_num2: 0 }
    }

    open spec fn spec_extract(ins: u16) -> Self {
        VSetV {
            register_num1: ((ins & 0x0f00) >> 8) as u8,
            register_num2: ((ins & 0xf0) >> 4) as u8,
        }
    }

    open spec fn spec_exec(self, pre: EmuState, post: EmuState, r: Result<(), EmuError>) -> bool {
        if self.register_num1 < NUM_REGISTERS && self.register_num2 < NUM_REGISTERS {
            &&& r == Result::<(), EmuError>::Ok(())
            &&& reg_written(
                pre.registers,
                post.registers,
                self.register_num1,
                pre.registers.variables@[self.register_num2 as int],
            )
            &&& post.stack == pre.stack
            &&& same_env(pre, post)
        } else {
            r == Result::<(), EmuError>::Err(EmuError::RegisterIndexOutOfRange) && post == pre
        }
    }

    fn new() -> Self {
        VSetV { register_num1: 0, register_num2: 0 }
    }

    fn extract_data(&mut self, ins: u16) {
        let (r1, r2) = extract_reg_nums(ins);
        self.register_num1 = r1;
        self.register_num2 = r2;
    }

    fn execute(&self, state: &mut EmuState) -> Result<(), EmuError> {
        state.registers.copy(self.register_num1, self.register_num2)
    }
}

/// Bitwise-ORs the source register into the destination register; the carry
/// flag is never touched.
#[derive(Clone, Copy, Debug, PartialEq, Eq, Structural)]
pub struct VOrV {
    pub register_num1: u8,
    pub register_num2: u8,
}

impl Instruction for VOrV {
    open spec fn spec_new() -> Self {
        VOrV { register_num1: 0, register_num2: 0 }
    }

    open spec fn spec_extract(ins: u16) -> Self {
        VOrV {
            register_num1: ((ins & 0x0f00) >> 8) as u8,
            register_num2: ((ins & 0xf0) >> 4) as u8,
        }
    }

    open spec fn spec_exec(self, pre: EmuState, post: EmuState, r: Result<(), EmuError>) -> bool {
        if self.register_num1 < NUM_REGISTERS && self.register_num2 < NUM_REGISTERS {
            &&& r == Result::<(), EmuError>::Ok(())
            &&& reg_written(
                pre.registers,
                post.registers,
                self.register_num1,
                pre.registers.variables@[self.register_num1 as int] | pre.registers.variables@[self.register_num2 as int],
            )
            &&& post.stack == pre.stack
            &&& same_env(pre, post)
        } else {
            r == Result::<(), EmuError>::Err(EmuError::RegisterIndexOutOfRange) && post == pre
        }
    }

    fn new() -> Self {
        VOrV { register_num1: 0, register_num2: 0 }
    }

    fn extract_data(&mut self, ins: u16) {
        let (r1, r2) = extract_reg_nums(ins);
        self.register_num1 = r1;
        self.register_num2 = r2;
    }

    fn execute(&self, state: &mut EmuState) -> Result<(), EmuError> {
        state.registers.or(self.register_num1, self.register_num2)
    }
}

/// Bitwise-ANDs the source register into the destination register; the carry
/// flag is never touched.
#[derive(Clone, Copy, Debug, PartialEq, Eq, Structural)]
pub struct VAndV {
    pub register_num1: u8,
    pub register_num2: u8,
}

impl Instruction for VAndV {
    open spec fn spec_new() -> Self {
        VAndV { register_num1: 0, register_num2: 0 }
    }

    open spec fn spec_extract(ins: u16) -> Self {
        VAndV {
            register_num1: ((ins & 0x0f00) >> 8) as u8,
            register_num2: ((ins & 0xf0) >> 4) as u8,
        }
    }

    open spec fn spec_exec(self, pre: EmuState, post: EmuState, r: Result<(), EmuError>) -> bool {
        if self.register_num1 < NUM_REGISTERS && self.register_num2 < NUM_REGISTERS {
            &&& r == Result::<(), EmuError>::Ok(())
            &&& reg_written(
                pre.registers,
                post.registers,
                self.register_num1,
                pre.registers.variables@[self.register_num1 as int] & pre.registers.variables@[self.register_num2 as int],
            )
            &&& post.stack == pre.stack
            &&& same_env(pre, post)
        } else {
            r == Result::<(), EmuError>::Err(EmuError::RegisterIndexOutOfRange) && post == pre
        }
    }

    fn new() -> Self {
        VAndV { register_num1: 0, register_num2: 0 }
    }

    fn extract_data(&mut self, ins: u16) {
        let (r1, r2) = extract_reg_nums(ins);
        self.register_num1 = r1;
        self.register_num2 = r2;
    }

    fn execute(&self, state: &mut EmuState) -> Result<(), EmuError> {
        state.registers.and(self.register_num1, self.register_num2)
    }
}

/// Bitwise-XORs the source register into the destination register; the carry
/// flag is never touched.
#[derive(Clone, Copy, Debug, PartialEq, Eq, Structural)]
pub struct VXorV {
    pub register_num1: u8,
    pub register_num2: u8,
}

impl Instruction for VXorV {
    open spec fn spec_new() -> Self {
        VXorV { register_num1: 0, register_num2: 0 }
    }

    open spec fn spec_extract(ins: u16) -> Self {
        VXorV {
            register_num1: ((ins & 0x0f00) >> 8) as u8,
            register_num2: ((ins & 0xf0) >> 4) as u8,
        }
    }

    open spec fn spec_exec(self, pre: EmuState, post: EmuState, r: Result<(), EmuError>) -> bool {
        if self.register_num1 < NUM_REGISTERS && self.register_num2 < NUM_REGISTERS {
            &&& r == Result::<(), EmuError>::Ok(())
            &&& reg_written(
                pre.registers,
                post.registers,
                self.register_num1,
                pre.registers.variables@[self.register_num1 as int] ^ pre.registers.variables@[self.register_num2 as int],
            )
            &&& post.stack == pre.stack
            &&& same_env(pre, post)
        } else {
            r == Result::<(), EmuError>::Err(EmuError::RegisterIndexOutOfRange) && post == pre
        }
    }

    fn new() -> Self {
        VXorV { register_num1: 0, register_num2: 0 }
    }

    fn extract_data(&mut self, ins: u16) {
        let (r1, r2) = extract_reg_nums(ins);
        self.register_num1 = r1;
        self.register_num2 = r2;
    }

    fn execute(&self, state: &mut EmuState) -> Result<(), EmuError> {
        state.registers.xor(self.register_num1, self.register_num2)
    }
}

/// Adds the source register into the destination register with carry
/// tracking: the stored result wraps at 8 bits and the carry flag records
/// whether the true sum exceeded 255.
#[derive(Clone, Copy, Debug, PartialEq, Eq, Structural)]
pub struct VAddV {
    pub register_num1: u8,
    pub register_num2: u8,
}

impl Instruction for VAddV {
    open spec fn spec_new() -> Self {
        VAddV { register_num1: 0, register_num2: 0 }
    }

    open spec fn spec_extract(ins: u16) -> Self {
        VAddV {
            register_num1: ((ins & 0x0f00) >> 8) as u8,
            register_num2: ((ins & 0xf0) >> 4) as u8,
        }
    }

    open spec fn spec_exec(self, pre: EmuState, post: EmuState, r: Result<(), EmuError>) -> bool {
        if self.register_num1 < NUM_REGISTERS && self.register_num2 < NUM_REGISTERS {
            let lhs = pre.registers.variables@[self.register_num1 as int];
            let rhs = pre.registers.variables@[self.register_num2 as int];
            &&& r == Result::<(), EmuError>::Ok(())
            &&& post.registers.variables@ == pre.registers.variables@.update(
                self.register_num1 as int,
                (((lhs + rhs) % 256) as u8),
            )
            &&& post.registers.carry_flag == (lhs + rhs > 255)
            &&& post.registers.instruction_pointer == pre.registers.instruction_pointer
            &&& post.stack == pre.stack
            &&& same_env(pre, post)
        } else {
            r == Result::<(), EmuError>::Err(EmuError::RegisterIndexOutOfRange) && post == pre
        }
    }

    fn new() -> Self {
        VAddV { register_num1: 0, register_num2: 0 }
    }

    fn extract_data(&mut self, ins: u16) {
        let (r1, r2) = extract_reg_nums(ins);
        self.register_num1 = r1;
        self.register_num2 = r2;
    }

    fn execute(&self, state: &mut EmuState) -> Result<(), EmuError> {
        let lhs: u8 = match state.registers.get(self.register_num1) {
            Ok(v) => v,
            Err(e) => {
                return Err(e);
            },
        };
        let rhs: u8 = match state.registers.get(self.register_num2) {
            Ok(v) => v,
            Err(e) => {
                return Err(e);
            },
        };
        let sum: u8 = state.registers.carry_add(lhs, rhs);
        match state.registers.set(self.register_num1, sum) {
            Ok(()) => Ok(()),
            Err(e) => Err(e),
        }
    }
}

/// Subtracts the source register from the destination register with borrow
/// tracking: the stored result wraps at 8 bits and the carry/borrow flag
/// records whether the subtraction borrowed.
#[derive(Clone, Copy, Debug, PartialEq, Eq, Structural)]
pub struct VMinV {
    pub register_num1: u8,
    pub register_num2: u8,
}

impl Instruction for VMinV {
    open spec fn spec_new() -> Self {
        VMinV { register_num1: 0, register_num2: 0 }
    }

    open spec fn spec_extract(ins: u16) -> Self {
        VMinV {
            register_num1: ((ins & 0x0f00) >> 8) as u8,
            register_num2: ((ins & 0xf0) >> 4) as u8,
        }
    }

    open spec fn spec_exec(self, pre: EmuState, post: EmuState, r: Result<(), EmuError>) -> bool {
        if self.register_num1 < NUM_REGISTERS && self.register_num2 < NUM_REGISTERS {
            let lhs = pre.registers.variables@[self.register_num1 as int];
            let rhs = pre.registers.variables@[self.register_num2 as int];
            &&& r == Result::<(), EmuError>::Ok(())
            &&& post.registers.variables@ == pre.registers.variables@.update(
                self.register_num1 as int,
                (((lhs - rhs + 256) % 256) as u8),
            )
            &&& post.registers.carry_flag == (lhs < rhs)
            &&& post.registers.instruction_pointer == pre.registers.instruction_pointer
            &&& post.stack == pre.stack
            &&& same_env(pre, post)
        } else {
            r == Result::<(), EmuError>::Err(EmuError::RegisterIndexOutOfRange) && post == pre
        }
    }

    fn new() -> Self {
        VMinV { register_num1: 0, register_num2: 0 }
    }

    fn extract_data(&mut self, ins: u16) {
        let (r1, r2) = extract_reg_nums(ins);
        self.register_num1 = r1;
        self.register_num2 = r2;
    }

    fn execute(&self, state: &mut EmuState) -> Result<(), EmuError> {
        let lhs: u8 = match state.registers.get(self.register_num1) {
            Ok(v) => v,
            Err(e) => {
                return Err(e);
            },
        };
        let rhs: u8 = match state.registers.get(self.register_num2) {
            Ok(v) => v,
            Err(e) => {
                return Err(e);
            },
        };
        let diff: u8 = state.registers.borrow_sub(lhs, rhs);
        match state.registers.set(self.register_num1, diff) {
            Ok(()) => Ok(()),
            Err(e) => Err(e),
        }
    }
}

/// A raw word decoded to one constructed, operand-filled instruction
/// variant.
#[derive(Clone, Copy, Debug, PartialEq, Eq, Structural)]
pub enum Decoded {
    ClearScreen(ClearScreen),
    Return(Return),
    Jump(Jump),
    Call(Call),
    CondEq(CondEq),
    CondNeq(CondNeq),
    CondVEq(CondVEq),
    SetV(SetV),
    AddV(AddV),
    VSetV(VSetV),
    VOrV(VOrV),
    VAndV(VAndV),
    VXorV(VXorV),
    VAddV(VAddV),
    VMinV(VMinV),
}

/// The opcode table: the instruction family is the highest 4 bits of the
/// word; where one family encodes several instructions, the lowest nibble
/// discriminates. Any word outside the table is an unimplemented opcode.
///
/// - `0x00e0` clear screen, `0x00ee` return
/// - `0x1nnn` jump, `0x2nnn` call
/// - `0x3xkk` skip if equal, `0x4xkk` skip if not equal, `0x5xy0` skip if
///   registers equal
/// - `0x6xkk` set immediate, `0x7xkk` add immediate
/// - `0x8xy0` copy, `0x8xy1` or, `0x8xy2` and, `0x8xy3` xor, `0x8xy4` add
///   with carry, `0x8xy5` subtract with borrow
pub open spec fn spec_decode(ins: u16) -> Result<Decoded, EmuError> {
    if ins == 0x00e0 {
        Result::Ok(Decoded::ClearScreen(ClearScreen::spec_extract(ins)))
    } else if ins == 0x00ee {
        Result::Ok(Decoded::Return(Return::spec_extract(ins)))
    } else if ins >> 12 == 0x1 {
        Result::Ok(Decoded::Jump(Jump::spec_extract(ins)))
    } else if ins >> 12 == 0x2 {
        Result::Ok(Decoded::Call(Call::spec_extract(ins)))
    } else if ins >> 12 == 0x3 {
        Result::Ok(Decoded::CondEq(CondEq::spec_extract(ins)))
    } else if ins >> 12 == 0x4 {
        Result::Ok(Decoded::CondNeq(CondNeq::spec_extract(ins)))
    } else if ins >> 12 == 0x5 && ins & 0xf == 0x0 {
        Result::Ok(Decoded::CondVEq(CondVEq::spec_extract(ins)))
    } else if ins >> 12 == 0x6 {
        Result::Ok(Decoded::SetV(SetV::spec_extract(ins)))
    } else if ins >> 12 == 0x7 {
        Result::Ok(Decoded::AddV(AddV::spec_extract(ins)))
    } else if ins >> 12 == 0x8 && ins & 0xf == 0x0 {
        Result::Ok(Decoded::VSetV(VSetV::spec_extract(ins)))
    } else if ins >> 12 == 0x8 && ins & 0xf == 0x1 {
        Result::Ok(Decoded::VOrV(VOrV::spec_extract(ins)))
    } else if ins >> 12 == 0x8 && ins & 0xf == 0x2 {
        Result::Ok(Decoded::VAndV(VAndV::spec_extract(ins)))
    } else if ins >> 12 == 0x8 && ins & 0xf == 0x3 {
        Result::Ok(Decoded::VXorV(VXorV::spec_extract(ins)))
    } else if ins >> 12 == 0x8 && ins & 0xf == 0x4 {
        Result::Ok(Decoded::VAddV(VAddV::spec_extract(ins)))
    } else if ins >> 12 == 0x8 && ins & 0xf == 0x5 {
        Result::Ok(Decoded::VMinV(VMinV::spec_extract(ins)))
    } else {
        Result::Err(EmuError::UnimplementedOpcode(ins))
    }
}

/// Maps a raw 16-bit word to its constructed instruction variant, exactly by
/// the documented opcode table; a word outside the table yields
/// `UnimplementedOpcode` carrying the raw word.
pub fn decode(ins: u16) -> (r: Result<Decoded, EmuError>)
    ensures
        r == spec_decode(ins),
{
    let family: u16 = ins >> 12;
    let low: u16 = ins & 0xf;
    if ins == 0x00e0 {
        let mut i = ClearScreen::new();
        i.extract_data(ins);
        Ok(Decoded::ClearScreen(i))
    } else if ins == 0x00ee {
        let mut i = Return::new();
        i.extract_data(ins);
        Ok(Decoded::Return(i))
    } else if family == 0x1 {
        let mut i = Jump::new();
        i.extract_data(ins);
        Ok(Decoded::Jump(i))
    } else if family == 0x2 {
        let mut i = Call::new();
        i.extract_data(ins);
        Ok(Decoded::Call(i))
    } else if family == 0x3 {
        let mut i = CondEq::new();
        i.extract_data(ins);
        Ok(Decoded::CondEq(i))
    } else if family == 0x4 {
        let mut i = CondNeq::new();
        i.extract_data(ins);
        Ok(Decoded::CondNeq(i))
    } else if family == 0x5 && low == 0x0 {
        let mut i = CondVEq::new();
        i.extract_data(ins);
        Ok(Decoded::CondVEq(i))
    } else if family == 0x6 {
        let mut i = SetV::new();
        i.extract_data(ins);
        Ok(Decoded::SetV(i))
    } else if family == 0x7 {
        let mut i = AddV::new();
        i.extract_data(ins);
        Ok(Decoded::AddV(i))
    } else if family == 0x8 && low == 0x0 {
        let mut i = VSetV::new();
        i.extract_data(ins);
        Ok(Decoded::VSetV(i))
    } else if family == 0x8 && low == 0x1 {
        let mut i = VOrV::new();
        i.extract_data(ins);
        Ok(Decoded::VOrV(i))
    } else if family == 0x8 && low == 0x2 {
        let mut i = VAndV::new();
        i.extract_data(ins);
        Ok(Decoded::VAndV(i))
    } else if family == 0x8 && low == 0x3 {
        let mut i = VXorV::new();
        i.extract_data(ins);
        Ok(Decoded::VXorV(i))
    } else if family == 0x8 && low == 0x4 {
        let mut i = VAddV::new();
        i.extract_data(ins);
        Ok(Decoded::VAddV(i))
    } else if family == 0x8 && low == 0x5 {
        let mut i = VMinV::new();
        i.extract_data(ins);
        Ok(Decoded::VMinV(i))
    } else {
        Err(EmuError::UnimplementedOpcode(ins))
    }
}

/// `(pre, post, r)` is the exact observable behaviour of executing the
/// decoded variant `d`.
pub open spec fn decoded_exec(d: Decoded, pre: EmuState, post: EmuState, r: Result<
    (),
    EmuError,
>) -> bool {
    match d {
        Decoded::ClearScreen(i) => i.spec_exec(pre, post, r),
        Decoded::Return(i) => i.spec_exec(pre, post, r),
        Decoded::Jump(i) => i.spec_exec(pre, post, r),
        Decoded::Call(i) => i.spec_exec(pre, post, r),
        Decoded::CondEq(i) => i.spec_exec(pre, post, r),
        Decoded::CondNeq(i) => i.spec_exec(pre, post, r),
        Decoded::CondVEq(i) => i.spec_exec(pre, post, r),
        Decoded::SetV(i) => i.spec_exec(pre, post, r),
        Decoded::AddV(i) => i.spec_exec(pre, post, r),
        Decoded::VSetV(i) => i.spec_exec(pre, post, r),
        Decoded::VOrV(i) => i.spec_exec(pre, post, r),
        Decoded::VAndV(i) => i.spec_exec(pre, post, r),
        Decoded::VXorV(i) => i.spec_exec(pre, post, r),
        Decoded::VAddV(i) => i.spec_exec(pre, post, r),
        Decoded::VMinV(i) => i.spec_exec(pre, post, r),
    }
}

/// What `dispatch` guarantees: the word decodes per the opcode table and the
/// decoded variant's exact effect happened; a word outside the table is
/// reported and changes nothing.
pub open spec fn dispatch_post(ins: u16, pre: EmuState, post: EmuState, r: Result<
    (),
    EmuError,
>) -> bool {
    match spec_decode(ins) {
        Result::Ok(d) => decoded_exec(d, pre, post, r),
        Result::Err(e) => r == Result::<(), EmuError>::Err(e) && post == pre,
    }
}

/// Register indices extracted from an instruction word are always within the
/// register file: a single nibble is below sixteen.
pub proof fn lemma_extracted_regs_in_range(ins: u16)
    ensures
        (((ins & 0x0f00) >> 8) as u8) < NUM_REGISTERS,
        (((ins & 0xf0) >> 4) as u8) < NUM_REGISTERS,
{
    assert(((ins & 0x0f00) >> 8) < 16 && ((ins & 0xf0) >> 4) < 16) by (bit_vector);
}

/// Decodes one word and executes it against the machine state.
///
/// Success is owed for every word of the opcode table with one exception, a
/// return on an empty call stack; a word outside the table fails with
/// `UnimplementedOpcode` and changes nothing.
pub fn dispatch(ins: u16, state: &mut EmuState) -> (r: Result<(), EmuError>)
    requires
        old(state).wf(),
    ensures
        final(state).wf(),
        dispatch_post(ins, *old(state), *final(state), r),
        (r is Ok) <==> (spec_decode(ins) is Ok && !(spec_decode(ins)
            matches Result::Ok(Decoded::Return(_)) && old(state).stack@.len() == 0)),
{
    proof {
        lemma_extracted_regs_in_range(ins);
    }
    let d: Decoded = match decode(ins) {
        Ok(d) => d,
        Err(e) => {
            return Err(e);
        },
    };
    match d {
        Decoded::ClearScreen(i) => i.execute(state),
        Decoded::Return(i) => i.execute(state),
        Decoded::Jump(i) => i.execute(state),
        Decoded::Call(i) => i.execute(state),
        Decoded::CondEq(i) => i.execute(state),
        Decoded::CondNeq(i) => i.execute(state),
        Decoded::CondVEq(i) => i.execute(state),
        Decoded::SetV(i) => i.execute(state),
        Decoded::AddV(i) => i.execute(state),
        Decoded::VSetV(i) => i.execute(state),
        Decoded::VOrV(i) => i.execute(state),
        Decoded::VAndV(i) => i.execute(state),
        Decoded::VXorV(i) => i.execute(state),
        Decoded::VAddV(i) => i.execute(state),
        Decoded::VMinV(i) => i.execute(state),
    }
}

/// Call/Return round-trip: a call pushes exactly one entry — the return
/// site — onto the call stack, and a subsequent return succeeds, pops that
/// entry, and restores the program counter to the pushed value.
pub proof fn lemma_call_return_round_trip(
    address: u16,
    pre: EmuState,
    mid: EmuState,
    post: EmuState,
    r: Result<(), EmuError>,
)
    requires
        (Call { address }).spec_exec(pre, mid, Result::<(), EmuError>::Ok(())),
        (Return {  }).spec_exec(mid, post, r),
    ensures
        mid.stack@.len() == pre.stack@.len() + 1,
        r == Result::<(), EmuError>::Ok(()),
        post.registers.instruction_pointer == pre.registers.instruction_pointer,
        post.stack@ == pre.stack@,
{
    assert(mid.stack@ == pre.stack@.push(pre.registers.instruction_pointer));
    assert(post.stack@ =~= pre.stack@);
}

/// A return with an empty call stack yields `StackUnderflow` and does not
/// mutate the program counter — nor anything else of the machine state.
pub proof fn lemma_return_on_empty_stack(pre: EmuState, post: EmuState, r: Result<(), EmuError>)
    requires
        pre.stack@.len() == 0,
        (Return {  }).spec_exec(pre, post, r),
    ensures
        r == Result::<(), EmuError>::Err(EmuError::StackUnderflow),
        post == pre,
{
}

} // verus!


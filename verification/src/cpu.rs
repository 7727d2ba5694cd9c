use vstd::prelude::*;

use crate::chip8::FONT_START;
use crate::display::{
    blank_screen, blit_row, row_collides, row_visible, Display, DisplayDriver, DisplayView,
};
use crate::error::Chip8Error;
use crate::instructions::Instruction;
use crate::keyboard::{Keyboard, KeyboardView};
use crate::memory::{word_at, write_bytes_spec, Memory, MEMORY_SIZE};

verus! {

broadcast use crate::memory::lemma_memory_len;

/// A 16-bit memory address or address-sized register value.
pub type Address = u16;

/// A register index (only the low nibble, 0 through 15, is ever produced by
/// the decoder).
pub type Register = u8;

/// An 8-bit data value.
pub type Value = u8;

/// Depth bound of the call stack; one more nested call is a fatal
/// stack-overflow error.
pub const STACK_LIMIT: usize = 16;

/// Ghost image of the CPU: the sixteen 8-bit registers, the 16-bit index
/// register, the two countdown timers, the program counter and the call
/// stack (bottom of the stack first).
pub struct CpuView {
    pub v_registers: Seq<u8>,
    pub i_register: u16,
    pub delay_timer: u8,
    pub sound_timer: u8,
    pub program_counter: u16,
    pub stack: Seq<u16>,
}

/// The CPU: registers, program counter, call stack and timers, driving the
/// fetch-decode-execute cycle over Memory, Display and Keyboard.
pub struct Cpu {
    v_registers: [Value; 16],
    i_register: Address,
    delay_timer: Value,
    sound_timer: Value,
    program_counter: Address,
    stack: Vec<Address>,
}

impl View for Cpu {
    type V = CpuView;

    closed spec fn view(&self) -> CpuView {
        CpuView {
            v_registers: self.v_registers@,
            i_register: self.i_register,
            delay_timer: self.delay_timer,
            sound_timer: self.sound_timer,
            program_counter: self.program_counter,
            stack: self.stack@,
        }
    }
}

/// Whether every register index carried by the instruction is a real
/// register: the decoder only ever produces indices below 16.
pub open spec fn wf_instruction(instruction: Instruction) -> bool {
    match instruction {
        Instruction::ClearScreen => true,
        Instruction::Return => true,
        Instruction::Jump(_) => true,
        Instruction::Call(_) => true,
        Instruction::CheckEqualValue(x, _) => x < 16,
        Instruction::CheckNotEqualValue(x, _) => x < 16,
        Instruction::CheckEqual(x, y) => x < 16 && y < 16,
        Instruction::SetRegisterToValue(x, _) => x < 16,
        Instruction::AddValueToRegister(x, _) => x < 16,
        Instruction::SetRegister(x, y) => x < 16 && y < 16,
        Instruction::Or(x, y) => x < 16 && y < 16,
        Instruction::And(x, y) => x < 16 && y < 16,
        Instruction::Xor(x, y) => x < 16 && y < 16,
        Instruction::Add(x, y) => x < 16 && y < 16,
        Instruction::Subtract { destination, first, second } => destination < 16 && first < 16
            && second < 16,
        Instruction::ShiftRight(x) => x < 16,
        Instruction::ShiftLeft(x) => x < 16,
        Instruction::CheckNotEqual(x, y) => x < 16 && y < 16,
        Instruction::SetIndex(_) => true,
        Instruction::Random(x, _) => x < 16,
        Instruction::Display { vx, vy, pixel_height: _ } => vx < 16 && vy < 16,
        Instruction::SkipIfKeyPressed(x) => x < 16,
        Instruction::SkipIfKeyNotPressed(x) => x < 16,
        Instruction::ReadDelayTimer(x) => x < 16,
        Instruction::WriteDelayTimer(x) => x < 16,
        Instruction::WriteSoundTimer(x) => x < 16,
        Instruction::AddRegisterToIndex(x) => x < 16,
        Instruction::WaitForKeyPress(x) => x < 16,
        Instruction::SetIndexToSprite(x) => x < 16,
        Instruction::StoreBCD(x) => x < 16,
        Instruction::StoreRegisters(x) => x < 16,
        Instruction::LoadRegisters(x) => x < 16,
    }
}

/// The display after XOR-blitting the first `rows` sprite rows, read from
/// memory at the index register, at screen start `(x, y)`. Each drawn row
/// marks the grid dirty and accumulates collisions; a row clipped at the
/// wrap boundary below `y` leaves the display as it was.
pub open spec fn draw_rows_spec(
    disp: DisplayView,
    mem: Seq<u8>,
    i_register: u16,
    x: u8,
    y: u8,
    rows: int,
) -> DisplayView
    decreases rows,
{
    if rows <= 0 {
        disp
    } else {
        let prev = draw_rows_spec(disp, mem, i_register, x, y, rows - 1);
        let row = rows - 1;
        let yy = y.saturating_add(row as u8);
        let bits = mem[i_register + row];
        if row_visible(yy, y) {
            DisplayView {
                screen: blit_row(prev.screen, x, yy, bits),
                dirty: true,
                collision: prev.collision || row_collides(prev.screen, x, yy, bits),
            }
        } else {
            prev
        }
    }
}

/// What executing one decoded instruction does, given the machine state
/// just after the fetch (program counter already advanced past the
/// instruction) and the byte the random source produced for this cycle.
/// `Ok` carries the new CPU, memory and display; `Err` is a fatal error,
/// and the caller then leaves the machine unchanged.
///
/// Block-until-key-release waits by rewinding the program counter so the
/// same instruction is fetched again; a release signal with no recorded
/// key (the host released a key that was never pressed down) keeps the
/// machine waiting rather than handing a register a made-up key.
pub open spec fn execute_spec(
    cpu: CpuView,
    mem: Seq<u8>,
    disp: DisplayView,
    kbd: KeyboardView,
    instruction: Instruction,
    random_byte: u8,
) -> Result<(CpuView, Seq<u8>, DisplayView), Chip8Error> {
    match instruction {
        Instruction::ClearScreen => Ok(
            (
                cpu,
                mem,
                DisplayView { screen: blank_screen(), dirty: true, collision: disp.collision },
            ),
        ),
        Instruction::Return => {
            if cpu.stack.len() == 0 {
                Err(Chip8Error::StackUnderflow)
            } else {
                Ok(
                    (
                        CpuView {
                            program_counter: cpu.stack.last(),
                            stack: cpu.stack.drop_last(),
                            ..cpu
                        },
                        mem,
                        disp,
                    ),
                )
            }
        },
        Instruction::Jump(address) => Ok((CpuView { program_counter: address, ..cpu }, mem, disp)),
        Instruction::Call(address) => {
            if cpu.stack.len() >= STACK_LIMIT {
                Err(Chip8Error::StackOverflow)
            } else {
                Ok(
                    (
                        CpuView {
                            program_counter: address,
                            stack: cpu.stack.push(cpu.program_counter),
                            ..cpu
                        },
                        mem,
                        disp,
                    ),
                )
            }
        },
        Instruction::CheckEqualValue(x, value) => {
            let pc = if cpu.v_registers[x as int] == value {
                (cpu.program_counter + 2) as u16
            } else {
                cpu.program_counter
            };
            Ok((CpuView { program_counter: pc, ..cpu }, mem, disp))
        },
        Instruction::CheckNotEqualValue(x, value) => {
            let pc = if cpu.v_registers[x as int] != value {
                (cpu.program_counter + 2) as u16
            } else {
                cpu.program_counter
            };
            Ok((CpuView { program_counter: pc, ..cpu }, mem, disp))
        },
        Instruction::CheckEqual(x, y) => {
            let pc = if cpu.v_registers[x as int] == cpu.v_registers[y as int] {
                (cpu.program_counter + 2) as u16
            } else {
                cpu.program_counter
            };
            Ok((CpuView { program_counter: pc, ..cpu }, mem, disp))
        },
        Instruction::CheckNotEqual(x, y) => {
            let pc = if cpu.v_registers[x as int] != cpu.v_registers[y as int] {
                (cpu.program_counter + 2) as u16
            } else {
                cpu.program_counter
            };
            Ok((CpuView { program_counter: pc, ..cpu }, mem, disp))
        },
        Instruction::SetRegisterToValue(x, value) => Ok(
            (CpuView { v_registers: cpu.v_registers.update(x as int, value), ..cpu }, mem, disp),
        ),
        Instruction::AddValueToRegister(x, value) => Ok(
            (
                CpuView {
                    v_registers: cpu.v_registers.update(
                        x as int,
                        cpu.v_registers[x as int].wrapping_add(value),
                    ),
                    ..cpu
                },
                mem,
                disp,
            ),
        ),
        Instruction::SetRegister(x, y) => Ok(
            (
                CpuView {
                    v_registers: cpu.v_registers.update(x as int, cpu.v_registers[y as int]),
                    ..cpu
                },
                mem,
                disp,
            ),
        ),
        Instruction::Or(x, y) => Ok(
            (
                CpuView {
                    v_registers: cpu.v_registers.update(
                        x as int,
                        cpu.v_registers[x as int] | cpu.v_registers[y as int],
                    ),
                    ..cpu
                },
                mem,
                disp,
            ),
        ),
        Instruction::And(x, y) => Ok(
            (
                CpuView {
                    v_registers: cpu.v_registers.update(
                        x as int,
                        cpu.v_registers[x as int] & cpu.v_registers[y as int],
                    ),
                    ..cpu
                },
                mem,
                disp,
            ),
        ),
        Instruction::Xor(x, y) => Ok(
            (
                CpuView {
                    v_registers: cpu.v_registers.update(
                        x as int,
                        cpu.v_registers[x as int] ^ cpu.v_registers[y as int],
                    ),
                    ..cpu
                },
                mem,
                disp,
            ),
        ),
        Instruction::Add(x, y) => {
            let sum = cpu.v_registers[x as int] + cpu.v_registers[y as int];
            let value = if sum < 256 {
                sum as u8
            } else {
                (sum - 256) as u8
            };
            let carry: u8 = if sum >= 256 {
                1
            } else {
                0
            };
            Ok(
                (
                    CpuView {
                        v_registers: cpu.v_registers.update(x as int, value).update(15, carry),
                        ..cpu
                    },
                    mem,
                    disp,
                ),
            )
        },
        Instruction::Subtract { destination, first, second } => {
            let a = cpu.v_registers[first as int];
            let b = cpu.v_registers[second as int];
            let value = if a >= b {
                (a - b) as u8
            } else {
                (a - b + 256) as u8
            };
            let no_borrow: u8 = if a >= b {
                1
            } else {
                0
            };
            Ok(
                (
                    CpuView {
                        v_registers: cpu.v_registers.update(destination as int, value).update(
                            15,
                            no_borrow,
                        ),
                        ..cpu
                    },
                    mem,
                    disp,
                ),
            )
        },
        Instruction::ShiftLeft(x) => {
            let v0 = cpu.v_registers[x as int];
            let lost: u8 = if v0 >= 128 {
                1
            } else {
                0
            };
            let value = if v0 < 128 {
                (v0 * 2) as u8
            } else {
                (v0 * 2 - 256) as u8
            };
            Ok(
                (
                    CpuView {
                        v_registers: cpu.v_registers.update(x as int, value).update(15, lost),
                        ..cpu
                    },
                    mem,
                    disp,
                ),
            )
        },
        Instruction::ShiftRight(x) => {
            let v0 = cpu.v_registers[x as int];
            let lost: u8 = (v0 % 2) as u8;
            let value = (v0 / 2) as u8;
            Ok(
                (
                    CpuView {
                        v_registers: cpu.v_registers.update(x as int, value).update(15, lost),
                        ..cpu
                    },
                    mem,
                    disp,
                ),
            )
        },
        Instruction::SetIndex(address) => Ok(
            (CpuView { i_register: address, ..cpu }, mem, disp),
        ),
        Instruction::Random(x, value) => Ok(
            (
                CpuView {
                    v_registers: cpu.v_registers.update(x as int, random_byte & value),
                    ..cpu
                },
                mem,
                disp,
            ),
        ),
        Instruction::Display { vx, vy, pixel_height } => {
            let x = cpu.v_registers[vx as int];
            let y = cpu.v_registers[vy as int];
            if pixel_height > 0 && cpu.i_register + pixel_height > MEMORY_SIZE {
                Err(Chip8Error::OutOfBounds { address: cpu.i_register })
            } else {
                let drawn = draw_rows_spec(
                    DisplayView { collision: false, ..disp },
                    mem,
                    cpu.i_register,
                    x,
                    y,
                    pixel_height as int,
                );
                let flag: u8 = if drawn.collision {
                    1
                } else {
                    0
                };
                Ok(
                    (
                        CpuView { v_registers: cpu.v_registers.update(15, flag), ..cpu },
                        mem,
                        drawn,
                    ),
                )
            }
        },
        Instruction::SkipIfKeyPressed(x) => {
            let pc = if kbd.key_pressed == Some(cpu.v_registers[x as int]) {
                (cpu.program_counter + 2) as u16
            } else {
                cpu.program_counter
            };
            Ok((CpuView { program_counter: pc, ..cpu }, mem, disp))
        },
        Instruction::SkipIfKeyNotPressed(x) => {
            let pc = if kbd.key_pressed != Some(cpu.v_registers[x as int]) {
                (cpu.program_counter + 2) as u16
            } else {
                cpu.program_counter
            };
            Ok((CpuView { program_counter: pc, ..cpu }, mem, disp))
        },
        Instruction::ReadDelayTimer(x) => Ok(
            (
                CpuView { v_registers: cpu.v_registers.update(x as int, cpu.delay_timer), ..cpu },
                mem,
                disp,
            ),
        ),
        Instruction::WriteDelayTimer(x) => Ok(
            (CpuView { delay_timer: cpu.v_registers[x as int], ..cpu }, mem, disp),
        ),
        Instruction::WriteSoundTimer(x) => Ok(
            (CpuView { sound_timer: cpu.v_registers[x as int], ..cpu }, mem, disp),
        ),
        Instruction::AddRegisterToIndex(x) => {
            let index = cpu.i_register.wrapping_add(cpu.v_registers[x as int] as u16);
            let v = if index > 0xFFF {
                cpu.v_registers.update(15, 1u8)
            } else {
                cpu.v_registers
            };
            Ok((CpuView { i_register: index, v_registers: v, ..cpu }, mem, disp))
        },
        Instruction::WaitForKeyPress(x) => {
            if kbd.signal_key_pressed && kbd.key_last_pressed is Some {
                Ok(
                    (
                        CpuView {
                            v_registers: cpu.v_registers.update(
                                x as int,
                                kbd.key_last_pressed->Some_0,
                            ),
                            ..cpu
                        },
                        mem,
                        disp,
                    ),
                )
            } else {
                Ok(
                    (
                        CpuView { program_counter: (cpu.program_counter - 2) as u16, ..cpu },
                        mem,
                        disp,
                    ),
                )
            }
        },
        Instruction::SetIndexToSprite(x) => Ok(
            (
                CpuView {
                    i_register: (FONT_START + cpu.v_registers[x as int] * 5) as u16,
                    ..cpu
                },
                mem,
                disp,
            ),
        ),
        Instruction::StoreBCD(x) => {
            let value = cpu.v_registers[x as int];
            if cpu.i_register + 2 >= MEMORY_SIZE {
                Err(Chip8Error::OutOfBounds { address: cpu.i_register })
            } else {
                let i = cpu.i_register as int;
                Ok(
                    (
                        cpu,
                        mem.update(i, (value / 100) as u8).update(
                            i + 1,
                            ((value % 100) / 10) as u8,
                        ).update(i + 2, (value % 10) as u8),
                        disp,
                    ),
                )
            }
        },
        Instruction::StoreRegisters(x) => {
            if cpu.i_register + x >= MEMORY_SIZE {
                Err(Chip8Error::OutOfBounds { address: cpu.i_register })
            } else {
                Ok(
                    (
                        cpu,
                        write_bytes_spec(
                            mem,
                            cpu.i_register as int,
                            cpu.v_registers.subrange(0, x as int + 1),
                        ),
                        disp,
                    ),
                )
            }
        },
        Instruction::LoadRegisters(x) => {
            if cpu.i_register + x >= MEMORY_SIZE {
                Err(Chip8Error::OutOfBounds { address: cpu.i_register })
            } else {
                let v = Seq::new(
                    16,
                    |j: int|
                        if 0 <= j <= x {
                            mem[cpu.i_register + j]
                        } else {
                            cpu.v_registers[j]
                        },
                );
                Ok((CpuView { v_registers: v, ..cpu }, mem, disp))
            }
        },
    }
}

/// One whole cycle on the ghost state: fetch the word at the program
/// counter, decode it, advance the program counter past it, then execute,
/// with `random_byte` standing for whatever the random source produced.
pub open spec fn step_spec(
    cpu: CpuView,
    mem: Seq<u8>,
    disp: DisplayView,
    kbd: KeyboardView,
    random_byte: u8,
) -> Result<(CpuView, Seq<u8>, DisplayView), Chip8Error> {
    if cpu.program_counter + 1 >= MEMORY_SIZE {
        Err(Chip8Error::OutOfBounds { address: cpu.program_counter })
    } else {
        let opcode = word_at(mem, cpu.program_counter as int);
        match Instruction::decode_spec(opcode) {
            None => Err(
                Chip8Error::UnknownOpcode { address: cpu.program_counter, opcode },
            ),
            Some(instruction) => execute_spec(
                CpuView { program_counter: (cpu.program_counter + 2) as u16, ..cpu },
                mem,
                disp,
                kbd,
                instruction,
                random_byte,
            ),
        }
    }
}

/// Blocking until a key release: when the word at the program counter
/// decodes to the block-until-key-release instruction and no release is
/// recorded, a step leaves the whole machine unchanged, so the very same
/// instruction is fetched again next cycle; once a release signal and a
/// released key are recorded, the program counter moves past the
/// instruction and the register receives that key.
pub proof fn lemma_wait_for_key(
    cpu: CpuView,
    mem: Seq<u8>,
    disp: DisplayView,
    kbd: KeyboardView,
    random_byte: u8,
    x: u8,
)
    requires
        cpu.program_counter + 1 < MEMORY_SIZE,
        Instruction::decode_spec(word_at(mem, cpu.program_counter as int)) == Some(
            Instruction::WaitForKeyPress(x),
        ),
    ensures
        !(kbd.signal_key_pressed && kbd.key_last_pressed is Some) ==> step_spec(
            cpu,
            mem,
            disp,
            kbd,
            random_byte,
        ) == Ok::<_, Chip8Error>((cpu, mem, disp)),
        kbd.signal_key_pressed && kbd.key_last_pressed is Some ==> step_spec(
            cpu,
            mem,
            disp,
            kbd,
            random_byte,
        ) == Ok::<_, Chip8Error>(
            (
                CpuView {
                    program_counter: (cpu.program_counter + 2) as u16,
                    v_registers: cpu.v_registers.update(x as int, kbd.key_last_pressed->Some_0),
                    ..cpu
                },
                mem,
                disp,
            ),
        ),
{
}

/// Relies on rand::random: one byte from the thread-local generator.
/// Nothing is promised of its value; callers state what holds of every
/// outcome.
#[verifier::external_body]
fn random_byte() -> u8 {
    rand::random::<u8>()
}

impl Cpu {
    /// A fresh CPU: registers, index, timers and stack all cleared, program
    /// counter at `memory_start`.
    pub fn new(memory_start: Address) -> (c: Cpu)
        ensures
            c@.v_registers == Seq::new(16, |j: int| 0u8),
            c@.i_register == 0,
            c@.delay_timer == 0,
            c@.sound_timer == 0,
            c@.program_counter == memory_start,
            c@.stack == Seq::<u16>::empty(),
    {
        let c = Cpu {
            v_registers: [0; 16],
            i_register: 0,
            delay_timer: 0,
            sound_timer: 0,
            program_counter: memory_start,
            stack: Vec::new(),
        };
        proof {
            assert(c@.v_registers =~= Seq::new(16, |j: int| 0u8));
            assert(c@.stack =~= Seq::<u16>::empty());
        }
        c
    }

    /// The index register.
    pub fn i_register(&self) -> (r: Address)
        ensures
            r == self@.i_register,
    {
        self.i_register
    }

    /// The sixteen general-purpose registers.
    pub fn v_registers(&self) -> (r: &[Value; 16])
        ensures
            r@ == self@.v_registers,
    {
        &self.v_registers
    }

    /// The program counter.
    pub fn program_counter(&self) -> (r: Address)
        ensures
            r == self@.program_counter,
    {
        self.program_counter
    }

    /// Runs one fetch-decode-execute cycle against the given peripherals.
    /// On success the machine moves exactly as `step_spec` says for some
    /// byte of the random source; on a fatal error nothing is changed, so
    /// the reported error describes the very state the machine halted in.
    pub fn cycle<DisplayDriverT: DisplayDriver>(
        &mut self,
        memory: &mut Memory,
        display: &mut Display<DisplayDriverT>,
        keyboard: &Keyboard,
    ) -> (r: Result<(), Chip8Error>)
        ensures
            r is Ok ==> (exists|b: u8|
                step_spec(old(self)@, old(memory)@, old(display)@, keyboard@, b) == Ok::<
                    _,
                    Chip8Error,
                >((final(self)@, final(memory)@, final(display)@))),
            r matches Err(e) ==> (forall|b: u8|
                step_spec(old(self)@, old(memory)@, old(display)@, keyboard@, b) == Err::<
                    (CpuView, Seq<u8>, DisplayView),
                    _,
                >(e)),
            r is Err ==> final(self)@ == old(self)@ && final(memory)@ == old(memory)@
                && final(display)@ == old(display)@,
    {
        let opcode = match memory.read_word(self.program_counter) {
            Ok(word) => word,
            Err(e) => {
                return Err(e);
            },
        };
        let instruction = match Instruction::decode(opcode) {
            Some(instruction) => instruction,
            None => {
                return Err(
                    Chip8Error::UnknownOpcode { address: self.program_counter, opcode },
                );
            },
        };
        self.program_counter = self.program_counter + 2;
        let byte = random_byte();
        match self.execute(instruction, byte, memory, display, keyboard) {
            Ok(()) => {
                proof {
                    assert(step_spec(old(self)@, old(memory)@, old(display)@, keyboard@, byte)
                        == Ok::<_, Chip8Error>((self@, memory@, display@)));
                }
                Ok(())
            },
            Err(e) => {
                self.program_counter = self.program_counter - 2;
                Err(e)
            },
        }
    }

    /// Executes one already-decoded instruction, with the program counter
    /// already advanced past it and `random_byte` standing in for the
    /// random source. Deterministic: the outcome is exactly
    /// `execute_spec`, and on an error nothing is changed.
    #[verifier::rlimit(100)]
    pub fn execute<DisplayDriverT: DisplayDriver>(
        &mut self,
        instruction: Instruction,
        random_byte: u8,
        memory: &mut Memory,
        display: &mut Display<DisplayDriverT>,
        keyboard: &Keyboard,
    ) -> (r: Result<(), Chip8Error>)
        requires
            wf_instruction(instruction),
            2 <= old(self)@.program_counter <= MEMORY_SIZE,
        ensures
            (match execute_spec(
                old(self)@,
                old(memory)@,
                old(display)@,
                keyboard@,
                instruction,
                random_byte,
            ) {
                Ok(post) => r == Ok::<(), Chip8Error>(()) && final(self)@ == post.0
                    && final(memory)@ == post.1 && final(display)@ == post.2,
                Err(e) => r == Err::<(), Chip8Error>(e) && final(self)@ == old(self)@
                    && final(memory)@ == old(memory)@ && final(display)@ == old(display)@,
            }),
    {
        match instruction {
            Instruction::ClearScreen => {
                display.clear();
                Ok(())
            },
            Instruction::Return => {
                match self.stack.pop() {
                    Some(address) => {
                        self.program_counter = address;
                        Ok(())
                    },
                    None => Err(Chip8Error::StackUnderflow),
                }
            },
            Instruction::Jump(address) => {
                self.program_counter = address;
                Ok(())
            },
            Instruction::Call(address) => {
                if self.stack.len() >= STACK_LIMIT {
                    Err(Chip8Error::StackOverflow)
                } else {
                    self.stack.push(self.program_counter);
                    self.program_counter = address;
                    Ok(())
                }
            },
            Instruction::CheckEqualValue(x, value) => {
                if self.v_registers[x as usize] == value {
                    self.program_counter = self.program_counter + 2;
                }
                Ok(())
            },
            Instruction::CheckNotEqualValue(x, value) => {
                if self.v_registers[x as usize] != value {
                    self.program_counter = self.program_counter + 2;
                }
                Ok(())
            },
            Instruction::CheckEqual(x, y) => {
                if self.v_registers[x as usize] == self.v_registers[y as usize] {
                    self.program_counter = self.program_counter + 2;
                }
                Ok(())
            },
            Instruction::CheckNotEqual(x, y) => {
                if self.v_registers[x as usize] != self.v_registers[y as usize] {
                    self.program_counter = self.program_counter + 2;
                }
                Ok(())
            },
            Instruction::SetRegisterToValue(x, value) => {
                self.v_registers[x as usize] = value;
                Ok(())
            },
            Instruction::AddValueToRegister(x, value) => {
                self.v_registers[x as usize] = self.v_registers[x as usize].wrapping_add(value);
                Ok(())
            },
            Instruction::SetRegister(x, y) => {
                self.v_registers[x as usize] = self.v_registers[y as usize];
                Ok(())
            },
            Instruction::Or(x, y) => {
                self.v_registers[x as usize] = self.v_registers[x as usize] | self.v_registers[y
                    as usize];
                Ok(())
            },
            Instruction::And(x, y) => {
                self.v_registers[x as usize] = self.v_registers[x as usize] & self.v_registers[y
                    as usize];
                Ok(())
            },
            Instruction::Xor(x, y) => {
                self.v_registers[x as usize] = self.v_registers[x as usize] ^ self.v_registers[y
                    as usize];
                Ok(())
            },
            Instruction::Add(x, y) => {
                let sum: u16 = self.v_registers[x as usize] as u16 + self.v_registers[y as usize]
                    as u16;
                let value: u8 = (sum % 256) as u8;
                let carry: u8 = if sum >= 256 {
                    1
                } else {
                    0
                };
                self.v_registers[x as usize] = value;
                self.v_registers[15] = carry;
                Ok(())
            },
            Instruction::Subtract { destination, first, second } => {
                let a = self.v_registers[first as usize];
                let b = self.v_registers[second as usize];
                let value: u8 = if a >= b {
                    a - b
                } else {
                    ((a as u16 + 256) - b as u16) as u8
                };
                let no_borrow: u8 = if a >= b {
                    1
                } else {
                    0
                };
                self.v_registers[destination as usize] = value;
                self.v_registers[15] = no_borrow;
                Ok(())
            },
            Instruction::ShiftLeft(x) => {
                let v0 = self.v_registers[x as usize];
                let lost: u8 = (v0 >> 7u8) & 0x1;
                let value: u8 = v0 << 1u8;
                proof {
                    assert(lost == (if v0 >= 128 {
                        1u8
                    } else {
                        0u8
                    })) by (bit_vector)
                        requires
                            lost == (v0 >> 7u8) & 0x1,
                    ;
                    assert(value == (if v0 < 128 {
                        (v0 * 2) as u8
                    } else {
                        (v0 * 2 - 256) as u8
                    })) by (bit_vector)
                        requires
                            value == v0 << 1u8,
                    ;
                }
                self.v_registers[x as usize] = value;
                self.v_registers[15] = lost;
                Ok(())
            },
            Instruction::ShiftRight(x) => {
                let v0 = self.v_registers[x as usize];
                let lost: u8 = v0 & 0x01;
                let value: u8 = v0 >> 1u8;
                proof {
                    assert(lost == v0 % 2) by (bit_vector)
                        requires
                            lost == v0 & 0x01,
                    ;
                    assert(value == v0 / 2) by (bit_vector)
                        requires
                            value == v0 >> 1u8,
                    ;
                }
                self.v_registers[x as usize] = value;
                self.v_registers[15] = lost;
                Ok(())
            },
            Instruction::SetIndex(address) => {
                self.i_register = address;
                Ok(())
            },
            Instruction::Random(x, value) => {
                self.v_registers[x as usize] = random_byte & value;
                Ok(())
            },
            Instruction::Display { vx, vy, pixel_height } => {
                let x = self.v_registers[vx as usize];
                let y = self.v_registers[vy as usize];
                if pixel_height > 0 && (self.i_register as usize) + (pixel_height as usize)
                    > MEMORY_SIZE {
                    return Err(Chip8Error::OutOfBounds { address: self.i_register });
                }
                display.begin_draw();
                let ghost start = DisplayView { collision: false, ..old(display)@ };
                let mut row: usize = 0;
                while row < pixel_height as usize
                    invariant
                        row <= pixel_height as usize,
                        pixel_height > 0 ==> self@.i_register + pixel_height <= MEMORY_SIZE,
                        self@ == old(self)@,
                        memory@ == old(memory)@,
                        x == old(self)@.v_registers[vx as int],
                        y == old(self)@.v_registers[vy as int],
                        display@ == draw_rows_spec(
                            start,
                            memory@,
                            self@.i_register,
                            x,
                            y,
                            row as int,
                        ),
                    decreases pixel_height as usize - row,
                {
                    let address: u16 = self.i_register + row as u16;
                    let bits: u8 = match memory.read_byte(address) {
                        Ok(b) => b,
                        Err(_) => {
                            proof {
                                assert(false);
                            }
                            0
                        },
                    };
                    let row_y: u8 = y.saturating_add(row as u8);
                    display.set_pixels(x, row_y, bits, y);
                    row = row + 1;
                }
                let flag: u8 = if display.did_collide() {
                    1
                } else {
                    0
                };
                self.v_registers[15] = flag;
                Ok(())
            },
            Instruction::SkipIfKeyPressed(x) => {
                if keyboard.is_key_pressed(self.v_registers[x as usize]) {
                    self.program_counter = self.program_counter + 2;
                }
                Ok(())
            },
            Instruction::SkipIfKeyNotPressed(x) => {
                if !keyboard.is_key_pressed(self.v_registers[x as usize]) {
                    self.program_counter = self.program_counter + 2;
                }
                Ok(())
            },
            Instruction::ReadDelayTimer(x) => {
                self.v_registers[x as usize] = self.delay_timer;
                Ok(())
            },
            Instruction::WriteDelayTimer(x) => {
                self.delay_timer = self.v_registers[x as usize];
                Ok(())
            },
            Instruction::WriteSoundTimer(x) => {
                self.sound_timer = self.v_registers[x as usize];
                Ok(())
            },
            Instruction::AddRegisterToIndex(x) => {
                let value = self.v_registers[x as usize];
                self.i_register = self.i_register.wrapping_add(value as u16);
                if self.i_register > 0xFFF {
                    self.v_registers[15] = 1;
                }
                Ok(())
            },
            Instruction::WaitForKeyPress(x) => {
                if keyboard.has_signal_keypress() {
                    match keyboard.key_last_pressed() {
                        Some(key) => {
                            self.v_registers[x as usize] = key;
                        },
                        None => {
                            self.program_counter = self.program_counter - 2;
                        },
                    }
                } else {
                    self.program_counter = self.program_counter - 2;
                }
                Ok(())
            },
            Instruction::SetIndexToSprite(x) => {
                let value = self.v_registers[x as usize];
                self.i_register = FONT_START + (value as u16) * 5;
                Ok(())
            },
            Instruction::StoreBCD(x) => {
                let value = self.v_registers[x as usize];
                if (self.i_register as usize) + 2 >= MEMORY_SIZE {
                    return Err(Chip8Error::OutOfBounds { address: self.i_register });
                }
                let hundreds: u8 = value / 100;
                let tens: u8 = (value % 100) / 10;
                let ones: u8 = value % 10;
                match memory.write_byte(self.i_register, hundreds) {
                    Ok(()) => (),
                    Err(_) => {
                        proof {
                            assert(false);
                        }
                    },
                }
                match memory.write_byte(self.i_register + 1, tens) {
                    Ok(()) => (),
                    Err(_) => {
                        proof {
                            assert(false);
                        }
                    },
                }
                match memory.write_byte(self.i_register + 2, ones) {
                    Ok(()) => (),
                    Err(_) => {
                        proof {
                            assert(false);
                        }
                    },
                }
                Ok(())
            },
            Instruction::StoreRegisters(x) => {
                if (self.i_register as usize) + (x as usize) >= MEMORY_SIZE {
                    return Err(Chip8Error::OutOfBounds { address: self.i_register });
                }
                let count: usize = x as usize + 1;
                let mut k: usize = 0;
                while k < count
                    invariant
                        k <= count,
                        count == x as usize + 1,
                        x < 16,
                        self@ == old(self)@,
                        self@.i_register + x < MEMORY_SIZE,
                        memory@.len() == MEMORY_SIZE,
                        memory@ == write_bytes_spec(
                            old(memory)@,
                            self@.i_register as int,
                            self@.v_registers.subrange(0, k as int),
                        ),
                    decreases count - k,
                {
                    let address: u16 = self.i_register + k as u16;
                    match memory.write_byte(address, self.v_registers[k]) {
                        Ok(()) => (),
                        Err(_) => {
                            proof {
                                assert(false);
                            }
                        },
                    }
                    proof {
                        assert(memory@ =~= write_bytes_spec(
                            old(memory)@,
                            self@.i_register as int,
                            self@.v_registers.subrange(0, k as int + 1),
                        ));
                    }
                    k = k + 1;
                }
                proof {
                    assert(self@.v_registers.subrange(0, count as int) =~= self@
                        .v_registers.subrange(0, x as int + 1));
                }
                Ok(())
            },
            Instruction::LoadRegisters(x) => {
                if (self.i_register as usize) + (x as usize) >= MEMORY_SIZE {
                    return Err(Chip8Error::OutOfBounds { address: self.i_register });
                }
                let count: usize = x as usize + 1;
                let mut k: usize = 0;
                while k < count
                    invariant
                        k <= count,
                        count == x as usize + 1,
                        x < 16,
                        memory@ == old(memory)@,
                        self@.i_register == old(self)@.i_register,
                        self@.delay_timer == old(self)@.delay_timer,
                        self@.sound_timer == old(self)@.sound_timer,
                        self@.program_counter == old(self)@.program_counter,
                        self@.stack == old(self)@.stack,
                        self@.i_register + x < MEMORY_SIZE,
                        self@.v_registers =~= Seq::new(
                            16,
                            |j: int|
                                if 0 <= j < k {
                                    old(memory)@[old(self)@.i_register + j]
                                } else {
                                    old(self)@.v_registers[j]
                                },
                        ),
                    decreases count - k,
                {
                    let address: u16 = self.i_register + k as u16;
                    let value: u8 = match memory.read_byte(address) {
                        Ok(b) => b,
                        Err(_) => {
                            proof {
                                assert(false);
                            }
                            0
                        },
                    };
                    self.v_registers[k] = value;
                    proof {
                        assert(self@.v_registers =~= Seq::new(
                            16,
                            |j: int|
                                if 0 <= j < k + 1 {
                                    old(memory)@[old(self)@.i_register + j]
                                } else {
                                    old(self)@.v_registers[j]
                                },
                        ));
                    }
                    k = k + 1;
                }
                proof {
                    assert(self@.v_registers =~= Seq::new(
                        16,
                        |j: int|
                            if 0 <= j <= x {
                                old(memory)@[old(self)@.i_register + j]
                            } else {
                                old(self)@.v_registers[j]
                            },
                    ));
                }
                Ok(())
            },
        }
    }

    /// Decrements each countdown timer by one, clamping at zero: timers
    /// never wrap below zero.
    pub fn timer_cycle(&mut self)
        ensures
            final(self)@ == (CpuView {
                delay_timer: if old(self)@.delay_timer > 0 {
                    (old(self)@.delay_timer - 1) as u8
                } else {
                    0
                },
                sound_timer: if old(self)@.sound_timer > 0 {
                    (old(self)@.sound_timer - 1) as u8
                } else {
                    0
                },
                ..old(self)@
            }),
    {
        self.delay_timer = self.delay_timer.saturating_sub(1);
        self.sound_timer = self.sound_timer.saturating_sub(1);
    }
}

} // verus!

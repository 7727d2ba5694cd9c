use vstd::prelude::*;

use crate::cpu::{step_spec, Cpu, CpuView};
use crate::display::{blank_screen, Display, DisplayDriver, DisplayView};
use crate::error::Chip8Error;
use crate::keyboard::{Keyboard, KeyboardView};
use crate::memory::{write_bytes_spec, Memory, MEMORY_SIZE};

verus! {

/// Address where programs are loaded and where execution starts.
pub const PROGRAM_START: u16 = 0x200;

/// Address where the built-in font table is loaded.
pub const FONT_START: u16 = 0x050;

/// Ghost image of the whole machine.
pub struct Chip8View {
    pub memory: Seq<u8>,
    pub cpu: CpuView,
    pub display: DisplayView,
    pub keyboard: KeyboardView,
}

/// The composition root: one memory, one CPU, one display, one keyboard.
/// The host loop drives it through `precycle`, `cycle` and `timer_cycle`
/// and forwards key events through `key_down` and `key_up`.
pub struct Chip8<DisplayDriverT: DisplayDriver> {
    memory: Memory,
    cpu: Cpu,
    display: Display<DisplayDriverT>,
    keyboard: Keyboard,
}

impl<DisplayDriverT: DisplayDriver> View for Chip8<DisplayDriverT> {
    type V = Chip8View;

    closed spec fn view(&self) -> Chip8View {
        Chip8View {
            memory: self.memory@,
            cpu: self.cpu@,
            display: self.display@,
            keyboard: self.keyboard@,
        }
    }
}

/// The built-in font table: sixteen glyphs of five rows each, the
/// hexadecimal digits 0 through F.
pub open spec fn font_data() -> Seq<u8> {
    seq![
        0xF0u8, 0x90, 0x90, 0x90, 0xF0,
        0x20, 0x60, 0x20, 0x20, 0x70,
        0xF0, 0x10, 0xF0, 0x80, 0xF0,
        0xF0, 0x10, 0xF0, 0x10, 0xF0,
        0x90, 0x90, 0xF0, 0x10, 0x10,
        0xF0, 0x80, 0xF0, 0x10, 0xF0,
        0xF0, 0x80, 0xF0, 0x90, 0xF0,
        0xF0, 0x10, 0x20, 0x40, 0x40,
        0xF0, 0x90, 0xF0, 0x90, 0xF0,
        0xF0, 0x90, 0xF0, 0x10, 0xF0,
        0xF0, 0x90, 0xF0, 0x90, 0x90,
        0xE0, 0x90, 0xE0, 0x90, 0xE0,
        0xF0, 0x80, 0x80, 0x80, 0xF0,
        0xE0, 0x90, 0x90, 0x90, 0xE0,
        0xF0, 0x80, 0xF0, 0x80, 0xF0,
        0xF0, 0x80, 0xF0, 0x80, 0x80,
    ]
}

/// One whole host-visible cycle on the ghost machine: the CPU step of
/// `step_spec`, after which the renderer is handed any owed frame, so the
/// display's dirty flag is clear.
pub open spec fn machine_step_spec(s: Chip8View, random_byte: u8) -> Result<
    Chip8View,
    Chip8Error,
> {
    match step_spec(s.cpu, s.memory, s.display, s.keyboard, random_byte) {
        Ok(t) => Ok(
            Chip8View {
                cpu: t.0,
                memory: t.1,
                display: DisplayView { dirty: false, ..t.2 },
                keyboard: s.keyboard,
            },
        ),
        Err(e) => Err(e),
    }
}

impl<DisplayDriverT: DisplayDriver> Chip8<DisplayDriverT> {
    /// A fresh machine: zeroed memory, cleared CPU with the program counter
    /// at `PROGRAM_START`, a blank display owing its first frame, and an
    /// idle keyboard.
    pub fn new(display_driver: DisplayDriverT) -> (s: Chip8<DisplayDriverT>)
        ensures
            s@.memory.len() == MEMORY_SIZE,
            forall|j: int| 0 <= j < MEMORY_SIZE ==> s@.memory[j] == 0u8,
            s@.cpu.v_registers == Seq::new(16, |j: int| 0u8),
            s@.cpu.i_register == 0,
            s@.cpu.delay_timer == 0,
            s@.cpu.sound_timer == 0,
            s@.cpu.program_counter == PROGRAM_START,
            s@.cpu.stack == Seq::<u16>::empty(),
            s@.display == (DisplayView { screen: blank_screen(), dirty: true, collision: false }),
            s@.keyboard.key_pressed == Option::<u8>::None,
            s@.keyboard.key_last_pressed == Option::<u8>::None,
            !s@.keyboard.signal_key_pressed,
    {
        Chip8 {
            memory: Memory::new(),
            cpu: Cpu::new(PROGRAM_START),
            display: Display::new(display_driver),
            keyboard: Keyboard::new(),
        }
    }

    /// Installs the font table at `FONT_START`; the rest of the machine is
    /// untouched. Must run before a program uses the font-glyph
    /// instruction.
    pub fn load_default_font(&mut self)
        ensures
            final(self)@ == (Chip8View {
                memory: write_bytes_spec(old(self)@.memory, FONT_START as int, font_data()),
                ..old(self)@
            }),
    {
        let font: [u8; 80] = [
            0xF0, 0x90, 0x90, 0x90, 0xF0,
            0x20, 0x60, 0x20, 0x20, 0x70,
            0xF0, 0x10, 0xF0, 0x80, 0xF0,
            0xF0, 0x10, 0xF0, 0x10, 0xF0,
            0x90, 0x90, 0xF0, 0x10, 0x10,
            0xF0, 0x80, 0xF0, 0x10, 0xF0,
            0xF0, 0x80, 0xF0, 0x90, 0xF0,
            0xF0, 0x10, 0x20, 0x40, 0x40,
            0xF0, 0x90, 0xF0, 0x90, 0xF0,
            0xF0, 0x90, 0xF0, 0x10, 0xF0,
            0xF0, 0x90, 0xF0, 0x90, 0x90,
            0xE0, 0x90, 0xE0, 0x90, 0xE0,
            0xF0, 0x80, 0x80, 0x80, 0xF0,
            0xE0, 0x90, 0x90, 0x90, 0xE0,
            0xF0, 0x80, 0xF0, 0x80, 0xF0,
            0xF0, 0x80, 0xF0, 0x80, 0x80,
        ];
        proof {
            assert(font@ =~= font_data());
        }
        match self.memory.write_bytes(FONT_START, &font) {
            Ok(()) => (),
            Err(_) => {
                proof {
                    assert(false);
                }
            },
        }
    }

    /// Copies a program image into memory starting at `PROGRAM_START`;
    /// rejects an image that would run past the end of memory and then
    /// changes nothing.
    pub fn load_rom(&mut self, data: &[u8]) -> (r: Result<(), Chip8Error>)
        ensures
            PROGRAM_START + data@.len() <= MEMORY_SIZE ==> r == Ok::<(), Chip8Error>(())
                && final(self)@ == (Chip8View {
                memory: write_bytes_spec(old(self)@.memory, PROGRAM_START as int, data@),
                ..old(self)@
            }),
            PROGRAM_START + data@.len() > MEMORY_SIZE ==> r == Err::<(), Chip8Error>(
                Chip8Error::OutOfBounds { address: PROGRAM_START },
            ) && final(self)@ == old(self)@,
    {
        self.memory.write_bytes(PROGRAM_START, data)
    }

    /// Host housekeeping before polling events: clears the keyboard's
    /// one-shot release signal.
    pub fn precycle(&mut self)
        ensures
            final(self)@ == (Chip8View {
                keyboard: KeyboardView { signal_key_pressed: false, ..old(self)@.keyboard },
                ..old(self)@
            }),
    {
        self.keyboard.clear_signals();
    }

    /// Runs one CPU cycle and then hands the renderer any owed frame. On
    /// success the machine moves exactly as `machine_step_spec` says for
    /// some byte of the random source; a fatal error leaves the machine
    /// exactly as it was.
    pub fn cycle(&mut self) -> (r: Result<(), Chip8Error>)
        ensures
            r is Ok ==> (exists|b: u8|
                machine_step_spec(old(self)@, b) == Ok::<Chip8View, Chip8Error>(final(self)@)),
            r matches Err(e) ==> (forall|b: u8|
                machine_step_spec(old(self)@, b) == Err::<Chip8View, Chip8Error>(e)),
            r is Err ==> final(self)@ == old(self)@,
    {
        match self.cpu.cycle(&mut self.memory, &mut self.display, &self.keyboard) {
            Ok(()) => {
                let ghost b = choose|b: u8|
                    step_spec(
                        old(self)@.cpu,
                        old(self)@.memory,
                        old(self)@.display,
                        old(self)@.keyboard,
                        b,
                    ) == Ok::<_, Chip8Error>((self.cpu@, self.memory@, self.display@));
                let ghost mid = self.display@;
                self.display.draw_if_dirty();
                proof {
                    assert(self.display@ == (DisplayView { dirty: false, ..mid }));
                    assert(machine_step_spec(old(self)@, b) == Ok::<Chip8View, Chip8Error>(
                        self@,
                    ));
                }
                Ok(())
            },
            Err(e) => Err(e),
        }
    }

    /// Read access to the CPU for inspection by the host.
    pub fn cpu(&self) -> (r: &Cpu)
        ensures
            r@ == self@.cpu,
    {
        &self.cpu
    }

    /// Decrements the two countdown timers, clamping at zero; driven by the
    /// host at its own fixed rate, independent of `cycle`.
    pub fn timer_cycle(&mut self)
        ensures
            final(self)@ == (Chip8View {
                cpu: CpuView {
                    delay_timer: if old(self)@.cpu.delay_timer > 0 {
                        (old(self)@.cpu.delay_timer - 1) as u8
                    } else {
                        0
                    },
                    sound_timer: if old(self)@.cpu.sound_timer > 0 {
                        (old(self)@.cpu.sound_timer - 1) as u8
                    } else {
                        0
                    },
                    ..old(self)@.cpu
                },
                ..old(self)@
            }),
    {
        self.cpu.timer_cycle();
    }

    /// Forwards a host key-press event to the keyboard.
    pub fn key_down(&mut self, key: u8)
        ensures
            final(self)@ == (Chip8View {
                keyboard: KeyboardView { key_pressed: Some(key), ..old(self)@.keyboard },
                ..old(self)@
            }),
    {
        self.keyboard.key_down(key);
    }

    /// Forwards a host key-release event to the keyboard.
    pub fn key_up(&mut self)
        ensures
            final(self)@ == (Chip8View {
                keyboard: KeyboardView {
                    key_pressed: None,
                    key_last_pressed: old(self)@.keyboard.key_pressed,
                    signal_key_pressed: true,
                },
                ..old(self)@
            }),
    {
        self.keyboard.key_up();
    }
}

} // verus!

use vstd::prelude::*;

verus! {

/// Ghost image of the keyboard state: the key currently held (at most one,
/// last-key-wins), the key most recently released, and the one-shot
/// "a key was released since the last `clear_signals`" signal.
pub struct KeyboardView {
    pub key_pressed: Option<u8>,
    pub key_last_pressed: Option<u8>,
    pub signal_key_pressed: bool,
}

/// Edge-triggered key-state machine. The host forwards `key_down`/`key_up`
/// events and calls `clear_signals` once per cycle; the CPU reads the state
/// through the three query operations.
pub struct Keyboard {
    key_pressed: Option<u8>,
    key_last_pressed: Option<u8>,
    signal_key_pressed: bool,
}

impl View for Keyboard {
    type V = KeyboardView;

    closed spec fn view(&self) -> KeyboardView {
        KeyboardView {
            key_pressed: self.key_pressed,
            key_last_pressed: self.key_last_pressed,
            signal_key_pressed: self.signal_key_pressed,
        }
    }
}

impl Keyboard {
    /// No key held, none released yet, no pending signal.
    pub fn new() -> (k: Keyboard)
        ensures
            k@.key_pressed == Option::<u8>::None,
            k@.key_last_pressed == Option::<u8>::None,
            !k@.signal_key_pressed,
    {
        Keyboard { key_pressed: None, key_last_pressed: None, signal_key_pressed: false }
    }

    /// Clears only the one-shot release signal; the last-released key and
    /// the currently-held key are kept.
    pub fn clear_signals(&mut self)
        ensures
            final(self)@ == (KeyboardView { signal_key_pressed: false, ..old(self)@ }),
    {
        self.signal_key_pressed = false;
    }

    /// Marks `key` as the key currently held, whatever was held before.
    pub fn key_down(&mut self, key: u8)
        ensures
            final(self)@ == (KeyboardView { key_pressed: Some(key), ..old(self)@ }),
    {
        self.key_pressed = Some(key);
    }

    /// Releases the held key: records it as last released, raises the
    /// one-shot release signal, and leaves no key held.
    pub fn key_up(&mut self)
        ensures
            final(self)@ == (KeyboardView {
                key_pressed: None,
                key_last_pressed: old(self)@.key_pressed,
                signal_key_pressed: true,
            }),
    {
        self.signal_key_pressed = true;
        self.key_last_pressed = self.key_pressed;
        self.key_pressed = None
    }

    /// The key most recently released, if any key was ever released.
    pub fn key_last_pressed(&self) -> (r: Option<u8>)
        ensures
            r == self@.key_last_pressed,
    {
        self.key_last_pressed
    }

    /// True iff a key was released since the last `clear_signals`.
    pub fn has_signal_keypress(&self) -> (r: bool)
        ensures
            r == self@.signal_key_pressed,
    {
        self.signal_key_pressed
    }

    /// True iff `key` is the key currently held.
    pub fn is_key_pressed(&self, key: u8) -> (r: bool)
        ensures
            r == (self@.key_pressed == Some(key)),
    {
        self.key_pressed == Some(key)
    }
}

} // verus!

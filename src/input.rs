use vstd::prelude::*;

verus! {

/// The modifier keys held while a key was pressed.
#[derive(Clone, Copy, Debug, PartialEq, Eq, Structural)]
pub struct KeyModifiers {
    pub shift: bool,
    pub control: bool,
    pub alt: bool,
    pub super_key: bool,
    pub hyper: bool,
    pub meta: bool,
}

/// The key that was pressed. Only characters matter to the editor; every other key
/// is carried as `Other`.
#[derive(Clone, Copy, Debug, PartialEq, Eq, Structural)]
pub enum KeyCode {
    Char(char),
    Other,
}

#[derive(Clone, Copy, Debug, PartialEq, Eq, Structural)]
pub struct KeyEvent {
    pub code: KeyCode,
    pub modifiers: KeyModifiers,
}

/// One event read from the terminal: a key press, or anything else (mouse, resize,
/// focus, paste), which the editor ignores.
#[derive(Clone, Copy, Debug, PartialEq, Eq, Structural)]
pub enum Event {
    Key(KeyEvent),
    Other,
}

impl KeyModifiers {
    pub open spec fn is_none_spec(self) -> bool {
        !self.shift && !self.control && !self.alt && !self.super_key && !self.hyper && !self.meta
    }

    /// Control held alone, with no other modifier.
    pub open spec fn is_control_only(self) -> bool {
        self.control && !self.shift && !self.alt && !self.super_key && !self.hyper && !self.meta
    }

    /// No modifier held.
    pub fn none() -> (r: KeyModifiers)
        ensures
            r.is_none_spec(),
    {
        KeyModifiers {
            shift: false,
            control: false,
            alt: false,
            super_key: false,
            hyper: false,
            meta: false,
        }
    }

    /// Control held alone.
    pub fn control() -> (r: KeyModifiers)
        ensures
            r.is_control_only(),
    {
        KeyModifiers {
            shift: false,
            control: true,
            alt: false,
            super_key: false,
            hyper: false,
            meta: false,
        }
    }
}

/// The quit chord: the `q` key with Control as its only modifier.
pub open spec fn is_quit_chord(e: Event) -> bool {
    match e {
        Event::Key(k) => k.code == KeyCode::Char('q') && k.modifiers.is_control_only(),
        Event::Other => false,
    }
}

impl Event {
    pub fn is_quit_chord(&self) -> (r: bool)
        ensures
            r == is_quit_chord(*self),
    {
        match self {
            Event::Key(k) => {
                let is_q = match k.code {
                    KeyCode::Char(c) => c == 'q',
                    KeyCode::Other => false,
                };
                let m = k.modifiers;
                is_q && m.control && !m.shift && !m.alt && !m.super_key && !m.hyper && !m.meta
            },
            Event::Other => false,
        }
    }
}

} // verus!

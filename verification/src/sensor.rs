//! The capacitive four-button pad and the secret-code guessing game it
//! drives.
//!
//! The pad's interrupt glue delivers one event code per touch; the logic
//! here maps codes to buttons and buttons to display labels, and keeps the
//! state of the guessing game: a four-digit random secret and the digits
//! entered so far.

use vstd::prelude::*;
use vstd::string::StringExecFns;

use crate::rng;

verus! {

/// One of the four touch buttons.
#[derive(Clone, Copy, Debug, PartialEq, Eq, Structural)]
pub enum ButtonPressed {
    One,
    Two,
    Three,
    Four,
}

impl ButtonPressed {
    /// The event code of this button.
    pub open spec fn spec_code(self) -> u32 {
        match self {
            ButtonPressed::One => 0,
            ButtonPressed::Two => 1,
            ButtonPressed::Three => 2,
            ButtonPressed::Four => 3,
        }
    }

    /// The event code of this button.
    #[verifier::when_used_as_spec(spec_code)]
    pub fn code(self) -> (c: u32)
        ensures
            c == self.spec_code(),
    {
        match self {
            ButtonPressed::One => 0,
            ButtonPressed::Two => 1,
            ButtonPressed::Three => 2,
            ButtonPressed::Four => 3,
        }
    }

    /// The button of an event code; codes above 3 name no button and come
    /// back unchanged as the error.
    pub fn try_from(value: u32) -> (r: Result<ButtonPressed, u32>)
        ensures
            value <= 3 ==> (r matches Ok(b) && b.spec_code() == value),
            value > 3 ==> r == Err::<ButtonPressed, u32>(value),
    {
        match value {
            0 => Ok(ButtonPressed::One),
            1 => Ok(ButtonPressed::Two),
            2 => Ok(ButtonPressed::Three),
            3 => Ok(ButtonPressed::Four),
            _ => Err(value),
        }
    }

    /// The event code of this button, for posting to the notification
    /// channel.
    pub fn into(self) -> (v: u32)
        ensures
            v == self.spec_code(),
    {
        self.code()
    }

    /// The digit this button shows on the display.
    pub open spec fn spec_label(self) -> Seq<char> {
        match self {
            ButtonPressed::One => "1"@,
            ButtonPressed::Two => "2"@,
            ButtonPressed::Three => "3"@,
            ButtonPressed::Four => "4"@,
        }
    }

    /// The digit this button shows on the display.
    pub fn label(&self) -> (s: String)
        ensures
            s@ == self.spec_label(),
    {
        match self {
            ButtonPressed::One => String::from_str("1"),
            ButtonPressed::Two => String::from_str("2"),
            ButtonPressed::Three => String::from_str("3"),
            ButtonPressed::Four => String::from_str("4"),
        }
    }

    /// The digit this button enters into the code game.
    pub open spec fn spec_digit(self) -> u8 {
        match self {
            ButtonPressed::One => 1,
            ButtonPressed::Two => 2,
            ButtonPressed::Three => 3,
            ButtonPressed::Four => 4,
        }
    }

    /// The digit this button enters into the code game.
    #[verifier::when_used_as_spec(spec_digit)]
    pub fn digit(self) -> (d: u8)
        ensures
            d == self.spec_digit(),
    {
        match self {
            ButtonPressed::One => 1,
            ButtonPressed::Two => 2,
            ButtonPressed::Three => 3,
            ButtonPressed::Four => 4,
        }
    }
}

/// The outcome of the guessing game after a full code was entered, or
/// `Playing` while digits are still missing.
#[derive(Clone, Copy, Debug, PartialEq, Eq, Structural)]
pub enum State {
    Win,
    Lose,
    Playing,
}

/// The guessing game: a secret of four digits in `1..=4` and the digits
/// the player has entered so far.
pub struct GameState {
    secret: Vec<u8>,
    entries: Vec<u8>,
}

impl GameState {
    /// The secret code.
    pub closed spec fn secret(&self) -> Seq<u8> {
        self.secret@
    }

    /// The digits entered so far.
    pub closed spec fn entries(&self) -> Seq<u8> {
        self.entries@
    }

    /// The secret always holds exactly four digits in `1..=4`, and at
    /// most four digits are ever buffered.
    pub open spec fn wf(&self) -> bool {
        &&& self.secret().len() == 4
        &&& forall|i: int| 0 <= i < 4 ==> 1 <= #[trigger] self.secret()[i] <= 4
        &&& self.entries().len() <= 4
    }

    /// A game with the given secret and no digits entered.
    pub fn with_secret(secret: Vec<u8>) -> (g: GameState)
        requires
            secret@.len() == 4,
            forall|i: int| 0 <= i < 4 ==> 1 <= #[trigger] secret@[i] <= 4,
        ensures
            g.wf(),
            g.secret() == secret@,
            g.entries().len() == 0,
    {
        GameState { secret, entries: Vec::new() }
    }

    /// A game with a fresh random secret and no digits entered.
    pub fn new() -> (g: GameState)
        ensures
            g.wf(),
            g.entries().len() == 0,
    {
        let mut secret: Vec<u8> = Vec::new();
        let mut i: usize = 0;
        while i < 4
            invariant
                i <= 4,
                secret@.len() == i,
                forall|j: int| 0 <= j < i ==> 1 <= #[trigger] secret@[j] <= 4,
            decreases 4 - i,
        {
            secret.push(1 + rng::random_u8_below(4));
            i = i + 1;
        }
        GameState { secret, entries: Vec::new() }
    }

    /// Enters one digit. While digits are missing the game keeps playing;
    /// the fourth digit decides it.
    pub fn update(&mut self, code: u8) -> (s: State)
        requires
            old(self).wf(),
            old(self).entries().len() < 4,
        ensures
            final(self).wf(),
            final(self).secret() == old(self).secret(),
            final(self).entries() == old(self).entries().push(code),
            final(self).entries().len() < 4 ==> s == State::Playing,
            final(self).entries().len() == 4 ==> {
                &&& (s == State::Win <==> final(self).entries() == final(self).secret())
                &&& (s == State::Win || s == State::Lose)
            },
    {
        self.entries.push(code);
        if self.entries.len() == 4 {
            self.check()
        } else {
            State::Playing
        }
    }

    /// Decides a fully entered code: a win exactly when it matches the
    /// secret.
    pub fn check(&self) -> (s: State)
        requires
            self.wf(),
            self.entries().len() == 4,
        ensures
            s == State::Win <==> self.entries() == self.secret(),
            s == State::Win || s == State::Lose,
    {
        let mut i: usize = 0;
        let mut equal = true;
        while i < 4
            invariant
                i <= 4,
                self.wf(),
                self.entries().len() == 4,
                equal <==> (forall|j: int| 0 <= j < i ==> self.entries()[j] == self.secret()[j]),
            decreases 4 - i,
        {
            if self.entries[i] != self.secret[i] {
                equal = false;
            }
            i = i + 1;
        }
        if equal {
            proof {
                assert(self.entries() =~= self.secret());
            }
            State::Win
        } else {
            State::Lose
        }
    }
}

} // verus!

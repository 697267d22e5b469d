//! The melodies the passive buzzer plays: pitch constants, the note type,
//! and the two bundled songs as plain data.
//!
//! A melody is a sequence of `(Note, divider)` pairs. The pitch is in
//! hertz, 0 meaning a rest; the divider divides a whole note, a negative
//! divider meaning a dotted note half as long again. A divider is never
//! zero, so note durations are always well defined.

use vstd::prelude::*;

verus! {

/// A pitch in hertz; 0 is a rest.
#[derive(Clone, Copy, Debug, PartialEq, Eq, Structural)]
pub struct Note(pub u16);

/// The Green Hill Zone melody, note for note.
pub open spec fn green_hill_melody() -> Seq<(Note, i8)> {
    seq![
        (Note(REST), 2i8), (Note(D5), 8i8), (Note(B4), 4i8), (Note(D5), 8i8),
        (Note(CS5), 4i8), (Note(D5), 8i8), (Note(CS5), 4i8), (Note(A4), 2i8),
        (Note(REST), 8i8), (Note(A4), 8i8), (Note(FS5), 8i8), (Note(E5), 4i8),
        (Note(D5), 8i8), (Note(CS5), 4i8), (Note(D5), 8i8), (Note(CS5), 4i8),
        (Note(A4), 2i8), (Note(REST), 4i8), (Note(D5), 8i8), (Note(B4), 4i8),
        (Note(D5), 8i8), (Note(CS5), 4i8), (Note(D5), 8i8), (Note(CS5), 4i8),
        (Note(A4), 2i8), (Note(REST), 8i8), (Note(B4), 8i8), (Note(B4), 8i8),
        (Note(G4), 4i8), (Note(B4), 8i8), (Note(A4), 4i8), (Note(B4), 8i8),
        (Note(A4), 4i8), (Note(D4), 2i8), (Note(REST), 4i8), (Note(D5), 8i8),
        (Note(B4), 4i8), (Note(D5), 8i8), (Note(CS5), 4i8), (Note(D5), 8i8),
        (Note(CS5), 4i8), (Note(A4), 2i8), (Note(REST), 8i8), (Note(A4), 8i8),
        (Note(FS5), 8i8), (Note(E5), 4i8), (Note(D5), 8i8), (Note(CS5), 4i8),
        (Note(D5), 8i8), (Note(CS5), 4i8), (Note(A4), 2i8), (Note(REST), 4i8),
        (Note(D5), 8i8), (Note(B4), 4i8), (Note(D5), 8i8), (Note(CS5), 4i8),
        (Note(D5), 8i8), (Note(CS5), 4i8), (Note(A4), 2i8), (Note(REST), 8i8),
        (Note(B4), 8i8), (Note(B4), 8i8), (Note(G4), 4i8), (Note(B4), 8i8),
        (Note(A4), 4i8), (Note(B4), 8i8), (Note(A4), 4i8), (Note(D4), 8i8),
        (Note(D4), 8i8), (Note(FS4), 8i8), (Note(E4), -1i8), (Note(REST), 8i8),
        (Note(D4), 8i8), (Note(E4), 8i8), (Note(FS4), -1i8), (Note(REST), 8i8),
        (Note(D4), 8i8), (Note(D4), 8i8), (Note(FS4), 8i8), (Note(F4), -1i8),
        (Note(REST), 8i8), (Note(D4), 8i8), (Note(F4), 8i8), (Note(E4), -1i8),
        (Note(REST), 2i8), (Note(D5), 8i8), (Note(B4), 4i8), (Note(D5), 8i8),
        (Note(CS5), 4i8), (Note(D5), 8i8), (Note(CS5), 4i8), (Note(A4), 2i8),
        (Note(REST), 8i8), (Note(A4), 8i8), (Note(FS5), 8i8), (Note(E5), 4i8),
        (Note(D5), 8i8), (Note(CS5), 4i8), (Note(D5), 8i8), (Note(CS5), 4i8),
        (Note(A4), 2i8), (Note(REST), 4i8), (Note(D5), 8i8), (Note(B4), 4i8),
        (Note(D5), 8i8), (Note(CS5), 4i8), (Note(D5), 8i8), (Note(CS5), 4i8),
        (Note(A4), 2i8), (Note(REST), 8i8), (Note(B4), 8i8), (Note(B4), 8i8),
        (Note(G4), 4i8), (Note(B4), 8i8), (Note(A4), 4i8), (Note(B4), 8i8),
        (Note(A4), 4i8), (Note(D4), 2i8), (Note(REST), 4i8), (Note(D5), 8i8),
        (Note(B4), 4i8), (Note(D5), 8i8), (Note(CS5), 4i8), (Note(D5), 8i8),
        (Note(CS5), 4i8), (Note(A4), 2i8), (Note(REST), 8i8), (Note(A4), 8i8),
        (Note(FS5), 8i8), (Note(E5), 4i8), (Note(D5), 8i8), (Note(CS5), 4i8),
        (Note(D5), 8i8), (Note(CS5), 4i8), (Note(A4), 2i8), (Note(REST), 4i8),
        (Note(D5), 8i8), (Note(B4), 4i8), (Note(D5), 8i8), (Note(CS5), 4i8),
        (Note(D5), 8i8), (Note(CS5), 4i8), (Note(A4), 2i8), (Note(REST), 8i8),
        (Note(B4), 8i8), (Note(B4), 8i8), (Note(G4), 4i8), (Note(B4), 8i8),
        (Note(A4), 4i8), (Note(B4), 8i8), (Note(A4), 4i8), (Note(D4), 8i8),
        (Note(D4), 8i8), (Note(FS4), 8i8), (Note(E4), -1i8), (Note(REST), 8i8),
        (Note(D4), 8i8), (Note(E4), 8i8), (Note(FS4), -1i8), (Note(REST), 8i8),
        (Note(D4), 8i8), (Note(D4), 8i8), (Note(FS4), 8i8), (Note(F4), -1i8),
        (Note(REST), 8i8), (Note(D4), 8i8), (Note(F4), 8i8), (Note(E4), 8i8),
        (Note(E4), -2i8), (Note(A4), 8i8), (Note(CS5), 8i8), (Note(FS5), 8i8),
        (Note(E5), 4i8), (Note(D5), 8i8), (Note(A5), -4i8),
    ]
}

/// The Tetris theme melody, note for note.
pub open spec fn tetris_melody() -> Seq<(Note, i8)> {
    seq![
        (Note(E5), 4i8), (Note(B4), 8i8), (Note(C5), 8i8), (Note(D5), 4i8),
        (Note(C5), 8i8), (Note(B4), 8i8), (Note(A4), 4i8), (Note(A4), 8i8),
        (Note(C5), 8i8), (Note(E5), 4i8), (Note(D5), 8i8), (Note(C5), 8i8),
        (Note(B4), -4i8), (Note(C5), 8i8), (Note(D5), 4i8), (Note(E5), 4i8),
        (Note(C5), 4i8), (Note(A4), 4i8), (Note(A4), 8i8), (Note(A4), 4i8),
        (Note(B4), 8i8), (Note(C5), 8i8), (Note(D5), -4i8), (Note(F5), 8i8),
        (Note(A5), 4i8), (Note(G5), 8i8), (Note(F5), 8i8), (Note(E5), -4i8),
        (Note(C5), 8i8), (Note(E5), 4i8), (Note(D5), 8i8), (Note(C5), 8i8),
        (Note(B4), 4i8), (Note(B4), 8i8), (Note(C5), 8i8), (Note(D5), 4i8),
        (Note(E5), 4i8), (Note(C5), 4i8), (Note(A4), 4i8), (Note(A4), 4i8),
        (Note(REST), 4i8), (Note(E5), 4i8), (Note(B4), 8i8), (Note(C5), 8i8),
        (Note(D5), 4i8), (Note(C5), 8i8), (Note(B4), 8i8), (Note(A4), 4i8),
        (Note(A4), 8i8), (Note(C5), 8i8), (Note(E5), 4i8), (Note(D5), 8i8),
        (Note(C5), 8i8), (Note(B4), -4i8), (Note(C5), 8i8), (Note(D5), 4i8),
        (Note(E5), 4i8), (Note(C5), 4i8), (Note(A4), 4i8), (Note(A4), 8i8),
        (Note(A4), 4i8), (Note(B4), 8i8), (Note(C5), 8i8), (Note(D5), -4i8),
        (Note(F5), 8i8), (Note(A5), 4i8), (Note(G5), 8i8), (Note(F5), 8i8),
        (Note(E5), -4i8), (Note(C5), 8i8), (Note(E5), 4i8), (Note(D5), 8i8),
        (Note(C5), 8i8), (Note(B4), 4i8), (Note(B4), 8i8), (Note(C5), 8i8),
        (Note(D5), 4i8), (Note(E5), 4i8), (Note(C5), 4i8), (Note(A4), 4i8),
        (Note(A4), 4i8), (Note(REST), 4i8), (Note(E5), 2i8), (Note(C5), 2i8),
        (Note(D5), 2i8), (Note(B4), 2i8), (Note(C5), 2i8), (Note(A4), 2i8),
        (Note(GS4), 2i8), (Note(B4), 4i8), (Note(REST), 8i8), (Note(E5), 2i8),
        (Note(C5), 2i8), (Note(D5), 2i8), (Note(B4), 2i8), (Note(C5), 4i8),
        (Note(E5), 4i8), (Note(A5), 2i8), (Note(GS5), 2i8),
    ]
}

pub const B0: u16 = 31;
pub const C1: u16 = 33;
pub const CS1: u16 = 35;
pub const D1: u16 = 37;
pub const DS1: u16 = 39;
pub const E1: u16 = 41;
pub const F1: u16 = 44;
pub const FS1: u16 = 46;
pub const G1: u16 = 49;
pub const GS1: u16 = 52;
pub const A1: u16 = 55;
pub const AS1: u16 = 58;
pub const B1: u16 = 62;
pub const C2: u16 = 65;
pub const CS2: u16 = 69;
pub const D2: u16 = 73;
pub const DS2: u16 = 78;
pub const E2: u16 = 82;
pub const F2: u16 = 87;
pub const FS2: u16 = 93;
pub const G2: u16 = 98;
pub const GS2: u16 = 104;
pub const A2: u16 = 110;
pub const AS2: u16 = 117;
pub const B2: u16 = 123;
pub const C3: u16 = 131;
pub const CS3: u16 = 139;
pub const D3: u16 = 147;
pub const DS3: u16 = 156;
pub const E3: u16 = 165;
pub const F3: u16 = 175;
pub const FS3: u16 = 185;
pub const G3: u16 = 196;
pub const GS3: u16 = 208;
pub const A3: u16 = 220;
pub const AS3: u16 = 233;
pub const B3: u16 = 247;
pub const C4: u16 = 262;
pub const CS4: u16 = 277;
pub const D4: u16 = 294;
pub const DS4: u16 = 311;
pub const E4: u16 = 330;
pub const F4: u16 = 349;
pub const FS4: u16 = 370;
pub const G4: u16 = 392;
pub const GS4: u16 = 415;
pub const A4: u16 = 440;
pub const AS4: u16 = 466;
pub const B4: u16 = 494;
pub const C5: u16 = 523;
pub const CS5: u16 = 554;
pub const D5: u16 = 587;
pub const DS5: u16 = 622;
pub const E5: u16 = 659;
pub const F5: u16 = 698;
pub const FS5: u16 = 740;
pub const G5: u16 = 784;
pub const GS5: u16 = 831;
pub const A5: u16 = 880;
pub const AS5: u16 = 932;
pub const B5: u16 = 988;
pub const C6: u16 = 1047;
pub const CS6: u16 = 1109;
pub const D6: u16 = 1175;
pub const DS6: u16 = 1245;
pub const E6: u16 = 1319;
pub const F6: u16 = 1397;
pub const FS6: u16 = 1480;
pub const G6: u16 = 1568;
pub const GS6: u16 = 1661;
pub const A6: u16 = 1760;
pub const AS6: u16 = 1865;
pub const B6: u16 = 1976;
pub const C7: u16 = 2093;
pub const CS7: u16 = 2217;
pub const D7: u16 = 2349;
pub const DS7: u16 = 2489;
pub const E7: u16 = 2637;
pub const F7: u16 = 2794;
pub const FS7: u16 = 2960;
pub const G7: u16 = 3136;
pub const GS7: u16 = 3322;
pub const A7: u16 = 3520;
pub const AS7: u16 = 3729;
pub const B7: u16 = 3951;
pub const C8: u16 = 4186;
pub const CS8: u16 = 4435;
pub const D8: u16 = 4699;
pub const DS8: u16 = 4978;
pub const REST: u16 = 0;

/// The Green Hill Zone melody.
pub struct GreenHill {}

impl GreenHill {
    /// A fresh instance of the melody.
    pub fn new() -> (s: GreenHill) {
        GreenHill {}
    }

    /// The song's tempo in beats per minute.
    pub fn tempo_bpm(&self) -> (t: u16)
        ensures
            t == 140,
    {
        140
    }

    /// The song's notes: exactly [`green_hill_melody`]. Every divider is
    /// nonzero.
    pub fn notes(&self) -> (v: Vec<(Note, i8)>)
        ensures
            v@ == green_hill_melody(),
            v@.len() == 175,
            forall|i: int| 0 <= i < v@.len() ==> #[trigger] v@[i].1 != 0,
    {
        let v: Vec<(Note, i8)> = vec![
            (Note(REST), 2), (Note(D5), 8), (Note(B4), 4), (Note(D5), 8), (Note(CS5), 4),
            (Note(D5), 8), (Note(CS5), 4), (Note(A4), 2), (Note(REST), 8), (Note(A4), 8),
            (Note(FS5), 8), (Note(E5), 4), (Note(D5), 8), (Note(CS5), 4), (Note(D5), 8),
            (Note(CS5), 4), (Note(A4), 2), (Note(REST), 4), (Note(D5), 8), (Note(B4), 4),
            (Note(D5), 8), (Note(CS5), 4), (Note(D5), 8), (Note(CS5), 4), (Note(A4), 2),
            (Note(REST), 8), (Note(B4), 8), (Note(B4), 8), (Note(G4), 4), (Note(B4), 8),
            (Note(A4), 4), (Note(B4), 8), (Note(A4), 4), (Note(D4), 2), (Note(REST), 4),
            (Note(D5), 8), (Note(B4), 4), (Note(D5), 8), (Note(CS5), 4), (Note(D5), 8),
            (Note(CS5), 4), (Note(A4), 2), (Note(REST), 8), (Note(A4), 8), (Note(FS5), 8),
            (Note(E5), 4), (Note(D5), 8), (Note(CS5), 4), (Note(D5), 8), (Note(CS5), 4),
            (Note(A4), 2), (Note(REST), 4), (Note(D5), 8), (Note(B4), 4), (Note(D5), 8),
            (Note(CS5), 4), (Note(D5), 8), (Note(CS5), 4), (Note(A4), 2), (Note(REST), 8),
            (Note(B4), 8), (Note(B4), 8), (Note(G4), 4), (Note(B4), 8), (Note(A4), 4),
            (Note(B4), 8), (Note(A4), 4), (Note(D4), 8), (Note(D4), 8), (Note(FS4), 8),
            (Note(E4), -1), (Note(REST), 8), (Note(D4), 8), (Note(E4), 8), (Note(FS4), -1),
            (Note(REST), 8), (Note(D4), 8), (Note(D4), 8), (Note(FS4), 8), (Note(F4), -1),
            (Note(REST), 8), (Note(D4), 8), (Note(F4), 8), (Note(E4), -1), (Note(REST), 2),
            (Note(D5), 8), (Note(B4), 4), (Note(D5), 8), (Note(CS5), 4), (Note(D5), 8),
            (Note(CS5), 4), (Note(A4), 2), (Note(REST), 8), (Note(A4), 8), (Note(FS5), 8),
            (Note(E5), 4), (Note(D5), 8), (Note(CS5), 4), (Note(D5), 8), (Note(CS5), 4),
            (Note(A4), 2), (Note(REST), 4), (Note(D5), 8), (Note(B4), 4), (Note(D5), 8),
            (Note(CS5), 4), (Note(D5), 8), (Note(CS5), 4), (Note(A4), 2), (Note(REST), 8),
            (Note(B4), 8), (Note(B4), 8), (Note(G4), 4), (Note(B4), 8), (Note(A4), 4),
            (Note(B4), 8), (Note(A4), 4), (Note(D4), 2), (Note(REST), 4), (Note(D5), 8),
            (Note(B4), 4), (Note(D5), 8), (Note(CS5), 4), (Note(D5), 8), (Note(CS5), 4),
            (Note(A4), 2), (Note(REST), 8), (Note(A4), 8), (Note(FS5), 8), (Note(E5), 4),
            (Note(D5), 8), (Note(CS5), 4), (Note(D5), 8), (Note(CS5), 4), (Note(A4), 2),
            (Note(REST), 4), (Note(D5), 8), (Note(B4), 4), (Note(D5), 8), (Note(CS5), 4),
            (Note(D5), 8), (Note(CS5), 4), (Note(A4), 2), (Note(REST), 8), (Note(B4), 8),
            (Note(B4), 8), (Note(G4), 4), (Note(B4), 8), (Note(A4), 4), (Note(B4), 8),
            (Note(A4), 4), (Note(D4), 8), (Note(D4), 8), (Note(FS4), 8), (Note(E4), -1),
            (Note(REST), 8), (Note(D4), 8), (Note(E4), 8), (Note(FS4), -1), (Note(REST), 8),
            (Note(D4), 8), (Note(D4), 8), (Note(FS4), 8), (Note(F4), -1), (Note(REST), 8),
            (Note(D4), 8), (Note(F4), 8), (Note(E4), 8), (Note(E4), -2), (Note(A4), 8),
            (Note(CS5), 8), (Note(FS5), 8), (Note(E5), 4), (Note(D5), 8), (Note(A5), -4),
        ];
        proof {
            assert(v@ =~= green_hill_melody());
        }
        v
    }
}

/// The Tetris theme melody.
pub struct Tetris {}

impl Tetris {
    /// A fresh instance of the melody.
    pub fn new() -> (s: Tetris) {
        Tetris {}
    }

    /// The song's tempo in beats per minute.
    pub fn tempo_bpm(&self) -> (t: u16)
        ensures
            t == 144,
    {
        144
    }

    /// The song's notes: exactly [`tetris_melody`]. Every divider is
    /// nonzero.
    pub fn notes(&self) -> (v: Vec<(Note, i8)>)
        ensures
            v@ == tetris_melody(),
            v@.len() == 99,
            forall|i: int| 0 <= i < v@.len() ==> #[trigger] v@[i].1 != 0,
    {
        let v: Vec<(Note, i8)> = vec![
            (Note(E5), 4), (Note(B4), 8), (Note(C5), 8), (Note(D5), 4), (Note(C5), 8),
            (Note(B4), 8), (Note(A4), 4), (Note(A4), 8), (Note(C5), 8), (Note(E5), 4),
            (Note(D5), 8), (Note(C5), 8), (Note(B4), -4), (Note(C5), 8), (Note(D5), 4),
            (Note(E5), 4), (Note(C5), 4), (Note(A4), 4), (Note(A4), 8), (Note(A4), 4),
            (Note(B4), 8), (Note(C5), 8), (Note(D5), -4), (Note(F5), 8), (Note(A5), 4),
            (Note(G5), 8), (Note(F5), 8), (Note(E5), -4), (Note(C5), 8), (Note(E5), 4),
            (Note(D5), 8), (Note(C5), 8), (Note(B4), 4), (Note(B4), 8), (Note(C5), 8),
            (Note(D5), 4), (Note(E5), 4), (Note(C5), 4), (Note(A4), 4), (Note(A4), 4),
            (Note(REST), 4), (Note(E5), 4), (Note(B4), 8), (Note(C5), 8), (Note(D5), 4),
            (Note(C5), 8), (Note(B4), 8), (Note(A4), 4), (Note(A4), 8), (Note(C5), 8),
            (Note(E5), 4), (Note(D5), 8), (Note(C5), 8), (Note(B4), -4), (Note(C5), 8),
            (Note(D5), 4), (Note(E5), 4), (Note(C5), 4), (Note(A4), 4), (Note(A4), 8),
            (Note(A4), 4), (Note(B4), 8), (Note(C5), 8), (Note(D5), -4), (Note(F5), 8),
            (Note(A5), 4), (Note(G5), 8), (Note(F5), 8), (Note(E5), -4), (Note(C5), 8),
            (Note(E5), 4), (Note(D5), 8), (Note(C5), 8), (Note(B4), 4), (Note(B4), 8),
            (Note(C5), 8), (Note(D5), 4), (Note(E5), 4), (Note(C5), 4), (Note(A4), 4),
            (Note(A4), 4), (Note(REST), 4), (Note(E5), 2), (Note(C5), 2), (Note(D5), 2),
            (Note(B4), 2), (Note(C5), 2), (Note(A4), 2), (Note(GS4), 2), (Note(B4), 4),
            (Note(REST), 8), (Note(E5), 2), (Note(C5), 2), (Note(D5), 2), (Note(B4), 2),
            (Note(C5), 4), (Note(E5), 4), (Note(A5), 2), (Note(GS5), 2),
        ];
        proof {
            assert(v@ =~= tetris_melody());
        }
        v
    }
}

} // verus!

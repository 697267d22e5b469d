//! The serial MP3 module's command frames and the handling of its
//! replies.
//!
//! A command travels as a fixed ten-byte frame: start byte, version,
//! length, command code, ack flag, big-endian parameter, two's-complement
//! checksum of the six bytes after the start byte, and stop byte. The
//! UART transfers stay with the host; the logic here builds the frames
//! and decides what to do with each reply buffer.

use vstd::prelude::*;

verus! {

/// The commands the player sends to the module.
#[derive(Clone, Copy, Debug, PartialEq, Eq, Structural)]
pub enum Mp3Command {
    Reset,
    Reply,
    Track(u16),
    SetVolume(u16),
    GetVolume,
}

/// The command code of a command.
pub open spec fn mp3_command_byte(command: Mp3Command) -> u8 {
    match command {
        Mp3Command::Reset => 0x0c,
        Mp3Command::Reply => 0x41,
        Mp3Command::Track(_) => 0x03,
        Mp3Command::SetVolume(_) => 0x06,
        Mp3Command::GetVolume => 0x43,
    }
}

/// The 16-bit parameter of a command; commands without one send 0.
pub open spec fn mp3_param(command: Mp3Command) -> u16 {
    match command {
        Mp3Command::Track(track) => track,
        Mp3Command::SetVolume(volume) => volume,
        _ => 0,
    }
}

/// The ten-byte frame that carries `command`: `0x7e`, version `0xff`,
/// length 6, the command code, the ack flag, the parameter big-endian,
/// the two's-complement checksum of bytes 1 through 6, and `0xef`.
pub open spec fn mp3_frame(command: Mp3Command, request_ack: bool) -> Seq<u8> {
    let code = mp3_command_byte(command);
    let ack: u8 = if request_ack {
        1
    } else {
        0
    };
    let param = mp3_param(command);
    let high = (param as int / 256) as u8;
    let low = (param as int % 256) as u8;
    let checksum = 0x10000 - (0xff + 0x06 + code as int + ack as int + high as int + low as int);
    seq![
        0x7eu8,
        0xffu8,
        0x06u8,
        code,
        ack,
        high,
        low,
        (checksum / 256) as u8,
        (checksum % 256) as u8,
        0xefu8,
    ]
}

/// Relies on dfr0299's Command::serialise_with_ack: with a ten-byte
/// buffer it always succeeds and writes exactly the frame that
/// [`mp3_frame`] states, checksum included.
#[verifier::external_body]
fn serialise_command(command: Mp3Command, request_ack: bool) -> (frame: Vec<u8>)
    ensures
        frame@ == mp3_frame(command, request_ack),
{
    let outside = match command {
        Mp3Command::Reset => dfr0299::Command::Reset,
        Mp3Command::Reply => dfr0299::Command::Reply,
        Mp3Command::Track(track) => dfr0299::Command::Track(track),
        Mp3Command::SetVolume(volume) => dfr0299::Command::SetVolume(volume),
        Mp3Command::GetVolume => dfr0299::Command::GetVolume,
    };
    let ack = if request_ack { dfr0299::RequestAck::Yes } else { dfr0299::RequestAck::No };
    let mut buffer = [0u8; 10];
    let _ = outside.serialise_with_ack(&mut buffer, ack);
    buffer.to_vec()
}

/// The frame to put on the wire for `command`, ten bytes long.
pub fn command_frame(command: Mp3Command, request_ack: bool) -> (frame: Vec<u8>)
    ensures
        frame@ == mp3_frame(command, request_ack),
        frame@.len() == 10,
{
    serialise_command(command, request_ack)
}

/// The reply-poll loop's state: how many read attempts remain before the
/// poll gives up. The host performs the UART reads and feeds each reply
/// buffer into [`ReplyPoll::step`] until it hands a value out.
pub struct ReplyPoll {
    attempts_left: u8,
}

impl ReplyPoll {
    /// How many read attempts remain.
    pub closed spec fn attempts_left(&self) -> int {
        self.attempts_left as int
    }

    /// A fresh poll with a budget of ten read attempts.
    pub fn new() -> (p: ReplyPoll)
        ensures
            p.attempts_left() == 10,
    {
        ReplyPoll { attempts_left: 10 }
    }

    /// Feeds one reply read into the poll. Each step spends one attempt;
    /// when the budget runs out the poll gives up with value 0 without
    /// looking at the reply, otherwise a value report (byte 3 equal to
    /// `0x43` or `0x3f`) finishes the poll with its byte 6 and anything
    /// else asks for another read.
    pub fn step(&mut self, bytes_read: usize, buffer: &Vec<u8>) -> (outcome: Option<u8>)
        requires
            old(self).attempts_left() > 0,
            buffer@.len() == 10,
        ensures
            final(self).attempts_left() == old(self).attempts_left() - 1,
            final(self).attempts_left() == 0 ==> outcome == Some(0u8),
            final(self).attempts_left() > 0 ==> outcome == (
            if bytes_read > 0 && (buffer@[3] == 0x43 || buffer@[3] == 0x3f) {
                Some(buffer@[6])
            } else {
                None::<u8>
            }),
    {
        self.attempts_left = self.attempts_left - 1;
        if self.attempts_left == 0 {
            return Some(0);
        }
        match classify_reply(bytes_read, buffer) {
            ReplyAction::Value(value) => Some(value),
            ReplyAction::Retry => None,
        }
    }
}

/// What to do with one reply read: try again, or accept the value byte.
#[derive(Clone, Copy, Debug, PartialEq, Eq, Structural)]
pub enum ReplyAction {
    Retry,
    Value(u8),
}

/// Decides one polling step over a ten-byte reply buffer: an empty read
/// or any reply other than a value report (code `0x43` or `0x3f` in byte
/// 3) asks for another read; a value report hands out its byte 6.
pub fn classify_reply(bytes_read: usize, buffer: &Vec<u8>) -> (action: ReplyAction)
    requires
        buffer@.len() == 10,
    ensures
        bytes_read == 0 ==> action == ReplyAction::Retry,
        bytes_read > 0 && (buffer@[3] == 0x43 || buffer@[3] == 0x3f) ==> action
            == ReplyAction::Value(buffer@[6]),
        bytes_read > 0 && buffer@[3] != 0x43 && buffer@[3] != 0x3f ==> action
            == ReplyAction::Retry,
{
    if bytes_read == 0 {
        return ReplyAction::Retry;
    }
    if buffer[3] == 0x43 || buffer[3] == 0x3f {
        ReplyAction::Value(buffer[6])
    } else {
        ReplyAction::Retry
    }
}

} // verus!

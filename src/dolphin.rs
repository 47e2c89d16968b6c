//! The decisions of the bridge to the emulator: the phase of the exchange,
//! the accumulated clock budget, and the reply that each command byte gets.
use vstd::prelude::*;
use vstd::wrapping::i32_specs;
use crate::joy::{
    command_of, latched, le_bytes, transmitted, JOYCMD, JOYListener, JOYManager, JOYState,
    RECV_PENDING,
};

verus! {

/// Port of the data socket.
pub const DATA_PORT: u16 = 0xD6BA;

/// Port of the clock socket.
pub const CLOCK_PORT: u16 = 0xC10C;

/// Cycles of one video frame.
pub const VIDEO_TOTAL_LENGTH: i32 = 280896;

/// Cycles per bit on the wire at 115200 bps.
pub const CYCLES_PER_BIT: u32 = 0x100_0000 / 115200;

/// What the exchange waits for next.
#[derive(PartialEq, Eq, Structural, Debug, Clone, Copy)]
pub enum ConnectionState {
    WaitFirstClock,
    WaitClock,
    WaitCommand,
}

/// The signed value of four bytes, most significant byte first.
pub open spec fn be_i32(b: Seq<u8>) -> int {
    let u = 0x100_0000 * b[0] + 0x1_0000 * b[1] + 0x100 * b[2] + b[3];
    if u >= 0x8000_0000 {
        u - 0x1_0000_0000
    } else {
        u
    }
}

/// Reads a signed value from four bytes, most significant byte first.
pub fn i32_from_be(b: [u8; 4]) -> (r: i32)
    ensures
        r == be_i32(b@),
{
    let u: u32 = (b[0] as u32) * 0x100_0000 + (b[1] as u32) * 0x1_0000 + (b[2] as u32) * 0x100
        + b[3] as u32;
    if u >= 0x8000_0000 {
        ((u - 0x8000_0000) as i32) - 0x7FFF_FFFF - 1
    } else {
        u as i32
    }
}

/// The reply to a command: from the register file where an engine is
/// attached, zero-filled with a zero status where none is.
pub open spec fn reply_of(cmd: JOYCMD, st: Option<JOYState>) -> Seq<u8> {
    match st {
        Some(s) => match cmd {
            JOYCMD::JOY_RESET => seq![0u8, 4u8, s.joystat],
            JOYCMD::JOY_POLL => seq![0u8, 4u8, s.joystat],
            JOYCMD::JOY_TRANS => le_bytes(s.send_buf).push(s.joystat & 0xF7),
            JOYCMD::JOY_RECV => seq![s.joystat | RECV_PENDING],
        },
        None => match cmd {
            JOYCMD::JOY_RESET => seq![0u8, 4u8, 0u8],
            JOYCMD::JOY_POLL => seq![0u8, 4u8, 0u8],
            JOYCMD::JOY_TRANS => seq![0u8, 0u8, 0u8, 0u8, 0u8],
            JOYCMD::JOY_RECV => seq![0u8],
        },
    }
}

/// The register file of the attached engine, if one is attached.
pub open spec fn engine_status<T: JOYListener>(m: Option<JOYManager<T>>) -> Option<JOYState> {
    match m {
        Some(e) => Some(e.status()),
        None => None,
    }
}

/// How the engine `m` became `m2` on `cmd`: the listener's callback for
/// the command ran on the register file as the engine left it.
pub open spec fn engine_step<T: JOYListener>(
    cmd: JOYCMD,
    m: JOYManager<T>,
    payload: Seq<u8>,
    m2: JOYManager<T>,
) -> bool {
    match cmd {
        JOYCMD::JOY_RESET => T::reset_post(m.client(), m.status(), m2.client(), m2.status()),
        JOYCMD::JOY_POLL => T::poll_post(m.client(), m.status(), m2.client(), m2.status()),
        JOYCMD::JOY_TRANS => T::send_post(
            m.client(),
            transmitted(m.status()),
            m2.client(),
            m2.status(),
        ),
        JOYCMD::JOY_RECV => T::recv_post(
            m.client(),
            latched(m.status(), payload),
            m2.client(),
            m2.status(),
        ),
    }
}

/// The bridge's side of one connection: its phase, its clock budget, and
/// the engine it feeds.
pub struct DolphinSession<T: JOYListener> {
    pub phase: ConnectionState,
    pub clock_slice: i32,
    pub consumer: Option<JOYManager<T>>,
}

impl<T: JOYListener> DolphinSession<T> {
    /// A session that waits for its first clock tick.
    pub fn new(consumer: Option<JOYManager<T>>) -> (r: Self)
        ensures
            r.phase == ConnectionState::WaitFirstClock,
            r.clock_slice == 0,
            r.consumer == consumer,
    {
        DolphinSession { phase: ConnectionState::WaitFirstClock, clock_slice: 0, consumer }
    }

    /// Leaves the first phase: the clock budget starts from zero.
    pub fn begin(&mut self)
        ensures
            old(self).phase == ConnectionState::WaitFirstClock ==> {
                &&& final(self).phase == ConnectionState::WaitClock
                &&& final(self).clock_slice == 0
            },
            old(self).phase != ConnectionState::WaitFirstClock ==> {
                &&& final(self).phase == old(self).phase
                &&& final(self).clock_slice == old(self).clock_slice
            },
            final(self).consumer == old(self).consumer,
    {
        if self.phase == ConnectionState::WaitFirstClock {
            self.clock_slice = 0;
            self.phase = ConnectionState::WaitClock;
        }
    }

    /// Takes a clock tick of four bytes: adds it to the budget, wrapping,
    /// and waits for a command.
    pub fn take_clock(&mut self, tick: [u8; 4])
        ensures
            old(self).phase == ConnectionState::WaitClock ==> {
                &&& final(self).phase == ConnectionState::WaitCommand
                &&& final(self).clock_slice == i32_specs::wrapping_add(
                    old(self).clock_slice,
                    be_i32(tick@) as i32,
                )
            },
            old(self).phase != ConnectionState::WaitClock ==> {
                &&& final(self).phase == old(self).phase
                &&& final(self).clock_slice == old(self).clock_slice
            },
            final(self).consumer == old(self).consumer,
    {
        if self.phase == ConnectionState::WaitClock {
            let offset = i32_from_be(tick);
            self.clock_slice = self.clock_slice.wrapping_add(offset);
            self.phase = ConnectionState::WaitCommand;
        }
    }

    /// Whether the budget has fallen more than four frames behind.
    pub fn falling_behind(&self) -> (r: bool)
        ensures
            r == (self.clock_slice < -4 * 280896),
    {
        self.clock_slice < -VIDEO_TOTAL_LENGTH * 4
    }

    /// Handles a command byte and its payload. A byte that names no
    /// command gets no reply and the session keeps waiting for a command;
    /// a command gets its reply and the session waits for the next tick.
    pub fn process_command(&mut self, code: u8, payload: [u8; 4]) -> (r: Option<Vec<u8>>)
        ensures
            command_of(code) is None ==> r is None && final(self).phase == old(self).phase
                && final(self).consumer == old(self).consumer,
            command_of(code) is Some ==> r is Some && r.unwrap()@ == reply_of(
                command_of(code).unwrap(),
                engine_status(old(self).consumer),
            ) && final(self).phase == ConnectionState::WaitClock,
            command_of(code) is Some && old(self).consumer is None ==> final(self).consumer is None,
            command_of(code) is Some && old(self).consumer is Some ==> {
                &&& final(self).consumer is Some
                &&& engine_step(
                    command_of(code).unwrap(),
                    old(self).consumer.unwrap(),
                    payload@,
                    final(self).consumer.unwrap(),
                )
            },
            final(self).clock_slice == old(self).clock_slice,
    {
        let cmd = match JOYCMD::from_u8(code) {
            Some(c) => c,
            None => {
                return None;
            },
        };
        let out: Vec<u8> = match &mut self.consumer {
            Some(m) => match cmd {
                JOYCMD::JOY_RESET => {
                    let b = m.reset();
                    vec![b[0], b[1], b[2]]
                },
                JOYCMD::JOY_POLL => {
                    let b = m.poll();
                    vec![b[0], b[1], b[2]]
                },
                JOYCMD::JOY_TRANS => {
                    let b = m.send();
                    vec![b[0], b[1], b[2], b[3], b[4]]
                },
                JOYCMD::JOY_RECV => {
                    let b = m.recv(payload);
                    vec![b[0]]
                },
            },
            None => match cmd {
                JOYCMD::JOY_RESET | JOYCMD::JOY_POLL => vec![0u8, 4u8, 0u8],
                JOYCMD::JOY_TRANS => vec![0u8, 0u8, 0u8, 0u8, 0u8],
                JOYCMD::JOY_RECV => vec![0u8],
            },
        };
        self.phase = ConnectionState::WaitClock;
        assert(out@ =~= reply_of(cmd, engine_status(old(self).consumer)));
        Some(out)
    }
}

} // verus!

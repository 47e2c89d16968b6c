//! The JoyBus status register, the two transfer buffers, and the command
//! engine that services RESET, POLL, TRANS and RECV for a listener.
use vstd::prelude::*;

verus! {

/// Bit of `joystat` set when a word has arrived and was not yet drained.
pub const RECV_PENDING: u8 = 0x02;

/// Bit of `joystat` set when `send_buf` holds a word not yet sent.
pub const SEND_FULL: u8 = 0x08;

/// Bits of `joystat` that the engine manages and a safe write keeps.
pub const ENGINE_BITS: u8 = 0x0A;

/// The four JoyBus commands, by the opcode that the master sends.
#[derive(PartialEq, Eq, Structural, Debug, Clone, Copy)]
pub enum JOYCMD {
    JOY_RESET,
    JOY_POLL,
    JOY_TRANS,
    JOY_RECV,
}

/// The command that an opcode byte names, if any.
pub open spec fn command_of(code: u8) -> Option<JOYCMD> {
    if code == 0xFF {
        Some(JOYCMD::JOY_RESET)
    } else if code == 0x00 {
        Some(JOYCMD::JOY_POLL)
    } else if code == 0x14 {
        Some(JOYCMD::JOY_TRANS)
    } else if code == 0x15 {
        Some(JOYCMD::JOY_RECV)
    } else {
        None
    }
}

impl JOYCMD {
    /// Decodes an opcode byte; `None` for a byte that names no command.
    pub fn from_u8(code: u8) -> (r: Option<JOYCMD>)
        ensures
            r == command_of(code),
    {
        if code == 0xFF {
            Some(JOYCMD::JOY_RESET)
        } else if code == 0x00 {
            Some(JOYCMD::JOY_POLL)
        } else if code == 0x14 {
            Some(JOYCMD::JOY_TRANS)
        } else if code == 0x15 {
            Some(JOYCMD::JOY_RECV)
        } else {
            None
        }
    }

    /// The opcode byte of the command.
    pub fn code(&self) -> (r: u8)
        ensures
            command_of(r) == Some(*self),
    {
        match self {
            JOYCMD::JOY_RESET => 0xFF,
            JOYCMD::JOY_POLL => 0x00,
            JOYCMD::JOY_TRANS => 0x14,
            JOYCMD::JOY_RECV => 0x15,
        }
    }

    /// Number of payload bytes that follow the opcode on the wire.
    pub fn payload_len(&self) -> (r: usize)
        ensures
            r == (if *self == JOYCMD::JOY_RECV { 4usize } else { 0usize }),
    {
        match self {
            JOYCMD::JOY_RECV => 4,
            _ => 0,
        }
    }

    /// Bits that the command and its response take on the wire, stop bits
    /// not counted: the opcode byte and the response (and payload) bytes.
    pub fn bits_on_line(&self) -> (r: u32)
        ensures
            r == (match *self {
                JOYCMD::JOY_RESET => 32u32,
                JOYCMD::JOY_POLL => 32u32,
                JOYCMD::JOY_TRANS => 48u32,
                JOYCMD::JOY_RECV => 48u32,
            }),
    {
        let opcode_bits: u32 = 8;
        match self {
            JOYCMD::JOY_RESET | JOYCMD::JOY_POLL => opcode_bits + 24,
            JOYCMD::JOY_TRANS | JOYCMD::JOY_RECV => opcode_bits + 40,
        }
    }
}

/// The word that four bytes give, least significant byte first.
pub open spec fn le_word(b: Seq<u8>) -> int {
    b[0] + 0x100 * b[1] + 0x1_0000 * b[2] + 0x100_0000 * b[3]
}

/// The four bytes of a word, least significant byte first.
pub open spec fn le_bytes(w: u32) -> Seq<u8> {
    seq![
        (w % 0x100) as u8,
        ((w / 0x100) % 0x100) as u8,
        ((w / 0x1_0000) % 0x100) as u8,
        (w / 0x100_0000) as u8,
    ]
}

/// Reads a word from four bytes, least significant byte first.
pub fn u32_from_le(b: [u8; 4]) -> (r: u32)
    ensures
        r == le_word(b@),
{
    b[0] as u32 + (b[1] as u32) * 0x100 + (b[2] as u32) * 0x1_0000 + (b[3] as u32) * 0x100_0000
}

/// Writes a word as four bytes, least significant byte first.
pub fn u32_to_le(w: u32) -> (r: [u8; 4])
    ensures
        r@ == le_bytes(w),
{
    let r = [
        (w % 0x100) as u8,
        ((w / 0x100) % 0x100) as u8,
        ((w / 0x1_0000) % 0x100) as u8,
        (w / 0x100_0000) as u8,
    ];
    assert(r@ =~= le_bytes(w));
    r
}

/// The status register and the two transfer buffers.
pub struct JOYState {
    pub joystat: u8,
    pub send_buf: u32,
    pub recv_buf: u32,
}

/// What reading the received word hands out: the word, and whether it
/// arrived since the last read.
pub open spec fn recv_read(s: JOYState) -> (u32, bool) {
    (s.recv_buf, s.joystat & RECV_PENDING != 0)
}

/// The register file after the received word was read: pending bit clear.
pub open spec fn drained(s: JOYState) -> JOYState {
    JOYState { joystat: s.joystat & 0xFD, ..s }
}

/// The register file after the outgoing word was overwritten.
pub open spec fn send_written(s: JOYState, w: u32) -> JOYState {
    JOYState { joystat: s.joystat | SEND_FULL, send_buf: w, ..s }
}

/// The register file after a safe write of `x` to the status.
pub open spec fn safe_written(s: JOYState, x: u8) -> JOYState {
    JOYState { joystat: (x & 0xF5) | (s.joystat & ENGINE_BITS), ..s }
}

/// The register file after RECV latched four bytes.
pub open spec fn latched(s: JOYState, data: Seq<u8>) -> JOYState {
    JOYState { joystat: s.joystat | RECV_PENDING, recv_buf: le_word(data) as u32, ..s }
}

/// The register file after TRANS took the outgoing word: full bit clear.
pub open spec fn transmitted(s: JOYState) -> JOYState {
    JOYState { joystat: s.joystat & 0xF7, ..s }
}

impl JOYState {
    /// A register file with every bit and word zero.
    pub fn new() -> (r: JOYState)
        ensures
            r.joystat == 0,
            r.send_buf == 0,
            r.recv_buf == 0,
    {
        JOYState { joystat: 0, send_buf: 0, recv_buf: 0 }
    }

    /// Hands out the received word and whether it arrived since the last
    /// read, and clears the pending bit.
    pub fn read_recv_buf(&mut self) -> (r: (u32, bool))
        ensures
            r == recv_read(*old(self)),
            *final(self) == drained(*old(self)),
    {
        let changed: bool = (self.joystat & RECV_PENDING) != 0;
        self.joystat = self.joystat & 0xFD;
        (self.recv_buf, changed)
    }

    /// Overwrites the outgoing word and sets the full bit. Returns `false`
    /// when a word not yet sent was overwritten.
    pub fn write_send_buf(&mut self, dat: u32) -> (r: bool)
        ensures
            r == (old(self).joystat & SEND_FULL == 0),
            *final(self) == send_written(*old(self), dat),
    {
        let buf_empty: bool = (self.joystat & SEND_FULL) == 0;
        self.joystat = self.joystat | SEND_FULL;
        self.send_buf = dat;
        buf_empty
    }

    /// Writes the outgoing word only when the last one was sent; returns
    /// whether it wrote.
    pub fn try_write_send(&mut self, dat: u32) -> (r: bool)
        ensures
            r == (old(self).joystat & SEND_FULL == 0),
            *final(self) == (if r {
                send_written(*old(self), dat)
            } else {
                *old(self)
            }),
    {
        let buf_empty: bool = (self.joystat & SEND_FULL) == 0;
        if buf_empty {
            self.write_send_buf(dat);
        }
        buf_empty
    }

    /// Overwrites the status register but keeps the two bits that the
    /// engine manages.
    pub fn write_joy_safe(&mut self, x: u8)
        ensures
            *final(self) == safe_written(*old(self), x),
            final(self).joystat == (x & 0xF5) | (old(self).joystat & ENGINE_BITS),
    {
        self.joystat = (x & 0xF5) | (self.joystat & ENGINE_BITS);
    }

    /// The reply to RESET and POLL: two fixed bytes and the status.
    pub fn status_reply(&self) -> (r: [u8; 3])
        ensures
            r@ == seq![0u8, 4u8, self.joystat],
    {
        let r = [0u8, 4u8, self.joystat];
        assert(r@ =~= seq![0u8, 4u8, self.joystat]);
        r
    }

    /// The engine's part of RECV: latches the word, sets the pending bit,
    /// and replies with the status that shows it.
    pub fn latch_recv(&mut self, data: [u8; 4]) -> (r: [u8; 1])
        ensures
            *final(self) == latched(*old(self), data@),
            r@ == seq![final(self).joystat],
    {
        self.joystat = self.joystat | RECV_PENDING;
        let r = [self.joystat];
        self.recv_buf = u32_from_le(data);
        assert(r@ =~= seq![self.joystat]);
        r
    }

    /// The engine's part of TRANS: replies with the outgoing word and the
    /// status, the full bit cleared first.
    pub fn emit_trans(&mut self) -> (r: [u8; 5])
        ensures
            *final(self) == transmitted(*old(self)),
            r@ == le_bytes(old(self).send_buf).push(final(self).joystat),
    {
        let b = u32_to_le(self.send_buf);
        self.joystat = self.joystat & 0xF7;
        let r = [b[0], b[1], b[2], b[3], self.joystat];
        assert(r@ =~= le_bytes(self.send_buf).push(self.joystat));
        r
    }
}

/// An operation that a listener may apply to the register file.
#[derive(PartialEq, Eq, Structural, Debug, Clone, Copy)]
pub enum RegisterOp {
    ReadRecv,
    WriteSend(u32),
    TryWriteSend(u32),
    WriteSafe(u8),
}

/// The register file after one operation.
pub open spec fn apply_op(s: JOYState, op: RegisterOp) -> JOYState {
    match op {
        RegisterOp::ReadRecv => drained(s),
        RegisterOp::WriteSend(w) => send_written(s, w),
        RegisterOp::TryWriteSend(w) => if s.joystat & SEND_FULL == 0 {
            send_written(s, w)
        } else {
            s
        },
        RegisterOp::WriteSafe(x) => safe_written(s, x),
    }
}

/// The register file after a run of operations, first to last.
pub open spec fn apply_ops(s: JOYState, ops: Seq<RegisterOp>) -> JOYState
    decreases ops.len(),
{
    if ops.len() == 0 {
        s
    } else {
        apply_ops(apply_op(s, ops[0]), ops.drop_first())
    }
}

/// Whether an operation writes the outgoing word.
pub open spec fn writes_send(op: RegisterOp) -> bool {
    op is WriteSend || op is TryWriteSend
}

proof fn lemma_full_bit(j: u8, x: u8)
    ensures
        (j & 0xFD) & SEND_FULL == j & SEND_FULL,
        ((x & 0xF5) | (j & ENGINE_BITS)) & SEND_FULL == j & SEND_FULL,
        (j | SEND_FULL) & SEND_FULL != 0,
        (j & 0xF7) & SEND_FULL == 0,
{
    assert((j & 0xFD) & 8 == j & 8) by (bit_vector);
    assert(((x & 0xF5) | (j & 0x0A)) & 8 == j & 8) by (bit_vector);
    assert((j | 8) & 8 != 0) by (bit_vector);
    assert((j & 0xF7) & 8 == 0) by (bit_vector);
}

proof fn lemma_full_stays(s: JOYState, ops: Seq<RegisterOp>)
    requires
        s.joystat & SEND_FULL != 0,
    ensures
        apply_ops(s, ops).joystat & SEND_FULL != 0,
    decreases ops.len(),
{
    if ops.len() > 0 {
        let op = ops[0];
        match op {
            RegisterOp::WriteSafe(x) => lemma_full_bit(s.joystat, x),
            _ => lemma_full_bit(s.joystat, 0),
        }
        lemma_full_stays(apply_op(s, op), ops.drop_first());
    }
}

proof fn lemma_full_from_clear(s: JOYState, ops: Seq<RegisterOp>)
    requires
        s.joystat & SEND_FULL == 0,
    ensures
        (apply_ops(s, ops).joystat & SEND_FULL == 0) == !(exists|i: int|
            0 <= i < ops.len() && writes_send(#[trigger] ops[i])),
    decreases ops.len(),
{
    if ops.len() > 0 {
        let op = ops[0];
        let rest = ops.drop_first();
        match op {
            RegisterOp::WriteSafe(x) => lemma_full_bit(s.joystat, x),
            _ => lemma_full_bit(s.joystat, 0),
        }
        let t = apply_op(s, op);
        if writes_send(op) {
            lemma_full_stays(t, rest);
            assert(writes_send(ops[0]));
        } else {
            lemma_full_from_clear(t, rest);
            if exists|i: int| 0 <= i < ops.len() && writes_send(#[trigger] ops[i]) {
                let i = choose|i: int| 0 <= i < ops.len() && writes_send(#[trigger] ops[i]);
                assert(rest[i - 1] == ops[i]);
            }
            if exists|i: int| 0 <= i < rest.len() && writes_send(#[trigger] rest[i]) {
                let i = choose|i: int| 0 <= i < rest.len() && writes_send(#[trigger] rest[i]);
                assert(ops[i + 1] == rest[i]);
            }
        }
    }
}

/// A safe write of `x` leaves `(x & 0xF5) | (prior & 0x0A)` in the status.
pub proof fn lemma_safe_write(s: JOYState, x: u8)
    ensures
        safe_written(s, x).joystat == (x & 0xF5) | (s.joystat & 0x0A),
{
}

/// After TRANS, whatever run of operations the listener applies, the full
/// bit is clear exactly when none of them wrote the outgoing word.
pub proof fn lemma_send_full_after_trans(s: JOYState, ops: Seq<RegisterOp>)
    ensures
        transmitted(s).joystat & SEND_FULL == 0,
        (apply_ops(transmitted(s), ops).joystat & SEND_FULL == 0) == !(exists|i: int|
            0 <= i < ops.len() && writes_send(#[trigger] ops[i])),
{
    lemma_full_bit(s.joystat, 0);
    lemma_full_from_clear(transmitted(s), ops);
}

/// After RECV the pending bit is set; the next read hands out the four
/// bytes as a little-endian word, marked fresh, and clears the bit.
pub proof fn lemma_recv_then_read(s: JOYState, data: Seq<u8>)
    requires
        data.len() == 4,
    ensures
        latched(s, data).joystat & RECV_PENDING != 0,
        recv_read(latched(s, data)) == (le_word(data) as u32, true),
        drained(latched(s, data)).joystat & RECV_PENDING == 0,
{
    let j = s.joystat;
    assert((j | 2) & 2 != 0) by (bit_vector);
    assert(((j | 2) & 0xFD) & 2 == 0) by (bit_vector);
}

/// A read right after a read, with no RECV between, is not fresh.
pub proof fn lemma_read_twice(s: JOYState)
    ensures
        !recv_read(drained(s)).1,
{
    let j = s.joystat;
    assert((j & 0xFD) & 2 == 0) by (bit_vector);
}

/// Writing a word as bytes and reading it back gives the word.
pub proof fn lemma_le_round_trip(w: u32)
    ensures
        le_word(le_bytes(w)) == w,
{
}

/// What a device behind the engine does when a command arrives. Each
/// callback may read and write the register file.
pub trait JOYListener: Sized {
    /// What `handle_init` may do: from listener `pre` and register file
    /// `ctx` to listener `post` and register file `ctx_post`. By default
    /// nothing is promised.
    open spec fn init_post(pre: Self, ctx: JOYState, post: Self, ctx_post: JOYState) -> bool {
        true
    }

    /// What `handle_reset` may do. By default nothing is promised.
    open spec fn reset_post(pre: Self, ctx: JOYState, post: Self, ctx_post: JOYState) -> bool {
        true
    }

    /// What `on_send` may do. By default nothing is promised.
    open spec fn send_post(pre: Self, ctx: JOYState, post: Self, ctx_post: JOYState) -> bool {
        true
    }

    /// What `on_recv` may do. By default nothing is promised.
    open spec fn recv_post(pre: Self, ctx: JOYState, post: Self, ctx_post: JOYState) -> bool {
        true
    }

    /// What `on_poll` may do. By default nothing is promised.
    open spec fn poll_post(pre: Self, ctx: JOYState, post: Self, ctx_post: JOYState) -> bool {
        true
    }

    /// Fired once, when the engine is created.
    fn handle_init(&mut self, context: &mut JOYState)
        ensures
            Self::init_post(*old(self), *old(context), *final(self), *final(context)),
    ;

    /// Fired on RESET, after the reply was taken.
    fn handle_reset(&mut self, context: &mut JOYState)
        ensures
            Self::reset_post(*old(self), *old(context), *final(self), *final(context)),
    ;

    /// Fired on TRANS, after the reply was taken: the outgoing word is free.
    fn on_send(&mut self, context: &mut JOYState)
        ensures
            Self::send_post(*old(self), *old(context), *final(self), *final(context)),
    ;

    /// Fired on RECV, after the reply was taken: a word waits to be read.
    fn on_recv(&mut self, context: &mut JOYState)
        ensures
            Self::recv_post(*old(self), *old(context), *final(self), *final(context)),
    ;

    /// Fired on POLL, after the reply was taken.
    fn on_poll(&mut self, context: &mut JOYState)
        ensures
            Self::poll_post(*old(self), *old(context), *final(self), *final(context)),
    ;
}

/// The command engine: the register file and the listener it notifies.
pub struct JOYManager<T: JOYListener> {
    state: JOYState,
    consumer: T,
}

impl<T: JOYListener> JOYManager<T> {
    /// The register file as the master would see it.
    pub closed spec fn status(&self) -> JOYState {
        self.state
    }

    /// The listener that the engine notifies.
    pub closed spec fn client(&self) -> T {
        self.consumer
    }

    /// Creates the engine with a zeroed register file and lets the listener
    /// initialise it.
    pub fn new(consumer: T) -> (r: Self)
        ensures
            T::init_post(
                consumer,
                JOYState { joystat: 0, send_buf: 0, recv_buf: 0 },
                r.client(),
                r.status(),
            ),
    {
        let mut state = JOYState::new();
        let mut consumer = consumer;
        consumer.handle_init(&mut state);
        JOYManager { state, consumer }
    }

    /// The register file.
    pub fn state(&self) -> (r: &JOYState)
        ensures
            *r == self.status(),
    {
        &self.state
    }

    /// The listener.
    pub fn listener(&self) -> (r: &T)
        ensures
            *r == self.client(),
    {
        &self.consumer
    }

    /// Processes RESET.
    pub fn reset(&mut self) -> (r: [u8; 3])
        ensures
            r@ == seq![0u8, 4u8, old(self).status().joystat],
            T::reset_post(
                old(self).client(),
                old(self).status(),
                final(self).client(),
                final(self).status(),
            ),
    {
        let ret = self.state.status_reply();
        self.consumer.handle_reset(&mut self.state);
        ret
    }

    /// Processes POLL.
    pub fn poll(&mut self) -> (r: [u8; 3])
        ensures
            r@ == seq![0u8, 4u8, old(self).status().joystat],
            T::poll_post(
                old(self).client(),
                old(self).status(),
                final(self).client(),
                final(self).status(),
            ),
    {
        let ret = self.state.status_reply();
        self.consumer.on_poll(&mut self.state);
        ret
    }

    /// Processes RECV with the four payload bytes.
    pub fn recv(&mut self, data: [u8; 4]) -> (r: [u8; 1])
        ensures
            r@ == seq![old(self).status().joystat | RECV_PENDING],
            T::recv_post(
                old(self).client(),
                latched(old(self).status(), data@),
                final(self).client(),
                final(self).status(),
            ),
    {
        let ret = self.state.latch_recv(data);
        self.consumer.on_recv(&mut self.state);
        ret
    }

    /// Processes TRANS.
    pub fn send(&mut self) -> (r: [u8; 5])
        ensures
            r@ == le_bytes(old(self).status().send_buf).push(old(self).status().joystat & 0xF7),
            transmitted(old(self).status()).joystat & SEND_FULL == 0,
            T::send_post(
                old(self).client(),
                transmitted(old(self).status()),
                final(self).client(),
                final(self).status(),
            ),
    {
        proof {
            lemma_full_bit(self.state.joystat, 0);
        }
        let ret = self.state.emit_trans();
        self.consumer.on_send(&mut self.state);
        ret
    }
}

} // verus!

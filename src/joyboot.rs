//! The multiboot client: a listener that takes the client side of the key
//! exchange, receives the header and the obfuscated body, and decrypts the
//! body into an image of external work RAM.
use vstd::prelude::*;
use crate::joy::{
    le_bytes, le_word, transmitted, u32_to_le, JOYListener, JOYManager, JOYState, SEND_FULL,
};

verus! {

/// Multiplier of the linear-congruential key stream.
pub const LCG_MUL: u32 = 0x6177_614B;

/// Mask applied to the client key before it goes on the wire.
pub const CLIENT_KEY_MASK: u32 = 0x6F64_6573;

/// Constant of the JoyBus transfer type, mixed into every body word.
pub const TRANSFER_TYPE: u32 = 0x2079_6220;

/// Bytes of header that precede the obfuscated body.
pub const HEADER_LEN: u32 = 0xC0;

/// Address at which the image is loaded.
pub const EWRAM_BASE: u32 = 0x0200_0000;

/// Mask of the size field's admissible lengths.
pub const LEN_MASK: u32 = 0x0003_FFF8;

/// Length taken when the master signals that it inhibits booting.
pub const INHIBIT_LEN: u32 = 0x4480;

/// Bytes added to the size field's length.
pub const LEN_TAIL: u32 = 0xC;

/// One step of the key stream: `x * 0x6177614B + 1` modulo 2^32.
pub open spec fn lcg_next(x: u32) -> u32 {
    ((x * 0x6177_614B + 1) % 0x1_0000_0000) as u32
}

/// `n` steps of the key stream from `x`.
pub open spec fn lcg_iter(x: u32, n: nat) -> u32
    decreases n,
{
    if n == 0 {
        x
    } else {
        lcg_next(lcg_iter(x, (n - 1) as nat))
    }
}

/// The client key of a session whose clock read `seed`: the low word of the
/// seed, stepped five times and then as many more as the seed's remainder
/// by 1000.
pub open spec fn client_key_of(seed: u64) -> u32 {
    lcg_iter((seed % 0x1_0000_0000) as u32, (5 + seed % 1000) as nat)
}

/// The eight magic bytes, "Kawasedo".
pub open spec fn magic_bytes() -> Seq<u8> {
    seq![0x4Bu8, 0x61u8, 0x77u8, 0x61u8, 0x73u8, 0x65u8, 0x64u8, 0x6Fu8]
}

/// Where the window of magic bytes starts for a seed: bit 8 of the seed,
/// doubled.
pub open spec fn magic_index_of(seed: u32) -> int {
    if (seed / 0x100) % 2 == 1 {
        2
    } else {
        0
    }
}

/// The session key: the seed XOR the magic window that it selects, read
/// least significant byte first.
pub open spec fn session_key_of(seed: u32) -> u32 {
    let i = magic_index_of(seed);
    seed ^ (le_word(magic_bytes().subrange(i, i + 4)) as u32)
}

/// The size field of a session key before its range check: seven bits from
/// bits 8..15, an eighth from bit 16, seven low bits, plus 0x3F, times 8.
pub open spec fn raw_length_of(k: u32) -> int {
    let a = (k / 0x100) % 0x80 + (if (k / 0x1_0000) % 2 == 1 {
        0x80int
    } else {
        0int
    });
    (a * 0x80 + k % 0x80 + 0x3F) * 8
}

/// Bytes that the master will send for a session key: the size field plus
/// 0xC, or 0x4480 plus 0xC where the size field is out of range.
pub open spec fn payload_len_of(k: u32) -> u32 {
    if raw_length_of(k) <= 0x3_FFF8 {
        (raw_length_of(k) + 0xC) as u32
    } else {
        (0x4480 + 0xC) as u32
    }
}

/// The pointer key of a byte offset: the negated load address, modulo 2^32.
pub open spec fn ptr_key_of(index: int) -> u32 {
    ((-(0x0200_0000 + index)) % 0x1_0000_0000) as u32
}

/// The plain word at word `i` of the body, the key stream seeded by
/// `clientkey`.
pub open spec fn decrypt_word(w: u32, clientkey: u32, i: int) -> u32 {
    w ^ lcg_iter(clientkey, (i - 0x30 + 1) as nat) ^ ptr_key_of(i * 4) ^ 0x2079_6220u32
}

/// The image after decryption: each word from byte 0xC0 up to `datalen`
/// decrypted, the others as they were.
pub open spec fn decrypted(img: Seq<u32>, clientkey: u32, datalen: u32) -> Seq<u32> {
    Seq::new(
        img.len(),
        |i: int|
            if 0x30 <= i && i <= datalen / 4 {
                decrypt_word(img[i], clientkey, i)
            } else {
                img[i]
            },
    )
}

/// One bit step of the checksum.
pub open spec fn crc_round(crc: u32, src: u32, magic: u32) -> u32 {
    if (crc ^ src) & 1 != 0 {
        (crc >> 1) ^ magic
    } else {
        crc >> 1
    }
}

/// `n` bit steps of the checksum, the source shifted right after each.
pub open spec fn crc_rounds(crc: u32, src: u32, magic: u32, n: nat) -> u32
    decreases n,
{
    if n == 0 {
        crc
    } else {
        crc_rounds(crc_round(crc, src, magic), src >> 1, magic, (n - 1) as nat)
    }
}

proof fn lemma_lcg_next(x: u32)
    ensures
        x.wrapping_mul(LCG_MUL).wrapping_add(1) == lcg_next(x),
{
    let p: int = x as int * LCG_MUL as int;
    assert(p >= 0) by (nonlinear_arith)
        requires
            p == x as int * LCG_MUL as int,
    ;
    lemma_wrap_succ(p);
}

proof fn lemma_wrap_succ(p: int)
    requires
        p >= 0,
    ensures
        ({
            let m = p % 0x1_0000_0000;
            (if m + 1 > u32::MAX {
                m + 1 - 0x1_0000_0000
            } else {
                m + 1
            }) == (p + 1) % 0x1_0000_0000
        }),
{
    vstd::arithmetic::div_mod::lemma_add_mod_noop(p, 1, 0x1_0000_0000);
    vstd::arithmetic::div_mod::lemma_mod_bound(p, 0x1_0000_0000);
    vstd::arithmetic::div_mod::lemma_small_mod(1, 0x1_0000_0000);
    let m = p % 0x1_0000_0000;
    if m + 1 < 0x1_0000_0000 {
        vstd::arithmetic::div_mod::lemma_small_mod((m + 1) as nat, 0x1_0000_0000);
    } else {
        vstd::arithmetic::div_mod::lemma_mod_self_0(0x1_0000_0000);
    }
}

proof fn lemma_ptr_key(index: u32)
    ensures
        0u32.wrapping_sub(EWRAM_BASE.wrapping_add(index)) == ptr_key_of(index as int),
{
    let y: int = 0x0200_0000 + index as int;
    let m: int = 0x1_0000_0000;
    if y < m {
        vstd::arithmetic::div_mod::lemma_mod_multiples_vanish(-1, m - y, m);
        assert(m * -1 + (m - y) == -y);
        if y > 0 {
            vstd::arithmetic::div_mod::lemma_small_mod((m - y) as nat, m as nat);
        }
    } else {
        vstd::arithmetic::div_mod::lemma_mod_multiples_vanish(-2, 2 * m - y, m);
        assert(m * -2 + (2 * m - y) == -y);
        if y > m {
            vstd::arithmetic::div_mod::lemma_small_mod((2 * m - y) as nat, m as nat);
        } else {
            vstd::arithmetic::div_mod::lemma_mod_self_0(m);
        }
    }
}

/// Decrypts the body of `ewram` in place: for each byte offset from 0xC0
/// up to `datalen`, steps the key and XORs the word with the key, the
/// pointer key and the transfer type.
pub fn decrypt_image(ewram: &mut Vec<u32>, clientkey: u32, datalen: u32)
    requires
        datalen / 4 < old(ewram).len(),
        datalen < 0xFFFF_FFF0,
    ensures
        final(ewram)@ == decrypted(old(ewram)@, clientkey, datalen),
{
    let ghost target = decrypted(old(ewram)@, clientkey, datalen);
    let mut index: u32 = HEADER_LEN;
    let mut key: u32 = clientkey;
    while index <= datalen
        invariant
            index % 4 == 0,
            0xC0 <= index,
            index == 0xC0 || index <= datalen + 4,
            datalen / 4 < ewram.len(),
            datalen < 0xFFFF_FFF0,
            ewram.len() == old(ewram).len(),
            target == decrypted(old(ewram)@, clientkey, datalen),
            key == lcg_iter(clientkey, ((index - 0xC0) / 4) as nat),
            forall|j: int|
                0 <= j < index / 4 && j < ewram.len() ==> #[trigger] ewram[j] == target[j],
            forall|j: int| index / 4 <= j < ewram.len() ==> #[trigger] ewram[j] == old(ewram)@[j],
        decreases datalen as int + 8 - index as int,
    {
        let ghost n: nat = ((index - 0xC0) / 4) as nat;
        proof {
            lemma_lcg_next(key);
            lemma_ptr_key(index);
        }
        key = key.wrapping_mul(LCG_MUL).wrapping_add(1);
        assert(key == lcg_iter(clientkey, n + 1));
        let ptrkey = 0u32.wrapping_sub(EWRAM_BASE.wrapping_add(index));
        let i = (index / 4) as usize;
        assert(0x30 <= i && i <= datalen / 4);
        assert(n + 1 == i - 0x30 + 1);
        let word = ewram[i] ^ key ^ ptrkey ^ TRANSFER_TYPE;
        assert(word == target[i as int]);
        ewram.set(i, word);
        index = index + 4;
    }
    assert(ewram@ =~= target);
}

/// Decryption is a function of the key, the length and the body alone: two
/// images that agree on the words from byte 0xC0 up to `datalen` decrypt to
/// the same words there, and the header is left as it was.
pub proof fn lemma_decrypt_deterministic(
    a: Seq<u32>,
    b: Seq<u32>,
    clientkey: u32,
    datalen: u32,
)
    requires
        a.len() == b.len(),
        forall|i: int| 0x30 <= i <= datalen / 4 && i < a.len() ==> a[i] == b[i],
    ensures
        forall|i: int|
            0x30 <= i <= datalen / 4 && i < a.len() ==> decrypted(a, clientkey, datalen)[i]
                == decrypted(b, clientkey, datalen)[i],
        forall|i: int|
            0 <= i < 0x30 && i < a.len() ==> decrypted(a, clientkey, datalen)[i] == a[i],
{
}

/// The key stream starts from the client key on every pass, so a second
/// pass with the same key and length gives back the image it was given.
pub proof fn lemma_decrypt_twice(img: Seq<u32>, clientkey: u32, datalen: u32)
    ensures
        decrypted(decrypted(img, clientkey, datalen), clientkey, datalen) == img,
{
    let once = decrypted(img, clientkey, datalen);
    let twice = decrypted(once, clientkey, datalen);
    assert forall|i: int| 0 <= i < img.len() implies twice[i] == img[i] by {
        if 0x30 <= i && i <= datalen / 4 {
            let w = img[i];
            let k = lcg_iter(clientkey, (i - 0x30 + 1) as nat);
            let p = ptr_key_of(i * 4);
            assert(((w ^ k ^ p ^ 0x2079_6220u32) ^ k ^ p ^ 0x2079_6220u32) == w) by (bit_vector);
        }
    }
    assert(twice =~= img);
}

proof fn lemma_length_bits(k: u32)
    ensures
        (k >> 8u32) & 0x7F == (k / 0x100) % 0x80,
        (k & 0x1_0000 != 0) == ((k / 0x1_0000) % 2 == 1),
        k & 0x7F == k % 0x80,
        ((k >> 7u32) & 2 == 2) == ((k / 0x100) % 2 == 1),
        (k >> 7u32) & 2 == 2 || (k >> 7u32) & 2 == 0,
{
    assert((k >> 8u32) & 0x7F == (k / 0x100) % 0x80) by (bit_vector);
    assert((k & 0x1_0000 != 0) == ((k / 0x1_0000) % 2 == 1)) by (bit_vector);
    assert(k & 0x7F == k % 0x80) by (bit_vector);
    assert(((k >> 7u32) & 2 == 2) == ((k / 0x100) % 2 == 1)) by (bit_vector);
    assert((k >> 7u32) & 2 == 2 || (k >> 7u32) & 2 == 0) by (bit_vector);
}

proof fn lemma_pack(a: u32, c: u32)
    requires
        a < 0x100,
        c < 0x80,
    ensures
        (a << 7u32) | c == a * 0x80 + c,
{
    assert((a << 7u32) | c == a * 0x80 + c) by (bit_vector)
        requires
            a < 0x100,
            c < 0x80,
    ;
}

proof fn lemma_scale(b: u32)
    requires
        b < 0x1_0000,
    ensures
        b << 3u32 == b * 8,
        ((b << 3u32) & 0x3_FFF8 == (b << 3u32)) == ((b << 3u32) <= 0x3_FFF8),
{
    assert(b << 3u32 == b * 8) by (bit_vector)
        requires
            b < 0x1_0000,
    ;
    assert(((b << 3u32) & 0x3_FFF8 == (b << 3u32)) == ((b << 3u32) <= 0x3_FFF8)) by (bit_vector)
        requires
            b < 0x1_0000,
    ;
}

/// Every length that a session key gives is a whole number of words, longer
/// than the header, and at most 0x40004 bytes.
pub proof fn lemma_payload_len_range(k: u32)
    ensures
        payload_len_of(k) % 4 == 0,
        0xC0 < payload_len_of(k) <= 0x4_0004,
{
}

/// The eight magic bytes.
pub fn key_magic() -> (r: [u8; 8])
    ensures
        r@ == magic_bytes(),
{
    let r = [0x4Bu8, 0x61u8, 0x77u8, 0x61u8, 0x73u8, 0x65u8, 0x64u8, 0x6Fu8];
    assert(r@ =~= magic_bytes());
    r
}

/// Reads a word from four bytes, least significant byte first.
fn word_at(b: &[u8; 8], i: usize) -> (r: u32)
    requires
        i + 4 <= 8,
    ensures
        r == le_word(b@.subrange(i as int, i + 4)),
{
    let w = [b[i], b[i + 1], b[i + 2], b[i + 3]];
    assert(w@ =~= b@.subrange(i as int, i + 4));
    crate::joy::u32_from_le(w)
}

/// The plain bytes of an image: each word, least significant byte first.
pub open spec fn image_bytes_of(img: Seq<u32>) -> Seq<u8> {
    Seq::new(4 * img.len(), |j: int| le_bytes(img[j / 4])[j % 4])
}

/// The steps of a session.
#[derive(PartialEq, Eq, Structural, Debug, Clone, Copy)]
pub enum JoybootClientState {
    Announce,
    KeyExch,
    RecvHeader,
    RecvObfuscated,
    PostRecv,
    Completed,
}

/// The multiboot client of one session.
pub struct JoybootClient {
    pub state: JoybootClientState,
    /// The key that this session presents to the master.
    pub clientkey: u32,
    /// The received image, one entry per four bytes.
    pub ewram: Vec<u32>,
    /// Bytes that the master sends, header included.
    pub datalen: u32,
    /// Bytes received so far.
    pub readpos: u32,
    /// The key derived from the master's seed.
    pub sessionkey: u32,
}

impl JoybootClient {
    /// While words are being received, the image has room for every one of
    /// them and the position stands on a word within the body.
    pub open spec fn wf(&self) -> bool {
        (self.state == JoybootClientState::RecvHeader || self.state
            == JoybootClientState::RecvObfuscated) ==> {
            &&& self.datalen % 4 == 0
            &&& 0xC0 < self.datalen <= 0x4_0004
            &&& self.ewram.len() == self.datalen / 4 + 4
            &&& self.readpos % 4 == 0
            &&& self.state == JoybootClientState::RecvHeader ==> self.readpos < 0xC0
            &&& self.state == JoybootClientState::RecvObfuscated ==> 0xC0 <= self.readpos
                < self.datalen
        }
    }

    /// A client whose key comes from the clock reading `seed`.
    pub fn new(seed: u64) -> (r: Self)
        ensures
            r.state == JoybootClientState::Announce,
            r.clientkey == client_key_of(seed),
            r.ewram@ == Seq::<u32>::empty(),
            r.datalen == 0,
            r.readpos == 0,
            r.sessionkey == 0,
            r.wf(),
    {
        let x0: u32 = (seed % 0x1_0000_0000) as u32;
        let n: u64 = 5 + seed % 1000;
        let mut x: u32 = x0;
        let mut i: u64 = 0;
        while i < n
            invariant
                i <= n,
                x == lcg_iter(x0, i as nat),
            decreases n - i,
        {
            x = Self::doRandom(x);
            i = i + 1;
        }
        JoybootClient {
            state: JoybootClientState::Announce,
            clientkey: x,
            ewram: Vec::new(),
            datalen: 0,
            readpos: 0,
            sessionkey: 0,
        }
    }

    /// One step of the key stream.
    pub fn doRandom(x: u32) -> (r: u32)
        ensures
            r == lcg_next(x),
    {
        proof {
            lemma_lcg_next(x);
        }
        x.wrapping_mul(LCG_MUL).wrapping_add(1)
    }

    /// Thirty-two bit steps of the checksum over `src`.
    pub fn docrc(crc: u32, src: u32, magic: u32) -> (r: u32)
        ensures
            r == crc_rounds(crc, src, magic, 32),
    {
        let mut c: u32 = crc;
        let mut s: u32 = src;
        let mut i: u32 = 0;
        while i < 32
            invariant
                i <= 32,
                crc_rounds(c, s, magic, (32 - i) as nat) == crc_rounds(crc, src, magic, 32),
            decreases 32 - i,
        {
            let temp = c ^ s;
            c = c >> 1;
            if (temp & 1) != 0 {
                c = c ^ magic;
            }
            s = s >> 1;
            i = i + 1;
        }
        c
    }

    /// Where the window of magic bytes starts for a seed: 0 or 2.
    pub fn magic_index(seed: u32) -> (r: usize)
        ensures
            r == magic_index_of(seed),
            r == 0 || r == 2,
    {
        proof {
            lemma_length_bits(seed);
        }
        ((seed >> 7) & 0x2) as usize
    }

    /// The session key that the master's seed gives.
    pub fn session_key(seed: u32) -> (r: u32)
        ensures
            r == session_key_of(seed),
    {
        let i = Self::magic_index(seed);
        let magic = key_magic();
        seed ^ word_at(&magic, i)
    }

    /// Bytes that the master will send for a session key.
    pub fn payload_length(sessionkey: u32) -> (r: u32)
        ensures
            r == payload_len_of(sessionkey),
    {
        proof {
            lemma_length_bits(sessionkey);
        }
        let mut a: u32 = (sessionkey >> 8) & 0x7F;
        if sessionkey & 0x1_0000 != 0 {
            a = a + 0x80;
        }
        proof {
            lemma_pack(a, sessionkey & 0x7F);
        }
        let b: u32 = ((a << 7) | (sessionkey & 0x7F)) + 0x3F;
        proof {
            lemma_scale(b);
        }
        let b: u32 = b << 3;
        let mut datalen: u32 = b & LEN_MASK;
        if datalen != b {
            datalen = INHIBIT_LEN;
        }
        datalen + LEN_TAIL
    }

    /// Whether the session has ended.
    pub fn is_completed(&self) -> (r: bool)
        ensures
            r == (self.state == JoybootClientState::Completed),
    {
        self.state == JoybootClientState::Completed
    }

    /// Decrypts the body of the image with this session's key.
    pub fn dodecrypt(&mut self)
        requires
            old(self).datalen / 4 < old(self).ewram.len(),
            old(self).datalen < 0xFFFF_FFF0,
        ensures
            final(self).ewram@ == decrypted(
                old(self).ewram@,
                old(self).clientkey,
                old(self).datalen,
            ),
            final(self).state == old(self).state,
            final(self).clientkey == old(self).clientkey,
            final(self).datalen == old(self).datalen,
            final(self).readpos == old(self).readpos,
            final(self).sessionkey == old(self).sessionkey,
    {
        decrypt_image(&mut self.ewram, self.clientkey, self.datalen);
    }

    /// The image as bytes, each word least significant byte first.
    pub fn image_bytes(&self) -> (r: Vec<u8>)
        requires
            self.ewram.len() < 0x1000_0000,
        ensures
            r@ == image_bytes_of(self.ewram@),
    {
        let mut r: Vec<u8> = Vec::new();
        let mut i: usize = 0;
        while i < self.ewram.len()
            invariant
                i <= self.ewram.len() < 0x1000_0000,
                r@ =~= image_bytes_of(self.ewram@.subrange(0, i as int)),
            decreases self.ewram.len() - i,
        {
            let b = u32_to_le(self.ewram[i]);
            r.push(b[0]);
            r.push(b[1]);
            r.push(b[2]);
            r.push(b[3]);
            i = i + 1;
        }
        assert(self.ewram@.subrange(0, self.ewram.len() as int) =~= self.ewram@);
        r
    }
}

proof fn lemma_status_bits(x: u8)
    ensures
        (0x10u8 & 0xF5) | (x & 0x0A) == 0x10 | (x & 0x0A),
        (0x20u8 & 0xF5) | ((x & 0xFD) & 0x0A) == 0x20 | (x & 0x08),
        ((0x00u8 & 0xF5) | (x & 0x0A)) | 0x08 == (x & 0x0A) | 0x08,
{
    assert((0x10u8 & 0xF5) | (x & 0x0A) == 0x10 | (x & 0x0A)) by (bit_vector);
    assert((0x20u8 & 0xF5) | ((x & 0xFD) & 0x0A) == 0x20 | (x & 0x08)) by (bit_vector);
    assert(((0x00u8 & 0xF5) | (x & 0x0A)) | 0x08 == (x & 0x0A) | 0x08) by (bit_vector);
}

/// With this client as listener, the full bit is clear after TRANS: its
/// `on_send` never writes the outgoing word, so the bit that the engine
/// cleared stays clear.
pub proof fn lemma_trans_leaves_send_clear(
    m: JOYManager<JoybootClient>,
    m2: JOYManager<JoybootClient>,
)
    requires
        JoybootClient::send_post(m.client(), transmitted(m.status()), m2.client(), m2.status()),
    ensures
        m2.status().joystat & SEND_FULL == 0,
{
    let j = m.status().joystat;
    assert((j & 0xF7) & 0x08 == 0) by (bit_vector);
    assert((0x10 | ((j & 0xF7) & 0x0A)) & 0x08 == 0) by (bit_vector);
}

impl JOYListener for JoybootClient {
    open spec fn poll_post(pre: Self, ctx: JOYState, post: Self, ctx_post: JOYState) -> bool {
        post == pre && ctx_post == ctx
    }

    open spec fn init_post(pre: Self, ctx: JOYState, post: Self, ctx_post: JOYState) -> bool {
        &&& (pre.state == JoybootClientState::Announce ==> {
            &&& post.state == JoybootClientState::KeyExch
            &&& ctx_post.send_buf == 0
            &&& ctx_post.joystat == ctx.joystat | 0x08
        })
        &&& (pre.state != JoybootClientState::Announce ==> {
            &&& post.state == pre.state
            &&& ctx_post == ctx
        })
        &&& (post.clientkey == pre.clientkey)
        &&& (post.ewram == pre.ewram)
        &&& (post.datalen == pre.datalen)
        &&& (post.readpos == pre.readpos)
        &&& (post.sessionkey == pre.sessionkey)
        &&& (ctx_post.recv_buf == ctx.recv_buf)
        &&& (pre.wf() ==> post.wf())
    }

    open spec fn reset_post(pre: Self, ctx: JOYState, post: Self, ctx_post: JOYState) -> bool {
        &&& (pre.state != JoybootClientState::Completed ==> {
            &&& post.state == JoybootClientState::KeyExch
            &&& ctx_post.send_buf == pre.clientkey ^ CLIENT_KEY_MASK
            &&& ctx_post.joystat == 0x10 | ((ctx.joystat | 0x08) & 0x0A)
        })
        &&& (pre.state == JoybootClientState::Completed ==> {
            &&& post.state == pre.state
            &&& ctx_post == ctx
        })
        &&& (post.clientkey == pre.clientkey)
        &&& (post.ewram == pre.ewram)
        &&& (post.datalen == pre.datalen)
        &&& (post.readpos == pre.readpos)
        &&& (post.sessionkey == pre.sessionkey)
        &&& (ctx_post.recv_buf == ctx.recv_buf)
        &&& (post.wf())
    }

    open spec fn send_post(pre: Self, ctx: JOYState, post: Self, ctx_post: JOYState) -> bool {
        &&& (pre.state == JoybootClientState::KeyExch ==> {
            &&& post.state == JoybootClientState::KeyExch
            &&& ctx_post.joystat == 0x10 | (ctx.joystat & 0x0A)
        })
        &&& (pre.state == JoybootClientState::PostRecv ==> {
            &&& post.state == JoybootClientState::Completed
            &&& ctx_post.joystat == ctx.joystat
        })
        &&& (pre.state != JoybootClientState::KeyExch && pre.state
            != JoybootClientState::PostRecv ==> {
            &&& post.state == pre.state
            &&& ctx_post.joystat == ctx.joystat
        })
        &&& (post.clientkey == pre.clientkey)
        &&& (post.ewram == pre.ewram)
        &&& (post.datalen == pre.datalen)
        &&& (post.readpos == pre.readpos)
        &&& (post.sessionkey == pre.sessionkey)
        &&& (ctx_post.send_buf == ctx.send_buf)
        &&& (ctx_post.recv_buf == ctx.recv_buf)
        &&& (pre.wf() ==> post.wf())
    }

    open spec fn recv_post(pre: Self, ctx: JOYState, post: Self, ctx_post: JOYState) -> bool {
        &&& (pre.state == JoybootClientState::KeyExch ==> ({
            let k = session_key_of(ctx.recv_buf);
            let len = payload_len_of(k);
            &&& post.state == JoybootClientState::RecvHeader
            &&& post.sessionkey == k
            &&& post.datalen == len
            &&& post.readpos == 0
            &&& post.ewram@ == Seq::new((len / 4 + 4) as nat, |i: int| 0u32)
            &&& ctx_post.joystat == 0x20 | (ctx.joystat & 0x08)
            &&& ctx_post.send_buf == ctx.send_buf
        }))
        &&& (pre.wf() && (pre.state == JoybootClientState::RecvHeader || pre.state
            == JoybootClientState::RecvObfuscated) ==> ({
            let pos = pre.readpos + 4;
            let len = pre.datalen;
            let stored = pre.ewram@.update(
                (pre.readpos / 4) as int,
                ctx.recv_buf,
            );
            let toggled = (ctx.joystat & 0xFD) ^ 0x10;
            &&& post.readpos == pos
            &&& post.datalen == pre.datalen
            &&& post.sessionkey == pre.sessionkey
            &&& pre.state == JoybootClientState::RecvHeader ==> {
                &&& post.ewram@ == stored
                &&& ctx_post.joystat == toggled
                &&& ctx_post.send_buf == ctx.send_buf
                &&& post.state == (if pos >= 0xC0 {
                    JoybootClientState::RecvObfuscated
                } else {
                    JoybootClientState::RecvHeader
                })
            }
            &&& pre.state == JoybootClientState::RecvObfuscated && pos < len ==> {
                &&& post.ewram@ == stored
                &&& ctx_post.joystat == toggled
                &&& ctx_post.send_buf == ctx.send_buf
                &&& post.state == JoybootClientState::RecvObfuscated
            }
            &&& pre.state == JoybootClientState::RecvObfuscated && pos >= len ==> {
                &&& post.ewram@ == decrypted(
                    stored,
                    pre.clientkey,
                    pre.datalen,
                )
                &&& ctx_post.joystat == (toggled & 0x0A) | 0x08
                &&& ctx_post.send_buf == 0
                &&& post.state == JoybootClientState::PostRecv
            }
        }))
        &&& (pre.state == JoybootClientState::Announce || pre.state
            == JoybootClientState::PostRecv || pre.state == JoybootClientState::Completed
            ==> post == pre && ctx_post == ctx)
        &&& (post.clientkey == pre.clientkey)
        &&& (ctx_post.recv_buf == ctx.recv_buf)
        &&& (pre.wf() ==> post.wf())
    }

    /// Announces the client with an empty outgoing word and waits for the
    /// key exchange.
    fn handle_init(&mut self, context: &mut JOYState)
    {
        if self.state == JoybootClientState::Announce {
            context.write_send_buf(0);
            self.state = JoybootClientState::KeyExch;
        }
    }

    /// Presents the masked client key and restarts the key exchange; a
    /// completed session ignores it.
    fn handle_reset(&mut self, context: &mut JOYState)
    {
        proof {
            lemma_status_bits(context.joystat | 0x08);
        }
        if self.state != JoybootClientState::Completed {
            context.write_send_buf(self.clientkey ^ CLIENT_KEY_MASK);
            context.write_joy_safe(0x10);
            self.state = JoybootClientState::KeyExch;
        }
    }

    /// In the key exchange, acknowledges that the client key went out; after
    /// the body, completes the session.
    fn on_send(&mut self, context: &mut JOYState)
    {
        proof {
            lemma_status_bits(context.joystat);
        }
        match self.state {
            JoybootClientState::KeyExch => {
                context.write_joy_safe(0x10);
            },
            JoybootClientState::PostRecv => {
                self.state = JoybootClientState::Completed;
            },
            _ => {},
        }
    }

    /// Takes the master's seed in the key exchange, and the header and body
    /// words after it.
    /// Polls are answered by the engine alone.
    fn on_poll(&mut self, context: &mut JOYState) {
    }

    fn on_recv(&mut self, context: &mut JOYState)
    {
        match self.state {
            JoybootClientState::KeyExch => {
                proof {
                    lemma_status_bits(context.joystat);
                }
                let seed = context.read_recv_buf().0;
                let sessionkey = Self::session_key(seed);
                let datalen = Self::payload_length(sessionkey);
                proof {
                    lemma_payload_len_range(sessionkey);
                }
                let words: usize = (datalen / 4) as usize + 4;
                let mut ewram: Vec<u32> = Vec::new();
                while ewram.len() < words
                    invariant
                        ewram.len() <= words,
                        forall|j: int| 0 <= j < ewram.len() ==> #[trigger] ewram[j] == 0u32,
                    decreases words - ewram.len(),
                {
                    ewram.push(0);
                }
                assert(ewram@ =~= Seq::new((datalen / 4 + 4) as nat, |i: int| 0u32));
                self.sessionkey = sessionkey;
                self.datalen = datalen;
                self.ewram = ewram;
                self.readpos = 0;
                self.state = JoybootClientState::RecvHeader;
                context.write_joy_safe(0x20);
            },
            JoybootClientState::RecvHeader | JoybootClientState::RecvObfuscated => {
                let idx = (self.readpos / 4) as usize;
                if idx >= self.ewram.len() || self.datalen >= 0xFFFF_0000 || self.readpos
                    >= 0xFFFF_0000 {
                    return ;
                }
                let data = context.read_recv_buf().0;
                context.joystat = context.joystat ^ 0x10;
                self.ewram.set(idx, data);
                self.readpos = self.readpos + 4;
                if self.state == JoybootClientState::RecvHeader {
                    if self.readpos >= HEADER_LEN {
                        self.state = JoybootClientState::RecvObfuscated;
                    }
                } else if self.readpos >= self.datalen {
                    if (self.datalen / 4) as usize >= self.ewram.len() {
                        return ;
                    }
                    proof {
                        lemma_status_bits(context.joystat);
                    }
                    self.dodecrypt();
                    context.write_joy_safe(0x00);
                    context.write_send_buf(0);
                    self.state = JoybootClientState::PostRecv;
                }
            },
            _ => {},
        }
    }
}

} // verus!

use joyboot::joyboot::{decrypt_image, JoybootClient, JoybootClientState};
use joyboot::{JOYListener, JOYManager, JOYState};

fn client_with(clientkey: u32) -> JoybootClient {
    JoybootClient {
        state: JoybootClientState::KeyExch,
        clientkey,
        ewram: Vec::new(),
        datalen: 0,
        readpos: 0,
        sessionkey: 0,
    }
}

#[test]
fn magic_index_is_zero_or_two() {
    for seed in [0u32, 0x100, 0x80, 0x200, 0xFFFF_FFFF, 0xDFC1_F5D7, 0x1234_5678] {
        let i = JoybootClient::magic_index(seed);
        assert!(i == 0 || i == 2);
        assert_eq!(i as u32, (seed >> 7) & 0x2);
    }
    assert_eq!(JoybootClient::magic_index(0x100), 2);
    assert_eq!(JoybootClient::magic_index(0x200), 0);
}

#[test]
fn key_exchange_length() {
    let seed = 0xDFC1_F5D7u32;
    assert_eq!(JoybootClient::magic_index(seed), 2);
    let k = JoybootClient::session_key(seed);
    assert_eq!(k, seed ^ 0x6573_6177);
    assert_eq!(k, 0xBAB2_94A0);
    assert_eq!(JoybootClient::payload_length(k), 0x5304);
    assert_eq!(JoybootClient::session_key(0x6573_6177), 0);
    assert_eq!(JoybootClient::payload_length(0), 0x204);
    assert_eq!(JoybootClient::session_key(0), 0x6177_614B);
}

#[test]
fn boot_inhibit_clamps_length() {
    assert_eq!(JoybootClient::payload_length(0x0001_FFFF), 0x448C);
    assert_eq!(JoybootClient::payload_length(0xFFFF_FFFF), 0x448C);
    assert_eq!(JoybootClient::payload_length(0x0001_FF40), 0x3_FFF8 + 0xC);
}

#[test]
fn decryption_fixed_point() {
    let clientkey = 0xD4CC_95B4u32;
    let mut ewram = vec![0u32; 0xC4 / 4 + 4];
    ewram[0x2F] = 0x1111_1111;
    decrypt_image(&mut ewram, clientkey, 0xC4);
    let k1 = clientkey.wrapping_mul(0x6177_614B).wrapping_add(1);
    assert_eq!(k1, 0xA755_0FBD);
    let expected = 0 ^ k1 ^ (0x0200_00C0u32).wrapping_neg() ^ 0x2079_6220;
    assert_eq!(ewram[0x30], expected);
    assert_eq!(ewram[0x30], 0x7AD3_92DD);
    assert_eq!(ewram[0x31], 0xF33B_A47C);
    assert_eq!(ewram[0x2F], 0x1111_1111);
    assert_eq!(ewram[0x32], 0);
}

#[test]
fn decryption_twice_restores() {
    let mut c = client_with(0x1357_9BDF);
    c.datalen = 0xD0;
    c.ewram = (0..(0xD0 / 4 + 4)).map(|i| i as u32 * 0x0101_0101).collect();
    let plain = c.ewram.clone();
    c.dodecrypt();
    assert_ne!(c.ewram, plain);
    assert_eq!(c.ewram[..0x30], plain[..0x30]);
    c.dodecrypt();
    assert_eq!(c.ewram, plain);
}

#[test]
fn random_and_crc() {
    assert_eq!(JoybootClient::doRandom(0xD4CC_95B4), 0xA755_0FBD);
    assert_eq!(JoybootClient::doRandom(0), 1);
    assert_eq!(JoybootClient::docrc(0, 1, 0xEDB8_8320), 0xB8BC_6765);
    assert_eq!(JoybootClient::docrc(0xFFFF_FFFF, 0x1234_5678, 0xA1E6_E04E), 0xA897_DA47);
    assert_eq!(JoybootClient::docrc(0, 0, 0xEDB8_8320), 0);
}

#[test]
fn client_key_from_seed() {
    let c = JoybootClient::new(1_234_567);
    assert_eq!(c.clientkey, 0x0589_C6FF);
    assert_eq!(c.state, JoybootClientState::Announce);
    assert_ne!(JoybootClient::new(1).clientkey, JoybootClient::new(2).clientkey);
}

#[test]
fn init_and_reset_present_key() {
    let mut m = JOYManager::new(JoybootClient::new(7));
    assert_eq!(m.state().send_buf, 0);
    assert_eq!(m.state().joystat, 0x08);
    assert_eq!(m.listener().state, JoybootClientState::KeyExch);
    let key = m.listener().clientkey;
    assert_eq!(m.reset(), [0, 4, 0x08]);
    assert_eq!(m.state().send_buf, key ^ 0x6F64_6573);
    assert_eq!(m.state().joystat, 0x18);
    let sent = m.send();
    assert_eq!(sent, [
        (key ^ 0x6F64_6573) as u8,
        ((key ^ 0x6F64_6573) >> 8) as u8,
        ((key ^ 0x6F64_6573) >> 16) as u8,
        ((key ^ 0x6F64_6573) >> 24) as u8,
        0x10
    ]);
    assert_eq!(m.state().joystat, 0x10);
}

#[test]
fn image_bytes_little_endian() {
    let mut c = client_with(0);
    c.ewram = vec![0x1234_5678, 0xA1B2_C3D4];
    assert_eq!(c.image_bytes(), vec![0x78, 0x56, 0x34, 0x12, 0xD4, 0xC3, 0xB2, 0xA1]);
}

#[test]
fn full_session_completes_once() {
    let mut m = JOYManager::new(JoybootClient::new(99));
    m.reset();
    m.send();
    let seed = 0x6573_6177u32;
    let b = seed.to_le_bytes();
    assert_eq!(m.recv(b), [0x12]);
    assert_eq!(m.listener().state, JoybootClientState::RecvHeader);
    assert_eq!(m.listener().datalen, 0x204);
    assert_eq!(m.listener().ewram.len(), 0x204 / 4 + 4);
    assert_eq!(m.state().joystat, 0x20);
    let words = 0x204 / 4;
    for i in 0..words {
        let w = 0x1000_0000u32 + i as u32;
        m.recv(w.to_le_bytes());
        if i + 1 < words {
            assert!(!m.listener().is_completed());
            assert_ne!(m.listener().state, JoybootClientState::PostRecv);
        }
        if i + 1 == 0x30 {
            assert_eq!(m.listener().state, JoybootClientState::RecvObfuscated);
        }
    }
    assert_eq!(m.listener().state, JoybootClientState::PostRecv);
    assert_eq!(m.listener().readpos, 0x204);
    assert_eq!(m.listener().ewram[0], 0x1000_0000);
    assert_eq!(m.listener().ewram[0x2F], 0x1000_002F);
    assert_ne!(m.listener().ewram[0x30], 0x1000_0030);
    assert_eq!(m.state().send_buf, 0);
    assert_eq!(m.state().joystat & 0x08, 0x08);
    assert_eq!(m.state().joystat & 0xF5, 0);
    assert!(!m.listener().is_completed());
    m.send();
    assert!(m.listener().is_completed());
    let image = m.listener().ewram.clone();
    m.send();
    m.recv([1, 2, 3, 4]);
    m.reset();
    assert!(m.listener().is_completed());
    assert_eq!(m.listener().ewram, image);
}

#[test]
fn stray_words_are_ignored_before_key_exchange() {
    let mut c = JoybootClient::new(3);
    let mut s = JOYState { joystat: 0x02, send_buf: 0, recv_buf: 5 };
    c.on_recv(&mut s);
    assert_eq!(c.state, JoybootClientState::Announce);
    assert_eq!(s.joystat, 0x02);
    c.on_send(&mut s);
    assert_eq!(c.state, JoybootClientState::Announce);
}

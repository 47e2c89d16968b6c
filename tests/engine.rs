use joyboot::dolphin::{i32_from_be, ConnectionState, DolphinSession};
use joyboot::joy::{u32_from_le, u32_to_le};
use joyboot::{JOYCMD, JOYListener, JOYManager, JOYState};

struct Stub;

impl JOYListener for Stub {
    fn handle_init(&mut self, _context: &mut JOYState) {}
    fn handle_reset(&mut self, _context: &mut JOYState) {}
    fn on_poll(&mut self, _context: &mut JOYState) {}
    fn on_send(&mut self, _context: &mut JOYState) {}
    fn on_recv(&mut self, _context: &mut JOYState) {}
}

struct Echo;

impl JOYListener for Echo {
    fn handle_init(&mut self, _context: &mut JOYState) {}
    fn handle_reset(&mut self, _context: &mut JOYState) {}
    fn on_poll(&mut self, _context: &mut JOYState) {}
    fn on_send(&mut self, _context: &mut JOYState) {}
    fn on_recv(&mut self, context: &mut JOYState) {
        let word = context.recv_buf;
        context.write_send_buf(word);
    }
}

struct Refill;

impl JOYListener for Refill {
    fn handle_init(&mut self, _context: &mut JOYState) {}
    fn handle_reset(&mut self, _context: &mut JOYState) {}
    fn on_poll(&mut self, _context: &mut JOYState) {}
    fn on_send(&mut self, context: &mut JOYState) {
        context.write_send_buf(0xAABBCCDD);
    }
    fn on_recv(&mut self, _context: &mut JOYState) {}
}

fn state(joystat: u8) -> JOYState {
    JOYState { joystat, send_buf: 0, recv_buf: 0 }
}

#[test]
fn safe_write_keeps_engine_bits() {
    for prior in [0x00u8, 0x02, 0x08, 0x0A, 0xFF, 0x5D] {
        for x in [0x00u8, 0x10, 0x20, 0xFF, 0x0A, 0x35] {
            let mut s = state(prior);
            s.write_joy_safe(x);
            assert_eq!(s.joystat, (x & 0xF5) | (prior & 0x0A));
        }
    }
    let mut s = state(0x0A);
    s.write_joy_safe(0x00);
    assert_eq!(s.joystat, 0x0A);
    let mut s = state(0x00);
    s.write_joy_safe(0xFF);
    assert_eq!(s.joystat, 0xF5);
}

#[test]
fn write_send_reports_overwrite() {
    let mut s = state(0);
    assert!(s.write_send_buf(7));
    assert_eq!(s.joystat, 0x08);
    assert_eq!(s.send_buf, 7);
    assert!(!s.write_send_buf(9));
    assert_eq!(s.send_buf, 9);
}

#[test]
fn try_write_send_only_when_empty() {
    let mut s = state(0);
    assert!(s.try_write_send(1));
    assert_eq!(s.send_buf, 1);
    assert!(!s.try_write_send(2));
    assert_eq!(s.send_buf, 1);
    assert_eq!(s.joystat, 0x08);
}

#[test]
fn trans_clears_send_full_unless_listener_refills() {
    let mut s = JOYState { joystat: 0x08, send_buf: 5, recv_buf: 0 };
    let r = s.emit_trans();
    assert_eq!(r, [5, 0, 0, 0, 0x00]);
    assert_eq!(s.joystat & 0x08, 0);

    let mut m = JOYManager::new(Refill);
    let r = m.send();
    assert_eq!(r, [0, 0, 0, 0, 0]);
    assert_eq!(m.state().joystat & 0x08, 0x08);
    let r = m.send();
    assert_eq!(r, [0xDD, 0xCC, 0xBB, 0xAA, 0x00]);
}

#[test]
fn recv_then_read_is_fresh() {
    let mut m = JOYManager::new(Stub);
    let r = m.recv([0x78, 0x56, 0x34, 0x12]);
    assert_eq!(r, [0x02]);
    assert_eq!(m.state().joystat & 0x02, 0x02);
    let mut s = JOYState { joystat: m.state().joystat, send_buf: 0, recv_buf: m.state().recv_buf };
    assert_eq!(s.read_recv_buf(), (0x12345678, true));
    assert_eq!(s.joystat & 0x02, 0);
}

#[test]
fn read_twice_is_stale() {
    let mut s = JOYState { joystat: 0x02, send_buf: 0, recv_buf: 44 };
    assert_eq!(s.read_recv_buf(), (44, true));
    assert_eq!(s.read_recv_buf(), (44, false));
}

#[test]
fn empty_session_reset() {
    let mut m = JOYManager::new(Stub);
    assert_eq!(m.reset(), [0x00, 0x04, 0x00]);
    assert_eq!(m.state().joystat, 0);
    assert_eq!(m.state().send_buf, 0);
    assert_eq!(m.state().recv_buf, 0);
    assert_eq!(m.poll(), [0x00, 0x04, 0x00]);
}

#[test]
fn recv_then_trans_round_trip() {
    let mut m = JOYManager::new(Echo);
    assert_eq!(m.recv([0x78, 0x56, 0x34, 0x12]), [0x02]);
    assert_eq!(m.state().send_buf, 0x12345678);
    assert_eq!(m.state().joystat, 0x0A);
    assert_eq!(m.send(), [0x78, 0x56, 0x34, 0x12, 0x02]);
    assert_eq!(m.state().joystat, 0x02);
}

#[test]
fn opcodes_decode() {
    assert_eq!(JOYCMD::from_u8(0xFF), Some(JOYCMD::JOY_RESET));
    assert_eq!(JOYCMD::from_u8(0x00), Some(JOYCMD::JOY_POLL));
    assert_eq!(JOYCMD::from_u8(0x14), Some(JOYCMD::JOY_TRANS));
    assert_eq!(JOYCMD::from_u8(0x15), Some(JOYCMD::JOY_RECV));
    assert_eq!(JOYCMD::from_u8(0x16), None);
    assert_eq!(JOYCMD::JOY_TRANS.code(), 0x14);
    assert_eq!(JOYCMD::JOY_RECV.payload_len(), 4);
    assert_eq!(JOYCMD::JOY_POLL.payload_len(), 0);
    assert_eq!(JOYCMD::JOY_RESET.bits_on_line(), 32);
    assert_eq!(JOYCMD::JOY_POLL.bits_on_line(), 32);
    assert_eq!(JOYCMD::JOY_TRANS.bits_on_line(), 48);
    assert_eq!(JOYCMD::JOY_RECV.bits_on_line(), 48);
}

#[test]
fn byte_order() {
    assert_eq!(u32_from_le([0x78, 0x56, 0x34, 0x12]), 0x12345678);
    assert_eq!(u32_to_le(0x12345678), [0x78, 0x56, 0x34, 0x12]);
    assert_eq!(i32_from_be([0xFF, 0xFF, 0xFF, 0xFE]), -2);
    assert_eq!(i32_from_be([0x00, 0x01, 0x00, 0x00]), 0x10000);
    assert_eq!(i32_from_be([0x80, 0x00, 0x00, 0x00]), i32::MIN);
}

#[test]
fn bridge_without_engine_replies_zeros() {
    let mut b: DolphinSession<Stub> = DolphinSession::new(None);
    assert_eq!(b.phase, ConnectionState::WaitFirstClock);
    b.begin();
    assert_eq!(b.phase, ConnectionState::WaitClock);
    b.take_clock([0, 0, 0, 10]);
    assert_eq!(b.phase, ConnectionState::WaitCommand);
    assert_eq!(b.clock_slice, 10);
    assert_eq!(b.process_command(0x14, [0; 4]), Some(vec![0, 0, 0, 0, 0]));
    assert_eq!(b.phase, ConnectionState::WaitClock);
    b.take_clock([0, 0, 0, 1]);
    assert_eq!(b.process_command(0xFF, [0; 4]), Some(vec![0, 4, 0]));
    b.take_clock([0, 0, 0, 1]);
    assert_eq!(b.process_command(0x15, [1, 2, 3, 4]), Some(vec![0]));
}

#[test]
fn bridge_skips_unknown_opcode() {
    let mut b = DolphinSession::new(Some(JOYManager::new(Echo)));
    b.begin();
    b.take_clock([0, 0, 0, 0]);
    assert_eq!(b.process_command(0x42, [0; 4]), None);
    assert_eq!(b.phase, ConnectionState::WaitCommand);
    assert_eq!(b.process_command(0x15, [0x78, 0x56, 0x34, 0x12]), Some(vec![0x02]));
    b.take_clock([0, 0, 0, 0]);
    assert_eq!(b.process_command(0x14, [0; 4]), Some(vec![0x78, 0x56, 0x34, 0x12, 0x02]));
}

#[test]
fn bridge_clock_wraps_and_lags() {
    let mut b: DolphinSession<Stub> = DolphinSession::new(None);
    b.begin();
    b.take_clock([0x7F, 0xFF, 0xFF, 0xFF]);
    assert_eq!(b.clock_slice, i32::MAX);
    b.process_command(0x00, [0; 4]);
    b.take_clock([0, 0, 0, 1]);
    assert_eq!(b.clock_slice, i32::MIN);
    assert!(b.falling_behind());
    let mut c: DolphinSession<Stub> = DolphinSession::new(None);
    c.begin();
    c.take_clock([0xFF, 0xEE, 0xDA, 0x00]);
    assert_eq!(c.clock_slice, -1123840);
    assert!(c.falling_behind());
    let mut d: DolphinSession<Stub> = DolphinSession::new(None);
    d.begin();
    assert!(!d.falling_behind());
}

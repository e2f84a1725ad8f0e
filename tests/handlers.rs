use kekbit::api::{EncoderHandler, Encodable, Handler};
use kekbit::handlers::{ChainedHandler, SequenceHandler, TimestampHandler};
use kekbit::sink::KekWrite;
use kekbit::tick::TickUnit;
use std::convert::TryInto;

fn word(bytes: &[u8], i: usize) -> [u8; 8] {
    bytes[i * 8..i * 8 + 8].try_into().unwrap()
}

#[test]
fn test_ts_handler() {
    let tick = TickUnit::Nanos;
    let mut ts_handler = TimestampHandler::new(tick);
    let before = tick.nix_time();
    let c = &mut KekWrite::new(1000);
    ts_handler.handle(&"Doesn't matter".to_string(), c).unwrap();
    ts_handler.handle(&"Doesn't matter".to_string(), c).unwrap();
    ts_handler.handle(&"Doesn't matter".to_string(), c).unwrap();
    let after = tick.nix_time();
    for i in 0..3 {
        let ts = u64::from_le_bytes(word(c.bytes(), i));
        assert!(ts > before);
        assert!(ts < after);
    }
}

#[test]
fn test_seq_handler() {
    let mut seq_handler = SequenceHandler::new(47);
    assert_eq!(seq_handler.seq(), 47);
    let expected = vec![48, 49, 50];
    let c = &mut KekWrite::new(1000);
    seq_handler.handle(&"Doesn't matter".to_string(), c).unwrap();
    seq_handler.handle(&"Doesn't matter".to_string(), c).unwrap();
    seq_handler.handle(&"Doesn't matter".to_string(), c).unwrap();
    for i in 0..3 {
        let id = u64::from_le_bytes(word(c.bytes(), i));
        assert_eq!(id, expected[i]);
    }
    assert_eq!(seq_handler.seq(), 50);
    let seq_handler_def = SequenceHandler::default();
    assert_eq!(seq_handler_def.seq(), 0);
}

struct IdHandler {
    id: u64,
}

impl Handler for IdHandler {
    fn incoming<E: Encodable>(&mut self, _data: &E, w: &mut KekWrite) -> std::io::Result<usize> {
        w.write(&self.id.to_le_bytes()[..])
    }

    fn outgoing<E: Encodable>(&mut self, _data: &E, w: &mut KekWrite) -> std::io::Result<usize> {
        w.write(&self.id.to_le_bytes()[..])
    }
}

#[derive(Default)]
struct InHandler {}

impl Handler for InHandler {
    fn incoming<E: Encodable>(&mut self, _data: &E, w: &mut KekWrite) -> std::io::Result<usize> {
        w.write(&(-1i64).to_le_bytes()[..])
    }
}

#[derive(Default)]
struct OutHandler {}

impl Handler for OutHandler {
    fn outgoing<E: Encodable>(&mut self, _data: &E, w: &mut KekWrite) -> std::io::Result<usize> {
        w.write(&(-1i64).to_le_bytes()[..])
    }
}

#[test]
fn test_chain() {
    let h1 = IdHandler { id: 1 };
    let h2 = IdHandler { id: 2 };
    let l1 = ChainedHandler::link(h1, h2);
    let h3 = IdHandler { id: 3 };
    let l2 = ChainedHandler::link(l1, h3);
    let h4 = InHandler::default();
    let l3 = ChainedHandler::link(l2, h4);
    let h5 = OutHandler::default();
    let mut chain = ChainedHandler::link(l3, h5);
    let c = &mut KekWrite::new(1000);
    chain.handle(&"Doesn't matter".to_string(), c).unwrap();
    let expected = vec![-1, 3, 2, 1, 1, 2, 3, -1];
    for i in 0..8 {
        let id = i64::from_le_bytes(word(c.bytes(), i));
        assert_eq!(id, expected[i]);
    }
}

#[test]
fn check_ts() {
    let mut ts = TimestampHandler::new(TickUnit::Millis);
    let c = &mut KekWrite::new(8);
    assert_eq!(ts.incoming(&"x".to_string(), c).unwrap(), 8);
    assert_eq!(c.total(), 8);
}

#[test]
fn chain_around_encoder() {
    let mut chain = ChainedHandler::link(EncoderHandler::default(), SequenceHandler::new(0));
    let c = &mut KekWrite::new(1000);
    chain.handle(&"abc".to_string(), c).unwrap();
    assert_eq!(c.bytes(), &[1, 0, 0, 0, 0, 0, 0, 0, b'a', b'b', b'c']);
}

#[test]
fn encoder_overflow_latches_sink() {
    let mut h = EncoderHandler::default();
    let c = &mut KekWrite::new(4);
    let r = h.handle(&"hello".to_string(), c);
    assert_eq!(r.unwrap_err().kind(), std::io::ErrorKind::WriteZero);
    assert!(c.failed());
    assert_eq!(c.total(), 0);
}

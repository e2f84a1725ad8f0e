use kekbit::api::{EncoderHandler, ReadError, Reader, WriteError};
use kekbit::framing::{align, CLOSE, FOOTER_LEN, REC_HEADER_LEN, WATERMARK};
use kekbit::handlers::SequenceHandler;
use kekbit::image::{load_marker, publish, publish_close, store_marker};
use kekbit::metadata::Metadata;
use kekbit::reader::{poll, remaining_hint, to_item, ChannelReader, ReadResult, ReadStep, TimeoutReader, END_OF_TIME};
use kekbit::storage::{check_create, check_open, lock_path, storage_path};
use kekbit::api::ChannelError;
use kekbit::tick::TickUnit::{Millis, Nanos};
use kekbit::writer::ChannelWriter;
use std::cell::RefCell;
use std::rc::Rc;

const FOREVER: u64 = 99_999_999_999;
const TXT: &str = "There are 10 kinds of people: those who know binary and those who don't";

type Region = Rc<RefCell<Vec<u8>>>;

struct Channel {
    writer: ChannelWriter<EncoderHandler>,
    region: Region,
}

impl Channel {
    fn create(metadata: Metadata) -> Channel {
        let len = (metadata.capacity() + FOOTER_LEN) as usize;
        let region = Rc::new(RefCell::new(vec![0u8; len]));
        store_marker(&mut region.borrow_mut(), 0, WATERMARK);
        Channel { writer: ChannelWriter::new(metadata, EncoderHandler::default()), region }
    }

    fn write(&mut self, data: &[u8]) -> Result<u32, WriteError> {
        let p = self.writer.write(&data)?;
        publish(&mut self.region.borrow_mut(), p, self.writer.payload());
        Ok(p.size)
    }

    fn close(&mut self) {
        let at = self.writer.close();
        publish_close(&mut self.region.borrow_mut(), at);
    }

    fn reader(&self) -> MemReader {
        MemReader { cursor: ChannelReader::new(*self.writer.metadata()), region: self.region.clone() }
    }
}

struct MemReader {
    cursor: ChannelReader,
    region: Region,
}

impl Reader for MemReader {
    fn try_read<'a>(&mut self) -> Result<Option<&'a [u8]>, ReadError> {
        let region = self.region.borrow();
        let marker = load_marker(&region, self.cursor.position() as usize);
        match self.cursor.on_marker(marker) {
            ReadStep::Record { offset, len } => {
                let rec = region[offset as usize..(offset + len) as usize].to_vec();
                Ok(Some(Box::leak(rec.into_boxed_slice())))
            }
            ReadStep::Heartbeat => Ok(Some(&[])),
            ReadStep::Nothing => Ok(None),
            ReadStep::Failed(e) => Err(e),
        }
    }

    fn spec_exhausted(&self) -> Option<ReadError> {
        self.cursor.exhausted()
    }

    fn exhausted(&self) -> Option<ReadError> {
        self.cursor.exhausted()
    }
}

#[test]
fn write_than_read() {
    let metadata = Metadata::new(100, 1000, 10000, 1000, FOREVER, Nanos);
    let mut channel = Channel::create(metadata);
    let mut msg_count = 0;
    let mut bytes_written = 0;
    for m in TXT.split_whitespace() {
        let to_wr = m.as_bytes();
        let len = to_wr.len() as u32;
        let size = channel.write(to_wr).unwrap();
        assert_eq!(size, align(len + REC_HEADER_LEN));
        bytes_written += size;
        msg_count += 1;
    }
    assert_eq!(channel.writer.write_offset(), bytes_written);
    let mut reader = channel.reader();
    assert_eq!(reader.cursor.position(), 0);
    let mut res_txt = String::new();
    while let Some(read_res) = poll(&mut reader) {
        match read_res {
            ReadResult::Record(msg) => {
                let msg_str = std::str::from_utf8(msg).unwrap();
                if !res_txt.is_empty() {
                    res_txt.push(' ');
                }
                res_txt.push_str(msg_str);
                msg_count -= 1;
            }
            ReadResult::Nothing => {
                assert!(msg_count == 0);
                break;
            }
            ReadResult::Failed(err) => match err {
                ReadError::Closed => break,
                _ => panic!("Unexpected read error {:?}", err),
            },
        }
    }
    assert_eq!(res_txt, TXT);
    assert_eq!(bytes_written, reader.cursor.position());
}

#[test]
fn try_iterator_hint_size() {
    let metadata = Metadata::new(100, 1000, 10000, 1000, FOREVER, Nanos);
    let mut msg_count = 0;
    let mut channel = Channel::create(metadata);
    for m in TXT.split_whitespace() {
        let to_wr = m.as_bytes();
        let len = to_wr.len() as u32;
        let size = channel.write(to_wr).unwrap();
        assert_eq!(size, align(len + REC_HEADER_LEN));
        msg_count += 1;
    }
    channel.close();
    let mut reader = channel.reader();
    assert!(reader.exhausted().is_none());
    let sh1 = remaining_hint(&reader);
    assert_eq!(sh1.0, 0);
    assert!(sh1.1.is_none());
    poll(&mut reader).unwrap();
    let sh2 = remaining_hint(&reader);
    assert_eq!(sh2.0, 0);
    assert!(sh2.1.is_none());
    let mut total = 1;
    while let Some(_msg) = poll(&mut reader) {
        total += 1
    }
    assert_eq!(total, msg_count + 1);
    let sh3 = remaining_hint(&reader);
    assert_eq!(sh3.0, 0);
    assert!(sh3.1.unwrap() == 0);
    assert!(poll(&mut reader).is_none());
    assert!(reader.exhausted().is_some());
    assert_eq!(reader.exhausted().unwrap(), ReadError::Closed);
}

#[test]
fn read_with_timeout() {
    let timeout = 50;
    let metadata = Metadata::new(100, 1000, 10000, 1000, timeout, Millis);
    let mut channel = Channel::create(metadata);
    channel.write("Just a bad day".as_bytes()).unwrap();
    let mut timeout_reader = TimeoutReader::new(channel.reader(), Millis, timeout);
    assert!(matches!(poll(&mut timeout_reader), Some(ReadResult::Record(_))));
    assert!(matches!(poll(&mut timeout_reader), Some(ReadResult::Nothing)));
    let until = Millis.nix_time() + timeout + 10;
    while Millis.nix_time() < until {}
    assert!(matches!(poll(&mut timeout_reader), Some(ReadResult::Failed(ReadError::Timeout(_)))));
    assert!(poll(&mut timeout_reader).is_none());
}

#[test]
fn timeout_deadline_is_reported() {
    let metadata = Metadata::new(1, 2, 10000, 100, 50, Millis);
    let channel = Channel::create(metadata);
    let mut t = TimeoutReader::new(channel.reader(), Millis, 50);
    assert_eq!(t.on_idle(1_000), None);
    assert_eq!(t.on_idle(1_049), None);
    assert_eq!(t.on_idle(1_050), Some(ReadError::Timeout(1_050)));
    assert_eq!(t.on_idle(9_999), Some(ReadError::Timeout(1_050)));
    assert_eq!(t.exhausted(), Some(ReadError::Timeout(1_050)));
    let mut t = TimeoutReader::new(channel.reader(), Millis, 50);
    assert_eq!(t.on_idle(1_000), None);
    t.on_record();
    assert_eq!(t.on_idle(2_000), None);
    assert_eq!(t.on_idle(2_049), None);
    assert_eq!(t.on_idle(u64::MAX), Some(ReadError::Timeout(2_050)));
}

#[test]
fn core_check_path_to_storage() {
    let root = "kektest";
    assert_eq!(storage_path(root, 0), "kektest/0000_0000/0000_0000.kekbit");
    assert_eq!(lock_path(root, 0), "kektest/0000_0000/0000_0000.lock");
    assert_eq!(storage_path(root, 0xAAAA_BBBB_CCCC_DDDD), "kektest/aaaa_bbbb/cccc_dddd.kekbit");
    assert_eq!(lock_path(root, 0xAAAA_BBBB_CCCC_DDDD), "kektest/aaaa_bbbb/cccc_dddd.lock");
    assert_eq!(storage_path(root, 0xBBBB_CCCC_0001), "kektest/0000_bbbb/cccc_0001.kekbit");
    assert_eq!(lock_path(root, 0xBBBB_CCCC_0001), "kektest/0000_bbbb/cccc_0001.lock");
    assert_eq!(storage_path(root, 0xAAAA_00BB_000C_0DDD), "kektest/aaaa_00bb/000c_0ddd.kekbit");
    assert_eq!(lock_path(root, 0xAAAA_00BB_000C_0DDD), "kektest/aaaa_00bb/000c_0ddd.lock");
}

#[test]
fn shm_check_path_to_storage() {
    let root = "/tmp/kek";
    assert_eq!(storage_path(root, 0), "/tmp/kek/0000_0000/0000_0000.kekbit");
    assert_eq!(storage_path(root, 0xAAAA_BBBB_CCCC_DDDD), "/tmp/kek/aaaa_bbbb/cccc_dddd.kekbit");
    assert_eq!(storage_path(root, 0x0000_BBBB_CCCC_0001), "/tmp/kek/0000_bbbb/cccc_0001.kekbit");
    assert_eq!(storage_path(root, u64::MAX), "/tmp/kek/ffff_ffff/ffff_ffff.kekbit");
}

#[test]
fn round_trip_single_record() {
    let metadata = Metadata::new(1, 2, 20_000, 100, FOREVER, Nanos);
    let mut channel = Channel::create(metadata);
    let mut reader = channel.reader();
    assert!(matches!(poll(&mut reader), Some(ReadResult::Nothing)));
    channel.write(&[9, 8, 7]).unwrap();
    match poll(&mut reader) {
        Some(ReadResult::Record(r)) => assert_eq!(r, &[9, 8, 7]),
        other => panic!("{:?}", other),
    }
    assert_eq!(reader.cursor.position(), 16);
    assert!(matches!(poll(&mut reader), Some(ReadResult::Nothing)));
}

#[test]
fn published_marker_never_changes() {
    let metadata = Metadata::new(1, 2, 20_000, 100, FOREVER, Nanos);
    let mut channel = Channel::create(metadata);
    assert_eq!(load_marker(&channel.region.borrow(), 0), WATERMARK);
    channel.write(b"abcdefghi").unwrap();
    assert_eq!(load_marker(&channel.region.borrow(), 0), 9);
    assert_eq!(load_marker(&channel.region.borrow(), 24), WATERMARK);
    channel.write(b"x").unwrap();
    channel.writer.heartbeat().map(|p| publish(&mut channel.region.borrow_mut(), p, &[])).unwrap();
    channel.close();
    assert_eq!(load_marker(&channel.region.borrow(), 0), 9);
    assert_eq!(load_marker(&channel.region.borrow(), 24), 1);
    assert_eq!(load_marker(&channel.region.borrow(), 40), 0);
    assert_eq!(load_marker(&channel.region.borrow(), 48), CLOSE);
}

#[test]
fn heartbeats_are_invisible() {
    let metadata = Metadata::new(1, 2, 20_000, 100, FOREVER, Nanos);
    let mut channel = Channel::create(metadata);
    let p = channel.writer.heartbeat().unwrap();
    assert_eq!((p.offset, p.len, p.size), (0, 0, 8));
    publish(&mut channel.region.borrow_mut(), p, &[]);
    channel.write(b"one").unwrap();
    let mut reader = channel.reader();
    assert!(matches!(poll(&mut reader), Some(ReadResult::Nothing)));
    match poll(&mut reader) {
        Some(ReadResult::Record(r)) => assert_eq!(r, b"one"),
        other => panic!("{:?}", other),
    }
}

#[test]
fn capacity_exactly_filled() {
    let metadata = Metadata::new(1, 2, 16_384, 112, FOREVER, Nanos);
    assert_eq!(metadata.max_msg_len(), 120);
    let mut channel = Channel::create(metadata);
    let payload = [5u8; 112];
    let mut total = 0u32;
    loop {
        match channel.write(&payload) {
            Ok(size) => total += size,
            Err(WriteError::NoSpaceForRecord) => break,
            Err(e) => panic!("{:?}", e),
        }
    }
    assert!(total <= 16_384);
    let rest = 16_384 - total - 8;
    channel.write(&vec![1u8; rest as usize]).unwrap();
    assert_eq!(channel.writer.write_offset(), 16_384);
    assert_eq!(channel.writer.available(), 0);
    assert!(matches!(channel.write(b"z"), Err(WriteError::ChannelFull)));
    assert!(matches!(channel.writer.heartbeat(), Err(WriteError::ChannelFull)));
    let mut reader = channel.reader();
    let mut records = 0;
    loop {
        match poll(&mut reader) {
            Some(ReadResult::Record(_)) => records += 1,
            Some(ReadResult::Nothing) => break,
            other => panic!("{:?}", other),
        }
    }
    assert_eq!(records, 137);
    assert!(matches!(poll(&mut reader), Some(ReadResult::Nothing)));
    channel.close();
    assert!(matches!(poll(&mut reader), Some(ReadResult::Failed(ReadError::Closed))));
    assert!(poll(&mut reader).is_none());
}

#[test]
fn oversized_record_is_refused() {
    let metadata = Metadata::new(1, 2, 20_000, 100, FOREVER, Nanos);
    let mut channel = Channel::create(metadata);
    assert!(matches!(channel.write(&[0u8; 113]), Err(WriteError::NoSpaceForRecord)));
    assert_eq!(channel.writer.write_offset(), 0);
    assert_eq!(channel.write(&[0u8; 112]).unwrap(), 120);
}

#[test]
fn corrupt_marker_latches_failure() {
    let metadata = Metadata::new(1, 2, 20_000, 100, FOREVER, Nanos);
    let channel = Channel::create(metadata);
    store_marker(&mut channel.region.borrow_mut(), 0, 0xDEAD_BEEF);
    let mut reader = channel.reader();
    assert_eq!(reader.try_read(), Err(ReadError::Failed));
    store_marker(&mut channel.region.borrow_mut(), 0, WATERMARK);
    assert_eq!(reader.try_read(), Err(ReadError::Failed));
    assert_eq!(reader.exhausted(), Some(ReadError::Failed));
    assert!(poll(&mut reader).is_none());
}

#[test]
fn sequence_numbers_frame_records() {
    let metadata = Metadata::new(1, 2, 20_000, 100, FOREVER, Nanos);
    let mut writer = ChannelWriter::new(metadata, SequenceHandler::new(0));
    let p = writer.write(&"ignored".to_string()).unwrap();
    assert_eq!((p.offset, p.len, p.size), (0, 8, 16));
    assert_eq!(writer.payload(), &1u64.to_le_bytes());
}

#[test]
fn not_ready_while_locked() {
    let name = storage_path("root", 7);
    match check_open(true, true, name.clone()) {
        Err(ChannelError::StorageNotReady { file_name }) => assert_eq!(file_name, "root/0000_0000/0000_0007.kekbit"),
        other => panic!("{:?}", other),
    }
    assert!(check_open(true, false, name.clone()).is_ok());
    assert!(matches!(check_open(false, false, name.clone()), Err(ChannelError::StorageNotFound { .. })));
    assert!(matches!(check_create(true, name.clone()), Err(ChannelError::StorageAlreadyExists { .. })));
    assert!(check_create(false, name).is_ok());
}

#[test]
fn five_producers_three_times() {
    let metadata = Metadata::new(100, 1000, 10000, 1000, 1000, Millis);
    let mut channel = Channel::create(metadata);
    for _round in 0..3 {
        for i in 0..5 {
            channel.write(format!("Hello {}", i).as_bytes()).unwrap();
        }
    }
    let mut reader = channel.reader();
    let mut counts = [0; 5];
    let mut total = 0;
    while let Some(ReadResult::Record(data)) = poll(&mut reader) {
        let text = std::str::from_utf8(data).unwrap();
        let i: usize = text["Hello ".len()..].parse().unwrap();
        counts[i] += 1;
        total += 1;
    }
    assert_eq!(total, 15);
    assert_eq!(counts, [3; 5]);
}

#[test]
fn exhaustion_is_idempotent() {
    let metadata = Metadata::new(1, 2, 20_000, 100, FOREVER, Nanos);
    let mut channel = Channel::create(metadata);
    channel.close();
    let mut reader = channel.reader();
    for _ in 0..3 {
        assert_eq!(reader.try_read(), Err(ReadError::Closed));
        assert_eq!(reader.exhausted(), Some(ReadError::Closed));
    }
    assert_eq!(remaining_hint(&reader), (0, Some(0)));
}

#[test]
fn prepare_then_finish_outcomes() {
    let metadata = Metadata::new(1, 2, 20_000, 100, FOREVER, Nanos);
    let mut writer = ChannelWriter::new(metadata, EncoderHandler::default());
    writer.prepare().unwrap();
    let err = std::io::Error::new(std::io::ErrorKind::Other, "boom");
    assert!(matches!(writer.finish(Err(err)), Err(WriteError::EncodingError(_))));
    assert_eq!(writer.write_offset(), 0);
    writer.prepare().unwrap();
    let p = writer.finish(Ok(0)).unwrap();
    assert_eq!((p.offset, p.len, p.size), (0, 0, 8));
    assert_eq!(writer.write_offset(), 8);
    let p = writer.write(&&b"hello"[..]).unwrap();
    assert_eq!((p.offset, p.len, p.size), (8, 5, 16));
    assert_eq!(writer.payload(), b"hello");
    writer.close();
    assert!(matches!(writer.prepare(), Err(WriteError::ChannelFull)));
}

#[test]
fn timeout_step_passes_results_through() {
    let metadata = Metadata::new(1, 2, 10000, 100, 50, Millis);
    let channel = Channel::create(metadata);
    let mut t = TimeoutReader::new(channel.reader(), Millis, 50);
    assert_eq!(t.after_inner(Ok(None), 100), Ok(None));
    assert_eq!(t.after_inner(Err(ReadError::Failed), 1_000), Err(ReadError::Failed));
    assert_eq!(t.after_inner(Ok(None), 149), Ok(None));
    let rec: &[u8] = b"data";
    assert_eq!(t.after_inner(Ok(Some(rec)), 0), Ok(Some(rec)));
    assert_eq!(t.after_inner(Ok(None), 500), Ok(None));
    assert_eq!(t.after_inner(Ok(None), 550), Err(ReadError::Timeout(550)));
    assert_eq!(END_OF_TIME, u64::MAX);
}

#[test]
fn read_results_become_items() {
    let rec: &[u8] = b"abc";
    assert!(matches!(to_item(Ok(Some(rec))), ReadResult::Record(r) if r == b"abc"));
    assert!(matches!(to_item(Ok(Some(&[]))), ReadResult::Nothing));
    assert!(matches!(to_item(Ok(None)), ReadResult::Nothing));
    assert!(matches!(to_item(Err(ReadError::Closed)), ReadResult::Failed(ReadError::Closed)));
}

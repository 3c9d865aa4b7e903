use extension_host::framing::{frame_message, FrameReader, NEWLINE};
use extension_host::sockets::{finish_read, read_len, SocketTable, FAILED_HANDLE, MAX_READ};

fn feed_all(reads: &[&[u8]]) -> (Vec<Vec<u8>>, usize) {
    let mut reader = FrameReader::new();
    let mut lines = Vec::new();
    for r in reads {
        lines.extend(reader.feed(r));
    }
    (lines, reader.pending_len())
}

#[test]
fn frames_split_on_newlines_and_keep_the_tail() {
    let mut reader = FrameReader::new();
    let lines = reader.feed(b"a\nbc\nde");
    assert_eq!(lines, vec![b"a\n".to_vec(), b"bc\n".to_vec()]);
    assert_eq!(reader.pending_len(), 2);
    let lines = reader.feed(b"f\n");
    assert_eq!(lines, vec![b"def\n".to_vec()]);
    assert_eq!(reader.pending_len(), 0);
}

#[test]
fn empty_read_keeps_carried_bytes() {
    let mut reader = FrameReader::new();
    assert!(reader.feed(b"{\"type\"").is_empty());
    assert!(reader.feed(b"").is_empty());
    assert_eq!(reader.pending_len(), 7);
    assert_eq!(reader.feed(b":1}\n"), vec![b"{\"type\":1}\n".to_vec()]);
}

#[test]
fn splitting_reads_anywhere_gives_the_same_frames() {
    let input: &[u8] = b"{\"type\":\"getAccounts\",\"channel\":\"2\"}\n{\"type\":\"x\",\"channel\":\"3\"}\npartial";
    let (whole, whole_left) = feed_all(&[input]);
    assert_eq!(whole.len(), 2);
    assert_eq!(whole_left, 7);
    for cut in 0..=input.len() {
        let (a, b) = input.split_at(cut);
        assert_eq!(feed_all(&[a, b]), (whole.clone(), whole_left));
        for cut2 in cut..=input.len() {
            let (b1, b2) = input[cut..].split_at(cut2 - cut);
            assert_eq!(feed_all(&[a, b1, b2]), (whole.clone(), whole_left));
        }
    }
}

#[test]
fn framed_message_ends_with_newline() {
    assert_eq!(frame_message(b"{}".to_vec()), b"{}\n".to_vec());
    assert_eq!(frame_message(Vec::new()), vec![NEWLINE]);
}

#[test]
fn read_request_is_clamped() {
    assert_eq!(read_len(0), 1024);
    assert_eq!(read_len(5000), 1024);
    assert_eq!(read_len(u64::MAX), 1024);
    assert_eq!(read_len(1024), 1024);
    assert_eq!(read_len(1025), 1024);
    assert_eq!(read_len(10), 10);
    assert_eq!(read_len(1), 1);
    assert_eq!(MAX_READ, 1024);
}

#[test]
fn read_result_is_cut_or_discarded() {
    let buf = vec![7u8; 1024];
    assert!(finish_read(buf.clone(), 1024).is_empty());
    assert!(finish_read(buf.clone(), 4096).is_empty());
    assert_eq!(finish_read(buf.clone(), 3), vec![7u8; 3]);
    assert_eq!(finish_read(buf.clone(), 1023).len(), 1023);
    assert!(finish_read(buf, 0).is_empty());
    assert_eq!(finish_read(vec![1, 2], 5), vec![1, 2]);
}

#[test]
fn socket_table_bounds_handles() {
    let mut t: SocketTable<u32> = SocketTable::new();
    assert_eq!(t.slot(0), None);
    for k in 0..256u32 {
        assert!(t.can_open());
        assert_eq!(t.register(k), k as i64);
    }
    assert!(!t.can_open());
    assert_eq!(t.register(999), FAILED_HANDLE);
    assert_eq!(t.len(), 256);
    assert_eq!(t.slot(-1), None);
    assert_eq!(t.slot(256), None);
    assert_eq!(t.slot(255), Some(255));
    *t.at_mut(3) = 42;
    assert_eq!(*t.at_mut(3), 42);
}

use plaza_tui::ts::{extract_adts, TsDemux, TS_PACKET_LEN};

/// One 188-byte packet: sync byte, PID, flags, then `payload` padded with 0xFF.
fn packet(pid: u16, pusi: bool, afc: u8, payload: &[u8]) -> Vec<u8> {
    let mut p = vec![
        0x47,
        (if pusi { 0x40 } else { 0x00 }) | ((pid >> 8) as u8 & 0x1F),
        (pid & 0xFF) as u8,
        (afc << 4) & 0x30,
    ];
    p.extend_from_slice(payload);
    p.resize(TS_PACKET_LEN, 0xFF);
    p
}

/// A PAT naming the PMT on PID 0x1000.
fn pat() -> Vec<u8> {
    let payload = [
        0x00, // pointer field
        0x00, 0xB0, 13, // table id, section length
        0x00, 0x01, 0xC1, 0x00, 0x00, // ts id, version, section numbers
        0x00, 0x01, 0xF0, 0x00, // program 1 -> PMT PID 0x1000
        0xDE, 0xAD, 0xBE, 0xEF, // CRC (not checked)
    ];
    packet(0x0000, true, 1, &payload)
}

/// A PMT naming an AAC (ADTS) stream on PID 0x100.
fn pmt() -> Vec<u8> {
    let payload = [
        0x00, // pointer field
        0x02, 0xB0, 18, // table id, section length
        0x00, 0x01, 0xC1, 0x00, 0x00, // program number, version, section numbers
        0xE1, 0x00, // PCR PID
        0xF0, 0x00, // program info length 0
        0x0F, 0xE1, 0x00, 0xF0, 0x00, // AAC ADTS on PID 0x100, no ES info
        0xDE, 0xAD, 0xBE, 0xEF, // CRC
    ];
    packet(0x1000, true, 1, &payload)
}

/// A PES start on the audio PID carrying `adts` after a 5-byte PES header extension.
fn pes_start(adts: &[u8]) -> Vec<u8> {
    let mut payload = vec![0x00, 0x00, 0x01, 0xC0, 0x00, 0x00, 0x80, 0x80, 0x05, 0x21, 0x00, 0x01, 0x00, 0x01];
    payload.extend_from_slice(adts);
    assert!(payload.len() <= 184);
    let mut p = packet(0x100, true, 1, &payload);
    p.truncate(4 + payload.len());
    p.resize(TS_PACKET_LEN, 0x00);
    p[4 + payload.len()..].copy_from_slice(&vec![0xAA; TS_PACKET_LEN - 4 - payload.len()]);
    p
}

fn segment() -> (Vec<u8>, Vec<u8>) {
    let frame: Vec<u8> = (0..170u32).map(|i| if i == 0 { 0xFF } else if i == 1 { 0xF1 } else { (i % 251) as u8 }).collect();
    let cont: Vec<u8> = (0..184u32).map(|i| (i * 7 % 256) as u8).collect();
    let mut seg = Vec::new();
    seg.extend(pat());
    seg.extend(pmt());
    seg.extend(pes_start(&frame));
    seg.extend(packet(0x100, false, 1, &cont));
    let mut expected = frame.clone();
    expected.extend_from_slice(&cont);
    (seg, expected)
}

#[test]
fn discovers_audio_pid_from_psi() {
    let (seg, _) = segment();
    let mut demux = TsDemux::new();
    demux.push(&seg);
    assert_eq!(demux.audio_pid(), Some(0x100), "should find AAC PID 0x100");
}

#[test]
fn handles_garbage_without_panicking() {
    assert!(extract_adts(&[0u8; 50]).is_empty());
    assert!(extract_adts(&[0xAB; 188 * 3]).is_empty());
    assert!(extract_adts(&[]).is_empty());
}

#[test]
fn extracts_the_pes_payload_of_the_audio_stream() {
    let (seg, expected) = segment();
    assert_eq!(seg.len() % TS_PACKET_LEN, 0);
    let adts = extract_adts(&seg);
    assert_eq!(adts, expected);
    assert_eq!(adts[0], 0xFF);
    assert_eq!(adts[1] & 0xF0, 0xF0);
}

#[test]
fn leading_garbage_is_skipped_until_a_sync_byte() {
    let (seg, expected) = segment();
    let mut noisy = vec![0x00, 0x13, 0x99];
    noisy.extend_from_slice(&seg);
    assert_eq!(extract_adts(&noisy), expected);
}

#[test]
fn audio_before_the_pmt_is_ignored() {
    let (seg, expected) = segment();
    let early = packet(0x100, false, 1, &[0x55; 184]);
    let mut stream = early.clone();
    stream.extend_from_slice(&seg);
    assert_eq!(extract_adts(&stream), expected);
}

#[test]
fn continuation_without_an_open_pes_is_dropped() {
    let mut seg = Vec::new();
    seg.extend(pat());
    seg.extend(pmt());
    seg.extend(packet(0x100, false, 1, &[0x66; 184]));
    assert!(extract_adts(&seg).is_empty());
}

#[test]
fn adaptation_field_is_skipped() {
    let mut seg = Vec::new();
    seg.extend(pat());
    seg.extend(pmt());
    // adaptation field of length 10 before a PES start
    let mut payload = vec![10u8];
    payload.extend_from_slice(&[0u8; 10]);
    payload.extend_from_slice(&[0x00, 0x00, 0x01, 0xC0, 0x00, 0x00, 0x80, 0x00, 0x00, 0xFF, 0xF1, 0x42]);
    let mut p = packet(0x100, true, 3, &payload);
    let end = 4 + payload.len();
    for b in p[end..].iter_mut() {
        *b = 0x33;
    }
    seg.extend(p);
    let adts = extract_adts(&seg);
    let mut expected = vec![0xFF, 0xF1, 0x42];
    expected.extend(std::iter::repeat(0x33).take(TS_PACKET_LEN - end));
    assert_eq!(adts, expected);
}

#[test]
fn pids_and_open_pes_carry_across_pushes() {
    let (seg, expected) = segment();
    let mut demux = TsDemux::new();
    demux.push(&seg[..3 * TS_PACKET_LEN]);
    let first = demux.take();
    assert_eq!(demux.audio_pid(), Some(0x100));
    demux.push(&seg[3 * TS_PACKET_LEN..]);
    let second = demux.finish();
    let mut joined = first;
    joined.extend(second);
    assert_eq!(joined, expected);
}

#[test]
fn take_empties_the_output_but_keeps_state() {
    let (seg, expected) = segment();
    let mut demux = TsDemux::new();
    demux.push(&seg);
    assert_eq!(demux.take(), expected);
    assert!(demux.take().is_empty());
    demux.push(&packet(0x100, false, 1, &[0x01; 184]));
    assert_eq!(demux.finish(), vec![0x01; 184]);
}

#[test]
fn a_trailing_partial_packet_is_ignored() {
    let (seg, expected) = segment();
    let mut with_tail = seg.clone();
    with_tail.extend_from_slice(&packet(0x100, false, 1, &[0x77; 184])[..100]);
    assert_eq!(extract_adts(&with_tail), expected);
}

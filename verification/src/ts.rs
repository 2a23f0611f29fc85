//! Minimal audio-only MPEG-TS demuxer.
//!
//! HLS segments are MPEG-TS: a sequence of 188-byte packets. Plaza's `/hls`
//! variants carry one AAC audio elementary stream (plus a timed-ID3 data PID that
//! is ignored). The demuxer extracts that stream's PES payload, which for
//! AAC-in-TS is a run of ADTS frames, exactly what an AAC reader consumes.
//!
//! Only what an audio-only HLS segment needs is implemented: PAT → PMT → audio
//! PID discovery, then PES reassembly. No video, no PCR, no descriptors beyond
//! what is required to find the audio PID.

use vstd::prelude::*;

use crate::bytes::append_bytes;

verus! {

/// Length of one transport-stream packet.
pub const TS_PACKET_LEN: usize = 188;
/// The sync byte that begins every packet.
pub const TS_SYNC: u8 = 0x47;
/// Stream type of AAC in ADTS (the format Plaza's HLS uses).
pub const STREAM_TYPE_AAC_ADTS: u8 = 0x0F;
/// Stream type of AAC in LATM (its payload is handled the same way).
pub const STREAM_TYPE_AAC_LATM: u8 = 0x11;

/// The demuxer's state: the PIDs discovered so far, the ADTS bytes collected,
/// and whether the audio PID's current PES packet is being collected.
pub struct DemuxModel {
    pub pmt_pid: Option<u16>,
    pub audio_pid: Option<u16>,
    pub out: Seq<u8>,
    pub in_audio_pes: bool,
}

/// The state of a fresh demuxer.
pub open spec fn initial_model() -> DemuxModel {
    DemuxModel { pmt_pid: None, audio_pid: None, out: Seq::empty(), in_audio_pes: false }
}

/// A 12-bit length field: the low nibble of `hi` followed by `lo`.
pub open spec fn len12(hi: u8, lo: u8) -> int {
    ((hi & 0x0F) as int) * 256 + lo as int
}

/// A 13-bit PID field: the low five bits of `hi` followed by `lo`.
pub open spec fn pid13(hi: u8, lo: u8) -> u16 {
    (((hi & 0x1F) as int) * 256 + lo as int) as u16
}

/// A PSI section inside a packet payload: with PUSI set, the first byte is a
/// pointer field giving the offset of the table start. Without PUSI there is no
/// section start in this packet.
pub open spec fn psi_section_of(payload: Seq<u8>, pusi: bool) -> Option<Seq<u8>> {
    if !pusi || payload.len() == 0 {
        None
    } else {
        let start = 1 + payload[0] as int;
        if start <= payload.len() {
            Some(payload.subrange(start, payload.len() as int))
        } else {
            None
        }
    }
}

/// The elementary payload of a PES-start payload: after the `00 00 01` start
/// code, the stream id, the packet length, two flag bytes and the header-data
/// length byte at offset 8, followed by that many header bytes.
pub open spec fn pes_payload_of(payload: Seq<u8>) -> Option<Seq<u8>> {
    if payload.len() < 9 || payload[0] != 0 || payload[1] != 0 || payload[2] != 1 {
        None
    } else {
        let start = 9 + payload[8] as int;
        if start <= payload.len() {
            Some(payload.subrange(start, payload.len() as int))
        } else {
            None
        }
    }
}

/// Where a section's entries end: `3 + section_length`, capped at the section's
/// size, less the trailing four-byte CRC (never below zero).
pub open spec fn entries_limit(section: Seq<u8>) -> int {
    let end = if 3 + len12(section[1], section[2]) <= section.len() {
        3 + len12(section[1], section[2])
    } else {
        section.len() as int
    };
    if end >= 4 { end - 4 } else { 0 }
}

/// The PMT PID of the first program with a nonzero number among the four-byte
/// PAT entries starting at `i` that end within `limit`.
pub open spec fn pat_program_pid(section: Seq<u8>, limit: int, i: int) -> Option<u16>
    decreases limit - i,
{
    if i + 4 <= limit {
        if section[i] as int * 256 + section[i + 1] as int != 0 {
            Some(pid13(section[i + 2], section[i + 3]))
        } else {
            pat_program_pid(section, limit, i + 4)
        }
    } else {
        None
    }
}

/// The PID of the first AAC elementary stream among the PMT entries starting at
/// `i` (each entry is five bytes plus its ES-info length) that end within `limit`.
pub open spec fn pmt_audio_pid(section: Seq<u8>, limit: int, i: int) -> Option<u16>
    decreases limit - i,
{
    if i + 5 <= limit {
        if section[i] == STREAM_TYPE_AAC_ADTS || section[i] == STREAM_TYPE_AAC_LATM {
            Some(pid13(section[i + 1], section[i + 2]))
        } else {
            let next = i + 5 + len12(section[i + 3], section[i + 4]);
            if next <= limit {
                pmt_audio_pid(section, limit, next)
            } else {
                None
            }
        }
    } else {
        None
    }
}

/// A PAT packet: record the first program's PMT PID, once.
pub open spec fn parse_pat_model(m: DemuxModel, payload: Seq<u8>, pusi: bool) -> DemuxModel {
    if m.pmt_pid is Some {
        m
    } else {
        match psi_section_of(payload, pusi) {
            None => m,
            Some(section) => {
                if section.len() < 8 || section[0] != 0x00 {
                    m
                } else {
                    match pat_program_pid(section, entries_limit(section), 8) {
                        Some(pid) => DemuxModel { pmt_pid: Some(pid), ..m },
                        None => m,
                    }
                }
            },
        }
    }
}

/// A PMT packet: record the AAC stream's PID, once.
pub open spec fn parse_pmt_model(m: DemuxModel, payload: Seq<u8>, pusi: bool) -> DemuxModel {
    if m.audio_pid is Some {
        m
    } else {
        match psi_section_of(payload, pusi) {
            None => m,
            Some(section) => {
                if section.len() < 12 || section[0] != 0x02 {
                    m
                } else {
                    match pmt_audio_pid(
                        section,
                        entries_limit(section),
                        12 + len12(section[10], section[11]),
                    ) {
                        Some(pid) => DemuxModel { audio_pid: Some(pid), ..m },
                        None => m,
                    }
                }
            },
        }
    }
}

/// An audio packet: a PES start contributes its elementary payload and opens the
/// PES; a continuation contributes its whole payload while a PES is open.
pub open spec fn collect_audio_model(m: DemuxModel, payload: Seq<u8>, pusi: bool) -> DemuxModel {
    if pusi {
        match pes_payload_of(payload) {
            Some(adts) => DemuxModel { in_audio_pes: true, out: m.out + adts, ..m },
            None => m,
        }
    } else if m.in_audio_pes {
        DemuxModel { out: m.out + payload, ..m }
    } else {
        m
    }
}

/// The adaptation-field control of a packet.
pub open spec fn afc_of(pkt: Seq<u8>) -> u8 {
    ((pkt[3] & 0x30) / 16) as u8
}

/// Where a packet's payload begins: after the four-byte header and, when present,
/// the adaptation field (whose length is the byte at offset 4).
pub open spec fn payload_offset_of(pkt: Seq<u8>) -> int {
    if afc_of(pkt) == 3 { 5 + pkt[4] as int } else { 4 }
}

/// One 188-byte packet, dispatched by PID: PAT, then the PMT PID, then the audio PID.
pub open spec fn handle_packet_model(m: DemuxModel, pkt: Seq<u8>) -> DemuxModel {
    let pusi = pkt[1] & 0x40 != 0;
    let pid = pid13(pkt[1], pkt[2]);
    let afc = afc_of(pkt);
    let off = payload_offset_of(pkt);
    if !(afc == 1 || afc == 3) || off >= pkt.len() {
        m
    } else {
        let payload = pkt.subrange(off, pkt.len() as int);
        if pid == 0 {
            parse_pat_model(m, payload, pusi)
        } else if m.pmt_pid == Some(pid) {
            parse_pmt_model(m, payload, pusi)
        } else if m.audio_pid == Some(pid) {
            collect_audio_model(m, payload, pusi)
        } else {
            m
        }
    }
}

/// Feeding `ts` from offset `off`: while a whole packet fits, a sync byte starts a
/// packet that is handled and skipped; any other byte is skipped alone (resync).
pub open spec fn push_from(m: DemuxModel, ts: Seq<u8>, off: int) -> DemuxModel
    decreases ts.len() - off,
{
    if off < 0 || off + 188 > ts.len() {
        m
    } else if ts[off] != TS_SYNC {
        push_from(m, ts, off + 1)
    } else {
        push_from(handle_packet_model(m, ts.subrange(off, off + 188)), ts, off + 188)
    }
}

/// The state after feeding a whole buffer.
pub open spec fn push_model(m: DemuxModel, ts: Seq<u8>) -> DemuxModel {
    push_from(m, ts, 0)
}

/// The ADTS bytes a fresh demuxer extracts from `ts`.
pub open spec fn extract_adts_of(ts: Seq<u8>) -> Seq<u8> {
    push_model(initial_model(), ts).out
}

/// Streaming demuxer: feed segments with [`push`](TsDemux::push), collect ADTS
/// with [`take`](TsDemux::take) or [`finish`](TsDemux::finish). The audio PID and
/// any in-flight PES persist across pushes, so a continuous HLS stream can be fed
/// segment by segment.
pub struct TsDemux {
    pmt_pid: Option<u16>,
    audio_pid: Option<u16>,
    out: Vec<u8>,
    in_audio_pes: bool,
}

impl View for TsDemux {
    type V = DemuxModel;

    closed spec fn view(&self) -> DemuxModel {
        DemuxModel {
            pmt_pid: self.pmt_pid,
            audio_pid: self.audio_pid,
            out: self.out@,
            in_audio_pes: self.in_audio_pes,
        }
    }
}

/// Extract the AAC elementary stream (ADTS bytes) from one or more MPEG-TS
/// segments. Empty when no audio stream is found (e.g. a malformed segment).
pub fn extract_adts(ts: &[u8]) -> (adts: Vec<u8>)
    ensures
        adts@ == extract_adts_of(ts@),
{
    let mut demux = TsDemux::new();
    demux.push(ts);
    demux.finish()
}

/// The section inside a PSI payload (see [`psi_section_of`]).
fn psi_section(payload: &[u8], pusi: bool) -> (r: Option<&[u8]>)
    ensures
        match r {
            Some(s) => psi_section_of(payload@, pusi) == Some(s@),
            None => psi_section_of(payload@, pusi) is None,
        },
{
    if !pusi || payload.len() == 0 {
        return None;
    }
    let start = 1 + payload[0] as usize;
    if start <= payload.len() {
        Some(&payload[start..payload.len()])
    } else {
        None
    }
}

/// The elementary payload of a PES-start payload (see [`pes_payload_of`]).
fn pes_payload(payload: &[u8]) -> (r: Option<&[u8]>)
    ensures
        match r {
            Some(s) => pes_payload_of(payload@) == Some(s@),
            None => pes_payload_of(payload@) is None,
        },
{
    if payload.len() < 9 || payload[0] != 0x00 || payload[1] != 0x00 || payload[2] != 0x01 {
        return None;
    }
    let start = 9 + payload[8] as usize;
    if start <= payload.len() {
        Some(&payload[start..payload.len()])
    } else {
        None
    }
}

fn read_len12(hi: u8, lo: u8) -> (n: usize)
    ensures
        n as int == len12(hi, lo),
        n <= 4095,
{
    assert(hi & 0x0F <= 15) by (bit_vector);
    ((hi & 0x0F) as usize) * 256 + lo as usize
}

fn read_pid13(hi: u8, lo: u8) -> (p: u16)
    ensures
        p == pid13(hi, lo),
{
    assert(hi & 0x1F <= 31) by (bit_vector);
    ((hi & 0x1F) as u16) * 256 + lo as u16
}

fn entries_limit_exec(section: &[u8]) -> (l: usize)
    requires
        section@.len() >= 3,
    ensures
        l as int == entries_limit(section@),
        l <= section@.len(),
{
    let sl = read_len12(section[1], section[2]);
    let end = if 3 + sl <= section.len() { 3 + sl } else { section.len() };
    if end >= 4 { end - 4 } else { 0 }
}

impl TsDemux {
    /// A demuxer that has seen nothing yet.
    pub fn new() -> (d: TsDemux)
        ensures
            d@ == initial_model(),
    {
        let d = TsDemux { pmt_pid: None, audio_pid: None, out: Vec::new(), in_audio_pes: false };
        assert(d@.out =~= Seq::<u8>::empty());
        d
    }

    /// The audio PID discovered so far.
    pub fn audio_pid(&self) -> (p: Option<u16>)
        ensures
            p == self@.audio_pid,
    {
        self.audio_pid
    }

    /// Feed a buffer of whole TS packets (typically one segment). A leading run of
    /// bytes that are not a sync byte is skipped until a packet start is found.
    pub fn push(&mut self, ts: &[u8])
        ensures
            final(self)@ == push_model(old(self)@, ts@),
    {
        let mut off: usize = 0;
        while TS_PACKET_LEN <= ts.len() - off
            invariant
                off <= ts@.len(),
                push_from(self@, ts@, off as int) == push_model(old(self)@, ts@),
            decreases ts@.len() - off,
        {
            if ts[off] != TS_SYNC {
                off += 1;
                continue;
            }
            let pkt = &ts[off..off + TS_PACKET_LEN];
            self.handle_packet(pkt);
            off += TS_PACKET_LEN;
        }
    }

    /// Take everything collected so far, leaving the demuxer ready for more input.
    pub fn take(&mut self) -> (adts: Vec<u8>)
        ensures
            adts@ == old(self)@.out,
            final(self)@ == (DemuxModel { out: Seq::empty(), ..old(self)@ }),
    {
        let mut adts = Vec::new();
        std::mem::swap(&mut adts, &mut self.out);
        assert(self@.out =~= Seq::<u8>::empty());
        adts
    }

    /// Consume the demuxer and return all collected ADTS bytes.
    pub fn finish(self) -> (adts: Vec<u8>)
        ensures
            adts@ == self@.out,
    {
        self.out
    }

    fn handle_packet(&mut self, pkt: &[u8])
        requires
            pkt@.len() == TS_PACKET_LEN,
        ensures
            final(self)@ == handle_packet_model(old(self)@, pkt@),
    {
        let pusi = (pkt[1] & 0x40) != 0;
        let pid = read_pid13(pkt[1], pkt[2]);
        let afc = (pkt[3] & 0x30) / 16;
        let has_payload = afc == 1 || afc == 3;
        if !has_payload {
            return;
        }
        let mut payload_off: usize = 4;
        if afc == 3 {
            payload_off = 5 + pkt[4] as usize;
        }
        if payload_off >= pkt.len() {
            return;
        }
        let payload = &pkt[payload_off..pkt.len()];
        if pid == 0x0000 {
            self.parse_pat(payload, pusi);
        } else if self.pmt_pid == Some(pid) {
            self.parse_pmt(payload, pusi);
        } else if self.audio_pid == Some(pid) {
            self.collect_audio(payload, pusi);
        }
    }

    /// PAT (PID 0): find the first program's PMT PID.
    fn parse_pat(&mut self, payload: &[u8], pusi: bool)
        requires
            payload@.len() <= TS_PACKET_LEN,
        ensures
            final(self)@ == parse_pat_model(old(self)@, payload@, pusi),
    {
        if self.pmt_pid.is_some() {
            return;
        }
        let section = match psi_section(payload, pusi) {
            Some(s) => s,
            None => return,
        };
        if section.len() < 8 || section[0] != 0x00 {
            return;
        }
        let limit = entries_limit_exec(section);
        let mut i: usize = 8;
        while i + 4 <= limit
            invariant
                limit as int == entries_limit(section@),
                limit <= section@.len(),
                section@.len() <= TS_PACKET_LEN,
                8 <= i <= limit + 8,
                self@ == old(self)@,
                old(self)@.pmt_pid is None,
                psi_section_of(payload@, pusi) == Some(section@),
                section@.len() >= 8,
                section@[0] == 0,
                pat_program_pid(section@, limit as int, i as int) == pat_program_pid(
                    section@,
                    limit as int,
                    8,
                ),
            decreases limit - i,
        {
            let program_number = (section[i] as u16) * 256 + section[i + 1] as u16;
            if program_number != 0 {
                self.pmt_pid = Some(read_pid13(section[i + 2], section[i + 3]));
                return;
            }
            i += 4;
        }
    }

    /// PMT: find the AAC elementary stream's PID.
    fn parse_pmt(&mut self, payload: &[u8], pusi: bool)
        requires
            payload@.len() <= TS_PACKET_LEN,
        ensures
            final(self)@ == parse_pmt_model(old(self)@, payload@, pusi),
    {
        if self.audio_pid.is_some() {
            return;
        }
        let section = match psi_section(payload, pusi) {
            Some(s) => s,
            None => return,
        };
        if section.len() < 12 || section[0] != 0x02 {
            return;
        }
        let limit = entries_limit_exec(section);
        let program_info_length = read_len12(section[10], section[11]);
        let mut i: usize = 12 + program_info_length;
        while i + 5 <= limit
            invariant
                limit as int == entries_limit(section@),
                limit <= section@.len(),
                section@.len() <= TS_PACKET_LEN,
                i <= limit + 4107,
                self@ == old(self)@,
                old(self)@.audio_pid is None,
                psi_section_of(payload@, pusi) == Some(section@),
                section@.len() >= 12,
                section@[0] == 2,
                pmt_audio_pid(section@, limit as int, i as int) == pmt_audio_pid(
                    section@,
                    limit as int,
                    12 + len12(section@[10], section@[11]),
                ),
            decreases limit + 4107 - i,
        {
            let stream_type = section[i];
            if stream_type == STREAM_TYPE_AAC_ADTS || stream_type == STREAM_TYPE_AAC_LATM {
                self.audio_pid = Some(read_pid13(section[i + 1], section[i + 2]));
                return;
            }
            let es_info_length = read_len12(section[i + 3], section[i + 4]);
            i += 5 + es_info_length;
        }
    }

    /// Collect the audio PID's PES payload (the ADTS frames).
    fn collect_audio(&mut self, payload: &[u8], pusi: bool)
        ensures
            final(self)@ == collect_audio_model(old(self)@, payload@, pusi),
    {
        if pusi {
            if let Some(adts) = pes_payload(payload) {
                self.in_audio_pes = true;
                append_bytes(&mut self.out, adts);
            }
        } else if self.in_audio_pes {
            append_bytes(&mut self.out, payload);
        }
    }
}

/// Handling one packet only ever appends to the collected output.
proof fn lemma_packet_appends(m: DemuxModel, pkt: Seq<u8>)
    requires
        pkt.len() == TS_PACKET_LEN,
    ensures
        handle_packet_model(m, pkt).out.len() >= m.out.len(),
        handle_packet_model(m, pkt).out.subrange(0, m.out.len() as int) == m.out,
        m.pmt_pid is Some ==> handle_packet_model(m, pkt).pmt_pid == m.pmt_pid,
        m.audio_pid is Some ==> handle_packet_model(m, pkt).audio_pid == m.audio_pid,
{
    let r = handle_packet_model(m, pkt);
    assert(r.out.subrange(0, m.out.len() as int) =~= m.out);
}

/// Feeding bytes never takes back output already collected, and a PID once
/// discovered stays as it was.
pub proof fn lemma_push_keeps_output_and_pids(m: DemuxModel, ts: Seq<u8>, off: int)
    ensures
        push_from(m, ts, off).out.len() >= m.out.len(),
        push_from(m, ts, off).out.subrange(0, m.out.len() as int) == m.out,
        m.pmt_pid is Some ==> push_from(m, ts, off).pmt_pid == m.pmt_pid,
        m.audio_pid is Some ==> push_from(m, ts, off).audio_pid == m.audio_pid,
    decreases ts.len() - off,
{
    if off < 0 || off + 188 > ts.len() {
        assert(m.out.subrange(0, m.out.len() as int) =~= m.out);
    } else if ts[off] != TS_SYNC {
        lemma_push_keeps_output_and_pids(m, ts, off + 1);
    } else {
        let pkt = ts.subrange(off, off + 188);
        let m2 = handle_packet_model(m, pkt);
        lemma_packet_appends(m, pkt);
        lemma_push_keeps_output_and_pids(m2, ts, off + 188);
        let r = push_from(m2, ts, off + 188);
        assert(r.out.subrange(0, m.out.len() as int) =~= r.out.subrange(0, m2.out.len() as int).subrange(
            0,
            m.out.len() as int,
        ));
    }
}

/// Input too short to hold a whole packet changes nothing.
pub proof fn lemma_short_input_is_ignored(m: DemuxModel, ts: Seq<u8>)
    requires
        ts.len() < TS_PACKET_LEN,
    ensures
        push_model(m, ts) == m,
{
}

/// Feeding from inside the second of two concatenated buffers is feeding the
/// second buffer alone.
proof fn lemma_push_from_shift(m: DemuxModel, a: Seq<u8>, b: Seq<u8>, j: int)
    requires
        j >= 0,
    ensures
        push_from(m, a + b, a.len() + j) == push_from(m, b, j),
    decreases b.len() - j,
{
    let ab = a + b;
    let off = a.len() + j;
    if off + 188 > ab.len() {
    } else {
        assert(ab[off] == b[j]);
        if ab[off] != TS_SYNC {
            lemma_push_from_shift(m, a, b, j + 1);
        } else {
            assert(ab.subrange(off, off + 188) =~= b.subrange(j, j + 188));
            lemma_push_from_shift(handle_packet_model(m, b.subrange(j, j + 188)), a, b, j + 188);
        }
    }
}

/// `a` is a run of whole packets: its length is a multiple of the packet length
/// and every packet begins with the sync byte.
pub open spec fn whole_packets(a: Seq<u8>) -> bool {
    &&& a.len() % 188 == 0
    &&& forall|off: int| 0 <= off < a.len() && off % 188 == 0 ==> #[trigger] a[off] == TS_SYNC
}

proof fn lemma_push_concat_from(m: DemuxModel, a: Seq<u8>, b: Seq<u8>, off: int)
    requires
        whole_packets(a),
        0 <= off <= a.len(),
        off % 188 == 0,
    ensures
        push_from(m, a + b, off) == push_model(push_from(m, a, off), b),
    decreases a.len() - off,
{
    let ab = a + b;
    if off == a.len() {
        lemma_push_from_shift(m, a, b, 0);
    } else {
        assert(off + 188 <= a.len());
        assert(a[off] == TS_SYNC);
        assert(ab[off] == a[off]);
        assert(ab.subrange(off, off + 188) =~= a.subrange(off, off + 188));
        let m2 = handle_packet_model(m, a.subrange(off, off + 188));
        lemma_push_concat_from(m2, a, b, off + 188);
    }
}

/// Feeding a stream segment by segment gives the same state as feeding the
/// segments joined, provided each earlier segment is a run of whole packets: the
/// PIDs and any in-flight PES carry over from one push to the next.
pub proof fn lemma_push_segments(m: DemuxModel, a: Seq<u8>, b: Seq<u8>)
    requires
        whole_packets(a),
    ensures
        push_model(push_model(m, a), b) == push_model(m, a + b),
{
    lemma_push_concat_from(m, a, b, 0);
}

/// A payload-only packet on the demuxer's audio PID that starts a PES: sync
/// byte, PUSI set, adaptation-field control `01`, and the `00 00 01` start code
/// with a header-data length (byte 12) that fits the packet.
pub open spec fn is_audio_pes_start(m: DemuxModel, pkt: Seq<u8>) -> bool {
    let pid = (((pkt[1] & 0x1F) as int) * 256 + pkt[2] as int) as u16;
    &&& pkt.len() == 188
    &&& pkt[0] == 0x47
    &&& pkt[1] & 0x40 != 0
    &&& pkt[3] & 0x30 == 0x10
    &&& pid != 0
    &&& m.audio_pid == Some(pid)
    &&& m.pmt_pid != Some(pid)
    &&& pkt[4] == 0 && pkt[5] == 0 && pkt[6] == 1
    &&& 13 + pkt[12] <= 188
}

/// The elementary bytes such a packet carries: everything after its 4-byte
/// header, the 9 fixed PES header bytes and the PES header data.
pub open spec fn pes_elementary_bytes(pkt: Seq<u8>) -> Seq<u8> {
    pkt.subrange(13 + pkt[12] as int, 188)
}

/// A packet that starts a PES on the audio PID adds exactly its elementary bytes
/// to the output (its PES header is stripped) and leaves a PES open, whether or
/// not one was open before; the PIDs are unchanged.
pub proof fn lemma_pes_start_adds_its_elementary_payload(m: DemuxModel, pkt: Seq<u8>)
    requires
        is_audio_pes_start(m, pkt),
    ensures
        push_model(m, pkt).out == m.out + pes_elementary_bytes(pkt),
        push_model(m, pkt).in_audio_pes,
        push_model(m, pkt).audio_pid == m.audio_pid,
        push_model(m, pkt).pmt_pid == m.pmt_pid,
{
    assert(pkt.subrange(0, 188) =~= pkt);
    assert(push_from(m, pkt, 0) == push_from(handle_packet_model(m, pkt), pkt, 188));
    let b3 = pkt[3];
    assert(b3 & 0x30 == 0x10 ==> (b3 & 0x30) / 16 == 1) by (bit_vector);
    assert(pid13(pkt[1], pkt[2]) == (((pkt[1] & 0x1F) as int) * 256 + pkt[2] as int) as u16);
    let payload = pkt.subrange(4, 188);
    assert(payload[0] == pkt[4] && payload[1] == pkt[5] && payload[2] == pkt[6] && payload[8] == pkt[12]);
    assert(payload.subrange(9 + payload[8] as int, payload.len() as int) =~= pes_elementary_bytes(pkt));
}

/// Two PES packets in a row on the audio PID give the two elementary payloads,
/// one after the other: no PES header of either reaches the output.
pub proof fn lemma_pes_packets_concatenate(m: DemuxModel, p1: Seq<u8>, p2: Seq<u8>)
    requires
        is_audio_pes_start(m, p1),
        is_audio_pes_start(m, p2),
    ensures
        push_model(m, p1 + p2).out == m.out + pes_elementary_bytes(p1) + pes_elementary_bytes(p2),
{
    assert(whole_packets(p1)) by {
        assert forall|off: int| 0 <= off < p1.len() && off % 188 == 0 implies #[trigger] p1[off] == TS_SYNC by {
            assert(off == 0);
        }
    }
    lemma_push_segments(m, p1, p2);
    lemma_pes_start_adds_its_elementary_payload(m, p1);
    let m1 = push_model(m, p1);
    assert(is_audio_pes_start(m1, p2));
    lemma_pes_start_adds_its_elementary_payload(m1, p2);
}

/// Input with no sync byte holds no packet: feeding it changes nothing.
pub proof fn lemma_no_sync_no_change(m: DemuxModel, ts: Seq<u8>, off: int)
    requires
        forall|i: int| 0 <= i < ts.len() ==> ts[i] != TS_SYNC,
    ensures
        push_from(m, ts, off) == m,
    decreases ts.len() - off,
{
    if !(off < 0 || off + 188 > ts.len()) {
        lemma_no_sync_no_change(m, ts, off + 1);
    }
}

} // verus!

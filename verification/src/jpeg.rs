//! The JPEG segment codec. A JPEG byte stream is split into segments,
//! each starting with `0xff` and a marker byte; concatenating the
//! segments in order reproduces the stream exactly. One scanner model
//! writes a placeholder frame height into the SOF0 segment in feeder mode
//! and reports the true height in a trailing DNL segment; the repair here
//! rewrites the SOF0 height field from the DNL value, preserving length,
//! count and order of the segments.

use vstd::prelude::*;
use vstd::pervasive::VecAdditionalExecFns;

use crate::message::util::{spec_dec_str, usize_to_string};

verus! {

/// Every segment starts with this byte.
pub const MARKER_START: u8 = 0xff;

/// Start of Frame (baseline): carries the frame height and width.
pub const SOF0: u8 = 0xc0;

/// Start of Image: a bare two-byte segment.
pub const SOI: u8 = 0xd8;

/// End of Image: a bare two-byte segment.
pub const EOI: u8 = 0xd9;

/// Start of Scan: its length field covers only its header; entropy-coded
/// data of undeclared length follows.
pub const SOS: u8 = 0xda;

/// Define Number of Lines: reports the true height after the scan data.
pub const DNL: u8 = 0xdc;

/// Whether a byte after `0xff` marks a segment boundary inside scan data:
/// `0x00` is a stuffed literal and `0xd0`..`0xd7` are restart markers, so
/// neither ends the scan.
pub open spec fn spec_is_marker(byte: u8) -> bool {
    !(byte == 0x00 || (0xd0 <= byte && byte <= 0xd7))
}

/// Whether a byte after `0xff` marks a segment boundary inside scan data.
pub fn is_marker(byte: u8) -> (r: bool)
    ensures
        r == spec_is_marker(byte),
{
    if byte == 0x00 {
        false
    } else if 0xd0 <= byte && byte <= 0xd7 {
        false
    } else {
        true
    }
}

/// The scan that finds the end of an SOS segment, looking at position `i`
/// with `data[i - 1]` as the candidate `0xff`: the segment ends right
/// before the first `0xff` that a boundary byte follows, or at the end of
/// the data when no boundary occurs.
pub open spec fn spec_sos_scan(data: Seq<u8>, i: int) -> int
    decreases data.len() - i,
{
    if i >= data.len() {
        data.len() as int
    } else if data[i - 1] == MARKER_START && spec_is_marker(data[i]) {
        i - 1
    } else {
        spec_sos_scan(data, i + 1)
    }
}

/// The length of an SOS segment standing at the front of `data`: the scan
/// starts right after the two marker bytes.
pub open spec fn spec_sos_len(data: Seq<u8>) -> int {
    spec_sos_scan(data, 3)
}

/// The scan's result is the data's end, or a position from `i - 1` up to
/// two bytes short of the end.
proof fn lemma_sos_scan_bounds(data: Seq<u8>, i: int)
    requires
        3 <= i,
    ensures
        spec_sos_scan(data, i) == data.len() || (i - 1 <= spec_sos_scan(data, i)
            && spec_sos_scan(data, i) <= data.len() - 2),
    decreases data.len() - i,
{
    if i < data.len() && !(data[i - 1] == MARKER_START && spec_is_marker(data[i])) {
        lemma_sos_scan_bounds(data, i + 1);
    }
}

/// The length of the segment standing at the front of `data`, `None` when
/// no segment can be split off: too few bytes, a first byte other than
/// `0xff`, or a declared length that exceeds the data.
pub open spec fn spec_seg_len(data: Seq<u8>) -> Option<int> {
    if data.len() < 2 {
        None
    } else if data[0] != MARKER_START {
        None
    } else if data[1] == SOI || data[1] == EOI {
        Some(2)
    } else if data[1] == SOS {
        Some(spec_sos_len(data))
    } else if data.len() < 4 {
        None
    } else {
        let l = 2 + (data[2] as int) * 256 + (data[3] as int);
        if l <= data.len() {
            Some(l)
        } else {
            None
        }
    }
}

/// A split-off segment holds at least its two marker bytes and lies
/// within the data.
pub proof fn lemma_seg_len_bounds(data: Seq<u8>)
    requires
        spec_seg_len(data) is Some,
    ensures
        2 <= spec_seg_len(data).unwrap() <= data.len(),
{
    if data.len() >= 2 && data[0] == MARKER_START && data[1] == SOS {
        lemma_sos_scan_bounds(data, 3);
    }
}

/// The segmentation of a byte stream: segments split off the front until
/// nothing remains, `None` when any split fails.
pub open spec fn spec_parse_segments(data: Seq<u8>) -> Option<Seq<Seq<u8>>>
    decreases data.len(),
    via spec_parse_segments_decreases
{
    if data.len() == 0 {
        Some(Seq::empty())
    } else {
        match spec_seg_len(data) {
            None => None,
            Some(l) => match spec_parse_segments(data.skip(l)) {
                None => None,
                Some(rest) => Some(seq![data.take(l)] + rest),
            },
        }
    }
}

#[via_fn]
proof fn spec_parse_segments_decreases(data: Seq<u8>) {
    if data.len() != 0 && spec_seg_len(data) is Some {
        lemma_seg_len_bounds(data);
    }
}

/// Concatenating the parsed segments in order reproduces the input
/// exactly: parsing loses nothing and reorders nothing.
pub proof fn lemma_parse_round_trip(data: Seq<u8>)
    requires
        spec_parse_segments(data) is Some,
    ensures
        spec_parse_segments(data).unwrap().flatten() == data,
    decreases data.len(),
{
    if data.len() == 0 {
        assert(spec_parse_segments(data).unwrap().flatten() =~= data);
    } else {
        let l = spec_seg_len(data).unwrap();
        lemma_seg_len_bounds(data);
        lemma_parse_round_trip(data.skip(l));
        let segs = spec_parse_segments(data).unwrap();
        let rest = spec_parse_segments(data.skip(l)).unwrap();
        assert(segs =~= seq![data.take(l)] + rest);
        assert(segs.first() == data.take(l));
        assert(segs.drop_first() =~= rest);
        assert(segs.flatten() == data.take(l) + rest.flatten());
        assert(data.take(l) + data.skip(l) =~= data);
    }
}

/// A failure of the segment parser, carrying a short description.
#[derive(Debug)]
pub struct ParseError {
    pub message: String,
}

impl From<String> for ParseError {
    fn from(message: String) -> (r: ParseError) {
        ParseError { message }
    }
}

impl vstd::std_specs::convert::FromSpecImpl<String> for ParseError {
    open spec fn obeys_from_spec() -> bool {
        true
    }

    open spec fn from_spec(message: String) -> ParseError {
        ParseError { message }
    }
}

/// One segment: an immutable byte range starting with `0xff` and a marker
/// byte.
pub struct Segment {
    pub buffer: Vec<u8>,
}

impl View for Segment {
    type V = Seq<u8>;

    open spec fn view(&self) -> Seq<u8> {
        self.buffer@
    }
}

impl Segment {
    /// A segment's bytes always begin with `0xff` and its marker.
    pub open spec fn wf(self) -> bool {
        self@.len() >= 2 && self@[0] == MARKER_START
    }

    fn new(buffer: Vec<u8>) -> (r: Segment)
        ensures
            r@ == buffer@,
    {
        Segment { buffer }
    }

    /// The marker byte that names the segment's kind.
    pub fn marker(&self) -> (r: u8)
        requires
            self.wf(),
        ensures
            r == self@[1],
    {
        self.buffer[1]
    }

    /// The segment's total size in bytes.
    pub fn len(&self) -> (r: usize)
        ensures
            r == self@.len(),
    {
        self.buffer.len()
    }
}

/// A parsed JPEG: its segments in stream order.
pub struct Jpeg {
    pub segments: Vec<Segment>,
}

/// The views of a sequence of segments.
pub open spec fn spec_segments_view(segments: Seq<Segment>) -> Seq<Seq<u8>> {
    segments.map(|i: int, s: Segment| s@)
}

impl View for Jpeg {
    type V = Seq<Seq<u8>>;

    open spec fn view(&self) -> Seq<Seq<u8>> {
        spec_segments_view(self.segments@)
    }
}

/// Finds the end of the SOS segment beginning at `pos`, scanning the
/// bytes after the marker pair for the first `0xff` that a boundary byte
/// follows; returns the segment's length.
fn scan_for_sos_end(buffer: &Vec<u8>, pos: usize) -> (r: usize)
    requires
        pos + 2 <= buffer@.len(),
    ensures
        r == spec_sos_len(buffer@.skip(pos as int)),
        2 <= r <= buffer@.len() - pos,
{
    let ghost data = buffer@.skip(pos as int);
    let n = buffer.len();
    let mut i: usize = pos + 2;
    proof {
        lemma_sos_scan_bounds(data, 3);
    }
    while i < n - 1
        invariant
            pos + 2 <= i,
            i <= n,
            n == buffer@.len(),
            pos + 2 <= n,
            data == buffer@.skip(pos as int),
            spec_sos_len(data) == spec_sos_scan(data, i + 1 - pos),
        decreases n - i,
    {
        proof {
            assert(data[i - pos] == buffer@[i as int]);
            assert(data[i + 1 - pos] == buffer@[i + 1]);
        }
        if buffer[i] == MARKER_START && is_marker(buffer[i + 1]) {
            proof {
                lemma_sos_scan_bounds(data, i + 1 - pos);
            }
            return i - pos;
        }
        i = i + 1;
    }
    proof {
        assert(i + 1 - pos >= data.len());
    }
    n - pos
}

/// Splits the segment that begins at `pos` off the byte stream. Fails
/// when fewer than two bytes remain, the first is not `0xff`, or the
/// declared length runs past the end of the data.
pub fn split_segment(buffer: &Vec<u8>, pos: usize) -> (r: Result<Segment, String>)
    requires
        pos <= buffer@.len(),
    ensures
        (spec_seg_len(buffer@.skip(pos as int)) matches Some(l) ==> (r matches Ok(s) && s@
            == buffer@.subrange(pos as int, pos + l))),
        spec_seg_len(buffer@.skip(pos as int)) is None ==> r is Err,
{
    let ghost data = buffer@.skip(pos as int);
    let n = buffer.len();
    if n - pos < 2 {
        return Err("buffer < 2 bytes".to_owned());
    }
    proof {
        assert(data[0] == buffer@[pos as int]);
        assert(data[1] == buffer@[pos + 1]);
    }
    if buffer[pos] != MARKER_START {
        return Err("segment not starting with 0xff".to_owned());
    }
    let marker = buffer[pos + 1];
    let len: usize = if marker == SOI || marker == EOI {
        2
    } else if marker == SOS {
        scan_for_sos_end(buffer, pos)
    } else {
        if n - pos < 4 {
            return Err("buffer < 4 bytes".to_owned());
        }
        proof {
            assert(data[2] == buffer@[pos + 2]);
            assert(data[3] == buffer@[pos + 3]);
        }
        let size: usize = (buffer[pos + 2] as usize) * 256 + (buffer[pos + 3] as usize);
        2 + size
    };
    if n - pos < len {
        return Err(length_error_message(n - pos, len));
    }
    let end: usize = pos + len;
    let mut seg: Vec<u8> = Vec::new();
    let mut j: usize = pos;
    while j < end
        invariant
            pos <= j <= end,
            end == pos + len,
            end <= buffer@.len(),
            seg@ == buffer@.subrange(pos as int, j as int),
        decreases end - j,
    {
        seg.push(buffer[j]);
        proof {
            assert(seg@ =~= buffer@.subrange(pos as int, j + 1));
        }
        j = j + 1;
    }
    Ok(Segment::new(seg))
}

/// The message of a too-short-buffer failure: the remaining size against
/// the declared one.
fn length_error_message(remaining: usize, wanted: usize) -> (r: String)
    ensures
        r@ == "buffer smaller than size: "@ + spec_dec_str(remaining as nat) + " < "@
            + spec_dec_str(wanted as nat),
{
    let mut m = "buffer smaller than size: ".to_owned();
    m.append(usize_to_string(remaining).as_str());
    m.append(" < ");
    m.append(usize_to_string(wanted).as_str());
    proof {
        assert(m@ =~= "buffer smaller than size: "@ + spec_dec_str(remaining as nat) + " < "@
            + spec_dec_str(wanted as nat));
    }
    m
}

impl Jpeg {
    /// Parses a byte stream into its segments; the segmentation, when it
    /// exists, concatenates back to the input exactly.
    pub fn from_bytes(data: &Vec<u8>) -> (r: Result<Jpeg, ParseError>)
        ensures
            (spec_parse_segments(data@) matches Some(segs) ==> (r matches Ok(j) && j@ == segs)),
            spec_parse_segments(data@) is None ==> r is Err,
    {
        let mut segments: Vec<Segment> = Vec::new();
        let mut pos: usize = 0;
        proof {
            assert(data@.skip(0) =~= data@);
            assert(spec_segments_view(segments@) =~= Seq::<Seq<u8>>::empty());
        }
        while pos < data.len()
            invariant
                pos <= data@.len(),
                (match spec_parse_segments(data@.skip(pos as int)) {
                    Some(rest) => spec_parse_segments(data@) == Some(
                        spec_segments_view(segments@) + rest,
                    ),
                    None => spec_parse_segments(data@) is None,
                }),
            decreases data@.len() - pos,
        {
            let ghost suffix = data@.skip(pos as int);
            let segment = match split_segment(data, pos) {
                Ok(s) => s,
                Err(e) => {
                    return Err(ParseError::from(e));
                },
            };
            proof {
                lemma_seg_len_bounds(suffix);
            }
            let l = segment.len();
            proof {
                let sl = spec_seg_len(suffix).unwrap();
                assert(segment@ == data@.subrange(pos as int, pos + sl));
                assert(l == sl);
                assert(suffix.take(sl) =~= data@.subrange(pos as int, pos + sl));
                assert(suffix.skip(sl) =~= data@.skip(pos + sl));
            }
            let ghost old_segments = segments@;
            segments.push(segment);
            pos = pos + l;
            proof {
                assert(spec_segments_view(segments@) =~= spec_segments_view(old_segments)
                    + seq![segment@]);
                match spec_parse_segments(data@.skip(pos as int)) {
                    Some(rest) => {
                        assert(spec_segments_view(old_segments) + (seq![segment@] + rest)
                            =~= spec_segments_view(segments@) + rest);
                    },
                    None => {},
                }
            }
        }
        proof {
            assert(data@.skip(data@.len() as int) =~= Seq::<u8>::empty());
            assert(spec_segments_view(segments@) + Seq::<Seq<u8>>::empty()
                =~= spec_segments_view(segments@));
        }
        Ok(Jpeg { segments })
    }

    pub fn segments(&self) -> (r: &Vec<Segment>)
        ensures
            r == &self.segments,
    {
        &self.segments
    }

    /// Every segment holds its marker pair.
    pub open spec fn wf(self) -> bool {
        forall|i: int| 0 <= i < self.segments@.len() ==> (#[trigger] self.segments@[i]).wf()
    }

    /// The true height the stream reports, read from the first DNL
    /// segment's payload; `None` when no DNL segment occurs, or the first
    /// one is too short to carry a height.
    pub fn get_height_from_dnl(&self) -> (r: Option<u16>)
        requires
            self.wf(),
        ensures
            r == spec_dnl_height(self@),
    {
        let n = self.segments.len();
        let mut i: usize = 0;
        proof {
            assert(self@.skip(0) =~= self@);
        }
        while i < n
            invariant
                i <= n,
                n == self.segments@.len(),
                self.wf(),
                spec_first_dnl(self@) == spec_first_dnl(self@.skip(i as int)),
            decreases n - i,
        {
            proof {
                assert(self@.skip(i as int)[0] == self@[i as int]);
                assert(self@[i as int] == self.segments@[i as int]@);
            }
            if self.segments[i].marker() == DNL {
                let seg = &self.segments[i];
                if seg.buffer.len() >= 6 {
                    let h: u16 = (seg.buffer[4] as u16) * 256 + (seg.buffer[5] as u16);
                    return Some(h);
                } else {
                    return None;
                }
            }
            proof {
                assert(self@.skip(i as int).drop_first() =~= self@.skip(i + 1));
            }
            i = i + 1;
        }
        proof {
            assert(self@.skip(n as int) =~= Seq::<Seq<u8>>::empty());
        }
        None
    }

    /// Rewrites the height field of every well-sized SOF0 segment to the
    /// given value, leaving every other byte and every other segment
    /// untouched.
    pub fn with_height(&self, height: u16) -> (r: Jpeg)
        requires
            self.wf(),
        ensures
            r@ == spec_patch_segments(self@, height),
            r.wf(),
    {
        let n = self.segments.len();
        let mut segments: Vec<Segment> = Vec::new();
        while segments.len() < n
            invariant
                segments@.len() <= n,
                n == self.segments@.len(),
                self.wf(),
                forall|k: int|
                    0 <= k < segments@.len() ==> (#[trigger] segments@[k])@
                        == spec_patch_segment(self@[k], height),
                forall|k: int| 0 <= k < segments@.len() ==> (#[trigger] segments@[k]).wf(),
            decreases n - segments@.len(),
        {
            let i = segments.len();
            let s = &self.segments[i];
            proof {
                assert(self@[i as int] == self.segments@[i as int]@);
            }
            let patched = if s.buffer.len() >= 7 && s.marker() == SOF0 {
                s.with_height(height)
            } else {
                proof {
                    assert(spec_patch_segment(s@, height) == s@);
                }
                Segment::new(copy_bytes(&s.buffer))
            };
            proof {
                assert(patched.wf()) by {
                    assert(patched@[0] == s@[0] && patched@.len() == s@.len());
                }
            }
            segments.push(patched);
        }
        proof {
            assert(spec_segments_view(segments@) =~= spec_patch_segments(self@, height)) by {
                assert forall|k: int| 0 <= k < segments@.len() implies spec_segments_view(
                    segments@,
                )[k] == spec_patch_segments(self@, height)[k] by {
                    assert(spec_segments_view(segments@)[k] == segments@[k]@);
                    assert(spec_patch_segments(self@, height)[k] == spec_patch_segment(
                        self@[k],
                        height,
                    ));
                }
            }
        }
        Jpeg { segments }
    }

    /// Concatenates the segments back into one byte stream.
    pub fn into_bytes(&self) -> (r: Vec<u8>)
        ensures
            r@ == self@.flatten(),
    {
        let n = self.segments.len();
        let mut out: Vec<u8> = Vec::new();
        let mut i: usize = 0;
        proof {
            assert(self@.take(0) =~= Seq::<Seq<u8>>::empty());
        }
        while i < n
            invariant
                i <= n,
                n == self.segments@.len(),
                out@ == self@.take(i as int).flatten(),
            decreases n - i,
        {
            proof {
                assert(self@[i as int] == self.segments@[i as int]@);
            }
            push_bytes(&mut out, &self.segments[i].buffer);
            proof {
                assert(self@.take(i as int).push(self@[i as int]) =~= self@.take(i + 1));
                self@.take(i as int).lemma_flatten_push(self@[i as int]);
            }
            i = i + 1;
        }
        proof {
            assert(self@.take(n as int) =~= self@);
        }
        out
    }
}

impl Segment {
    /// Rewrites this SOF0 segment's height field, bytes five and six of
    /// the segment, to the given value in big-endian order.
    fn with_height(&self, height: u16) -> (r: Segment)
        requires
            self.wf(),
            self@[1] == SOF0,
            self@.len() >= 7,
        ensures
            r@ == spec_patch_segment(self@, height),
    {
        let mut b = copy_bytes(&self.buffer);
        b.set(5, (height / 256) as u8);
        b.set(6, (height % 256) as u8);
        proof {
            assert(b@ =~= spec_patch_segment(self@, height));
        }
        Segment { buffer: b }
    }
}

/// Whether a segment is a Define-Number-of-Lines segment.
pub open spec fn spec_is_dnl(s: Seq<u8>) -> bool {
    s.len() >= 2 && s[1] == DNL
}

/// The first DNL segment of a stream, in order.
pub open spec fn spec_first_dnl(segs: Seq<Seq<u8>>) -> Option<Seq<u8>>
    decreases segs.len(),
{
    if segs.len() == 0 {
        None
    } else if spec_is_dnl(segs[0]) {
        Some(segs[0])
    } else {
        spec_first_dnl(segs.drop_first())
    }
}

/// The height the first DNL segment reports: the big-endian pair at
/// bytes four and five of the segment. `None` without a DNL segment, or
/// when the first one is too short to carry the pair.
pub open spec fn spec_dnl_height(segs: Seq<Seq<u8>>) -> Option<u16> {
    match spec_first_dnl(segs) {
        None => None,
        Some(s) => if s.len() >= 6 {
            Some((((s[4] as int) * 256 + (s[5] as int)) as u16))
        } else {
            None
        },
    }
}

/// A well-sized SOF0 segment with its height field rewritten to `h` in
/// big-endian order; any other segment unchanged.
pub open spec fn spec_patch_segment(s: Seq<u8>, h: u16) -> Seq<u8> {
    if s.len() >= 7 && s[1] == SOF0 {
        s.update(5, (h / 256) as u8).update(6, (h % 256) as u8)
    } else {
        s
    }
}

/// The height repair over a whole stream: each segment patched in place.
pub open spec fn spec_patch_segments(segs: Seq<Seq<u8>>, h: u16) -> Seq<Seq<u8>> {
    segs.map(|i: int, s: Seq<u8>| spec_patch_segment(s, h))
}

/// Copies a byte vector.
fn copy_bytes(src: &Vec<u8>) -> (r: Vec<u8>)
    ensures
        r@ == src@,
{
    let mut out: Vec<u8> = Vec::new();
    push_bytes(&mut out, src);
    proof {
        assert(Seq::<u8>::empty() + src@ =~= src@);
    }
    out
}

/// Appends the bytes of `src` to `out`.
fn push_bytes(out: &mut Vec<u8>, src: &Vec<u8>)
    ensures
        final(out)@ == old(out)@ + src@,
{
    let n = src.len();
    let mut j: usize = 0;
    proof {
        assert(old(out)@ + src@.take(0) =~= old(out)@);
    }
    while j < n
        invariant
            j <= n,
            n == src@.len(),
            out@ == old(out)@ + src@.take(j as int),
        decreases n - j,
    {
        out.push(src[j]);
        proof {
            assert((old(out)@ + src@.take(j as int)).push(src@[j as int]) =~= old(out)@
                + src@.take(j + 1));
        }
        j = j + 1;
    }
    proof {
        assert(src@.take(n as int) =~= src@);
    }
}

/// Patching changes no segment's length, so the patched stream has the
/// same total length as the original.
pub proof fn lemma_patch_flatten_len(segs: Seq<Seq<u8>>, h: u16)
    ensures
        spec_patch_segments(segs, h).flatten().len() == segs.flatten().len(),
    decreases segs.len(),
{
    if segs.len() == 0 {
        assert(spec_patch_segments(segs, h) =~= Seq::<Seq<u8>>::empty());
    } else {
        lemma_patch_flatten_len(segs.drop_first(), h);
        let p = spec_patch_segments(segs, h);
        assert(p.len() == segs.len());
        assert(p.first() == spec_patch_segment(segs.first(), h));
        assert(p.drop_first() =~= spec_patch_segments(segs.drop_first(), h));
        assert(p.first().len() == segs.first().len());
    }
}

/// Repairs the placeholder height of a JPEG stream: parses it, reads the
/// true height from the DNL segment if one is present, and rewrites the
/// SOF0 height field with it. `Ok(None)` means no DNL segment was found
/// and nothing needs changing; the repaired stream has exactly the length
/// of the input.
pub fn fix_jpeg_height(data: &Vec<u8>) -> (r: Result<Option<Vec<u8>>, ParseError>)
    ensures
        r is Err <==> spec_parse_segments(data@) is None,
        (spec_parse_segments(data@) matches Some(segs) ==> {
            &&& spec_dnl_height(segs) is None ==> (r matches Ok(o) && o is None)
            &&& (spec_dnl_height(segs) matches Some(h) ==> (r matches Ok(o) && o matches Some(
                out,
            ) && out@ == spec_patch_segments(segs, h).flatten() && out@.len() == data@.len()))
        }),
{
    let jpeg = match Jpeg::from_bytes(data) {
        Ok(j) => j,
        Err(e) => {
            return Err(e);
        },
    };
    proof {
        lemma_parse_segments_wf(data@);
        assert forall|i: int| 0 <= i < jpeg.segments@.len() implies (
        #[trigger] jpeg.segments@[i]).wf() by {
            assert(jpeg@[i] == jpeg.segments@[i]@);
            assert(jpeg@[i] == spec_parse_segments(data@).unwrap()[i]);
        }
    }
    match jpeg.get_height_from_dnl() {
        Some(height) => {
            let patched = jpeg.with_height(height);
            let out = patched.into_bytes();
            proof {
                lemma_patch_flatten_len(jpeg@, height);
                lemma_parse_round_trip(data@);
            }
            Ok(Some(out))
        },
        None => Ok(None),
    }
}

/// The scan keeps going until the first boundary pair at or after `i`,
/// and stops right before its `0xff`.
proof fn lemma_sos_scan_first(data: Seq<u8>, i: int)
    requires
        3 <= i,
    ensures
        ({
            let r = spec_sos_scan(data, i);
            &&& (r == data.len() ==> forall|j: int|
                i - 1 <= j && j + 1 < data.len() ==> !((#[trigger] data[j]) == MARKER_START
                    && spec_is_marker(data[j + 1])))
            &&& (r < data.len() ==> r + 1 < data.len() && data[r] == MARKER_START
                && spec_is_marker(data[r + 1]) && (forall|j: int|
                i - 1 <= j < r ==> !((#[trigger] data[j]) == MARKER_START && spec_is_marker(
                    data[j + 1],
                ))))
        }),
    decreases data.len() - i,
{
    if i < data.len() && !(data[i - 1] == MARKER_START && spec_is_marker(data[i])) {
        lemma_sos_scan_first(data, i + 1);
        lemma_sos_scan_bounds(data, i + 1);
    }
}

/// The scan-data end rule. Scanning starts after the marker pair; a
/// stuffed pair `0xff 0x00` never ends the scan, nor does `0xff` before
/// a restart marker `0xd0`..`0xd7`; the segment ends immediately before
/// the first `0xff` that any other byte follows, and at the end of the
/// data when no such pair occurs.
pub proof fn lemma_sos_end_characterization(data: Seq<u8>)
    ensures
        ({
            let l = spec_sos_len(data);
            &&& l == data.len() || (2 <= l && l + 1 < data.len() && data[l] == MARKER_START
                && spec_is_marker(data[l + 1]))
            &&& forall|j: int|
                2 <= j < l ==> !((#[trigger] data[j]) == MARKER_START && j + 1 < data.len()
                    && spec_is_marker(data[j + 1]))
            &&& forall|j: int|
                2 <= j && j + 1 < data.len() && (#[trigger] data[j]) == MARKER_START && data[j
                    + 1] == 0x00 ==> l != j
        }),
{
    lemma_sos_scan_first(data, 3);
    lemma_sos_scan_bounds(data, 3);
}

/// Patching a segment keeps its length and every byte but the height
/// field's two.
proof fn lemma_patch_segment_bytes(s: Seq<u8>, h: u16)
    ensures
        spec_patch_segment(s, h).len() == s.len(),
        forall|j: int|
            0 <= j < s.len() && j != 5 && j != 6 ==> spec_patch_segment(s, h)[j] == s[j],
        s.len() >= 2 && s[1] != SOF0 ==> spec_patch_segment(s, h) == s,
{
}

/// Two equally long streams that agree up to just past the scan's end
/// scan to the same end.
proof fn lemma_sos_scan_agree(a: Seq<u8>, b: Seq<u8>, i: int)
    requires
        3 <= i,
        a.len() == b.len(),
        forall|j: int| i - 1 <= j < a.len() && j < spec_sos_scan(a, i) + 2 ==> a[j] == b[j],
    ensures
        spec_sos_scan(b, i) == spec_sos_scan(a, i),
    decreases a.len() - i,
{
    if i < a.len() {
        lemma_sos_scan_bounds(a, i);
        if a[i - 1] == MARKER_START && spec_is_marker(a[i]) {
        } else {
            lemma_sos_scan_agree(a, b, i + 1);
        }
    }
}

/// Patching never touches a DNL segment, so the first DNL segment and
/// the height it reports survive the repair unchanged.
pub proof fn lemma_patch_preserves_dnl(segs: Seq<Seq<u8>>, h: u16)
    ensures
        spec_first_dnl(spec_patch_segments(segs, h)) == spec_first_dnl(segs),
        spec_dnl_height(spec_patch_segments(segs, h)) == spec_dnl_height(segs),
    decreases segs.len(),
{
    let p = spec_patch_segments(segs, h);
    if segs.len() == 0 {
        assert(p =~= Seq::<Seq<u8>>::empty());
    } else {
        assert(p[0] == spec_patch_segment(segs[0], h));
        lemma_patch_segment_bytes(segs[0], h);
        if spec_is_dnl(segs[0]) {
            assert(p[0] == segs[0]);
        } else {
            assert(!spec_is_dnl(p[0]));
            lemma_patch_preserves_dnl(segs.drop_first(), h);
            assert(p.drop_first() =~= spec_patch_segments(segs.drop_first(), h));
        }
    }
}

/// Patching an already patched stream changes nothing: the height field
/// is rewritten to the value it already holds.
pub proof fn lemma_patch_idempotent(segs: Seq<Seq<u8>>, h: u16)
    ensures
        spec_patch_segments(spec_patch_segments(segs, h), h) == spec_patch_segments(segs, h),
{
    let p = spec_patch_segments(segs, h);
    let pp = spec_patch_segments(p, h);
    assert forall|i: int| 0 <= i < segs.len() implies pp[i] == p[i] by {
        let s = segs[i];
        assert(p[i] == spec_patch_segment(s, h));
        assert(pp[i] == spec_patch_segment(p[i], h));
        lemma_patch_segment_bytes(s, h);
        if s.len() >= 7 && s[1] == SOF0 {
            assert(p[i].len() == s.len() && p[i][1] == s[1]);
            assert(spec_patch_segment(p[i], h) =~= p[i]);
        } else {
            assert(p[i] == s);
        }
    }
    assert(pp =~= p);
}

/// A patched stream parses back into exactly the patched segments: the
/// repair moves no segment boundary.
pub proof fn lemma_reparse_patched(data: Seq<u8>, h: u16)
    requires
        spec_parse_segments(data) is Some,
    ensures
        ({
            let p = spec_patch_segments(spec_parse_segments(data).unwrap(), h);
            spec_parse_segments(p.flatten()) == Some(p)
        }),
    decreases data.len(),
{
    let segs = spec_parse_segments(data).unwrap();
    let p = spec_patch_segments(segs, h);
    if data.len() == 0 {
        assert(segs =~= Seq::<Seq<u8>>::empty());
        assert(p =~= Seq::<Seq<u8>>::empty());
        assert(p.flatten() =~= Seq::<u8>::empty());
    } else {
        let l = spec_seg_len(data).unwrap();
        lemma_seg_len_bounds(data);
        let s = data.take(l);
        let rest = data.skip(l);
        let rsegs = spec_parse_segments(rest).unwrap();
        assert(segs == seq![s] + rsegs);
        lemma_reparse_patched(rest, h);
        let s2 = spec_patch_segment(s, h);
        let rp = spec_patch_segments(rsegs, h);
        let rest2 = rp.flatten();
        assert(p =~= seq![s2] + rp);
        assert(p.first() == s2);
        assert(p.drop_first() =~= rp);
        let d2 = p.flatten();
        assert(d2 == s2 + rest2);
        lemma_patch_segment_bytes(s, h);
        assert(s.len() == l);
        assert(s2.len() == l);
        lemma_patch_flatten_len(rsegs, h);
        lemma_parse_round_trip(rest);
        assert(rest2.len() == rest.len());
        assert(d2.len() == data.len());
        assert(forall|j: int| 0 <= j < l ==> s[j] == data[j]);
        // The two bytes after the first segment are the next segment's
        // marker pair, which patching preserves.
        if rest.len() > 0 {
            assert(rsegs.len() > 0);
            lemma_parse_segments_wf(rest);
            assert(rsegs[0].len() >= 2);
            assert(rest == rsegs.first() + rsegs.drop_first().flatten());
            assert(rest2 == rp.first() + rp.drop_first().flatten());
            assert(rp.first() == spec_patch_segment(rsegs[0], h));
            lemma_patch_segment_bytes(rsegs[0], h);
            assert(rest2[0] == rsegs[0][0] && rest2[0] == rest[0]);
            assert(rest2[1] == rsegs[0][1] && rest2[1] == rest[1]);
        }
        assert(forall|j: int| l <= j < data.len() ==> data[j] == rest[j - l]);
        assert(forall|j: int| l <= j < data.len() ==> d2[j] == rest2[j - l]);
        // The first segment's length reads the same from the patched
        // stream.
        assert(d2.len() >= 2);
        assert(d2[0] == data[0] && d2[1] == data[1]);
        if data[1] == SOI || data[1] == EOI {
            assert(l == 2);
            assert(spec_seg_len(d2) == Some(2int));
        } else if data[1] == SOS {
            assert(s2 == s);
            assert(l == spec_sos_scan(data, 3));
            assert(forall|j: int|
                2 <= j < data.len() && j < l + 2 ==> data[j] == d2[j]);
            lemma_sos_scan_agree(data, d2, 3);
            assert(spec_seg_len(d2) == Some(l));
        } else {
            assert(data.len() >= 4);
            assert(l == 2 + (data[2] as int) * 256 + (data[3] as int));
            assert(d2[2] == data[2]);
            assert(d2[3] == data[3]);
            assert(spec_seg_len(d2) == Some(l));
        }
        // Splitting the patched stream at the same point yields the
        // patched first segment and the patched remainder.
        assert(d2.take(l) =~= s2);
        assert(d2.skip(l) =~= rest2);
        assert(spec_parse_segments(d2) == Some(seq![s2] + rp));
        assert(seq![s2] + rp == p);
    }
}

/// The repair is idempotent: running it on its own output re-reads the
/// same height from the untouched DNL segment and rewrites the height
/// field to the value it already holds, so the bytes come out unchanged.
pub proof fn lemma_fix_idempotent(data: Seq<u8>, h: u16)
    requires
        spec_parse_segments(data) is Some,
        spec_dnl_height(spec_parse_segments(data).unwrap()) == Some(h),
    ensures
        ({
            let segs = spec_parse_segments(data).unwrap();
            let p = spec_patch_segments(segs, h);
            let out = p.flatten();
            &&& spec_parse_segments(out) == Some(p)
            &&& spec_dnl_height(p) == Some(h)
            &&& spec_patch_segments(p, h).flatten() == out
        }),
{
    let segs = spec_parse_segments(data).unwrap();
    lemma_reparse_patched(data, h);
    lemma_patch_preserves_dnl(segs, h);
    lemma_patch_idempotent(segs, h);
}

/// Every parsed segment holds at least its marker pair and starts with
/// `0xff`.
pub proof fn lemma_parse_segments_wf(data: Seq<u8>)
    requires
        spec_parse_segments(data) is Some,
    ensures
        forall|i: int|
            0 <= i < spec_parse_segments(data).unwrap().len() ==> {
                let s = #[trigger] spec_parse_segments(data).unwrap()[i];
                s.len() >= 2 && s[0] == MARKER_START
            },
    decreases data.len(),
{
    if data.len() != 0 {
        let l = spec_seg_len(data).unwrap();
        lemma_seg_len_bounds(data);
        lemma_parse_segments_wf(data.skip(l));
        let segs = spec_parse_segments(data).unwrap();
        let rest = spec_parse_segments(data.skip(l)).unwrap();
        assert(segs =~= seq![data.take(l)] + rest);
        assert(segs[0] == data.take(l));
        assert(segs[0].len() >= 2 && segs[0][0] == MARKER_START);
        assert(forall|i: int| 1 <= i < segs.len() ==> segs[i] == rest[i - 1]);
    }
}

} // verus!

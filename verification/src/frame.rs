//! The wire format: every message is one tag byte that names the kind of
//! data, followed by a short payload.

use vstd::prelude::*;
use vstd::utf8::encode_utf8;

verus! {

/// The longest text, in bytes, that a frame can carry: its length must fit
/// the single length byte.
pub const MAX_TEXT_BYTES: usize = 255;

/// What a frame's payload means.
#[derive(Clone, Copy, Debug, PartialEq, Eq, Structural)]
pub enum DataKind {
    Layout,
    Volume,
    MediaArtist,
    MediaTitle,
}

impl DataKind {
    /// The tag byte that opens a frame of this kind.
    pub open spec fn tag_of(self) -> u8 {
        match self {
            DataKind::Layout => 0u8,
            DataKind::Volume => 2u8,
            DataKind::MediaArtist => 3u8,
            DataKind::MediaTitle => 4u8,
        }
    }

    /// Whether frames of this kind carry length-prefixed text rather than a
    /// single byte.
    pub open spec fn carries_text(self) -> bool {
        self == DataKind::MediaArtist || self == DataKind::MediaTitle
    }

    /// Computes `carries_text`.
    pub fn is_text(self) -> (text: bool)
        ensures
            text == self.carries_text(),
    {
        match self {
            DataKind::MediaArtist | DataKind::MediaTitle => true,
            DataKind::Layout | DataKind::Volume => false,
        }
    }

    pub fn tag(self) -> (t: u8)
        ensures
            t == self.tag_of(),
    {
        match self {
            DataKind::Layout => 0u8,
            DataKind::Volume => 2u8,
            DataKind::MediaArtist => 3u8,
            DataKind::MediaTitle => 4u8,
        }
    }
}

/// A text payload: one length byte, then at most `MAX_TEXT_BYTES` of the
/// text's bytes. Longer text is cut after the 255th byte, wherever in the
/// text that falls, so the length byte always counts exactly the bytes that
/// follow it.
pub open spec fn length_prefixed(bytes: Seq<u8>) -> Seq<u8> {
    let n: int = if bytes.len() <= MAX_TEXT_BYTES {
        bytes.len() as int
    } else {
        MAX_TEXT_BYTES as int
    };
    seq![n as u8] + bytes.take(n)
}

/// The length byte of a text payload counts the bytes behind it, and these
/// are the first bytes of the text: all of them if the text has at most 255.
pub proof fn length_byte_counts_the_rest(bytes: Seq<u8>)
    ensures
        length_prefixed(bytes).len() == 1 + length_prefixed(bytes)[0],
        length_prefixed(bytes).skip(1) == bytes.take(length_prefixed(bytes)[0] as int),
        bytes.len() <= MAX_TEXT_BYTES ==> length_prefixed(bytes).skip(1) == bytes,
        bytes.len() > MAX_TEXT_BYTES ==> length_prefixed(bytes)[0] == 255,
{
    let n: int = if bytes.len() <= MAX_TEXT_BYTES {
        bytes.len() as int
    } else {
        MAX_TEXT_BYTES as int
    };
    assert(length_prefixed(bytes).skip(1) =~= bytes.take(n));
    assert(bytes.take(bytes.len() as int) =~= bytes);
}

/// The unit that goes to the output queue.
#[derive(Clone, Debug, PartialEq, Eq)]
pub struct Frame {
    pub kind: DataKind,
    pub payload: Vec<u8>,
}

impl Frame {
    /// The bytes that travel: the tag, then the payload.
    pub open spec fn wire(self) -> Seq<u8> {
        seq![self.kind.tag_of()] + self.payload@
    }

    /// A frame has the shape of its kind: one payload byte for a layout or a
    /// volume, a length byte that counts the rest for text.
    pub open spec fn well_formed(self) -> bool {
        if self.kind.carries_text() {
            self.payload@.len() >= 1 && self.payload@[0] as int == self.payload@.len() - 1
        } else {
            self.payload@.len() == 1
        }
    }

    /// The frame that announces a keyboard layout by its place in the catalog.
    pub fn layout(index: u8) -> (f: Frame)
        ensures
            f.kind == DataKind::Layout,
            f.payload@ == seq![index],
            f.wire() == seq![0u8, index],
            f.well_formed(),
    {
        let f = Frame { kind: DataKind::Layout, payload: vec![index] };
        assert(f.wire() =~= seq![0u8, index]);
        f
    }

    /// The frame that announces an output volume as a whole percentage.
    pub fn volume(percentage: u8) -> (f: Frame)
        ensures
            f.kind == DataKind::Volume,
            f.payload@ == seq![percentage],
            f.wire() == seq![2u8, percentage],
            f.well_formed(),
    {
        let f = Frame { kind: DataKind::Volume, payload: vec![percentage] };
        assert(f.wire() =~= seq![2u8, percentage]);
        f
    }

    /// A frame that carries text: the UTF-8 bytes of `text` behind their
    /// length byte, cut to `MAX_TEXT_BYTES`. Only the kinds that carry text
    /// have such frames: a layout or a volume is always one byte.
    pub fn text(kind: DataKind, text: &str) -> (f: Frame)
        requires
            kind.carries_text(),
        ensures
            f.kind == kind,
            f.payload@ == length_prefixed(encode_utf8(text@)),
            f.well_formed(),
    {
        let bytes = text.as_bytes();
        let n: usize = if bytes.len() <= MAX_TEXT_BYTES {
            bytes.len()
        } else {
            MAX_TEXT_BYTES
        };
        let mut payload: Vec<u8> = Vec::new();
        payload.push(n as u8);
        let mut i: usize = 0;
        while i < n
            invariant
                i <= n <= bytes@.len(),
                n <= MAX_TEXT_BYTES,
                payload@ == seq![n as u8] + bytes@.take(i as int),
            decreases n - i,
        {
            payload.push(bytes[i]);
            assert(bytes@.take(i as int).push(bytes@[i as int]) =~= bytes@.take(i + 1));
            assert(payload@ =~= seq![n as u8] + bytes@.take(i + 1));
            i = i + 1;
        }
        Frame { kind, payload }
    }

    /// The frame as the bytes that go to the queue.
    pub fn to_bytes(&self) -> (bytes: Vec<u8>)
        ensures
            bytes@ == self.wire(),
    {
        let mut bytes: Vec<u8> = Vec::new();
        bytes.push(self.kind.tag());
        let mut i: usize = 0;
        while i < self.payload.len()
            invariant
                i <= self.payload@.len(),
                bytes@ == seq![self.kind.tag_of()] + self.payload@.take(i as int),
            decreases self.payload@.len() - i,
        {
            bytes.push(self.payload[i]);
            assert(self.payload@.take(i as int).push(self.payload@[i as int])
                =~= self.payload@.take(i + 1));
            assert(bytes@ =~= seq![self.kind.tag_of()] + self.payload@.take(i + 1));
            i = i + 1;
        }
        assert(self.payload@.take(self.payload@.len() as int) =~= self.payload@);
        bytes
    }
}

} // verus!

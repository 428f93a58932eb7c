//! The boundary with the transport: a received frame borrowed from the transport's
//! buffer, and an owned frame ready for the transport to send.

use vstd::prelude::*;

verus! {

/// What a frame carries: its packet type, its data segment and its optional segment.
pub struct FrameView {
    pub packet_type: u8,
    pub data: Seq<u8>,
    pub optional_data: Seq<u8>,
}

/// A received frame whose segments borrow from the transport's buffer.
#[derive(Debug, Clone, Copy)]
pub struct ESP3FrameRef<'a> {
    pub packet_type: u8,
    pub data: &'a [u8],
    pub optional_data: &'a [u8],
}

/// An owned frame, to be framed and checksummed by the transport.
#[derive(Debug, Clone)]
pub struct ESP3Frame {
    pub packet_type: u8,
    pub data: Vec<u8>,
    pub optional_data: Vec<u8>,
}

impl<'a> View for ESP3FrameRef<'a> {
    type V = FrameView;

    open spec fn view(&self) -> FrameView {
        FrameView { packet_type: self.packet_type, data: self.data@, optional_data: self.optional_data@ }
    }
}

impl View for ESP3Frame {
    type V = FrameView;

    open spec fn view(&self) -> FrameView {
        FrameView { packet_type: self.packet_type, data: self.data@, optional_data: self.optional_data@ }
    }
}

/// Appends the bytes of `s` to `v`.
pub fn append_bytes(v: &mut Vec<u8>, s: &[u8])
    ensures
        final(v)@ == old(v)@ + s@,
{
    let ghost start = v@;
    let mut i: usize = 0;
    while i < s.len()
        invariant
            i <= s@.len(),
            v@ == start + s@.subrange(0, i as int),
        decreases s@.len() - i,
    {
        v.push(s[i]);
        i = i + 1;
        assert(s@.subrange(0, i as int) == s@.subrange(0, i - 1) + seq![s@[i - 1]]);
    }
    assert(s@.subrange(0, i as int) == s@);
}

impl ESP3Frame {
    /// Builds a frame from its packet type and two segments, copied as they are.
    pub fn assemble(packet_type: u8, data: &[u8], optional_data: &[u8]) -> (r: ESP3Frame)
        ensures
            r@ == (FrameView { packet_type, data: data@, optional_data: optional_data@ }),
    {
        let mut d: Vec<u8> = Vec::new();
        append_bytes(&mut d, data);
        let mut o: Vec<u8> = Vec::new();
        append_bytes(&mut o, optional_data);
        ESP3Frame { packet_type, data: d, optional_data: o }
    }

    /// A view of this frame as a received frame, borrowing its segments.
    pub fn as_frame_ref(&self) -> (r: ESP3FrameRef<'_>)
        ensures
            r@ == self@,
    {
        ESP3FrameRef { packet_type: self.packet_type, data: self.data.as_slice(), optional_data: self.optional_data.as_slice() }
    }
}

} // verus!

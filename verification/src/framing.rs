//! Frames of the tunnel device.
//!
//! The batched transport of the device carries each IP packet behind a header of
//! fixed length. Towards the device the header is all zero, which tells it that
//! the packet needs no segmentation; from the device the packets of one batch
//! lie in a set of staging buffers, each with its own length.

use vstd::prelude::*;

verus! {

/// Length of the header that stands before every packet on the device.
pub const HEADER_LEN: usize = 10;

/// Number of packets that one batched read of the device may yield.
pub const BATCH_CAPACITY: usize = 128;

/// Length of each staging buffer of a receive batch.
pub const PACKET_BUFFER_LEN: usize = 1500;

/// Length of the longest IP packet.
pub const MAX_PACKET_LEN: usize = 65535;

/// Reads `tun_rs::VIRTIO_NET_HDR_LEN`.
///
/// Trusted: the value is `HEADER_LEN`. `tun_rs` defines the constant as the size
/// of its header struct, which is laid out as in C and holds two fields of one
/// byte followed by four fields of two bytes: ten bytes. (The comment above the
/// constant in `tun_rs` names another number; the definition decides.)
#[verifier::external_body]
fn device_header_len() -> (n: usize)
    ensures
        n == HEADER_LEN,
{
    tun_rs::VIRTIO_NET_HDR_LEN
}

/// Reads `tun_rs::IDEAL_BATCH_SIZE`.
///
/// Trusted: the value is `BATCH_CAPACITY`, the literal that `tun_rs` gives it.
#[verifier::external_body]
fn device_batch_size() -> (n: usize)
    ensures
        n == BATCH_CAPACITY,
{
    tun_rs::IDEAL_BATCH_SIZE
}

/// `n` zero bytes.
pub open spec fn zeros(n: nat) -> Seq<u8> {
    Seq::new(n, |i: int| 0u8)
}

/// The device frame of a packet: the zero header, then the packet.
pub open spec fn framed(packet: Seq<u8>) -> Seq<u8> {
    zeros(HEADER_LEN as nat) + packet
}

/// The packet of a device frame: what follows the header, whatever the header
/// holds. A frame shorter than the header carries no packet.
pub open spec fn stripped(frame: Seq<u8>) -> Option<Seq<u8>> {
    if frame.len() >= HEADER_LEN {
        Some(frame.skip(HEADER_LEN as int))
    } else {
        None
    }
}

/// The view of an optional byte vector.
pub open spec fn bytes_of(v: Option<Vec<u8>>) -> Option<Seq<u8>> {
    match v {
        Some(b) => Some(b@),
        None => None,
    }
}

/// A vector of `len` zero bytes.
pub fn zero_buffer(len: usize) -> (buf: Vec<u8>)
    ensures
        buf@ == zeros(len as nat),
{
    let mut buf: Vec<u8> = Vec::new();
    let mut i: usize = 0;
    while i < len
        invariant
            i <= len,
            buf@ == zeros(i as nat),
        decreases len - i,
    {
        buf.push(0u8);
        i += 1;
        assert(buf@ =~= zeros(i as nat));
    }
    buf
}

/// Copies `src[from..to]`.
pub(crate) fn copy_range(src: &[u8], from: usize, to: usize) -> (out: Vec<u8>)
    requires
        from <= to <= src@.len(),
    ensures
        out@ == src@.subrange(from as int, to as int),
{
    let mut out: Vec<u8> = Vec::new();
    let mut i: usize = from;
    while i < to
        invariant
            from <= i <= to <= src@.len(),
            out@ == src@.subrange(from as int, i as int),
        decreases to - i,
    {
        out.push(src[i]);
        i += 1;
        assert(out@ =~= src@.subrange(from as int, i as int));
    }
    out
}

/// Builds the device frame of `packet`: the zero header followed by the packet,
/// byte for byte.
pub fn frame_packet(packet: &[u8]) -> (frame: Vec<u8>)
    ensures
        frame@ == framed(packet@),
        stripped(frame@) == Some(packet@),
{
    let mut frame = zero_buffer(device_header_len());
    let mut i: usize = 0;
    while i < packet.len()
        invariant
            i <= packet@.len(),
            frame@ == zeros(HEADER_LEN as nat) + packet@.subrange(0, i as int),
        decreases packet@.len() - i,
    {
        frame.push(packet[i]);
        i += 1;
        assert(frame@ =~= zeros(HEADER_LEN as nat) + packet@.subrange(0, i as int));
    }
    assert(packet@.subrange(0, i as int) =~= packet@);
    proof {
        framing_round_trip(packet@);
    }
    frame
}

/// Takes the packet out of a device frame. A frame that is shorter than the
/// header holds no packet.
pub fn strip_header(frame: &[u8]) -> (packet: Option<Vec<u8>>)
    ensures
        bytes_of(packet) == stripped(frame@),
{
    let n = device_header_len();
    if frame.len() < n {
        None
    } else {
        let packet = copy_range(frame, n, frame.len());
        assert(frame@.subrange(n as int, frame@.len() as int) =~= frame@.skip(n as int));
        Some(packet)
    }
}

/// Framing loses nothing: the packet that is taken out of the frame of a packet
/// is that packet, and the frame is longer than the packet by the header alone.
pub proof fn framing_round_trip(packet: Seq<u8>)
    ensures
        stripped(framed(packet)) == Some(packet),
        framed(packet).len() == HEADER_LEN + packet.len(),
        forall|i: int| 0 <= i < HEADER_LEN ==> framed(packet)[i] == 0u8,
{
    assert(framed(packet).skip(HEADER_LEN as int) =~= packet);
}

/// A frame with any header stands for the packet behind it: putting that packet
/// into a frame again gives the same bytes behind the header.
pub proof fn reframing_keeps_packet(frame: Seq<u8>)
    requires
        frame.len() >= HEADER_LEN,
    ensures
        stripped(frame) is Some,
        stripped(framed(stripped(frame)->0)) == stripped(frame),
{
    framing_round_trip(stripped(frame)->0);
}

/// What one write to the device is made of: the frames, and the offset in each
/// frame at which its packet begins.
#[derive(Clone, Debug, PartialEq, Eq)]
pub struct WriteBatch {
    pub frames: Vec<Vec<u8>>,
    pub offset: usize,
}

/// The write batch for one packet that the stack produced: its frame alone, with
/// the packet behind the header.
pub fn write_batch(packet: &[u8]) -> (batch: WriteBatch)
    ensures
        batch.frames@.len() == 1,
        batch.frames@[0]@ == framed(packet@),
        batch.offset == HEADER_LEN,
{
    let mut frames: Vec<Vec<u8>> = Vec::new();
    frames.push(frame_packet(packet));
    WriteBatch { frames, offset: device_header_len() }
}

/// Why a receive batch cannot be read.
#[derive(Clone, Copy, Debug, PartialEq, Eq, Structural)]
pub enum BatchError {
    /// The batch claims more packets than there are buffers or lengths.
    CountOutOfRange,
    /// A packet of the batch would end behind its buffer.
    PacketOutOfRange,
}

/// Whether a batch of `count` packets fits the staging buffers.
pub open spec fn count_in_range(bufs: Seq<Vec<u8>>, sizes: Seq<usize>, count: usize) -> bool {
    count <= bufs.len() && count <= sizes.len()
}

/// Whether the packet of length `size` that begins at `offset` lies in `buf`.
pub open spec fn packet_in_range(buf: Seq<u8>, size: usize, offset: usize) -> bool {
    offset + size <= buf.len()
}

/// Whether each of the first `count` packets lies in its buffer.
pub open spec fn packets_in_range(
    bufs: Seq<Vec<u8>>,
    sizes: Seq<usize>,
    count: usize,
    offset: usize,
) -> bool {
    forall|i: int| 0 <= i < count ==> packet_in_range(#[trigger] bufs[i]@, sizes[i], offset)
}

/// The packet of length `size` that begins at `offset` in `buf`.
pub open spec fn packet_at(buf: Seq<u8>, size: usize, offset: usize) -> Seq<u8> {
    buf.subrange(offset as int, offset + size)
}

/// Whether `packets` are the first `count` packets of the batch, in the order
/// of the buffers.
pub open spec fn is_batch(
    packets: Seq<Vec<u8>>,
    bufs: Seq<Vec<u8>>,
    sizes: Seq<usize>,
    count: usize,
    offset: usize,
) -> bool {
    &&& packets.len() == count
    &&& forall|i: int|
        0 <= i < count ==> (#[trigger] packets[i])@ == packet_at(bufs[i]@, sizes[i], offset)
}

/// Takes the packets of a receive batch out of the staging buffers, in the
/// order in which the device delivered them. Packet `i` is the `sizes[i]` bytes
/// of `bufs[i]` that begin at `offset`.
pub fn received_packets(
    bufs: &Vec<Vec<u8>>,
    sizes: &Vec<usize>,
    count: usize,
    offset: usize,
) -> (r: Result<Vec<Vec<u8>>, BatchError>)
    ensures
        match r {
            Ok(packets) => {
                &&& count_in_range(bufs@, sizes@, count)
                &&& packets_in_range(bufs@, sizes@, count, offset)
                &&& is_batch(packets@, bufs@, sizes@, count, offset)
            },
            Err(BatchError::CountOutOfRange) => !count_in_range(bufs@, sizes@, count),
            Err(BatchError::PacketOutOfRange) => {
                &&& count_in_range(bufs@, sizes@, count)
                &&& !packets_in_range(bufs@, sizes@, count, offset)
            },
        },
{
    if count > bufs.len() || count > sizes.len() {
        return Err(BatchError::CountOutOfRange);
    }
    let mut packets: Vec<Vec<u8>> = Vec::new();
    let mut i: usize = 0;
    while i < count
        invariant
            i <= count,
            count_in_range(bufs@, sizes@, count),
            packets_in_range(bufs@, sizes@, i, offset),
            is_batch(packets@, bufs@, sizes@, i, offset),
        decreases count - i,
    {
        let buf = &bufs[i];
        let size = sizes[i];
        if offset > buf.len() || size > buf.len() - offset {
            assert(!packet_in_range(bufs@[i as int]@, sizes@[i as int], offset));
            return Err(BatchError::PacketOutOfRange);
        }
        let packet = copy_range(buf.as_slice(), offset, offset + size);
        packets.push(packet);
        i += 1;
    }
    Ok(packets)
}

/// The staging buffers of the receiving direction: one buffer for what a single
/// read of the device returns, and a set of packet buffers with their lengths,
/// as many as a batch may hold.
#[derive(Clone, Debug)]
pub struct ReceiveBuffers {
    pub original: Vec<u8>,
    pub bufs: Vec<Vec<u8>>,
    pub sizes: Vec<usize>,
}

impl ReceiveBuffers {
    /// The shape in which the buffers are made.
    pub open spec fn wf(&self) -> bool {
        &&& self.original@ == zeros((HEADER_LEN + MAX_PACKET_LEN) as nat)
        &&& self.bufs@.len() == BATCH_CAPACITY
        &&& self.sizes@.len() == BATCH_CAPACITY
        &&& forall|i: int|
            0 <= i < BATCH_CAPACITY ==> (#[trigger] self.bufs@[i])@ == zeros(
                PACKET_BUFFER_LEN as nat,
            )
        &&& forall|i: int| 0 <= i < BATCH_CAPACITY ==> #[trigger] self.sizes@[i] == 0
    }

    /// Fresh buffers, all zero: room for the longest packet behind one header,
    /// and a full batch of packet buffers with no packet in them.
    pub fn new() -> (b: ReceiveBuffers)
        ensures
            b.wf(),
    {
        let capacity = device_batch_size();
        let original = zero_buffer(device_header_len() + MAX_PACKET_LEN);
        let mut bufs: Vec<Vec<u8>> = Vec::new();
        let mut sizes: Vec<usize> = Vec::new();
        let mut i: usize = 0;
        while i < capacity
            invariant
                i <= capacity,
                capacity == BATCH_CAPACITY,
                bufs@.len() == i,
                sizes@.len() == i,
                forall|j: int| 0 <= j < i ==> (#[trigger] bufs@[j])@ == zeros(PACKET_BUFFER_LEN as nat),
                forall|j: int| 0 <= j < i ==> #[trigger] sizes@[j] == 0,
            decreases capacity - i,
        {
            bufs.push(zero_buffer(PACKET_BUFFER_LEN));
            sizes.push(0usize);
            i += 1;
        }
        ReceiveBuffers { original, bufs, sizes }
    }

    /// The first `count` packets that a read left in the buffers, each from the
    /// start of its buffer.
    pub fn packets(&self, count: usize) -> (r: Result<Vec<Vec<u8>>, BatchError>)
        ensures
            match r {
                Ok(packets) => {
                    &&& count_in_range(self.bufs@, self.sizes@, count)
                    &&& packets_in_range(self.bufs@, self.sizes@, count, 0)
                    &&& is_batch(packets@, self.bufs@, self.sizes@, count, 0)
                },
                Err(BatchError::CountOutOfRange) => !count_in_range(self.bufs@, self.sizes@, count),
                Err(BatchError::PacketOutOfRange) => {
                    &&& count_in_range(self.bufs@, self.sizes@, count)
                    &&& !packets_in_range(self.bufs@, self.sizes@, count, 0)
                },
            },
    {
        received_packets(&self.bufs, &self.sizes, count, 0)
    }
}

/// The two directions in which the adapter moves packets.
#[derive(Clone, Copy, Debug, PartialEq, Eq, Structural)]
pub enum Direction {
    DeviceToStack,
    StackToDevice,
}

/// What a direction does after the device has failed it.
#[derive(Clone, Copy, Debug, PartialEq, Eq, Structural)]
pub enum Verdict {
    /// The direction ends.
    Terminate,
    /// The packet is lost, the failure is reported, the direction goes on.
    DropAndContinue,
}

/// The rule for a failure of the device: a read that fails ends the receiving
/// direction; a write that fails loses its packet and nothing else.
pub open spec fn device_error_verdict(direction: Direction) -> Verdict {
    match direction {
        Direction::DeviceToStack => Verdict::Terminate,
        Direction::StackToDevice => Verdict::DropAndContinue,
    }
}

/// Decides what `direction` does after the device has failed it.
pub fn on_device_error(direction: Direction) -> (verdict: Verdict)
    ensures
        verdict == device_error_verdict(direction),
{
    match direction {
        Direction::DeviceToStack => Verdict::Terminate,
        Direction::StackToDevice => Verdict::DropAndContinue,
    }
}

} // verus!

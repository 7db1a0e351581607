//! Network streaming: the bounded ring of recent stereo frames, the reader
//! that turns it into a byte stream for one connection, the WAV header that
//! opens the stream, PCM framing, and the routing of request paths.
//!
//! The ring is generic in its frame type, since it only stores and hands out
//! frames. It is a plain value: sharing it between the producer and the
//! readers, and locking it once per batch, is the host's part.

use std::collections::VecDeque;
use vstd::prelude::*;
use vstd::string::StringExecFns;
use crate::utils::{decimal, push_decimal, same_text};
use crate::constants::{
    STREAM_READ_CHUNK_SIZE, WAV_BITS_PER_SAMPLE, WAV_BLOCK_ALIGN, WAV_FMT_CHUNK_SIZE,
    WAV_HEADER_LEN, WAV_INFINITE_SIZE, WAV_PCM_FORMAT, WAV_STEREO_CHANNELS,
};

verus! {

/// The most recent `capacity` items of a sequence, in order; the whole
/// sequence where it is no longer than that.
pub open spec fn most_recent<T>(items: Seq<T>, capacity: nat) -> Seq<T> {
    if items.len() <= capacity {
        items
    } else {
        items.subrange(items.len() - capacity, items.len() as int)
    }
}

/// Where a read begins: at the cursor, or at the oldest frame once the cursor
/// lies outside the frames that are available.
pub open spec fn read_start(available: nat, position: nat) -> nat {
    if position >= available {
        0
    } else {
        position
    }
}

/// Where a read of up to `count` frames ends.
pub open spec fn read_end(available: nat, position: nat, count: nat) -> nat {
    let start = read_start(available, position);
    if start + count >= available {
        available
    } else {
        start + count
    }
}

/// The epoch that follows `epoch`; the counter wraps around at its largest
/// value.
pub open spec fn next_epoch(epoch: u32) -> u32 {
    if epoch == u32::MAX {
        0
    } else {
        (epoch + 1) as u32
    }
}

/// Bounded ring of the most recent frames, with the epoch that identifies the
/// current generation of buffered audio.
pub struct AudioRingBuffer<T> {
    buffer: VecDeque<T>,
    capacity: usize,
    sample_rate: u32,
    stream_epoch: u32,
}

impl<T> View for AudioRingBuffer<T> {
    type V = Seq<T>;

    /// The buffered frames, oldest first.
    closed spec fn view(&self) -> Seq<T> {
        self.buffer@
    }
}

impl<T: Copy> AudioRingBuffer<T> {
    pub closed spec fn spec_capacity(&self) -> nat {
        self.capacity as nat
    }

    pub closed spec fn spec_sample_rate(&self) -> u32 {
        self.sample_rate
    }

    pub closed spec fn spec_epoch(&self) -> u32 {
        self.stream_epoch
    }

    /// An empty ring at epoch zero that holds `buffer_ms` milliseconds of
    /// frames at `sample_rate` frames a second.
    pub fn new(sample_rate: u32, buffer_ms: u32) -> (ring: Self)
        requires
            sample_rate as int * buffer_ms as int / 1000 <= usize::MAX,
        ensures
            ring@ == Seq::<T>::empty(),
            ring.spec_capacity() == sample_rate as int * buffer_ms as int / 1000,
            ring.spec_sample_rate() == sample_rate,
            ring.spec_epoch() == 0,
    {
        assert(sample_rate as int * buffer_ms as int <= 0xFFFF_FFFF * 0xFFFF_FFFF)
            by (nonlinear_arith)
            requires
                0 <= sample_rate <= 0xFFFF_FFFF,
                0 <= buffer_ms <= 0xFFFF_FFFF,
        ;
        let frames: u64 = (sample_rate as u64) * (buffer_ms as u64) / 1000;
        let capacity: usize = frames as usize;
        AudioRingBuffer {
            buffer: VecDeque::with_capacity(capacity),
            capacity,
            sample_rate,
            stream_epoch: 0,
        }
    }

    /// Appends a batch of frames in order, evicting the oldest frame whenever
    /// the capacity is exceeded: afterwards the ring holds the most recent
    /// frames of what it held followed by the batch, and never more than its
    /// capacity.
    pub fn push_samples_batch(&mut self, samples: &[T])
        ensures
            final(self)@ == most_recent(old(self)@ + samples@, old(self).spec_capacity()),
            final(self)@.len() <= final(self).spec_capacity(),
            final(self).spec_capacity() == old(self).spec_capacity(),
            final(self).spec_sample_rate() == old(self).spec_sample_rate(),
            final(self).spec_epoch() == old(self).spec_epoch(),
    {
        let ghost capacity = self.capacity as nat;
        let mut i: usize = 0;
        assert(samples@.subrange(0, 0) =~= Seq::<T>::empty());
        assert(self.buffer@ + Seq::<T>::empty() =~= self.buffer@);
        if self.buffer.len() > self.capacity {
            self.trim();
        }
        while i < samples.len()
            invariant
                i <= samples.len(),
                self.capacity == old(self).capacity,
                self.sample_rate == old(self).sample_rate,
                self.stream_epoch == old(self).stream_epoch,
                capacity == self.capacity,
                self.buffer@ == most_recent(old(self)@ + samples@.subrange(0, i as int), capacity),
            decreases samples.len() - i,
        {
            let ghost before = old(self)@ + samples@.subrange(0, i as int);
            let item: T = samples[i];
            self.buffer.push_back(item);
            if self.buffer.len() > self.capacity {
                let _ = self.buffer.pop_front();
            }
            i += 1;
            assert(old(self)@ + samples@.subrange(0, i as int) =~= before.push(item));
            assert(self.buffer@ =~= most_recent(before.push(item), capacity));
        }
        assert(samples@.subrange(0, samples.len() as int) =~= samples@);
    }

    /// Drops the oldest frames of a ring that holds more than its capacity.
    fn trim(&mut self)
        ensures
            final(self).buffer@ == most_recent(old(self).buffer@, old(self).capacity as nat),
            final(self).capacity == old(self).capacity,
            final(self).sample_rate == old(self).sample_rate,
            final(self).stream_epoch == old(self).stream_epoch,
    {
        while self.buffer.len() > self.capacity
            invariant
                self.capacity == old(self).capacity,
                self.sample_rate == old(self).sample_rate,
                self.stream_epoch == old(self).stream_epoch,
                self.buffer@.len() <= old(self).buffer@.len(),
                old(self).buffer@.len() > self.capacity ==> self.buffer@.len() >= self.capacity,
                old(self).buffer@.len() <= self.capacity ==> self.buffer@.len() == old(
                    self,
                ).buffer@.len(),
                self.buffer@ == old(self).buffer@.subrange(
                    old(self).buffer@.len() - self.buffer@.len(),
                    old(self).buffer@.len() as int,
                ),
            decreases self.buffer@.len(),
        {
            let _ = self.buffer.pop_front();
        }
        assert(old(self).buffer@.subrange(0, old(self).buffer@.len() as int) =~= old(
            self,
        ).buffer@);
    }

    /// Sample rate of the buffered audio.
    pub fn sample_rate(&self) -> (rate: u32)
        ensures
            rate == self.spec_sample_rate(),
    {
        self.sample_rate
    }

    /// Largest number of frames the ring retains.
    pub fn capacity(&self) -> (capacity: usize)
        ensures
            capacity == self.spec_capacity(),
    {
        self.capacity
    }

    /// Number of frames the ring holds.
    pub fn len(&self) -> (len: usize)
        ensures
            len == self@.len(),
    {
        self.buffer.len()
    }

    /// Empties the ring and moves on to the next epoch, so that readers of the
    /// old generation end their streams.
    pub fn flush(&mut self)
        ensures
            final(self)@ == Seq::<T>::empty(),
            final(self).spec_epoch() == next_epoch(old(self).spec_epoch()),
            final(self).spec_epoch() != old(self).spec_epoch(),
            old(self).spec_epoch() < u32::MAX ==> final(self).spec_epoch() > old(self).spec_epoch(),
            final(self).spec_capacity() == old(self).spec_capacity(),
            final(self).spec_sample_rate() == old(self).spec_sample_rate(),
    {
        self.buffer.clear();
        self.stream_epoch = if self.stream_epoch == u32::MAX {
            0
        } else {
            self.stream_epoch + 1
        };
    }

    /// Current epoch.
    pub fn get_epoch(&self) -> (epoch: u32)
        ensures
            epoch == self.spec_epoch(),
    {
        self.stream_epoch
    }

    /// Hands out up to `count` frames from the cursor on and moves the cursor
    /// behind them. A cursor outside the available frames, as after the
    /// producer has overwritten its place or while the ring is empty, starts
    /// over at the oldest frame.
    pub fn read_samples(&self, position: &mut usize, count: usize) -> (samples: Vec<T>)
        ensures
            samples@ == self@.subrange(
                read_start(self@.len(), *old(position) as nat) as int,
                read_end(self@.len(), *old(position) as nat, count as nat) as int,
            ),
            *final(position) == read_end(self@.len(), *old(position) as nat, count as nat),
            samples@.len() <= count,
    {
        let available: usize = self.buffer.len();
        let start: usize = if *position >= available { 0 } else { *position };
        let end: usize = if count >= available - start { available } else { start + count };
        let mut samples: Vec<T> = Vec::new();
        let mut i: usize = start;
        while i < end
            invariant
                start <= i <= end <= available,
                available == self.buffer@.len(),
                samples@ == self.buffer@.subrange(start as int, i as int),
            decreases end - i,
        {
            samples.push(self.buffer[i]);
            i += 1;
            assert(samples@ =~= self.buffer@.subrange(start as int, i as int));
        }
        *position = end;
        samples
    }
}

/// What a stream reader hands to its connection in one read.
pub enum StreamChunk<T> {
    /// The stream is over: the epoch has moved on since the connection began.
    /// The client reconnects and gets a fresh header.
    EndOfStream,
    /// The next bytes of the header.
    Header(Vec<u8>),
    /// Frames to be converted to PCM and sent.
    Samples(Vec<T>),
    /// Nothing is buffered at the moment: pause briefly and send nothing.
    Idle,
}

/// Abstract state of a stream reader.
pub struct ReaderState {
    /// Cursor into the ring.
    pub position: nat,
    /// Header bytes not yet sent, if any are owed.
    pub header: Option<Seq<u8>>,
    /// Epoch at the time of connection.
    pub initial_epoch: u32,
}

/// Length of the header piece that fits a read with room for `room` bytes.
pub open spec fn header_take(header: Seq<u8>, room: nat) -> nat {
    if header.len() <= room {
        header.len()
    } else {
        room
    }
}

/// Per-connection reader: a cursor of its own into the shared ring and the
/// part of the header that is still to be sent.
pub struct AudioStreamReader {
    position: usize,
    header: Option<Vec<u8>>,
    initial_epoch: u32,
}

impl View for AudioStreamReader {
    type V = ReaderState;

    closed spec fn view(&self) -> ReaderState {
        ReaderState {
            position: self.position as nat,
            header: match self.header {
                Some(bytes) => Some(bytes@),
                None => None,
            },
            initial_epoch: self.initial_epoch,
        }
    }
}

impl AudioStreamReader {
    /// A reader at the oldest frame that owes its connection the given header
    /// and belongs to the given epoch.
    pub fn new(header: Option<Vec<u8>>, initial_epoch: u32) -> (reader: Self)
        ensures
            reader@ == (ReaderState {
                position: 0,
                header: match header {
                    Some(bytes) => Some(bytes@),
                    None => None,
                },
                initial_epoch,
            }),
    {
        AudioStreamReader { position: 0, header, initial_epoch }
    }

    /// Produces the next piece of the stream for a read with room for `room`
    /// bytes.
    ///
    /// A reader whose epoch is no longer the ring's ends the stream and stays
    /// as it is. Otherwise a reader that owes header bytes hands out as many as
    /// fit and keeps the rest. Otherwise it pulls up to one chunk of frames from
    /// the ring through its cursor, and idles when the ring has none for it.
    pub fn read<T: Copy>(&mut self, ring: &AudioRingBuffer<T>, room: usize) -> (chunk: StreamChunk<
        T,
    >)
        ensures
            stream_ended(ring.spec_epoch(), old(self)@.initial_epoch) ==> chunk is EndOfStream
                && final(self)@ == old(self)@,
            !stream_ended(ring.spec_epoch(), old(self)@.initial_epoch) ==> match old(
                self,
            )@.header {
                Some(owed) => {
                    let take = header_take(owed, room as nat) as int;
                    &&& chunk matches StreamChunk::Header(bytes)
                    &&& bytes@ == owed.subrange(0, take)
                    &&& final(self)@ == (ReaderState {
                        header: if take < owed.len() {
                            Some(owed.subrange(take, owed.len() as int))
                        } else {
                            None
                        },
                        ..old(self)@
                    })
                },
                None => {
                    let start = read_start(ring@.len(), old(self)@.position) as int;
                    let end = read_end(
                        ring@.len(),
                        old(self)@.position,
                        STREAM_READ_CHUNK_SIZE as nat,
                    ) as int;
                    &&& final(self)@ == (ReaderState { position: end as nat, ..old(self)@ })
                    &&& start == end ==> chunk is Idle
                    &&& start < end ==> (chunk matches StreamChunk::Samples(frames) && frames@
                        == ring@.subrange(start, end))
                },
            },
    {
        if ring.get_epoch() != self.initial_epoch {
            return StreamChunk::EndOfStream;
        }
        let owed = self.header.take();
        if let Some(mut bytes) = owed {
            let ghost whole = bytes@;
            let take: usize = if bytes.len() <= room { bytes.len() } else { room };
            let rest = bytes.split_off(take);
            if rest.len() > 0 {
                self.header = Some(rest);
            }
            return StreamChunk::Header(bytes);
        }
        let frames = ring.read_samples(&mut self.position, STREAM_READ_CHUNK_SIZE);
        if frames.len() == 0 {
            StreamChunk::Idle
        } else {
            StreamChunk::Samples(frames)
        }
    }
}

/// Whether a reader that began at `initial_epoch` has to end its stream when
/// the ring is at `ring_epoch`.
pub open spec fn stream_ended(ring_epoch: u32, initial_epoch: u32) -> bool {
    ring_epoch != initial_epoch
}

/// A flush ends the streams of the readers that were connected before it: the
/// epoch that follows an epoch differs from it, so a reader that holds the
/// epoch from before the flush finds its stream ended. Short of the largest
/// counter value the new epoch is also the greater one.
pub proof fn lemma_flush_ends_streams(epoch: u32)
    ensures
        stream_ended(next_epoch(epoch), epoch),
        epoch < u32::MAX ==> next_epoch(epoch) > epoch,
{
}

/// A batch that alone fills the ring displaces everything that was buffered:
/// what remains are the last frames of the batch, as many as the capacity, in
/// their order.
pub proof fn lemma_overfull_batch_keeps_its_tail<T>(held: Seq<T>, batch: Seq<T>, capacity: nat)
    requires
        batch.len() >= capacity,
    ensures
        most_recent(held + batch, capacity) == batch.subrange(
            batch.len() - capacity,
            batch.len() as int,
        ),
        most_recent(held + batch, capacity).len() == capacity,
{
    assert(most_recent(held + batch, capacity) =~= batch.subrange(
        batch.len() - capacity,
        batch.len() as int,
    ));
}

/// What the server does with a request.
#[derive(Clone, Copy, Debug, PartialEq, Eq, Structural)]
pub enum StreamRoute {
    /// Answer with the endless audio stream.
    Stream,
    /// Answer that nothing is found under the path.
    NotFound,
}

/// Routes a request by its path: the stream is served under the root path and
/// under its file name, and nowhere else.
pub fn route(path: &str) -> (target: StreamRoute)
    ensures
        target == if path@ == "/stream.wav"@ || path@ == "/"@ {
            StreamRoute::Stream
        } else {
            StreamRoute::NotFound
        },
{
    if same_text(path, "/stream.wav") || same_text(path, "/") {
        StreamRoute::Stream
    } else {
        StreamRoute::NotFound
    }
}

/// Address the server listens on: every interface, at the given port.
pub fn bind_address(port: u16) -> (address: String)
    ensures
        address@ == "0.0.0.0:"@ + decimal(port as nat),
{
    let mut address = String::from_str("0.0.0.0:");
    push_decimal(&mut address, port as u64);
    address
}

/// Number of connected clients after one more has connected.
pub fn client_connected(count: usize) -> (after: usize)
    ensures
        after == if count == usize::MAX {
            count
        } else {
            (count + 1) as usize
        },
{
    if count == usize::MAX {
        count
    } else {
        count + 1
    }
}

/// Number of connected clients after one has gone; it never falls below zero.
pub fn client_disconnected(count: usize) -> (after: usize)
    ensures
        after == if count == 0 {
            0
        } else {
            (count - 1) as usize
        },
{
    if count == 0 {
        0
    } else {
        count - 1
    }
}

/// Low and high byte of a 16-bit value in little-endian order.
pub open spec fn le16(value: u16) -> Seq<u8> {
    seq![(value % 256) as u8, (value / 256) as u8]
}

/// The four bytes of a 32-bit value in little-endian order.
pub open spec fn le32(value: u32) -> Seq<u8> {
    seq![
        (value % 256) as u8,
        (value / 256 % 256) as u8,
        (value / 65536 % 256) as u8,
        (value / 16777216) as u8,
    ]
}

/// Value of up to four little-endian bytes.
pub open spec fn le_value(bytes: Seq<u8>) -> nat
    decreases bytes.len(),
{
    if bytes.len() == 0 {
        0
    } else {
        bytes[0] as nat + 256 * le_value(bytes.drop_first())
    }
}

/// The four ASCII bytes of the chunk tags.
pub open spec fn tag_riff() -> Seq<u8> {
    seq![0x52u8, 0x49u8, 0x46u8, 0x46u8]
}

pub open spec fn tag_wave() -> Seq<u8> {
    seq![0x57u8, 0x41u8, 0x56u8, 0x45u8]
}

pub open spec fn tag_fmt() -> Seq<u8> {
    seq![0x66u8, 0x6du8, 0x74u8, 0x20u8]
}

pub open spec fn tag_data() -> Seq<u8> {
    seq![0x64u8, 0x61u8, 0x74u8, 0x61u8]
}

/// Canonical 44-byte header of a stereo 16-bit PCM stream of unknown length at
/// the given sample rate: the RIFF chunk and the data chunk both declare the
/// sentinel size.
pub open spec fn wav_header(sample_rate: u32) -> Seq<u8> {
    tag_riff() + le32(WAV_INFINITE_SIZE) + tag_wave() + tag_fmt() + le32(WAV_FMT_CHUNK_SIZE)
        + le16(WAV_PCM_FORMAT) + le16(WAV_STEREO_CHANNELS) + le32(sample_rate) + le32(
        (sample_rate * WAV_BLOCK_ALIGN) as u32,
    ) + le16(WAV_BLOCK_ALIGN) + le16(WAV_BITS_PER_SAMPLE) + tag_data() + le32(WAV_INFINITE_SIZE)
}

/// Little-endian bytes hold their value: reading them back gives it.
pub proof fn lemma_le_round_trip(half: u16, word: u32)
    ensures
        le16(half).len() == 2,
        le32(word).len() == 4,
        le_value(le16(half)) == half,
        le_value(le32(word)) == word,
{
    reveal_with_fuel(le_value, 5);
    let h = le16(half);
    assert(h.drop_first() =~= seq![(half / 256) as u8]);
    assert(h.drop_first().drop_first() =~= Seq::<u8>::empty());
    let w = le32(word);
    let w1 = w.drop_first();
    let w2 = w1.drop_first();
    let w3 = w2.drop_first();
    assert(w1 =~= seq![(word / 256 % 256) as u8, (word / 65536 % 256) as u8, (word / 16777216) as u8]);
    assert(w2 =~= seq![(word / 65536 % 256) as u8, (word / 16777216) as u8]);
    assert(w3 =~= seq![(word / 16777216) as u8]);
    assert(w3.drop_first() =~= Seq::<u8>::empty());
}

/// The header declares what the stream is: its fields, read back from their
/// places, give PCM, two channels, the sample rate, four bytes per frame, four
/// times the sample rate in bytes per second, 16 bits per sample, and the
/// sentinel size in both chunks.
pub proof fn lemma_wav_header_fields(sample_rate: u32)
    requires
        sample_rate <= u32::MAX / 4,
    ensures
        wav_header(sample_rate).len() == WAV_HEADER_LEN,
        wav_header(sample_rate).subrange(0, 4) == tag_riff(),
        le_value(wav_header(sample_rate).subrange(4, 8)) == WAV_INFINITE_SIZE,
        wav_header(sample_rate).subrange(8, 12) == tag_wave(),
        wav_header(sample_rate).subrange(12, 16) == tag_fmt(),
        le_value(wav_header(sample_rate).subrange(16, 20)) == 16,
        le_value(wav_header(sample_rate).subrange(20, 22)) == 1,
        le_value(wav_header(sample_rate).subrange(22, 24)) == 2,
        le_value(wav_header(sample_rate).subrange(24, 28)) == sample_rate,
        le_value(wav_header(sample_rate).subrange(28, 32)) == 4 * sample_rate,
        le_value(wav_header(sample_rate).subrange(32, 34)) == 4,
        le_value(wav_header(sample_rate).subrange(34, 36)) == 16,
        wav_header(sample_rate).subrange(36, 40) == tag_data(),
        le_value(wav_header(sample_rate).subrange(40, 44)) == WAV_INFINITE_SIZE,
{
    let h = wav_header(sample_rate);
    let byte_rate = (sample_rate * WAV_BLOCK_ALIGN) as u32;
    lemma_le_round_trip(WAV_PCM_FORMAT, WAV_INFINITE_SIZE);
    lemma_le_round_trip(WAV_STEREO_CHANNELS, WAV_FMT_CHUNK_SIZE);
    lemma_le_round_trip(WAV_BLOCK_ALIGN, sample_rate);
    lemma_le_round_trip(WAV_BITS_PER_SAMPLE, byte_rate);
    assert(h.len() == 44);
    assert(h.subrange(0, 4) =~= tag_riff());
    assert(h.subrange(4, 8) =~= le32(WAV_INFINITE_SIZE));
    assert(h.subrange(8, 12) =~= tag_wave());
    assert(h.subrange(12, 16) =~= tag_fmt());
    assert(h.subrange(16, 20) =~= le32(WAV_FMT_CHUNK_SIZE));
    assert(h.subrange(20, 22) =~= le16(WAV_PCM_FORMAT));
    assert(h.subrange(22, 24) =~= le16(WAV_STEREO_CHANNELS));
    assert(h.subrange(24, 28) =~= le32(sample_rate));
    assert(h.subrange(28, 32) =~= le32(byte_rate));
    assert(h.subrange(32, 34) =~= le16(WAV_BLOCK_ALIGN));
    assert(h.subrange(34, 36) =~= le16(WAV_BITS_PER_SAMPLE));
    assert(h.subrange(36, 40) =~= tag_data());
    assert(h.subrange(40, 44) =~= le32(WAV_INFINITE_SIZE));
}

/// Appends a 16-bit value in little-endian order.
fn push_le16(out: &mut Vec<u8>, value: u16)
    ensures
        final(out)@ == old(out)@ + le16(value),
{
    out.push((value % 256) as u8);
    out.push((value / 256) as u8);
    assert(out@ =~= old(out)@ + le16(value));
}

/// Appends a 32-bit value in little-endian order.
fn push_le32(out: &mut Vec<u8>, value: u32)
    ensures
        final(out)@ == old(out)@ + le32(value),
{
    out.push((value % 256) as u8);
    out.push((value / 256 % 256) as u8);
    out.push((value / 65536 % 256) as u8);
    out.push((value / 16777216) as u8);
    assert(out@ =~= old(out)@ + le32(value));
}

/// Appends four tag bytes.
fn push_tag(out: &mut Vec<u8>, a: u8, b: u8, c: u8, d: u8)
    ensures
        final(out)@ == old(out)@ + seq![a, b, c, d],
{
    out.push(a);
    out.push(b);
    out.push(c);
    out.push(d);
    assert(out@ =~= old(out)@ + seq![a, b, c, d]);
}

/// Builds the header that opens a stream at the given sample rate.
pub fn create_wav_header(sample_rate: u32) -> (header: Vec<u8>)
    requires
        sample_rate <= u32::MAX / 4,
    ensures
        header@ == wav_header(sample_rate),
        header@.len() == WAV_HEADER_LEN,
{
    let mut header: Vec<u8> = Vec::new();
    push_tag(&mut header, 0x52, 0x49, 0x46, 0x46);
    push_le32(&mut header, WAV_INFINITE_SIZE);
    push_tag(&mut header, 0x57, 0x41, 0x56, 0x45);
    push_tag(&mut header, 0x66, 0x6d, 0x74, 0x20);
    push_le32(&mut header, WAV_FMT_CHUNK_SIZE);
    push_le16(&mut header, WAV_PCM_FORMAT);
    push_le16(&mut header, WAV_STEREO_CHANNELS);
    push_le32(&mut header, sample_rate);
    push_le32(&mut header, sample_rate * (WAV_BLOCK_ALIGN as u32));
    push_le16(&mut header, WAV_BLOCK_ALIGN);
    push_le16(&mut header, WAV_BITS_PER_SAMPLE);
    push_tag(&mut header, 0x64, 0x61, 0x74, 0x61);
    push_le32(&mut header, WAV_INFINITE_SIZE);
    assert(header@ =~= wav_header(sample_rate));
    header
}

/// The four bytes of a stereo frame of signed 16-bit PCM: the left sample,
/// then the right one, each in little-endian two's complement.
pub open spec fn pcm_frame(left: i16, right: i16) -> Seq<u8> {
    le16(left as u16) + le16(right as u16)
}

/// The bytes of a run of frames.
pub open spec fn pcm_bytes(frames: Seq<(i16, i16)>) -> Seq<u8>
    decreases frames.len(),
{
    if frames.len() == 0 {
        Seq::<u8>::empty()
    } else {
        pcm_bytes(frames.drop_last()) + pcm_frame(frames.last().0, frames.last().1)
    }
}

/// A run of frames takes four bytes a frame.
pub proof fn lemma_pcm_bytes_len(frames: Seq<(i16, i16)>)
    ensures
        pcm_bytes(frames).len() == 4 * frames.len(),
    decreases frames.len(),
{
    if frames.len() > 0 {
        lemma_pcm_bytes_len(frames.drop_last());
    }
}

/// Frames a run of PCM samples as bytes for a read with room for `room`
/// bytes. What does not fit is cut off and not sent later.
pub fn encode_pcm(frames: &[(i16, i16)], room: usize) -> (bytes: Vec<u8>)
    ensures
        bytes@ == pcm_bytes(frames@).take(
            if 4 * frames@.len() <= room {
                4 * frames@.len() as int
            } else {
                room as int
            },
        ),
        bytes@.len() <= room,
        bytes@.len() <= 4 * frames@.len(),
{
    proof {
        lemma_pcm_bytes_len(frames@);
    }
    let mut bytes: Vec<u8> = Vec::new();
    let mut i: usize = 0;
    while i < frames.len()
        invariant
            i <= frames.len(),
            bytes@ == pcm_bytes(frames@.take(i as int)),
            bytes@.len() == 4 * i,
        decreases frames.len() - i,
    {
        let (left, right) = frames[i];
        push_le16(&mut bytes, left as u16);
        push_le16(&mut bytes, right as u16);
        i += 1;
        proof {
            let upto = frames@.take(i as int);
            assert(upto.drop_last() =~= frames@.take(i - 1));
            assert(bytes@ =~= pcm_bytes(upto));
        }
    }
    assert(frames@.take(frames.len() as int) =~= frames@);
    if bytes.len() > room {
        bytes.truncate(room);
    }
    assert(bytes@ =~= pcm_bytes(frames@).take(
        if 4 * frames@.len() <= room {
            4 * frames@.len() as int
        } else {
            room as int
        },
    ));
    bytes
}

} // verus!

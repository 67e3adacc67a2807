//! Moving audio samples between the interleaved layout of a stream buffer and
//! the per-channel layout of a ring buffer.
//!
//! A ring buffer hands out each channel as two planes: the bytes up to the end
//! of the ring, and the bytes that continue at its start.
use vstd::arithmetic::div_mod::lemma_fundamental_div_mod_converse;
use vstd::prelude::*;

verus! {

/// Bytes that one 32-bit float sample takes.
pub const FLOAT_BYTES: usize = 4;

/// The bytes that each channel of `channels` holds.
pub open spec fn channel_bytes(channels: Seq<Vec<u8>>) -> Seq<Seq<u8>> {
    Seq::new(channels.len(), |c: int| channels[c]@)
}

/// How many samples each channel contributes: as many whole ones as the last
/// channel holds.
pub open spec fn frame_count(channels: Seq<Seq<u8>>) -> nat {
    if channels.len() == 0 {
        0
    } else {
        channels.last().len() / 4
    }
}

/// The first `frames` samples of every channel, frame by frame, and within a
/// frame channel by channel.
pub open spec fn interleaved(channels: Seq<Seq<u8>>, frames: nat) -> Seq<u8> {
    Seq::new(
        frames * channels.len() * 4,
        |j: int|
            channels[(j / 4) % (channels.len() as int)][(j / 4) / (channels.len() as int) * 4 + j
                % 4],
    )
}

/// `plane` with `bytes` written over it from position `at` on.
pub open spec fn overwrite(plane: Seq<u8>, at: int, bytes: Seq<u8>) -> Seq<u8> {
    Seq::new(
        plane.len(),
        |j: int|
            if at <= j < at + bytes.len() {
                bytes[j - at]
            } else {
                plane[j]
            },
    )
}

/// The two planes after one sample is stored at byte `written` of the channel.
/// A sample that does not fit whole in the first plane goes to the second, at
/// its start if it began in the first; one that fits in neither is dropped.
pub open spec fn store(planes: (Seq<u8>, Seq<u8>), written: int, sample: Seq<u8>) -> (
    Seq<u8>,
    Seq<u8>,
) {
    let first = planes.0.len() as int;
    let second = planes.1.len() as int;
    let at = if written >= first {
        written - first
    } else {
        0
    };
    if written + sample.len() <= first {
        (overwrite(planes.0, written, sample), planes.1)
    } else if written < first + second && at + sample.len() <= second {
        (planes.0, overwrite(planes.1, at, sample))
    } else {
        planes
    }
}

/// Where sample `i` of a channel starts in an interleaved chunk.
pub open spec fn sample_start(i: int, channel: int, channels: int, sample_bytes: int) -> int {
    i * channels * sample_bytes + channel * sample_bytes
}

/// The two planes after the first `count` samples of a channel have been taken
/// out of `chunk` and stored one after the other. Samples that `chunk` does not
/// hold whole are left out.
pub open spec fn filled(
    chunk: Seq<u8>,
    channel: int,
    channels: int,
    sample_bytes: int,
    count: nat,
    planes: (Seq<u8>, Seq<u8>),
) -> (Seq<u8>, Seq<u8>)
    decreases count,
{
    if count == 0 {
        planes
    } else {
        let before = filled(chunk, channel, channels, sample_bytes, (count - 1) as nat, planes);
        let start = sample_start(count - 1, channel, channels, sample_bytes);
        if start + sample_bytes > chunk.len() {
            before
        } else {
            store(
                before,
                (count - 1) * sample_bytes,
                chunk.subrange(start, start + sample_bytes),
            )
        }
    }
}

/// The position of byte `k` of sample `c` in frame `f` of an interleaved
/// stream, taken apart again.
proof fn lemma_position(f: int, n: int, c: int, k: int, b: int)
    requires
        n > 0,
        b > 0,
        0 <= c < n,
        0 <= k < b,
    ensures
        ((f * n + c) * b + k) % b == k,
        ((f * n + c) * b + k) / b == f * n + c,
        (f * n + c) % n == c,
        (f * n + c) / n == f,
{
    lemma_fundamental_div_mod_converse((f * n + c) * b + k, b, f * n + c, k);
    lemma_fundamental_div_mod_converse(f * n + c, n, f, c);
}

/// Whether every channel holds as many samples as the last one.
pub open spec fn channels_fit(channels: Seq<Vec<u8>>) -> bool {
    forall|c: int|
        0 <= c < channels.len() ==> (#[trigger] channels[c])@.len() >= frame_count(
            channel_bytes(channels),
        ) * 4
}

/// Tells whether [`interleave`] can take the channels.
pub fn check_channels(channels: &Vec<Vec<u8>>) -> (ok: bool)
    ensures
        ok == channels_fit(channels@),
{
    let count: usize = channels.len();
    let frames: usize = if count == 0 {
        0
    } else {
        channels[count - 1].len() / FLOAT_BYTES
    };
    let mut i: usize = 0;
    while i < count
        invariant
            count == channels@.len(),
            i <= count,
            frames == frame_count(channel_bytes(channels@)),
            forall|c: int| 0 <= c < i ==> (#[trigger] channels@[c])@.len() >= frames * 4,
        decreases count - i,
    {
        if channels[i].len() / FLOAT_BYTES < frames {
            assert(channels@[i as int]@.len() < frames * 4);
            return false;
        }
        i = i + 1;
    }
    true
}

/// The samples of every channel, interleaved into one run of bytes.
pub fn interleave(channels: &Vec<Vec<u8>>) -> (out: Vec<u8>)
    requires
        channels_fit(channels@),
    ensures
        out@ == interleaved(
            channel_bytes(channels@),
            frame_count(channel_bytes(channels@)),
        ),
{
    let count: usize = channels.len();
    let frames: usize = if count == 0 {
        0
    } else {
        channels[count - 1].len() / FLOAT_BYTES
    };
    let ghost all = channel_bytes(channels@);
    let mut out: Vec<u8> = Vec::new();
    let mut frame: usize = 0;
    while frame < frames
        invariant
            all == channel_bytes(channels@),
            count == channels@.len(),
            frames == frame_count(all),
            frame <= frames,
            forall|c: int|
                0 <= c < channels@.len() ==> (#[trigger] channels@[c])@.len() >= frames * 4,
            out@.len() == frame * count * 4,
            forall|j: int|
                0 <= j < out@.len() ==> #[trigger] out@[j] == all[(j / 4) % (count as int)][(j / 4)
                    / (count as int) * 4 + j % 4],
        decreases frames - frame,
    {
        let mut channel: usize = 0;
        while channel < count
            invariant
                all == channel_bytes(channels@),
                count == channels@.len(),
                frame < frames,
                channel <= count,
                forall|c: int|
                    0 <= c < channels@.len() ==> (#[trigger] channels@[c])@.len() >= frames * 4,
                out@.len() == (frame * count + channel) * 4,
                forall|j: int|
                    0 <= j < out@.len() ==> #[trigger] out@[j] == all[(j / 4) % (count as int)][(j
                        / 4) / (count as int) * 4 + j % 4],
            decreases count - channel,
        {
            let bytes: &Vec<u8> = &channels[channel];
            assert(bytes.len() >= frames * 4);
            let mut k: usize = 0;
            while k < FLOAT_BYTES
                invariant
                    all == channel_bytes(channels@),
                    count == channels@.len(),
                    frame < frames,
                    channel < count,
                    k <= 4,
                    bytes == channels@[channel as int],
                    frames * 4 <= bytes.len() <= usize::MAX,
                    out@.len() == (frame * count + channel) * 4 + k,
                    forall|j: int|
                        0 <= j < out@.len() ==> #[trigger] out@[j] == all[(j / 4) % (
                        count as int)][(j / 4) / (count as int) * 4 + j % 4],
                decreases 4 - k,
            {
                proof {
                    lemma_position(frame as int, count as int, channel as int, k as int, 4);
                }
                out.push(bytes[frame * FLOAT_BYTES + k]);
                k = k + 1;
            }
            channel = channel + 1;
        }
        assert((frame * count + count) * 4 == (frame + 1) * count * 4) by (nonlinear_arith);
        frame = frame + 1;
    }
    out
}

/// The bytes of one channel, its two planes joined.
pub open spec fn joined(first: Seq<u8>, second: Seq<u8>) -> Seq<u8> {
    first + second
}

/// The bytes of one channel, its two planes joined.
pub fn join_planes(first: &[u8], second: &[u8]) -> (joined: Vec<u8>)
    ensures
        joined@ == first@ + second@,
        joined@ == self::joined(first@, second@),
{
    let mut joined: Vec<u8> = Vec::new();
    joined.extend_from_slice(first);
    joined.extend_from_slice(second);
    assert(joined@ =~= first@ + second@);
    joined
}

/// The bytes of all channels together.
pub open spec fn total_len(channels: Seq<Seq<u8>>) -> nat
    decreases channels.len(),
{
    if channels.len() == 0 {
        0
    } else {
        total_len(channels.drop_last()) + channels.last().len()
    }
}

proof fn lemma_total_len_grows(channels: Seq<Seq<u8>>, i: int)
    requires
        0 <= i <= channels.len(),
    ensures
        total_len(channels.take(i)) <= total_len(channels),
    decreases channels.len(),
{
    if i < channels.len() {
        lemma_total_len_grows(channels.drop_last(), i);
        assert(channels.drop_last().take(i) =~= channels.take(i));
    } else {
        assert(channels.take(i) =~= channels);
    }
}

/// How large a stream buffer has to be to take every byte of every channel.
pub fn buffer_size(channels: &Vec<Vec<u8>>) -> (size: usize)
    requires
        total_len(channel_bytes(channels@)) <= usize::MAX,
    ensures
        size == total_len(channel_bytes(channels@)),
{
    let ghost all = channel_bytes(channels@);
    let mut size: usize = 0;
    let mut i: usize = 0;
    while i < channels.len()
        invariant
            all == channel_bytes(channels@),
            i <= channels@.len(),
            total_len(all) <= usize::MAX,
            size == total_len(all.take(i as int)),
        decreases channels@.len() - i,
    {
        proof {
            lemma_total_len_grows(all, i + 1);
            assert(all.take(i + 1).drop_last() =~= all.take(i as int));
        }
        size = size + channels[i].len();
        i = i + 1;
    }
    assert(all.take(i as int) =~= all);
    size
}

proof fn lemma_filled_keeps_lengths(
    chunk: Seq<u8>,
    channel: int,
    channels: int,
    sample_bytes: int,
    count: nat,
    planes: (Seq<u8>, Seq<u8>),
)
    ensures
        filled(chunk, channel, channels, sample_bytes, count, planes).0.len() == planes.0.len(),
        filled(chunk, channel, channels, sample_bytes, count, planes).1.len() == planes.1.len(),
    decreases count,
{
    if count > 0 {
        lemma_filled_keeps_lengths(
            chunk,
            channel,
            channels,
            sample_bytes,
            (count - 1) as nat,
            planes,
        );
    }
}

/// Once a sample lies past the end of the chunk, every later one does.
proof fn lemma_filled_stops(
    chunk: Seq<u8>,
    channel: int,
    channels: int,
    sample_bytes: int,
    from: nat,
    count: nat,
    planes: (Seq<u8>, Seq<u8>),
)
    requires
        from <= count,
        channels >= 0,
        sample_bytes >= 0,
        sample_start(from as int, channel, channels, sample_bytes) + sample_bytes > chunk.len(),
    ensures
        filled(chunk, channel, channels, sample_bytes, count, planes) == filled(
            chunk,
            channel,
            channels,
            sample_bytes,
            from,
            planes,
        ),
    decreases count,
{
    if from < count {
        lemma_filled_stops(
            chunk,
            channel,
            channels,
            sample_bytes,
            from,
            (count - 1) as nat,
            planes,
        );
        assert(from * channels * sample_bytes <= (count - 1) * channels * sample_bytes)
            by (nonlinear_arith)
            requires
                from <= count - 1,
                channels >= 0,
                sample_bytes >= 0,
        ;
    }
}

/// Writes `len` bytes of `chunk` over `plane`.
fn copy_sample(plane: &mut [u8], at: usize, chunk: &[u8], start: usize, len: usize)
    requires
        at + len <= old(plane)@.len(),
        start + len <= chunk@.len(),
    ensures
        final(plane)@ == overwrite(
            old(plane)@,
            at as int,
            chunk@.subrange(start as int, start + len),
        ),
{
    let plane_len: usize = plane.len();
    let chunk_len: usize = chunk.len();
    let ghost before = plane@;
    let ghost sample = chunk@.subrange(start as int, start + len);
    let mut k: usize = 0;
    while k < len
        invariant
            k <= len,
            at + len <= plane_len,
            start + len <= chunk_len,
            chunk_len == chunk@.len(),
            plane_len == plane@.len(),
            plane_len == before.len(),
            sample == chunk@.subrange(start as int, start + len),
            plane@ =~= overwrite(before, at as int, sample.take(k as int)),
        decreases len - k,
    {
        plane[at + k] = chunk[start + k];
        k = k + 1;
    }
    assert(sample.take(len as int) =~= sample);
}

/// Takes `samples` samples of channel `channel` out of an interleaved chunk and
/// stores them in the channel's two planes.
pub fn fill_channel(
    chunk: &[u8],
    channel: usize,
    channels: usize,
    sample_bytes: usize,
    samples: usize,
    first: &mut [u8],
    second: &mut [u8],
)
    requires
        channel < channels,
        sample_bytes > 0,
        samples * channels * sample_bytes <= usize::MAX,
        old(first)@.len() + old(second)@.len() <= usize::MAX,
    ensures
        (final(first)@, final(second)@) == filled(
            chunk@,
            channel as int,
            channels as int,
            sample_bytes as int,
            samples as nat,
            (old(first)@, old(second)@),
        ),
{
    let ghost planes = (first@, second@);
    let ghost n = channels as int;
    let ghost b = sample_bytes as int;
    let mut i: usize = 0;
    while i < samples
        invariant
            n == channels,
            b == sample_bytes,
            i <= samples,
            channel < channels,
            sample_bytes > 0,
            samples * channels * sample_bytes <= usize::MAX,
            first@.len() == planes.0.len(),
            second@.len() == planes.1.len(),
            planes.0.len() + planes.1.len() <= usize::MAX,
            (first@, second@) == filled(chunk@, channel as int, n, b, i as nat, planes),
        ensures
            (first@, second@) == filled(chunk@, channel as int, n, b, samples as nat, planes),
        decreases samples - i,
    {
        proof {
            assert(i * n <= i * n * b) by (nonlinear_arith)
                requires
                    i >= 0,
                    n >= 0,
                    b >= 1,
            ;
            assert(i * n * b + channel * b + b <= samples * n * b && i * n * b >= 0 && channel * b
                >= 0) by (nonlinear_arith)
                requires
                    0 <= i < samples,
                    0 <= channel < n,
                    b >= 0,
            ;
            assert(i * b + b <= samples * n * b && i * b >= 0) by (nonlinear_arith)
                requires
                    0 <= i < samples,
                    0 < n,
                    b >= 0,
            ;
        }
        let start: usize = i * channels * sample_bytes + channel * sample_bytes;
        if start + sample_bytes > chunk.len() {
            proof {
                lemma_filled_stops(
                    chunk@,
                    channel as int,
                    n,
                    b,
                    i as nat,
                    samples as nat,
                    planes,
                );
            }
            break ;
        }
        let written: usize = i * sample_bytes;
        if written + sample_bytes <= first.len() {
            copy_sample(first, written, chunk, start, sample_bytes);
        } else if written < first.len() + second.len() {
            let at: usize = if written >= first.len() {
                written - first.len()
            } else {
                0
            };
            if at + sample_bytes <= second.len() {
                copy_sample(second, at, chunk, start, sample_bytes);
            }
        }
        i = i + 1;
    }
}

/// Storing samples in planes that hold whole samples is storing them in the
/// joined planes: the first plane ends on a sample boundary, so no sample is
/// split or moved.
proof fn lemma_store_joined(planes: (Seq<u8>, Seq<u8>), i: int, q: int, sample: Seq<u8>)
    requires
        sample.len() > 0,
        0 <= i,
        planes.0.len() == q * sample.len(),
        i * sample.len() + sample.len() <= planes.0.len() + planes.1.len(),
    ensures
        ({
            let after = store(planes, i * sample.len(), sample);
            &&& after.0.len() == planes.0.len()
            &&& after.1.len() == planes.1.len()
            &&& after.0 + after.1 == overwrite(planes.0 + planes.1, i * sample.len(), sample)
        }),
{
    let b = sample.len() as int;
    let at = i * b;
    assert(at >= 0) by (nonlinear_arith)
        requires
            i >= 0,
            b > 0,
            at == i * b,
    ;
    if i < q {
        assert(at + b <= q * b) by (nonlinear_arith)
            requires
                i < q,
                b > 0,
                at == i * b,
        ;
    } else {
        assert(at >= q * b) by (nonlinear_arith)
            requires
                i >= q,
                b > 0,
                at == i * b,
        ;
    }
    let after = store(planes, at, sample);
    assert(after.0 + after.1 =~= overwrite(planes.0 + planes.1, at, sample));
}

/// What filling leaves in the joined planes, sample by sample: sample `i` of
/// the chunk for the samples that were filled, and what was there before for
/// the rest.
pub open spec fn holds_channel(
    joined: Seq<u8>,
    before: Seq<u8>,
    chunk: Seq<u8>,
    channel: int,
    channels: int,
    sample_bytes: int,
    count: int,
) -> bool {
    &&& joined.len() == before.len()
    &&& forall|i: int, k: int|
        0 <= i < count && 0 <= k < sample_bytes ==> #[trigger] joined[i * sample_bytes + k]
            == chunk[sample_start(i, channel, channels, sample_bytes) + k]
    &&& forall|j: int| count * sample_bytes <= j < before.len() ==> joined[j] == before[j]
}

/// Filling a channel takes exactly its samples out of the chunk, in order:
/// where the first plane ends on a sample boundary, the planes have room and
/// the chunk holds every sample, byte `k` of sample `i` of the channel is byte
/// `k` of sample `i` of that channel in the chunk, and the bytes after the last
/// sample are untouched.
pub proof fn law_fill_takes_the_channel(
    chunk: Seq<u8>,
    channel: int,
    channels: int,
    sample_bytes: int,
    count: nat,
    planes: (Seq<u8>, Seq<u8>),
)
    requires
        0 <= channel < channels,
        sample_bytes > 0,
        planes.0.len() as int % sample_bytes == 0,
        count * sample_bytes <= planes.0.len() + planes.1.len(),
        count * channels * sample_bytes <= chunk.len(),
    ensures
        ({
            let after = filled(chunk, channel, channels, sample_bytes, count, planes);
            &&& after.0.len() == planes.0.len()
            &&& after.1.len() == planes.1.len()
            &&& holds_channel(
                after.0 + after.1,
                planes.0 + planes.1,
                chunk,
                channel,
                channels,
                sample_bytes,
                count as int,
            )
        }),
    decreases count,
{
    let b = sample_bytes;
    let n = channels;
    if count > 0 {
        let c = count - 1;
        assert(c * b <= count * b && c * n * b <= count * n * b) by (nonlinear_arith)
            requires
                c == count - 1,
                c >= 0,
                n > 0,
                b > 0,
        ;
        law_fill_takes_the_channel(chunk, channel, n, b, c as nat, planes);
        let before = filled(chunk, channel, n, b, c as nat, planes);
        let start = sample_start(c, channel, n, b);
        assert(0 <= start && start + b <= count * n * b) by (nonlinear_arith)
            requires
                start == c * n * b + channel * b,
                c == count - 1,
                c >= 0,
                0 <= channel < n,
                b > 0,
        ;
        assert(c * b + b == count * b) by (nonlinear_arith)
            requires
                c == count - 1,
        ;
        let sample = chunk.subrange(start, start + b);
        let q = planes.0.len() as int / b;
        assert(planes.0.len() == q * b) by (nonlinear_arith)
            requires
                planes.0.len() as int % b == 0,
                q == planes.0.len() as int / b,
                b > 0,
        ;
        lemma_store_joined(before, c, q, sample);
        let after = filled(chunk, channel, n, b, count, planes);
        let joined = after.0 + after.1;
        let earlier = before.0 + before.1;
        assert(joined == overwrite(earlier, c * b, sample));
        assert forall|i: int, k: int| 0 <= i < count && 0 <= k < b implies #[trigger] joined[i * b
            + k] == chunk[sample_start(i, channel, n, b) + k] by {
            if i < c {
                assert(0 <= i * b && i * b + k < c * b) by (nonlinear_arith)
                    requires
                        0 <= i < c,
                        0 <= k < b,
                ;
                assert(earlier[i * b + k] == chunk[sample_start(i, channel, n, b) + k]);
            } else {
                assert(i == c);
                assert(0 <= c * b) by (nonlinear_arith)
                    requires
                        c >= 0,
                        b > 0,
                ;
                assert(joined[c * b + k] == sample[k]);
            }
        }
    }
}

/// Reading back gives what was written: if every channel of a chunk of 32-bit
/// samples is filled into planes of exactly its size, then joining the planes
/// of each channel and interleaving the channels yields the chunk.
pub proof fn law_interleave_undoes_fill(
    chunk: Seq<u8>,
    samples: nat,
    planes: Seq<(Seq<u8>, Seq<u8>)>,
)
    requires
        planes.len() > 0,
        chunk.len() == samples * planes.len() * 4,
        forall|c: int|
            0 <= c < planes.len() ==> (#[trigger] planes[c]).0.len() % 4 == 0 && planes[c].0.len()
                + planes[c].1.len() == samples * 4,
    ensures
        interleaved(
            Seq::new(
                planes.len(),
                |c: int|
                    {
                        let after = filled(
                            chunk,
                            c,
                            planes.len() as int,
                            4,
                            samples,
                            planes[c],
                        );
                        after.0 + after.1
                    },
            ),
            samples,
        ) == chunk,
{
    let n = planes.len() as int;
    let channels = Seq::new(
        planes.len(),
        |c: int|
            {
                let after = filled(chunk, c, n, 4, samples, planes[c]);
                after.0 + after.1
            },
    );
    let out = interleaved(channels, samples);
    assert forall|j: int| 0 <= j < chunk.len() implies out[j] == chunk[j] by {
        let c = (j / 4) % n;
        let f = (j / 4) / n;
        let k = j % 4;
        assert(0 <= f < samples && 0 <= c < n && (f * n + c) * 4 + k == j) by (nonlinear_arith)
            requires
                n > 0,
                0 <= j < samples * n * 4,
                c == (j / 4) % n,
                f == (j / 4) / n,
                k == j % 4,
        ;
        law_fill_takes_the_channel(chunk, c, n, 4, samples, planes[c]);
        assert(channels[c][f * 4 + k] == chunk[sample_start(f, c, n, 4) + k]);
        assert(sample_start(f, c, n, 4) + k == j) by (nonlinear_arith)
            requires
                sample_start(f, c, n, 4) == f * n * 4 + c * 4,
                (f * n + c) * 4 + k == j,
        ;
    }
    assert(out =~= chunk);
}

/// Interleaving gives back any run of frames of a stream of 32-bit samples: if
/// every channel holds the samples that it has in frames `from` to `from +
/// count` of the stream, then interleaving the channels yields these frames.
pub proof fn law_interleave_restores_frames(
    stream: Seq<u8>,
    channels: Seq<Seq<u8>>,
    from: nat,
    count: nat,
)
    requires
        channels.len() > 0,
        (from + count) * channels.len() * 4 <= stream.len(),
        forall|c: int, i: int, k: int|
            0 <= c < channels.len() && 0 <= i < count && 0 <= k < 4
                ==> #[trigger] channels[c][i * 4 + k] == stream[sample_start(
                from + i,
                c,
                channels.len() as int,
                4,
            ) + k],
    ensures
        interleaved(channels, count) == stream.subrange(
            (from * channels.len() * 4) as int,
            ((from + count) * channels.len() * 4) as int,
        ),
{
    let n = channels.len() as int;
    let out = interleaved(channels, count);
    assert(0 <= from * n * 4 && (from + count) * n * 4 == from * n * 4 + count * n * 4)
        by (nonlinear_arith)
        requires
            from >= 0,
            n > 0,
    ;
    let frames = stream.subrange(from * n * 4, (from + count) * n * 4);
    assert forall|j: int| 0 <= j < out.len() implies out[j] == frames[j] by {
        let c = (j / 4) % n;
        let f = (j / 4) / n;
        let k = j % 4;
        assert(0 <= f < count && 0 <= c < n && (f * n + c) * 4 + k == j) by (nonlinear_arith)
            requires
                n > 0,
                0 <= j < count * n * 4,
                c == (j / 4) % n,
                f == (j / 4) / n,
                k == j % 4,
        ;
        assert(channels[c][f * 4 + k] == stream[sample_start(from + f, c, n, 4) + k]);
        assert(sample_start(from + f, c, n, 4) + k == from * n * 4 + j) by (nonlinear_arith)
            requires
                sample_start(from + f, c, n, 4) == (from + f) * n * 4 + c * 4,
                (f * n + c) * 4 + k == j,
        ;
    }
    assert(out =~= frames);
}

/// The interleaved samples fill a buffer made for all the bytes of all
/// channels exactly, if the channels all hold the same number of whole samples.
pub proof fn law_samples_fill_the_buffer(channels: Seq<Seq<u8>>, frames: nat)
    requires
        forall|c: int| 0 <= c < channels.len() ==> (#[trigger] channels[c]).len() == frames * 4,
    ensures
        interleaved(channels, frames).len() == total_len(channels),
    decreases channels.len(),
{
    if channels.len() > 0 {
        law_samples_fill_the_buffer(channels.drop_last(), frames);
        assert(frames * channels.len() * 4 == frames * (channels.len() - 1) * 4 + frames * 4)
            by (nonlinear_arith);
        assert(channels.last() == channels[channels.len() - 1]);
    }
}

/// The joined planes are as long as both, and hold the bytes of the first plane
/// before those of the second.
pub proof fn law_joined_planes_hold_both(first: Seq<u8>, second: Seq<u8>, i: int)
    ensures
        joined(first, second).len() == first.len() + second.len(),
        0 <= i < first.len() ==> joined(first, second)[i] == first[i],
        0 <= i < second.len() ==> joined(first, second)[first.len() + i] == second[i],
{
}

/// Interleaving takes every whole sample of the last channel and no more, and
/// can be done exactly if every other channel holds as many.
pub proof fn law_frames_go_by_the_last_channel(channels: Seq<Vec<u8>>)
    ensures
        channel_bytes(channels).len() == channels.len(),
        forall|c: int|
            0 <= c < channels.len() ==> #[trigger] channel_bytes(channels)[c] == channels[c]@,
        channels.len() == 0 ==> frame_count(channel_bytes(channels)) == 0,
        channels.len() > 0 ==> frame_count(channel_bytes(channels)) * 4 <= channels.last()@.len()
            < frame_count(channel_bytes(channels)) * 4 + 4,
        channels_fit(channels) <==> forall|c: int|
            0 <= c < channels.len() ==> channels.last()@.len() as int / 4 <= (
            #[trigger] channels[c])@.len() as int / 4,
{
    if channels.len() > 0 {
        assert(channel_bytes(channels).last() == channels.last()@);
    }
    if channels_fit(channels) {
        assert forall|c: int| 0 <= c < channels.len() implies channels.last()@.len() as int / 4 <= (
        #[trigger] channels[c])@.len() as int / 4 by {}
    } else {
        let c = choose|c: int|
            0 <= c < channels.len() && (#[trigger] channels[c])@.len() < frame_count(
                channel_bytes(channels),
            ) * 4;
        assert(channels.last()@.len() as int / 4 > channels[c]@.len() as int / 4);
    }
}

/// Interleaved samples lie frame by frame and within a frame channel by channel:
/// byte `k` of sample `f` of channel `c` is byte `k` of the `c`-th sample of
/// frame `f`.
pub proof fn law_interleaved_samples_keep_their_place(
    channels: Seq<Seq<u8>>,
    frames: nat,
    f: int,
    c: int,
    k: int,
)
    requires
        0 <= f < frames,
        0 <= c < channels.len(),
        0 <= k < 4,
    ensures
        interleaved(channels, frames).len() == frames * channels.len() * 4,
        0 <= (f * channels.len() + c) * 4 + k < interleaved(channels, frames).len(),
        interleaved(channels, frames)[(f * channels.len() + c) * 4 + k] == channels[c][f * 4 + k],
{
    let n = channels.len() as int;
    lemma_position(f, n, c, k, 4);
    assert(0 <= (f * n + c) * 4 + k < frames * n * 4) by (nonlinear_arith)
        requires
            0 <= f < frames,
            0 <= c < n,
            0 <= k < 4,
    ;
}

/// The bytes of all channels are those of some of them and those of the rest,
/// and one channel counts with its length.
pub proof fn law_lengths_add_up(some: Seq<Seq<u8>>, rest: Seq<Seq<u8>>, one: Seq<u8>)
    ensures
        total_len(Seq::<Seq<u8>>::empty()) == 0,
        total_len(seq![one]) == one.len(),
        total_len(some + rest) == total_len(some) + total_len(rest),
    decreases rest.len(),
{
    assert(total_len(seq![one]) == one.len()) by {
        assert(seq![one].drop_last() =~= Seq::<Seq<u8>>::empty());
        assert(total_len(Seq::<Seq<u8>>::empty()) == 0);
    }
    if rest.len() == 0 {
        assert(some + rest =~= some);
    } else {
        law_lengths_add_up(some, rest.drop_last(), one);
        assert((some + rest).drop_last() =~= some + rest.drop_last());
        assert((some + rest).last() == rest.last());
    }
}

/// Filling goes sample by sample, whatever the planes and the chunk: a sample
/// that the chunk does not hold whole changes nothing; one that fits the first
/// plane whole, at the bytes after the samples before it, goes there; any other
/// goes as far into the second plane as it lies past the first, if it fits there
/// whole, and is left out if not. No other byte changes.
pub proof fn law_fill_goes_sample_by_sample(
    chunk: Seq<u8>,
    channel: int,
    channels: int,
    sample_bytes: int,
    count: nat,
    planes: (Seq<u8>, Seq<u8>),
    j: int,
)
    requires
        0 <= channel < channels,
        sample_bytes > 0,
        j >= 0,
    ensures
        ({
            let before = filled(chunk, channel, channels, sample_bytes, count, planes);
            let after = filled(chunk, channel, channels, sample_bytes, count + 1, planes);
            let at = count * sample_bytes;
            let past = if at >= planes.0.len() {
                at - planes.0.len()
            } else {
                0
            };
            let from = (count * channels + channel) * sample_bytes;
            let held = from + sample_bytes <= chunk.len();
            let in_first = held && at + sample_bytes <= planes.0.len();
            let in_second = held && !in_first && at < planes.0.len() + planes.1.len() && past
                + sample_bytes <= planes.1.len();
            &&& filled(chunk, channel, channels, sample_bytes, 0, planes) == planes
            &&& after.0.len() == planes.0.len() && after.1.len() == planes.1.len()
            &&& j < planes.0.len() ==> after.0[j] == (if in_first && at <= j < at + sample_bytes {
                chunk[from + (j - at)]
            } else {
                before.0[j]
            })
            &&& j < planes.1.len() ==> after.1[j] == (if in_second && past <= j < past
                + sample_bytes {
                chunk[from + (j - past)]
            } else {
                before.1[j]
            })
        }),
{
    lemma_filled_keeps_lengths(chunk, channel, channels, sample_bytes, count, planes);
    lemma_filled_keeps_lengths(chunk, channel, channels, sample_bytes, count + 1, planes);
    let start = sample_start(count as int, channel, channels, sample_bytes);
    assert(start == (count * channels + channel) * sample_bytes && start >= 0) by (nonlinear_arith)
        requires
            start == count * channels * sample_bytes + channel * sample_bytes,
            count >= 0,
            channels > 0,
            channel >= 0,
            sample_bytes > 0,
    ;
    assert(count * sample_bytes >= 0) by (nonlinear_arith)
        requires
            count >= 0,
            sample_bytes > 0,
    ;
}

} // verus!

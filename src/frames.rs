//! Cutting sample streams into fixed-size frames.
use vstd::prelude::*;

verus! {

/// `chunks` holds, in order, every complete run of `len` consecutive items of
/// `s`; the incomplete run at the end, if any, is left out.
pub open spec fn is_chunking<T>(chunks: Seq<Vec<T>>, s: Seq<T>, len: nat) -> bool {
    &&& chunks.len() == s.len() / len
    &&& forall|i: int|
        0 <= i < chunks.len() ==> #[trigger] chunks[i]@ == s.subrange(i * len, (i + 1) * len)
}

/// `n` copies of `item`.
pub open spec fn repeated<T>(item: T, n: nat) -> Seq<T> {
    Seq::new(n, |i: int| item)
}

fn copy_range<T: Copy>(s: &[T], from: usize, to: usize) -> (r: Vec<T>)
    requires
        from <= to <= s@.len(),
    ensures
        r@ == s@.subrange(from as int, to as int),
{
    let mut r: Vec<T> = Vec::new();
    let mut k: usize = from;
    while k < to
        invariant
            from <= k <= to <= s@.len(),
            r@ == s@.subrange(from as int, k as int),
        decreases to - k,
    {
        r.push(s[k]);
        k = k + 1;
        assert(r@ =~= s@.subrange(from as int, k as int));
    }
    r
}

/// Cuts `samples` into consecutive chunks of `chunk_size` items, dropping an
/// incomplete last chunk.
pub fn exact_chunks<T: Copy>(samples: &[T], chunk_size: usize) -> (r: Vec<Vec<T>>)
    requires
        chunk_size > 0,
    ensures
        is_chunking(r@, samples@, chunk_size as nat),
{
    let len = samples.len();
    let mut r: Vec<Vec<T>> = Vec::new();
    let mut start: usize = 0;
    assert(r@.len() * chunk_size == 0) by (nonlinear_arith)
        requires
            r@.len() == 0,
    ;
    while chunk_size <= len - start
        invariant
            chunk_size > 0,
            len == samples@.len(),
            start <= len,
            start == r@.len() * chunk_size,
            forall|i: int|
                0 <= i < r@.len() ==> #[trigger] r@[i]@ == samples@.subrange(
                    i * chunk_size,
                    (i + 1) * chunk_size,
                ),
        decreases len - start,
    {
        let c = copy_range(samples, start, start + chunk_size);
        proof {
            assert((r@.len() + 1) * chunk_size == r@.len() * chunk_size + chunk_size)
                by (nonlinear_arith);
        }
        r.push(c);
        start = start + chunk_size;
    }
    proof {
        let n = r@.len() as int;
        let cs = chunk_size as int;
        let l = len as int;
        assert(n * cs <= l < n * cs + cs);
        assert(l / cs == n) by (nonlinear_arith)
            requires
                n * cs <= l < n * cs + cs,
                cs > 0,
                n >= 0,
        {
            vstd::arithmetic::div_mod::lemma_fundamental_div_mod(l, cs);
            assert(cs * (l / cs) <= l);
        }
    }
    r
}

/// Appends `data` to the pending samples in `buffer` and takes out every
/// complete frame of `samples_per_frame` samples, oldest first. What is too
/// short for a frame stays in `buffer` for the next call.
pub fn drain_frames<T: Copy>(buffer: &mut Vec<T>, data: &[T], samples_per_frame: usize) -> (frames:
    Vec<Vec<T>>)
    requires
        samples_per_frame > 0,
        old(buffer)@.len() + data@.len() <= usize::MAX,
    ensures
        is_chunking(frames@, old(buffer)@ + data@, samples_per_frame as nat),
        final(buffer)@ == (old(buffer)@ + data@).subrange(
            frames@.len() * samples_per_frame,
            (old(buffer)@ + data@).len() as int,
        ),
        final(buffer)@.len() < samples_per_frame,
{
    let ghost all = old(buffer)@ + data@;
    let mut k: usize = 0;
    while k < data.len()
        invariant
            k <= data@.len(),
            old(buffer)@.len() + data@.len() <= usize::MAX,
            buffer@ == old(buffer)@ + data@.subrange(0, k as int),
        decreases data@.len() - k,
    {
        buffer.push(data[k]);
        k = k + 1;
        assert(buffer@ =~= old(buffer)@ + data@.subrange(0, k as int));
    }
    assert(buffer@ =~= all);
    let frames = exact_chunks(buffer.as_slice(), samples_per_frame);
    proof {
        let n = frames@.len() as int;
        let cs = samples_per_frame as int;
        let l = all.len() as int;
        vstd::arithmetic::div_mod::lemma_fundamental_div_mod(l, cs);
        assert(n * cs <= l < n * cs + cs) by (nonlinear_arith)
            requires
                n == l / cs,
                l == cs * (l / cs) + l % cs,
                0 <= l % cs < cs,
        ;
    }
    let taken = frames.len() * samples_per_frame;
    let rest = buffer.split_off(taken);
    *buffer = rest;
    frames
}

/// Cuts `samples`, followed by `100 * chunk_size` copies of `zero`, into
/// consecutive chunks of `chunk_size` items, dropping an incomplete last chunk.
/// The silence at the end lets a detector settle after the last sample.
pub fn padded_chunks<T: Copy>(samples: &[T], zero: T, chunk_size: usize) -> (r: Vec<Vec<T>>)
    requires
        chunk_size > 0,
        samples@.len() + 100 * chunk_size <= usize::MAX,
    ensures
        is_chunking(r@, samples@ + repeated(zero, (100 * chunk_size) as nat), chunk_size as nat),
{
    let mut padded = copy_range(samples, 0, samples.len());
    assert(padded@ =~= samples@);
    let pad = 100 * chunk_size;
    let mut k: usize = 0;
    while k < pad
        invariant
            k <= pad,
            pad == 100 * chunk_size,
            samples@.len() + pad <= usize::MAX,
            padded@ == samples@ + repeated(zero, k as nat),
        decreases pad - k,
    {
        padded.push(zero);
        k = k + 1;
        assert(padded@ =~= samples@ + repeated(zero, k as nat));
    }
    exact_chunks(padded.as_slice(), chunk_size)
}

/// Buffering loses and reorders nothing: the frames that two successive calls
/// of `drain_frames` take out, the first from `buffer + first` and the second
/// from what the first left behind plus `second`, are, in order, the frames of
/// `buffer + first + second` cut at once.
pub proof fn lemma_drain_frames_in_two_blocks<T>(
    buffer: Seq<T>,
    first: Seq<T>,
    second: Seq<T>,
    frames_1: Seq<Vec<T>>,
    frames_2: Seq<Vec<T>>,
    samples_per_frame: nat,
)
    requires
        samples_per_frame > 0,
        is_chunking(frames_1, buffer + first, samples_per_frame),
        is_chunking(
            frames_2,
            (buffer + first).subrange(
                (frames_1.len() * samples_per_frame) as int,
                (buffer + first).len() as int,
            ) + second,
            samples_per_frame,
        ),
    ensures
        is_chunking(frames_1 + frames_2, buffer + first + second, samples_per_frame),
{
    let n = samples_per_frame as int;
    let a = buffer + first;
    let whole = a + second;
    let k = frames_1.len() as int;
    let l = a.len() as int;
    vstd::arithmetic::div_mod::lemma_fundamental_div_mod(l, n);
    assert(0 <= k * n <= l) by (nonlinear_arith)
        requires
            k == l / n,
            l == n * (l / n) + l % n,
            0 <= l % n,
            0 <= k,
            n > 0,
    ;
    let rest = a.subrange(k * n, l) + second;
    assert(rest =~= whole.subrange(k * n, whole.len() as int));
    // the frame count
    vstd::arithmetic::div_mod::lemma_hoist_over_denominator(
        rest.len() as int,
        k,
        samples_per_frame,
    );
    assert(rest.len() + k * n == whole.len());
    // each frame
    assert forall|i: int| 0 <= i < frames_1.len() + frames_2.len() implies #[trigger] (frames_1
        + frames_2)[i]@ == whole.subrange(i * n, (i + 1) * n) by {
        if i < k {
            assert((i + 1) * n <= k * n) by (nonlinear_arith)
                requires
                    i + 1 <= k,
                    n > 0,
            ;
            assert(0 <= i * n) by (nonlinear_arith)
                requires
                    0 <= i,
                    n > 0,
            ;
            assert((i + 1) * n == i * n + n) by (nonlinear_arith);
            assert(frames_1[i]@ == a.subrange(i * n, (i + 1) * n));
            assert(a.subrange(i * n, (i + 1) * n) =~= whole.subrange(i * n, (i + 1) * n));
        } else {
            let j = i - k;
            assert(j * n + k * n == i * n && (j + 1) * n + k * n == (i + 1) * n)
                by (nonlinear_arith)
                requires
                    j == i - k,
            ;
            assert(0 <= j * n) by (nonlinear_arith)
                requires
                    0 <= j,
                    n > 0,
            ;
            assert((j + 1) * n <= rest.len()) by (nonlinear_arith)
                requires
                    j + 1 <= rest.len() as int / n,
                    n > 0,
            {
                vstd::arithmetic::div_mod::lemma_fundamental_div_mod(rest.len() as int, n);
            }
            assert((i + 1) * n == i * n + n && (j + 1) * n == j * n + n) by (nonlinear_arith);
            assert(frames_2[j]@ == rest.subrange(j * n, (j + 1) * n));
            assert(rest.subrange(j * n, (j + 1) * n) =~= whole.subrange(i * n, (i + 1) * n));
        }
    }
}

} // verus!

use vstd::prelude::*;
use crate::value::{ChannelValue, Value};

verus! {

/// One transferred sample, together with the rule that tells a measurement from
/// the sensor's "out of range" sentinel.
pub trait Reading: Copy + Sized {
    /// Whether the sample is a usable measurement.
    spec fn in_range(&self) -> bool;

    fn is_in_range(&self) -> (r: bool)
        ensures
            r == self.in_range(),
    ;
}

/// Raw samples are integers; a negative one marks an invalid optical reading.
impl Reading for i32 {
    open spec fn in_range(&self) -> bool {
        *self >= 0
    }

    fn is_in_range(&self) -> (r: bool) {
        *self >= 0
    }
}

/// Bit pattern of the smallest finite `f64`, which the engine writes in place of a
/// scaled sample that could not be measured.
pub const SCALED_SENTINEL_BITS: u64 = 0xffef_ffff_ffff_ffff;

/// A scaled sample, held as the IEEE-754 bit pattern of its `f64` value.
///
/// Only the smallest finite `f64` has the sentinel's bit pattern, so comparing
/// bits is the same as comparing the floating-point values.
#[derive(Debug, PartialEq, Eq, Clone, Copy)]
pub struct ScaledBits(pub u64);

impl Reading for ScaledBits {
    open spec fn in_range(&self) -> bool {
        self.0 != SCALED_SENTINEL_BITS
    }

    fn is_in_range(&self) -> (r: bool) {
        self.0 != SCALED_SENTINEL_BITS
    }
}

/// `len` samples make up whole rows of `n` channels.
pub open spec fn whole_rows(len: nat, n: nat) -> bool {
    if n == 0 {
        len == 0
    } else {
        len % n == 0
    }
}

/// Column `c` of row-major data with `n` channels: row `i` holds it at `i * n + c`.
pub open spec fn column<T>(data: Seq<T>, n: nat, c: nat) -> Seq<T>
    recommends
        n > 0,
{
    Seq::new(data.len() / n, |i: int| data[i * n + c])
}

/// The in-range samples of `s`, in their order.
pub open spec fn in_range_of<T: Reading>(s: Seq<T>) -> Seq<T> {
    s.filter(|x: T| x.in_range())
}

/// The statistic of a single sample: itself if in range, else the marker.
pub open spec fn classify<T: Reading>(x: T) -> Value<T> {
    if x.in_range() {
        Value::Valid(x)
    } else {
        Value::OutOfRange
    }
}

pub open spec fn sum_of(s: Seq<i32>) -> int
    decreases s.len(),
{
    if s.len() == 0 {
        0
    } else {
        sum_of(s.drop_last()) + s.last()
    }
}

/// An exact arithmetic mean, `sum / count`, of at least one sample.
#[derive(Debug, PartialEq, Eq, Clone, Copy)]
pub struct RawMean {
    pub sum: u128,
    pub count: usize,
}

/// `v` is the mean of the samples `s`: out of range exactly when there are none.
pub open spec fn is_mean_of(v: Value<RawMean>, s: Seq<i32>) -> bool {
    match v {
        Value::OutOfRange => s.len() == 0,
        Value::Valid(m) => s.len() > 0 && m.count == s.len() && m.sum == sum_of(s),
    }
}

/// `v` carries the samples `s`: out of range exactly when there are none.
pub open spec fn holds_samples<T>(v: Value<Vec<T>>, s: Seq<T>) -> bool {
    match v {
        Value::OutOfRange => s.len() == 0,
        Value::Valid(w) => s.len() > 0 && w@ == s,
    }
}

/// `r` is the first-row view of `data` under `channels`.
pub open spec fn is_first_view<T: Reading>(
    r: Seq<ChannelValue<T>>,
    data: Seq<T>,
    channels: Seq<String>,
) -> bool {
    &&& r.len() == channels.len()
    &&& forall|c: int|
        0 <= c < channels.len() ==> (#[trigger] r[c]).channel == channels[c] && r[c].value
            == classify(data[c])
}

/// `r` is the mean view of `data` under `channels`.
pub open spec fn is_mean_view(
    r: Seq<ChannelValue<RawMean>>,
    data: Seq<i32>,
    channels: Seq<String>,
) -> bool {
    &&& r.len() == channels.len()
    &&& forall|c: int|
        0 <= c < channels.len() ==> (#[trigger] r[c]).channel == channels[c] && is_mean_of(
            r[c].value,
            in_range_of(column(data, channels.len(), c as nat)),
        )
}

/// `r` gives, per channel of `channels`, the in-range samples of `data`.
pub open spec fn is_in_range_view<T: Reading>(
    r: Seq<ChannelValue<Vec<T>>>,
    data: Seq<T>,
    channels: Seq<String>,
) -> bool {
    &&& r.len() == channels.len()
    &&& forall|c: int|
        0 <= c < channels.len() ==> (#[trigger] r[c]).channel == channels[c] && holds_samples(
            r[c].value,
            in_range_of(column(data, channels.len(), c as nat)),
        )
}

proof fn lemma_in_range_step<T: Reading>(s: Seq<T>, i: int)
    requires
        0 <= i < s.len(),
    ensures
        in_range_of(s.take(i + 1)) == (if s[i].in_range() {
            in_range_of(s.take(i)).push(s[i])
        } else {
            in_range_of(s.take(i))
        }),
{
    reveal(Seq::filter);
    assert(s.take(i + 1).drop_last() =~= s.take(i));
}

/// The in-range samples of channel `c`, in row order.
pub fn column_in_range<T: Reading>(data: &Vec<T>, n: usize, c: usize) -> (r: Vec<T>)
    requires
        c < n,
        data@.len() % (n as nat) == 0,
    ensures
        r@ == in_range_of(column(data@, n as nat, c as nat)),
{
    let ghost col = column(data@, n as nat, c as nat);
    let len = data.len();
    let rows = len / n;
    proof {
        vstd::arithmetic::div_mod::lemma_fundamental_div_mod(len as int, n as int);
        assert(rows * n == len) by (nonlinear_arith)
            requires
                len == n * rows + len % n,
                len % n == 0,
        ;
    }
    let mut out: Vec<T> = Vec::new();
    let mut row: usize = 0;
    while row < rows
        invariant
            c < n,
            len == data@.len(),
            rows * n == len,
            col.len() == rows,
            col == column(data@, n as nat, c as nat),
            row <= rows,
            out@ == in_range_of(col.take(row as int)),
        decreases rows - row,
    {
        assert(row * n + c < rows * n) by (nonlinear_arith)
            requires
                row < rows,
                c < n,
        ;
        let x = data[row * n + c];
        proof {
            lemma_in_range_step(col, row as int);
        }
        if x.is_in_range() {
            out.push(x);
        }
        row = row + 1;
    }
    assert(col.take(rows as int) =~= col);
    out
}

/// The exact mean of a run of in-range raw samples.
fn mean_of_samples(s: &Vec<i32>) -> (r: Value<RawMean>)
    requires
        forall|i: int| 0 <= i < s@.len() ==> s@[i] >= 0,
    ensures
        is_mean_of(r, s@),
{
    let mut sum: u128 = 0;
    let mut i: usize = 0;
    while i < s.len()
        invariant
            forall|j: int| 0 <= j < s@.len() ==> s@[j] >= 0,
            i <= s@.len(),
            sum == sum_of(s@.take(i as int)),
            sum <= i * 2147483647,
        decreases s@.len() - i,
    {
        assert(s@.take(i + 1).drop_last() =~= s@.take(i as int));
        sum = sum + s[i] as u128;
        i = i + 1;
    }
    assert(s@.take(i as int) =~= s@);
    if s.len() == 0 {
        Value::OutOfRange
    } else {
        Value::Valid(RawMean { sum, count: s.len() })
    }
}

/// For each channel, its sample in the first row, checked against the sentinel.
pub fn first_view<T: Reading>(data: &Vec<T>, channels: &Vec<String>) -> (r: Vec<ChannelValue<T>>)
    requires
        channels@.len() <= data@.len(),
    ensures
        is_first_view(r@, data@, channels@),
{
    let mut out: Vec<ChannelValue<T>> = Vec::new();
    let mut c: usize = 0;
    while c < channels.len()
        invariant
            channels@.len() <= data@.len(),
            c <= channels@.len(),
            out@.len() == c,
            forall|k: int|
                0 <= k < c ==> out@[k].channel == channels@[k] && out@[k].value == classify(
                    data@[k],
                ),
        decreases channels@.len() - c,
    {
        let x = data[c];
        let value = if x.is_in_range() {
            Value::Valid(x)
        } else {
            Value::OutOfRange
        };
        out.push(ChannelValue { channel: channels[c].clone(), value });
        c = c + 1;
    }
    out
}

/// For each channel, the exact mean of its in-range samples over all rows; out of
/// range when no sample of the channel is.
pub fn mean_view(data: &Vec<i32>, channels: &Vec<String>) -> (r: Vec<ChannelValue<RawMean>>)
    requires
        whole_rows(data@.len(), channels@.len()),
    ensures
        is_mean_view(r@, data@, channels@),
{
    let n = channels.len();
    let mut out: Vec<ChannelValue<RawMean>> = Vec::new();
    let mut c: usize = 0;
    while c < n
        invariant
            n == channels@.len(),
            whole_rows(data@.len(), channels@.len()),
            c <= n,
            out@.len() == c,
            forall|k: int|
                0 <= k < c ==> out@[k].channel == channels@[k] && is_mean_of(
                    out@[k].value,
                    in_range_of(column(data@, n as nat, k as nat)),
                ),
        decreases n - c,
    {
        let samples = column_in_range(data, n, c);
        proof {
            assert forall|i: int| 0 <= i < samples@.len() implies samples@[i] >= 0 by {
                reveal(Seq::filter);
                column(data@, n as nat, c as nat).lemma_filter_pred(|x: i32| x.in_range(), i);
            }
        }
        let value = mean_of_samples(&samples);
        let ghost before = out@;
        out.push(ChannelValue { channel: channels[c].clone(), value });
        assert(forall|k: int| 0 <= k < c ==> out@[k] == before[k]);
        c = c + 1;
    }
    out
}

/// For each channel, its in-range samples over all rows in row order; out of range
/// when there are none.
pub fn in_range_view<T: Reading>(data: &Vec<T>, channels: &Vec<String>) -> (r: Vec<
    ChannelValue<Vec<T>>,
>)
    requires
        whole_rows(data@.len(), channels@.len()),
    ensures
        is_in_range_view(r@, data@, channels@),
{
    let n = channels.len();
    let mut out: Vec<ChannelValue<Vec<T>>> = Vec::new();
    let mut c: usize = 0;
    while c < n
        invariant
            n == channels@.len(),
            whole_rows(data@.len(), channels@.len()),
            c <= n,
            out@.len() == c,
            forall|k: int|
                0 <= k < c ==> out@[k].channel == channels@[k] && holds_samples(
                    out@[k].value,
                    in_range_of(column(data@, n as nat, k as nat)),
                ),
        decreases n - c,
    {
        let samples = column_in_range(data, n, c);
        let value = if samples.len() == 0 {
            Value::OutOfRange
        } else {
            Value::Valid(samples)
        };
        out.push(ChannelValue { channel: channels[c].clone(), value });
        c = c + 1;
    }
    out
}

/// A channel whose sample is the sentinel in every row has no in-range sample: the
/// in-range view reports it out of range.
pub proof fn lemma_all_sentinel_no_samples<T: Reading>(
    r: Seq<ChannelValue<Vec<T>>>,
    data: Seq<T>,
    channels: Seq<String>,
    c: nat,
)
    requires
        c < channels.len(),
        whole_rows(data.len(), channels.len()),
        is_in_range_view(r, data, channels),
        forall|i: int|
            0 <= i < data.len() / channels.len() ==> !(#[trigger] data[i * channels.len() + c]).in_range(),
    ensures
        r[c as int].value == Value::<Vec<T>>::OutOfRange,
{
    lemma_all_sentinel_column_empty(data, channels.len(), c);
}

/// A channel whose raw sample is negative in every row has no in-range sample: the
/// mean view reports it out of range rather than a number.
pub proof fn lemma_all_sentinel_mean_out_of_range(
    r: Seq<ChannelValue<RawMean>>,
    data: Seq<i32>,
    channels: Seq<String>,
    c: nat,
)
    requires
        c < channels.len(),
        whole_rows(data.len(), channels.len()),
        is_mean_view(r, data, channels),
        forall|i: int|
            0 <= i < data.len() / channels.len() ==> (#[trigger] data[i * channels.len() + c]) < 0,
    ensures
        r[c as int].value == Value::<RawMean>::OutOfRange,
{
    lemma_all_sentinel_column_empty(data, channels.len(), c);
}

proof fn lemma_all_sentinel_column_empty<T: Reading>(data: Seq<T>, n: nat, c: nat)
    requires
        c < n,
        forall|i: int| 0 <= i < data.len() / n ==> !(#[trigger] data[i * n + c]).in_range(),
    ensures
        in_range_of(column(data, n, c)).len() == 0,
{
    let col = column(data, n, c);
    assert forall|i: int| 0 <= i < col.len() implies !(|x: T| x.in_range())(#[trigger] col[i]) by {
        assert(col[i] == data[i * n + c]);
    }
    col.lemma_all_neg_filter_empty(|x: T| x.in_range());
}

} // verus!

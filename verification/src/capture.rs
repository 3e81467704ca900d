use vstd::prelude::*;
use vstd::arithmetic::div_mod::lemma_fundamental_div_mod;
use vstd::arithmetic::mul::lemma_mul_inequality;
use vstd::string::*;

verus! {

/// Why a captured audio sample could not be turned into a stereo measurement.
#[derive(Debug, Clone, Copy, PartialEq, Eq, Structural)]
pub enum StereoDecodeError {
    InvalidSampleBuffer,
    SampleNotReady(i32),
    MissingFormatDescription,
    UnsupportedAudioFormat,
}

/// The decimal digit character for `d`.
pub open spec fn digit_char(d: nat) -> char {
    if d == 0 { '0' }
    else if d == 1 { '1' }
    else if d == 2 { '2' }
    else if d == 3 { '3' }
    else if d == 4 { '4' }
    else if d == 5 { '5' }
    else if d == 6 { '6' }
    else if d == 7 { '7' }
    else if d == 8 { '8' }
    else { '9' }
}

/// The decimal digits of `n`, most significant first, without leading zeros.
pub open spec fn decimal_digits(n: nat) -> Seq<char>
    decreases n,
{
    if n < 10 {
        seq![digit_char(n)]
    } else {
        decimal_digits(n / 10).push(digit_char(n % 10))
    }
}

/// The decimal text of `n`, with a leading `-` when it is negative.
pub open spec fn decimal_text(n: int) -> Seq<char> {
    if n < 0 {
        seq!['-'] + decimal_digits((-n) as nat)
    } else {
        decimal_digits(n as nat)
    }
}

impl StereoDecodeError {
    /// The text of the error.
    pub open spec fn message_text(self) -> Seq<char> {
        match self {
            StereoDecodeError::InvalidSampleBuffer => "Audio sample buffer is invalid"@,
            StereoDecodeError::SampleNotReady(status) => "Audio sample not ready (status "@
                + decimal_text(status as int) + ")"@,
            StereoDecodeError::MissingFormatDescription =>
                "Audio sample missing format description"@,
            StereoDecodeError::UnsupportedAudioFormat => "Audio format is not supported PCM"@,
        }
    }

    /// The text of the error, as it is shown in the source state.
    pub fn message(&self) -> (text: String)
        ensures
            text@ == self.message_text(),
    {
        match self {
            StereoDecodeError::InvalidSampleBuffer => String::from_str(
                "Audio sample buffer is invalid",
            ),
            StereoDecodeError::SampleNotReady(status) => {
                let mut text = String::from_str("Audio sample not ready (status ");
                append_decimal(&mut text, *status);
                text.append(")");
                text
            },
            StereoDecodeError::MissingFormatDescription => String::from_str(
                "Audio sample missing format description",
            ),
            StereoDecodeError::UnsupportedAudioFormat => String::from_str(
                "Audio format is not supported PCM",
            ),
        }
    }
}

/// The one-character text of a decimal digit.
fn digit_str(d: u64) -> (text: &'static str)
    requires
        d < 10,
    ensures
        text@ == seq![digit_char(d as nat)],
{
    proof {
        reveal_strlit("0");
        reveal_strlit("1");
        reveal_strlit("2");
        reveal_strlit("3");
        reveal_strlit("4");
        reveal_strlit("5");
        reveal_strlit("6");
        reveal_strlit("7");
        reveal_strlit("8");
        reveal_strlit("9");
    }
    let text = if d == 0 {
        "0"
    } else if d == 1 {
        "1"
    } else if d == 2 {
        "2"
    } else if d == 3 {
        "3"
    } else if d == 4 {
        "4"
    } else if d == 5 {
        "5"
    } else if d == 6 {
        "6"
    } else if d == 7 {
        "7"
    } else if d == 8 {
        "8"
    } else {
        "9"
    };
    assert(text@ =~= seq![digit_char(d as nat)]);
    text
}

/// Appends the decimal digits of `n`.
fn append_digits(out: &mut String, n: u64)
    ensures
        final(out)@ == old(out)@ + decimal_digits(n as nat),
    decreases n,
{
    if n >= 10 {
        append_digits(out, n / 10);
    }
    out.append(digit_str(n % 10));
    proof {
        if n >= 10 {
            assert(decimal_digits(n as nat) == decimal_digits((n / 10) as nat).push(
                digit_char((n % 10) as nat),
            ));
        }
        assert(out@ =~= old(out)@ + decimal_digits(n as nat));
    }
}

/// Appends the decimal text of `n`.
fn append_decimal(out: &mut String, n: i32)
    ensures
        final(out)@ == old(out)@ + decimal_text(n as int),
{
    let wide: i64 = n as i64;
    if wide < 0 {
        out.append("-");
        proof {
            reveal_strlit("-");
        }
        append_digits(out, (-wide) as u64);
        assert(out@ =~= old(out)@ + decimal_text(n as int));
    } else {
        append_digits(out, wide as u64);
    }
}

/// What a captured sample's format description says about its audio, as plain values.
#[derive(Debug, Clone, Copy, PartialEq, Eq, Structural)]
pub struct AudioFormatInfo {
    pub is_audio: bool,
    pub is_pcm: bool,
    pub channel_count: Option<u32>,
    pub bits_per_channel: Option<u32>,
    pub bytes_per_frame: Option<u32>,
    pub is_float: bool,
}

/// The PCM format the stereo analysis reads: 32-bit float samples, `channel_count`
/// channels per frame, `bytes_per_frame` bytes per frame.
#[derive(Debug, Clone, Copy, PartialEq, Eq, Structural)]
pub struct PcmFormat {
    pub channel_count: usize,
    pub bytes_per_frame: usize,
}

impl AudioFormatInfo {
    /// The format is audio in linear PCM of 32-bit floats with at least one channel and a
    /// non-empty frame.
    pub open spec fn is_readable_pcm(self) -> bool {
        &&& self.is_audio
        &&& self.is_pcm
        &&& self.channel_count matches Some(channels) && channels != 0
        &&& self.bits_per_channel == Some(32u32)
        &&& self.bytes_per_frame matches Some(bytes) && bytes != 0
        &&& self.is_float
    }
}

impl PcmFormat {
    /// The PCM format of a sample, or `UnsupportedAudioFormat` when the sample is not
    /// 32-bit float linear PCM with at least one channel and a non-empty frame.
    pub fn from_format(info: &AudioFormatInfo) -> (format: Result<PcmFormat, StereoDecodeError>)
        ensures
            format is Ok <==> info.is_readable_pcm(),
            format matches Ok(pcm) ==> pcm.channel_count == info.channel_count->0
                && pcm.bytes_per_frame == info.bytes_per_frame->0,
            format matches Err(error) ==> error == StereoDecodeError::UnsupportedAudioFormat,
    {
        if !info.is_audio || !info.is_pcm {
            return Err(StereoDecodeError::UnsupportedAudioFormat);
        }
        let channel_count = match info.channel_count {
            Some(count) => count as usize,
            None => return Err(StereoDecodeError::UnsupportedAudioFormat),
        };
        if channel_count == 0 {
            return Err(StereoDecodeError::UnsupportedAudioFormat);
        }
        let bits_per_channel = match info.bits_per_channel {
            Some(bits) => bits as usize,
            None => return Err(StereoDecodeError::UnsupportedAudioFormat),
        };
        let bytes_per_frame = match info.bytes_per_frame {
            Some(bytes) => bytes as usize,
            None => return Err(StereoDecodeError::UnsupportedAudioFormat),
        };
        if bits_per_channel != 32 || bytes_per_frame == 0 || !info.is_float {
            return Err(StereoDecodeError::UnsupportedAudioFormat);
        }
        Ok(PcmFormat { channel_count, bytes_per_frame })
    }
}

/// Whether a valid sample whose data is not ready yet must be asked to make it ready.
pub fn needs_data_ready_call(valid: bool, data_ready: bool) -> (call: bool)
    ensures
        call == (valid && !data_ready),
{
    valid && !data_ready
}

/// The outcome of the checks a captured sample goes through before its buffers are
/// read, in their order: an invalid sample, then data that could not be made ready
/// (with the status of the failed call), then a missing format description, then a
/// format that is not readable PCM.
pub open spec fn sample_check(
    valid: bool,
    data_ready: bool,
    made_ready: Option<Result<(), i32>>,
    format: Option<AudioFormatInfo>,
) -> Result<PcmFormat, StereoDecodeError> {
    if !valid {
        Err(StereoDecodeError::InvalidSampleBuffer)
    } else if !data_ready && made_ready matches Some(Err(_)) {
        Err(StereoDecodeError::SampleNotReady(made_ready->0->Err_0))
    } else {
        match format {
            None => Err(StereoDecodeError::MissingFormatDescription),
            Some(info) => if info.is_readable_pcm() {
                Ok(
                    PcmFormat {
                        channel_count: info.channel_count->0 as usize,
                        bytes_per_frame: info.bytes_per_frame->0 as usize,
                    },
                )
            } else {
                Err(StereoDecodeError::UnsupportedAudioFormat)
            },
        }
    }
}

/// Checks a captured sample before its buffers are read: whether it is valid, whether
/// its data is ready or the call that makes it ready succeeded (`made_ready` holds the
/// outcome of that call, which is made for a valid sample whose data was not ready,
/// see `needs_data_ready_call`), and whether it has a format description of readable
/// PCM. Returns the PCM format to read, or the first failed
/// check.
pub fn check_sample(
    valid: bool,
    data_ready: bool,
    made_ready: Option<Result<(), i32>>,
    format: Option<AudioFormatInfo>,
) -> (checked: Result<PcmFormat, StereoDecodeError>)
    ensures
        checked == sample_check(valid, data_ready, made_ready, format),
{
    if !valid {
        return Err(StereoDecodeError::InvalidSampleBuffer);
    }
    if !data_ready {
        if let Some(Err(status)) = made_ready {
            return Err(StereoDecodeError::SampleNotReady(status));
        }
    }
    match format {
        None => Err(StereoDecodeError::MissingFormatDescription),
        Some(info) => PcmFormat::from_format(&info),
    }
}

/// How the channels of a captured sample are laid out in its buffers.
#[derive(Debug, Clone, Copy, PartialEq, Eq, Structural)]
pub enum BufferArrangement {
    /// One buffer holding the channels of each frame side by side.
    Interleaved,
    /// One buffer per channel; the first two are read as left and right.
    Planar,
}

impl BufferArrangement {
    /// The arrangement for a sample with `count` buffers: one buffer is interleaved, two
    /// or more are planar, none is an unsupported format.
    pub fn from_buffer_count(count: usize) -> (arrangement: Result<
        BufferArrangement,
        StereoDecodeError,
    >)
        ensures
            count == 0 ==> arrangement == Err::<BufferArrangement, StereoDecodeError>(
                StereoDecodeError::UnsupportedAudioFormat,
            ),
            count == 1 ==> arrangement == Ok::<BufferArrangement, StereoDecodeError>(
                BufferArrangement::Interleaved,
            ),
            count >= 2 ==> arrangement == Ok::<BufferArrangement, StereoDecodeError>(
                BufferArrangement::Planar,
            ),
    {
        if count == 1 {
            Ok(BufferArrangement::Interleaved)
        } else if count >= 2 {
            Ok(BufferArrangement::Planar)
        } else {
            Err(StereoDecodeError::UnsupportedAudioFormat)
        }
    }
}

/// Number of bytes of one 32-bit float sample.
pub const SAMPLE_BYTES: usize = 4;

/// Where the left and right samples of each frame sit in an interleaved buffer read as
/// 32-bit floats: frame `k` starts at sample `k * samples_per_frame`, its left sample is
/// the first one and its right sample the one `right_offset` further on.
#[derive(Debug, Clone, Copy, PartialEq, Eq, Structural)]
pub struct FrameLayout {
    pub frame_count: usize,
    pub samples_per_frame: usize,
    pub right_offset: usize,
}

/// What to read from an interleaved buffer.
#[derive(Debug, Clone, Copy, PartialEq, Eq, Structural)]
pub enum InterleavedPlan {
    /// An empty buffer: the analysis is silence.
    Silent,
    /// Frames to read.
    Frames(FrameLayout),
}

/// The left sample is the first channel; the right sample is the second channel, or
/// the first one again for a single-channel stream.
pub open spec fn right_channel_offset(channel_count: int) -> int {
    if channel_count >= 2 { 1 } else { 0 }
}

/// The reading plan of an interleaved buffer of `byte_len` bytes.
pub open spec fn interleaved_plan(byte_len: int, channel_count: int, bytes_per_frame: int) -> Result<
    InterleavedPlan,
    StereoDecodeError,
> {
    if byte_len == 0 {
        Ok(InterleavedPlan::Silent)
    } else if byte_len % bytes_per_frame != 0 || bytes_per_frame / (SAMPLE_BYTES as int)
        < channel_count {
        Err(StereoDecodeError::UnsupportedAudioFormat)
    } else {
        Ok(
            InterleavedPlan::Frames(
                FrameLayout {
                    frame_count: (byte_len / bytes_per_frame) as usize,
                    samples_per_frame: (bytes_per_frame / (SAMPLE_BYTES as int)) as usize,
                    right_offset: right_channel_offset(channel_count) as usize,
                },
            ),
        )
    }
}

proof fn lemma_floor_bound(x: int, total: int, d: int)
    requires
        d > 0,
        total >= 0,
        x * d <= total,
    ensures
        x <= total / d,
{
    lemma_fundamental_div_mod(total, d);
    assert(x <= total / d) by (nonlinear_arith)
        requires
            d > 0,
            x * d <= total,
            total == d * (total / d) + total % d,
            0 <= total % d < d,
    ;
}

/// The frames of a buffer whose length is a whole number of frames fit in its samples.
proof fn lemma_frames_fit(byte_len: int, bytes_per_frame: int)
    requires
        bytes_per_frame > 0,
        byte_len >= 0,
        byte_len % bytes_per_frame == 0,
    ensures
        (byte_len / bytes_per_frame) * (bytes_per_frame / 4) <= byte_len / 4,
        (byte_len / bytes_per_frame) * bytes_per_frame == byte_len,
        byte_len > 0 ==> byte_len / bytes_per_frame >= 1,
{
    let frames = byte_len / bytes_per_frame;
    let per_frame = bytes_per_frame / 4;
    lemma_fundamental_div_mod(byte_len, bytes_per_frame);
    lemma_fundamental_div_mod(bytes_per_frame, 4);
    assert(frames * bytes_per_frame == byte_len) by (nonlinear_arith)
        requires
            byte_len == bytes_per_frame * frames + 0,
    ;
    assert(per_frame * 4 <= bytes_per_frame);
    assert(frames >= 0) by (nonlinear_arith)
        requires
            bytes_per_frame > 0,
            byte_len >= 0,
            frames == byte_len / bytes_per_frame,
    ;
    lemma_mul_inequality(per_frame * 4, bytes_per_frame, frames);
    assert((frames * per_frame) * 4 == (per_frame * 4) * frames) by (nonlinear_arith);
    lemma_floor_bound(frames * per_frame, byte_len, 4);
    if byte_len > 0 && frames == 0 {
        assert(frames * bytes_per_frame == 0) by (nonlinear_arith)
            requires
                frames == 0,
        ;
    }
}

/// How to read the left and right samples of an interleaved buffer of `byte_len`
/// bytes: an empty buffer is silence; a buffer that is not a whole number of frames,
/// or whose frames hold fewer samples than channels, is an unsupported format.
pub fn plan_interleaved(byte_len: usize, channel_count: usize, bytes_per_frame: usize) -> (plan:
    Result<InterleavedPlan, StereoDecodeError>)
    requires
        byte_len == 0 || bytes_per_frame > 0,
    ensures
        plan == interleaved_plan(byte_len as int, channel_count as int, bytes_per_frame as int),
        plan matches Ok(InterleavedPlan::Frames(layout)) ==> layout.frame_count >= 1
            && layout.frame_count * layout.samples_per_frame <= byte_len / SAMPLE_BYTES,
{
    if byte_len == 0 {
        return Ok(InterleavedPlan::Silent);
    }
    if byte_len % bytes_per_frame != 0 {
        return Err(StereoDecodeError::UnsupportedAudioFormat);
    }
    let samples_per_frame = bytes_per_frame / SAMPLE_BYTES;
    if samples_per_frame < channel_count {
        return Err(StereoDecodeError::UnsupportedAudioFormat);
    }
    let frame_count = byte_len / bytes_per_frame;
    proof {
        lemma_frames_fit(byte_len as int, bytes_per_frame as int);
    }
    let right_offset: usize = if channel_count >= 2 {
        1
    } else {
        0
    };
    Ok(InterleavedPlan::Frames(FrameLayout { frame_count, samples_per_frame, right_offset }))
}

impl FrameLayout {
    /// The sample index of the left and the right sample of frame `k`.
    pub open spec fn pair_at(self, k: int) -> (int, int) {
        (k * self.samples_per_frame, k * self.samples_per_frame + self.right_offset)
    }

    /// The sample indices of the left and right sample of every frame, in frame order.
    pub fn sample_pairs(&self) -> (pairs: Vec<(usize, usize)>)
        requires
            self.right_offset <= 1,
            self.frame_count * self.samples_per_frame < usize::MAX,
        ensures
            pairs@.len() == self.frame_count,
            forall|k: int|
                0 <= k < self.frame_count ==> (#[trigger] pairs@[k]).0 == self.pair_at(k).0
                    && pairs@[k].1 == self.pair_at(k).1,
    {
        let mut pairs: Vec<(usize, usize)> = Vec::new();
        let mut k: usize = 0;
        let mut base: usize = 0;
        while k < self.frame_count
            invariant
                self.right_offset <= 1,
                self.frame_count * self.samples_per_frame < usize::MAX,
                k <= self.frame_count,
                base == k * self.samples_per_frame,
                pairs@.len() == k,
                forall|j: int|
                    0 <= j < k ==> (#[trigger] pairs@[j]).0 == self.pair_at(j).0 && pairs@[j].1
                        == self.pair_at(j).1,
            decreases self.frame_count - k,
        {
            proof {
                lemma_mul_inequality(k as int + 1, self.frame_count as int, self.samples_per_frame as int);
                assert((k as int + 1) * self.samples_per_frame == k * self.samples_per_frame
                    + self.samples_per_frame) by (nonlinear_arith);
            }
            pairs.push((base, base + self.right_offset));
            base = base + self.samples_per_frame;
            k = k + 1;
        }
        pairs
    }
}

/// Every sample index a frame plan reads lies inside the buffer once the buffer is read
/// as 32-bit floats, that is when its length is a multiple of the sample size.
pub proof fn lemma_plan_reads_inside(byte_len: usize, channel_count: usize, bytes_per_frame: usize, k: int)
    requires
        bytes_per_frame > 0,
        byte_len % SAMPLE_BYTES == 0,
        interleaved_plan(byte_len as int, channel_count as int, bytes_per_frame as int) matches Ok(
            InterleavedPlan::Frames(layout),
        ),
        0 <= k < byte_len / bytes_per_frame,
    ensures
        ({
            let layout = interleaved_plan(byte_len as int, channel_count as int, bytes_per_frame as int)->Ok_0->Frames_0;
            &&& 0 <= layout.pair_at(k).0 < byte_len / SAMPLE_BYTES
            &&& 0 <= layout.pair_at(k).1 < byte_len / SAMPLE_BYTES
        }),
{
    let layout = interleaved_plan(byte_len as int, channel_count as int, bytes_per_frame as int)->Ok_0->Frames_0;
    lemma_frames_fit(byte_len as int, bytes_per_frame as int);
    let frames = layout.frame_count as int;
    let per_frame = layout.samples_per_frame as int;
    lemma_mul_inequality(k + 1, frames, per_frame);
    assert((k + 1) * per_frame == k * per_frame + per_frame) by (nonlinear_arith);
    assert(k * per_frame >= 0) by (nonlinear_arith)
        requires
            k >= 0,
            per_frame >= 0,
    ;
    if per_frame == 0 {
        assert(k * per_frame == 0) by (nonlinear_arith)
            requires
                per_frame == 0,
        ;
        assert(byte_len >= bytes_per_frame) by (nonlinear_arith)
            requires
                0 <= k < byte_len / bytes_per_frame,
                bytes_per_frame > 0,
        ;
        assert(byte_len / SAMPLE_BYTES >= 1);
    }
}

/// A capture format is readable PCM exactly when it is audio, linear PCM, of 32-bit
/// floats, with a channel count above zero and a frame size above zero. Nothing ties
/// the frame size to the channel count: a planar format, whose frames hold one sample
/// of one channel, is as readable as an interleaved one.
pub proof fn lemma_readable_pcm_fields(info: AudioFormatInfo)
    ensures
        info.is_readable_pcm() <==> (info.is_audio && info.is_pcm && info.is_float
            && info.bits_per_channel == Some(32u32) && info.channel_count is Some
            && info.channel_count->0 > 0 && info.bytes_per_frame is Some
            && info.bytes_per_frame->0 > 0),
{
}

/// A valid sample whose data was not ready and could not be made ready is rejected
/// with the status of the failed call, whatever its format description says.
pub proof fn lemma_failed_make_ready_rejects(status: i32, format: Option<AudioFormatInfo>)
    ensures
        sample_check(true, false, Some(Err(status)), format) == Err::<PcmFormat, StereoDecodeError>(
            StereoDecodeError::SampleNotReady(status),
        ),
{
}

/// What the sample check decides, over all inputs: an invalid sample is rejected as
/// such; a sample passes only when it is valid, no make-ready call failed for it, and
/// its format description is readable PCM, and then the PCM format is read off the
/// description; a valid sample whose data is usable passes exactly when its format
/// description is readable PCM, and is rejected for a missing description when it
/// has none.
pub proof fn lemma_sample_check_outcomes(
    valid: bool,
    data_ready: bool,
    made_ready: Option<Result<(), i32>>,
    format: Option<AudioFormatInfo>,
)
    ensures
        !valid ==> sample_check(valid, data_ready, made_ready, format) == Err::<
            PcmFormat,
            StereoDecodeError,
        >(StereoDecodeError::InvalidSampleBuffer),
        sample_check(valid, data_ready, made_ready, format) matches Ok(pcm) ==> {
            &&& valid
            &&& data_ready || !(made_ready matches Some(Err(_)))
            &&& format matches Some(info)
            &&& info.is_audio && info.is_pcm && info.is_float
            &&& info.bits_per_channel == Some(32u32)
            &&& info.channel_count matches Some(channels) && channels > 0
                && pcm.channel_count == channels
            &&& info.bytes_per_frame matches Some(bytes) && bytes > 0
                && pcm.bytes_per_frame == bytes
        },
        valid && (data_ready || !(made_ready matches Some(Err(_)))) ==> {
            &&& format is None ==> sample_check(valid, data_ready, made_ready, format) == Err::<
                PcmFormat,
                StereoDecodeError,
            >(StereoDecodeError::MissingFormatDescription)
            &&& format matches Some(info) ==> (sample_check(valid, data_ready, made_ready, format)
                is Ok <==> info.is_readable_pcm())
        },
{
}

/// What the interleaved plan decides, over all buffers: an empty buffer is silence;
/// a non-empty one is rejected exactly when it is not a whole number of frames or a
/// frame holds fewer samples than there are channels; otherwise its frames cover the
/// whole buffer, a frame holds as many whole samples as fit in it, and the right
/// sample is the second channel when there is one and the first otherwise.
pub proof fn lemma_interleaved_plan_shape(byte_len: usize, channel_count: usize, bytes_per_frame: usize)
    requires
        byte_len == 0 || bytes_per_frame > 0,
    ensures
        ({
            let plan = interleaved_plan(byte_len as int, channel_count as int, bytes_per_frame as int);
            &&& byte_len == 0 ==> plan == Ok::<InterleavedPlan, StereoDecodeError>(InterleavedPlan::Silent)
            &&& plan is Err ==> plan == Err::<InterleavedPlan, StereoDecodeError>(
                StereoDecodeError::UnsupportedAudioFormat,
            )
            &&& byte_len > 0 ==> (plan is Err <==> (byte_len % bytes_per_frame != 0
                || (bytes_per_frame / 4) < channel_count))
            &&& plan matches Ok(InterleavedPlan::Frames(layout)) ==> {
                &&& layout.frame_count * bytes_per_frame == byte_len
                &&& layout.samples_per_frame * 4 <= bytes_per_frame
                &&& bytes_per_frame < layout.samples_per_frame * 4 + 4
                &&& layout.samples_per_frame >= channel_count
                &&& layout.right_offset == (if channel_count >= 2 { 1usize } else { 0usize })
            }
        }),
{
    if byte_len > 0 {
        lemma_fundamental_div_mod(bytes_per_frame as int, 4);
        if byte_len % bytes_per_frame == 0 {
            lemma_frames_fit(byte_len as int, bytes_per_frame as int);
        }
    }
}

/// The number a digit character stands for.
pub open spec fn digit_value(c: char) -> int {
    (c as int) - ('0' as int)
}

/// The number a string of decimal digits stands for, most significant first.
pub open spec fn digits_value(digits: Seq<char>) -> int
    decreases digits.len(),
{
    if digits.len() == 0 {
        0
    } else {
        digits_value(digits.drop_last()) * 10 + digit_value(digits.last())
    }
}

proof fn lemma_digit_char(d: nat)
    requires
        d < 10,
    ensures
        '0' <= digit_char(d) <= '9',
        digit_value(digit_char(d)) == d,
{
}

/// The decimal text of a number is a non-empty run of digits without a leading zero
/// (but for zero itself) that reads back as the number.
pub proof fn lemma_decimal_digits(n: nat)
    ensures
        decimal_digits(n).len() >= 1,
        forall|i: int|
            0 <= i < decimal_digits(n).len() ==> '0' <= #[trigger] decimal_digits(n)[i] <= '9',
        decimal_digits(n)[0] == '0' ==> n == 0,
        digits_value(decimal_digits(n)) == n,
    decreases n,
{
    if n < 10 {
        lemma_digit_char(n);
        assert(decimal_digits(n).drop_last() =~= Seq::<char>::empty());
        assert(digits_value(Seq::<char>::empty()) == 0);
        assert(digits_value(decimal_digits(n)) == digits_value(decimal_digits(n).drop_last()) * 10
            + digit_value(decimal_digits(n).last()));
    } else {
        lemma_decimal_digits(n / 10);
        lemma_digit_char(n % 10);
        let d = decimal_digits(n);
        assert(d.drop_last() =~= decimal_digits(n / 10));
        assert(d[0] == decimal_digits(n / 10)[0]);
        assert(d.last() == digit_char(n % 10));
        assert(digits_value(d) == digits_value(d.drop_last()) * 10 + digit_value(d.last()));
    }
}

/// The text of a not-ready error carries the failed call's status: after the opening
/// words comes a `-` exactly for a negative status, then digits reading back as the
/// status's magnitude, then the closing parenthesis.
pub proof fn lemma_not_ready_message(status: i32)
    ensures
        ({
            let text = StereoDecodeError::SampleNotReady(status).message_text();
            let opening = "Audio sample not ready (status "@;
            let magnitude: nat = if status < 0 { (-status) as nat } else { status as nat };
            let sign: Seq<char> = if status < 0 { seq!['-'] } else { Seq::<char>::empty() };
            text == opening + sign + decimal_digits(magnitude) + ")"@
                && digits_value(decimal_digits(magnitude)) == magnitude
        }),
{
    let magnitude: nat = if status < 0 { (-status) as nat } else { status as nat };
    lemma_decimal_digits(magnitude);
    if status >= 0 {
        assert(Seq::<char>::empty() + decimal_digits(magnitude) =~= decimal_digits(magnitude));
    }
}

} // verus!

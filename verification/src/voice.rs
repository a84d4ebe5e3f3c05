use vstd::prelude::*;

use crate::models::copy_texts;
use crate::text::decimal_text;

verus! {

/// Samples per second of the audio that the client sends.
pub const SAMPLE_RATE: usize = 48000;

/// Channels of the audio that the client sends.
pub const CHANNELS: usize = 2;

/// Milliseconds of audio in one frame.
pub const FRAME_LENGTH_MS: usize = 20;

/// Bytes of one sample of all channels: a 16-bit value per channel.
pub fn sample_size(channels: usize) -> (r: usize)
    requires
        2 * channels <= usize::MAX,
    ensures
        r == 2 * channels,
{
    2 * channels
}

/// Samples of each channel in one frame.
pub fn samples_per_frame(sample_rate: usize, frame_length_ms: usize) -> (r: usize)
    requires
        (sample_rate / 1000) * frame_length_ms <= usize::MAX,
    ensures
        r == (sample_rate / 1000) * frame_length_ms,
{
    (sample_rate / 1000) * frame_length_ms
}

/// The length of one frame: its samples per channel times the bytes of a sample
/// of all channels.
pub fn frame_size(sample_rate: usize, channels: usize, frame_length_ms: usize) -> (r: usize)
    requires
        2 * channels <= usize::MAX,
        (sample_rate / 1000) * frame_length_ms <= usize::MAX,
        (sample_rate / 1000) * frame_length_ms * (2 * channels) <= usize::MAX,
    ensures
        r == (sample_rate / 1000) * frame_length_ms * (2 * channels),
{
    samples_per_frame(sample_rate, frame_length_ms) * sample_size(channels)
}

/// The frame length of the audio the client sends by default: 960 samples of
/// 4 bytes.
pub fn default_frame_size() -> (r: usize)
    ensures
        r == 3840,
{
    frame_size(SAMPLE_RATE, CHANNELS, FRAME_LENGTH_MS)
}

/// Raw 16-bit little-endian stereo audio read from a stream.
pub struct PCMAudio<B> {
    stream: B,
}

impl<B> PCMAudio<B> {
    /// The stream, as a source of audio.
    pub fn new(stream: B) -> (r: PCMAudio<B>)
        ensures
            r.stream() == stream,
    {
        PCMAudio { stream }
    }

    /// The stream the audio is read from.
    pub closed spec fn stream(self) -> B {
        self.stream
    }

    /// The stream, to read the audio from.
    pub fn stream_mut(&mut self) -> (r: &mut B)
        ensures
            *r == old(self).stream(),
            final(self).stream() == *final(r),
    {
        &mut self.stream
    }
}

/// How `ffmpeg` is run to turn a source into raw audio.
pub struct FFmpegPCMAudioOptions {
    pub executable: String,
    pub before_options: Vec<String>,
    pub options: Vec<String>,
    pub blocksize: usize,
}

impl FFmpegPCMAudioOptions {
    /// The options by default: the `ffmpeg` on the path, no extra options and
    /// blocks of 8192 bytes.
    pub fn default() -> (r: FFmpegPCMAudioOptions)
        ensures
            r.executable@ == "ffmpeg"@,
            r.before_options@.len() == 0,
            r.options@.len() == 0,
            r.blocksize == 8192,
    {
        FFmpegPCMAudioOptions {
            executable: String::from_str("ffmpeg"),
            before_options: Vec::new(),
            options: Vec::new(),
            blocksize: 1024 * 8,
        }
    }
}

/// The texts of a list of strings.
pub open spec fn texts_of(v: Seq<String>) -> Seq<Seq<char>> {
    v.map_values(|s: String| s@)
}

/// The arguments that `ffmpeg` is given to decode `source` into raw 48 kHz stereo
/// 16-bit audio on its output, around the options of `options`.
pub open spec fn audio_arguments(source: Seq<char>, before: Seq<Seq<char>>, after: Seq<Seq<char>>, blocksize: Seq<char>) -> Seq<Seq<char>> {
    before + seq![
        "-i"@,
        source,
        "-f"@,
        "s16le"@,
        "-acodec"@,
        "pcm_s16le"@,
        "-ar"@,
        "48000"@,
        "-ac"@,
        "2"@,
        "-vn"@,
        "-loglevel"@,
        "warning"@,
        "-blocksize"@,
        blocksize,
    ] + after + seq!["pipe:1"@]
}

proof fn lemma_texts_push(v: Seq<String>, s: String)
    ensures
        texts_of(v.push(s)) == texts_of(v).push(s@),
{
    assert(texts_of(v.push(s)) =~= texts_of(v).push(s@));
}

proof fn lemma_texts_add(a: Seq<String>, b: Seq<String>)
    ensures
        texts_of(a + b) == texts_of(a) + texts_of(b),
{
    assert(texts_of(a + b) =~= texts_of(a) + texts_of(b));
}

fn push_text(out: &mut Vec<String>, s: &str)
    ensures
        texts_of(final(out)@) == texts_of(old(out)@).push(s@),
{
    let ghost before = out@;
    let t = String::from_str(s);
    out.push(t);
    proof {
        lemma_texts_push(before, t);
    }
}

impl FFmpegPCMAudioOptions {
    /// The arguments that `ffmpeg` is run with to read `source`.
    pub fn arguments(&self, source: &str) -> (r: Vec<String>)
        requires
            self.blocksize <= u128::MAX,
        ensures
            texts_of(r@) == audio_arguments(
                source@,
                texts_of(self.before_options@),
                texts_of(self.options@),
                crate::text::decimal(self.blocksize as nat),
            ),
    {
        let mut args = copy_texts(&self.before_options);
        push_text(&mut args, "-i");
        push_text(&mut args, source);
        push_text(&mut args, "-f");
        push_text(&mut args, "s16le");
        push_text(&mut args, "-acodec");
        push_text(&mut args, "pcm_s16le");
        push_text(&mut args, "-ar");
        push_text(&mut args, "48000");
        push_text(&mut args, "-ac");
        push_text(&mut args, "2");
        push_text(&mut args, "-vn");
        push_text(&mut args, "-loglevel");
        push_text(&mut args, "warning");
        push_text(&mut args, "-blocksize");
        let size = decimal_text(self.blocksize as u128);
        push_text(&mut args, size.as_str());
        let ghost middle = args@;
        let mut more = copy_texts(&self.options);
        args.append(&mut more);
        proof {
            lemma_texts_add(middle, self.options@);
        }
        push_text(&mut args, "pipe:1");
        assert(texts_of(args@) =~= audio_arguments(
            source@,
            texts_of(self.before_options@),
            texts_of(self.options@),
            crate::text::decimal(self.blocksize as nat),
        ));
        args
    }
}

/// How `ffmpeg` and `ffprobe` are run to turn a source into raw YUV 4:2:0 video.
///
/// A known size and frame rate of the source, which spares the probe, is kept
/// by the program around the library: the frame rate is a float.
pub struct FFmpegYUVVideoOptions {
    pub executable: String,
    pub ffprobe: String,
    pub before_options: Vec<String>,
    pub options: Vec<String>,
}

/// The arguments that `ffmpeg` is given to decode `source` into raw YUV 4:2:0
/// video without sound on its output, around the options of `options`.
pub open spec fn video_arguments(source: Seq<char>, before: Seq<Seq<char>>, after: Seq<Seq<char>>) -> Seq<Seq<char>> {
    before + seq![
        "-i"@,
        source,
        "-c:v"@,
        "rawvideo"@,
        "-pix_fmt"@,
        "yuv420p"@,
        "-f"@,
        "rawvideo"@,
        "-an"@,
        "-loglevel"@,
        "warning"@,
    ] + after + seq!["pipe:1"@]
}

/// The arguments that `ffprobe` is given to describe the first video stream
/// of `source` as JSON.
pub open spec fn probe_arguments(source: Seq<char>) -> Seq<Seq<char>> {
    seq!["-v"@, "quiet"@, "-print_format"@, "json"@, "-show_streams"@, "-select_streams"@, "v:0"@, source]
}

impl FFmpegYUVVideoOptions {
    /// The options by default: `ffmpeg` and `ffprobe` on the path, no extra options.
    pub fn default() -> (r: FFmpegYUVVideoOptions)
        ensures
            r.executable@ == "ffmpeg"@,
            r.ffprobe@ == "ffprobe"@,
            r.before_options@.len() == 0,
            r.options@.len() == 0,
    {
        FFmpegYUVVideoOptions {
            executable: String::from_str("ffmpeg"),
            ffprobe: String::from_str("ffprobe"),
            before_options: Vec::new(),
            options: Vec::new(),
        }
    }

    /// The arguments that `ffmpeg` is run with to read `source`.
    pub fn arguments(&self, source: &str) -> (r: Vec<String>)
        ensures
            texts_of(r@) == video_arguments(source@, texts_of(self.before_options@), texts_of(self.options@)),
    {
        let mut args = copy_texts(&self.before_options);
        push_text(&mut args, "-i");
        push_text(&mut args, source);
        push_text(&mut args, "-c:v");
        push_text(&mut args, "rawvideo");
        push_text(&mut args, "-pix_fmt");
        push_text(&mut args, "yuv420p");
        push_text(&mut args, "-f");
        push_text(&mut args, "rawvideo");
        push_text(&mut args, "-an");
        push_text(&mut args, "-loglevel");
        push_text(&mut args, "warning");
        let ghost middle = args@;
        let mut more = copy_texts(&self.options);
        args.append(&mut more);
        proof {
            lemma_texts_add(middle, self.options@);
        }
        push_text(&mut args, "pipe:1");
        assert(texts_of(args@) =~= video_arguments(source@, texts_of(self.before_options@), texts_of(self.options@)));
        args
    }

    /// The arguments that `ffprobe` is run with to describe `source`.
    pub fn probe_arguments(&self, source: &str) -> (r: Vec<String>)
        ensures
            texts_of(r@) == probe_arguments(source@),
    {
        let mut args: Vec<String> = Vec::new();
        push_text(&mut args, "-v");
        push_text(&mut args, "quiet");
        push_text(&mut args, "-print_format");
        push_text(&mut args, "json");
        push_text(&mut args, "-show_streams");
        push_text(&mut args, "-select_streams");
        push_text(&mut args, "v:0");
        push_text(&mut args, source);
        assert(texts_of(args@) =~= probe_arguments(source@));
        args
    }
}

/// Splits a frame rate as `ffprobe` writes it, `frames/seconds`, at its first
/// `/`; a rate without one is malformed.
pub fn split_frame_rate(rate: &str) -> (r: Option<(String, String)>)
    ensures
        match r {
            Some((a, b)) => exists|i: int| {
                &&& 0 <= i < rate@.len()
                &&& rate@[i] == '/'
                &&& forall|j: int| 0 <= j < i ==> rate@[j] != '/'
                &&& a@ == rate@.take(i)
                &&& b@ == rate@.skip(i + 1)
            },
            None => forall|j: int| 0 <= j < rate@.len() ==> rate@[j] != '/',
        },
{
    let n = rate.unicode_len();
    let mut i: usize = 0;
    while i < n
        invariant
            i <= n,
            n == rate@.len(),
            forall|j: int| 0 <= j < i ==> rate@[j] != '/',
        decreases n - i,
    {
        if rate.get_char(i) == '/' {
            let a = String::from_str(rate.substring_char(0, i));
            let b = String::from_str(rate.substring_char(i + 1, n));
            assert(rate@.subrange(0, i as int) =~= rate@.take(i as int));
            assert(rate@.subrange(i + 1, n as int) =~= rate@.skip(i + 1));
            return Some((a, b));
        }
        i = i + 1;
    }
    None
}

/// The lengths of the three planes of a YUV 4:2:0 frame of `width` by `height`
/// pixels, and of the whole frame.
pub open spec fn yuv_sizes(width: nat, height: nat) -> (nat, nat, nat) {
    let y = width * height;
    let uv = y / 4;
    (y, uv, y + 2 * uv)
}

/// The plane lengths of a YUV 4:2:0 frame: luma, each chroma plane, and the whole.
pub fn yuv_plane_sizes(width: usize, height: usize) -> (r: (usize, usize, usize))
    requires
        width * height + 2 * ((width * height) / 4) <= usize::MAX,
    ensures
        (r.0 as nat, r.1 as nat, r.2 as nat) == yuv_sizes(width as nat, height as nat),
{
    assert(width * height <= width * height + 2 * ((width * height) / 4)) by (nonlinear_arith)
        requires
            width * height >= 0,
    {
    }
    let y = width * height;
    let uv = y / 4;
    (y, uv, y + 2 * uv)
}

/// The three planes of a frame read into `buffer`: its first `y` bytes, the next
/// `uv`, and the `uv` after those.
pub fn split_planes(buffer: &Vec<u8>, y: usize, uv: usize) -> (r: (Vec<u8>, Vec<u8>, Vec<u8>))
    requires
        y + 2 * uv <= buffer@.len(),
    ensures
        r.0@ == buffer@.subrange(0, y as int),
        r.1@ == buffer@.subrange(y as int, y + uv),
        r.2@ == buffer@.subrange(y + uv, y + 2 * uv),
{
    let n = buffer.len();
    assert(y + 2 * uv <= n);
    (copy_range(buffer, 0, y), copy_range(buffer, y, y + uv), copy_range(buffer, y + uv, y + 2 * uv))
}

fn copy_range(buffer: &Vec<u8>, start: usize, end: usize) -> (r: Vec<u8>)
    requires
        start <= end <= buffer@.len(),
    ensures
        r@ == buffer@.subrange(start as int, end as int),
{
    let mut r: Vec<u8> = Vec::new();
    let mut i = start;
    while i < end
        invariant
            start <= i <= end,
            end <= buffer@.len(),
            r@ == buffer@.subrange(start as int, i as int),
        decreases end - i,
    {
        r.push(buffer[i]);
        assert(buffer@.subrange(start as int, i + 1) =~= buffer@.subrange(start as int, i as int).push(buffer@[i as int]));
        i = i + 1;
    }
    r
}

/// A voice server the client can use.
#[derive(Debug, Clone)]
pub struct VoiceNode {
    pub name: String,
    pub public_url: String,
}

/// Whether the round trip time at `i` is the first smallest of `rtts` among those known.
pub open spec fn is_first_fastest(rtts: Seq<Option<u128>>, i: int) -> bool {
    &&& 0 <= i < rtts.len()
    &&& rtts[i] is Some
    &&& forall|j: int| 0 <= j < rtts.len() && (#[trigger] rtts[j]) is Some ==> rtts[i]->0 <= rtts[j]->0
    &&& forall|j: int| 0 <= j < i && (#[trigger] rtts[j]) is Some ==> rtts[i]->0 < rtts[j]->0
}

/// The position of the closest node, given the round trip time measured to each
/// node, where it could be measured: the smallest time, the first of equal ones.
pub fn closest_node(rtts: &Vec<Option<u128>>) -> (r: Option<usize>)
    ensures
        match r {
            Some(i) => is_first_fastest(rtts@, i as int),
            None => forall|j: int| 0 <= j < rtts@.len() ==> (#[trigger] rtts@[j]) is None,
        },
{
    let mut best: Option<usize> = None;
    let mut i: usize = 0;
    while i < rtts.len()
        invariant
            i <= rtts@.len(),
            match best {
                Some(b) => b < i && is_first_fastest(rtts@.take(i as int), b as int),
                None => forall|j: int| 0 <= j < i ==> (#[trigger] rtts@[j]) is None,
            },
        decreases rtts@.len() - i,
    {
        let ghost t = rtts@.take(i + 1);
        assert(forall|j: int| 0 <= j < i ==> t[j] == rtts@.take(i as int)[j]);
        match rtts[i] {
            Some(v) => {
                match best {
                    Some(b) => {
                        let bv = match rtts[b] {
                            Some(x) => x,
                            None => 0,
                        };
                        assert(rtts@.take(i as int)[b as int] == rtts@[b as int]);
                        if v < bv {
                            best = Some(i);
                        }
                    },
                    None => {
                        best = Some(i);
                    },
                }
            },
            None => {},
        }
        i = i + 1;
    }
    assert(rtts@.take(rtts@.len() as int) =~= rtts@);
    best
}

} // verus!

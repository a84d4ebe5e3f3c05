use vstd::prelude::*;

use crate::models::copy_texts;
use crate::voice::{audio_arguments, texts_of};

verus! {

/// Raw 16-bit little-endian stereo audio read from a stream, 20 ms at a time.
pub struct PCMAudio<B> {
    stream: B,
}

impl<B> PCMAudio<B> {
    /// The stream, as a source of audio.
    pub fn new(stream: B) -> (r: PCMAudio<B>)
        ensures
            r.stream() == stream,
    {
        PCMAudio { stream }
    }

    /// The stream the audio is read from.
    pub closed spec fn stream(self) -> B {
        self.stream
    }

    /// The stream, to read the audio from.
    pub fn stream_mut(&mut self) -> (r: &mut B)
        ensures
            *r == old(self).stream(),
            final(self).stream() == *final(r),
    {
        &mut self.stream
    }
}

/// How `ffmpeg` is run to turn a source into raw audio; the extra options are optional.
pub struct FFmpegPCMAudioOptions {
    pub executable: String,
    pub before_options: Option<Vec<String>>,
    pub options: Option<Vec<String>>,
    pub blocksize: usize,
}

/// The texts of optional options: none where there are none.
pub open spec fn option_texts(o: Option<Vec<String>>) -> Seq<Seq<char>> {
    match o {
        Some(v) => texts_of(v@),
        None => Seq::empty(),
    }
}

fn copy_options(o: &Option<Vec<String>>) -> (r: Vec<String>)
    ensures
        texts_of(r@) == option_texts(*o),
{
    match o {
        Some(v) => copy_texts(v),
        None => {
            let r: Vec<String> = Vec::new();
            assert(texts_of(r@) =~= Seq::<Seq<char>>::empty());
            r
        },
    }
}

impl FFmpegPCMAudioOptions {
    /// The options by default: the `ffmpeg` on the path, no extra options and
    /// blocks of 8192 bytes.
    pub fn default() -> (r: FFmpegPCMAudioOptions)
        ensures
            r.executable@ == "ffmpeg"@,
            r.before_options is None,
            r.options is None,
            r.blocksize == 8192,
    {
        FFmpegPCMAudioOptions { executable: String::from_str("ffmpeg"), before_options: None, options: None, blocksize: 1024 * 8 }
    }

    /// The arguments that `ffmpeg` is run with to read `source`.
    pub fn arguments(&self, source: &str) -> (r: Vec<String>)
        requires
            self.blocksize <= u128::MAX,
        ensures
            texts_of(r@) == audio_arguments(
                source@,
                option_texts(self.before_options),
                option_texts(self.options),
                crate::text::decimal(self.blocksize as nat),
            ),
    {
        let before = copy_options(&self.before_options);
        let after = copy_options(&self.options);
        let tmp = crate::voice::FFmpegPCMAudioOptions {
            executable: String::from_str("ffmpeg"),
            before_options: before,
            options: after,
            blocksize: self.blocksize,
        };
        tmp.arguments(source)
    }
}

} // verus!

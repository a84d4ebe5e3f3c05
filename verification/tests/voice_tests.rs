use stoat::voice::{
    closest_node, default_frame_size, frame_size, sample_size, samples_per_frame, split_planes, yuv_plane_sizes,
    FFmpegPCMAudioOptions, PCMAudio, CHANNELS, FRAME_LENGTH_MS, SAMPLE_RATE,
};

#[test]
fn audio_frame_arithmetic() {
    assert_eq!(sample_size(CHANNELS), 4);
    assert_eq!(samples_per_frame(SAMPLE_RATE, FRAME_LENGTH_MS), 960);
    assert_eq!(frame_size(SAMPLE_RATE, CHANNELS, FRAME_LENGTH_MS), 3840);
    assert_eq!(default_frame_size(), 3840);
    assert_eq!(frame_size(44100, 1, 10), 880);
}

#[test]
fn pcm_audio_keeps_its_stream() {
    let mut audio = PCMAudio::new(vec![1u8, 2, 3]);
    audio.stream_mut().push(4);
    assert_eq!(audio.stream_mut(), &vec![1u8, 2, 3, 4]);
    let mut other = stoat::sources::PCMAudio::new(5u32);
    *other.stream_mut() += 1;
    assert_eq!(*other.stream_mut(), 6);
}

#[test]
fn ffmpeg_audio_arguments() {
    let options = FFmpegPCMAudioOptions::default();
    assert_eq!(options.executable, "ffmpeg");
    assert_eq!(options.blocksize, 8192);
    let args = options.arguments("song.mp3");
    assert_eq!(
        args,
        vec![
            "-i", "song.mp3", "-f", "s16le", "-acodec", "pcm_s16le", "-ar", "48000", "-ac", "2", "-vn", "-loglevel",
            "warning", "-blocksize", "8192", "pipe:1",
        ]
    );
    let custom = FFmpegPCMAudioOptions {
        executable: "/bin/ffmpeg".to_string(),
        before_options: vec!["-re".to_string()],
        options: vec!["-af".to_string(), "volume=2".to_string()],
        blocksize: 10,
    };
    let args = custom.arguments("x");
    assert_eq!(args.first().unwrap(), "-re");
    assert_eq!(args[15], "10");
    assert_eq!(&args[16..], &["-af".to_string(), "volume=2".to_string(), "pipe:1".to_string()]);
}

#[test]
fn ffmpeg_audio_arguments_with_optional_options() {
    let options = stoat::sources::FFmpegPCMAudioOptions::default();
    assert!(options.before_options.is_none());
    assert_eq!(options.arguments("in").len(), 16);
    let custom = stoat::sources::FFmpegPCMAudioOptions {
        executable: "ffmpeg".to_string(),
        before_options: Some(vec!["-ss".to_string(), "5".to_string()]),
        options: None,
        blocksize: 8192,
    };
    let args = custom.arguments("in");
    assert_eq!(&args[0..4], &["-ss".to_string(), "5".to_string(), "-i".to_string(), "in".to_string()]);
    assert_eq!(args.last().unwrap(), "pipe:1");
}

#[test]
fn yuv_planes() {
    assert_eq!(yuv_plane_sizes(1280, 720), (921600, 230400, 1382400));
    assert_eq!(yuv_plane_sizes(3, 3), (9, 2, 13));
    let buffer: Vec<u8> = (0..14).collect();
    let (y, u, v) = split_planes(&buffer, 9, 2);
    assert_eq!(y, (0..9).collect::<Vec<u8>>());
    assert_eq!(u, vec![9, 10]);
    assert_eq!(v, vec![11, 12]);
}

#[test]
fn closest_node_is_the_first_fastest() {
    assert_eq!(closest_node(&vec![Some(30), None, Some(10), Some(10)]), Some(2));
    assert_eq!(closest_node(&vec![None, Some(5)]), Some(1));
    assert_eq!(closest_node(&vec![None, None]), None);
    assert_eq!(closest_node(&vec![]), None);
}

#[test]
fn video_arguments_and_probe() {
    let options = stoat::voice::FFmpegYUVVideoOptions::default();
    assert_eq!(options.executable, "ffmpeg");
    assert_eq!(options.ffprobe, "ffprobe");
    assert_eq!(
        options.arguments("in.mp4"),
        vec!["-i", "in.mp4", "-c:v", "rawvideo", "-pix_fmt", "yuv420p", "-f", "rawvideo", "-an", "-loglevel", "warning", "pipe:1"]
    );
    let custom = stoat::voice::FFmpegYUVVideoOptions {
        executable: "ff".to_string(),
        ffprobe: "fp".to_string(),
        before_options: vec!["-re".to_string()],
        options: vec!["-s".to_string(), "640x360".to_string()],
    };
    let args = custom.arguments("x");
    assert_eq!(args.first().unwrap(), "-re");
    assert_eq!(&args[args.len() - 3..], &["-s".to_string(), "640x360".to_string(), "pipe:1".to_string()]);
    assert_eq!(
        custom.probe_arguments("x"),
        vec!["-v", "quiet", "-print_format", "json", "-show_streams", "-select_streams", "v:0", "x"]
    );
}

#[test]
fn frame_rate_split_at_first_slash() {
    assert_eq!(stoat::voice::split_frame_rate("30000/1001"), Some(("30000".to_string(), "1001".to_string())));
    assert_eq!(stoat::voice::split_frame_rate("1/2/3"), Some(("1".to_string(), "2/3".to_string())));
    assert_eq!(stoat::voice::split_frame_rate("25"), None);
}

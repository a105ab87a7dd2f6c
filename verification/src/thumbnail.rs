//! Video thumbnail settings and the ffmpeg command line built from them.

use vstd::prelude::*;

use crate::text::{decimal_chars, decimal_text, owned, push_chars, push_str, string_views};

verus! {

/// Image formats a thumbnail can be written in.
#[derive(Debug, Clone, Copy, PartialEq, Eq)]
pub enum ImageFormat {
    Jpeg,
    Png,
}

impl ImageFormat {
    /// File extension (without the dot) used for this format.
    pub fn extension(&self) -> (ext: &str)
        ensures
            ext@ == (match *self {
                ImageFormat::Jpeg => "jpg"@,
                ImageFormat::Png => "png"@,
            }),
    {
        match self {
            ImageFormat::Jpeg => "jpg",
            ImageFormat::Png => "png",
        }
    }
}

/// Settings for generating a thumbnail from the first video frame.
#[derive(Debug, Clone, Copy)]
pub struct ThumbnailConfig {
    /// Target width; the height follows the aspect ratio.
    pub width: Option<u32>,
    /// Target height, used only when no width is given.
    pub height: Option<u32>,
    /// Quality setting (for JPEG 1..=31, lower is better).
    pub quality: u32,
    /// Output format.
    pub format: ImageFormat,
}

impl Default for ThumbnailConfig {
    /// The default settings: 320 pixels wide, quality 2, JPEG.
    fn default() -> (c: Self)
        ensures
            c.width == Some(320u32),
            c.height is None,
            c.quality == 2,
            c.format == ImageFormat::Jpeg,
    {
        ThumbnailConfig { width: Some(320), height: None, quality: 2, format: ImageFormat::Jpeg }
    }
}

/// Why a thumbnail could not be made.
#[derive(Debug)]
pub enum ThumbnailError {
    /// ffmpeg could not be started or reported a failure (its error output).
    FfmpegFailed(String),
    /// The video file does not exist (its path).
    InputFileNotFound(String),
    /// Reading or writing a file failed (the error's text).
    IoError(String),
}

/// The message of a thumbnail error.
pub open spec fn thumbnail_error_text(e: ThumbnailError) -> Seq<char> {
    match e {
        ThumbnailError::FfmpegFailed(s) => "ffmpeg 执行失败: "@ + s@,
        ThumbnailError::InputFileNotFound(s) => "输入文件不存在: "@ + s@,
        ThumbnailError::IoError(s) => "IO 错误: "@ + s@,
    }
}

impl ThumbnailError {
    /// The message shown for this error.
    pub fn message(&self) -> (m: String)
        ensures
            m@ == thumbnail_error_text(*self),
    {
        let (prefix, detail) = match self {
            ThumbnailError::FfmpegFailed(s) => ("ffmpeg 执行失败: ", s),
            ThumbnailError::InputFileNotFound(s) => ("输入文件不存在: ", s),
            ThumbnailError::IoError(s) => ("IO 错误: ", s),
        };
        let mut m = owned(prefix);
        push_str(&mut m, detail.as_str());
        m
    }
}

/// The scaling filter for a configuration: by width when one is given, else
/// by height, else none.
pub open spec fn scale_filter(c: ThumbnailConfig) -> Option<Seq<char>> {
    match c.width {
        Some(w) => Some("scale="@ + decimal_text(w as nat) + ":-1"@),
        None => match c.height {
            Some(h) => Some("scale=-1:"@ + decimal_text(h as nat)),
            None => None,
        },
    }
}

/// The arguments given to ffmpeg to write the first frame of `video` to
/// `output` with the settings `c`.
pub open spec fn ffmpeg_args(video: Seq<char>, output: Seq<char>, c: ThumbnailConfig) -> Seq<
    Seq<char>,
> {
    let head = seq!["-y"@, "-i"@, video, "-ss"@, "00:00:00"@, "-vframes"@, "1"@];
    let scaled = match scale_filter(c) {
        Some(f) => head + seq!["-vf"@, f],
        None => head,
    };
    let quality_flag = match c.format {
        ImageFormat::Jpeg => "-q:v"@,
        ImageFormat::Png => "-compression_level"@,
    };
    scaled + seq![quality_flag, decimal_text(c.quality as nat), output]
}

fn push_arg(args: &mut Vec<String>, a: String)
    ensures
        string_views(final(args)@) == string_views(old(args)@).push(a@),
{
    let ghost before = args@;
    args.push(a);
    assert(string_views(args@) =~= string_views(before).push(a@));
}

fn number_text(prefix: &str, n: u32, suffix: &str) -> (s: String)
    ensures
        s@ == prefix@ + decimal_text(n as nat) + suffix@,
{
    let mut s = owned(prefix);
    let d = decimal_chars(n as u64);
    push_chars(&mut s, &d);
    push_str(&mut s, suffix);
    s
}

/// The ffmpeg command line (without the program name) that writes the first
/// frame of `video_path` to `output_path` with the settings `config`.
pub fn thumbnail_command_args(video_path: &str, output_path: &str, config: &ThumbnailConfig) -> (args:
    Vec<String>)
    ensures
        string_views(args@) == ffmpeg_args(video_path@, output_path@, *config),
{
    let mut args: Vec<String> = Vec::new();
    push_arg(&mut args, owned("-y"));
    push_arg(&mut args, owned("-i"));
    push_arg(&mut args, owned(video_path));
    push_arg(&mut args, owned("-ss"));
    push_arg(&mut args, owned("00:00:00"));
    push_arg(&mut args, owned("-vframes"));
    push_arg(&mut args, owned("1"));
    let ghost head = string_views(args@);
    match config.width {
        Some(w) => {
            push_arg(&mut args, owned("-vf"));
            push_arg(&mut args, number_text("scale=", w, ":-1"));
        },
        None => match config.height {
            Some(h) => {
                push_arg(&mut args, owned("-vf"));
                push_arg(&mut args, number_text("scale=-1:", h, ""));
            },
            None => {},
        },
    }
    let ghost scaled = string_views(args@);
    let flag = match config.format {
        ImageFormat::Jpeg => "-q:v",
        ImageFormat::Png => "-compression_level",
    };
    push_arg(&mut args, owned(flag));
    push_arg(&mut args, number_text("", config.quality, ""));
    push_arg(&mut args, owned(output_path));
    proof {
        reveal_strlit("");
        assert(head =~= seq!["-y"@, "-i"@, video_path@, "-ss"@, "00:00:00"@, "-vframes"@, "1"@]);
        assert(""@ + decimal_text(config.quality as nat) + ""@ =~= decimal_text(config.quality as nat));
        if let Some(h) = config.height {
            assert("scale=-1:"@ + decimal_text(h as nat) + ""@ =~= "scale=-1:"@ + decimal_text(h as nat));
        }
    }
    assert(string_views(args@) =~= ffmpeg_args(video_path@, output_path@, *config));
    args
}

} // verus!

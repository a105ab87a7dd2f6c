use homedrive::thumbnail::{thumbnail_command_args, ImageFormat, ThumbnailConfig, ThumbnailError};

#[test]
fn test_default_config() {
    let config = ThumbnailConfig::default();
    assert_eq!(config.width, Some(320));
    assert_eq!(config.quality, 2);
}

#[test]
fn test_image_format_extension() {
    assert_eq!(ImageFormat::Jpeg.extension(), "jpg");
    assert_eq!(ImageFormat::Png.extension(), "png");
}

#[test]
fn default_config_has_no_height_and_writes_jpeg() {
    let config = ThumbnailConfig::default();
    assert_eq!(config.height, None);
    assert!(matches!(config.format, ImageFormat::Jpeg));
}

#[test]
fn command_scales_by_width_with_jpeg_quality() {
    let args = thumbnail_command_args("in.mp4", "out.jpg", &ThumbnailConfig::default());
    let expected = vec![
        "-y", "-i", "in.mp4", "-ss", "00:00:00", "-vframes", "1", "-vf", "scale=320:-1", "-q:v",
        "2", "out.jpg",
    ];
    assert_eq!(args, expected);
}

#[test]
fn command_scales_by_height_when_no_width() {
    let config = ThumbnailConfig { width: None, height: Some(180), quality: 6, format: ImageFormat::Png };
    let args = thumbnail_command_args("a.mov", "a.png", &config);
    let expected = vec![
        "-y", "-i", "a.mov", "-ss", "00:00:00", "-vframes", "1", "-vf", "scale=-1:180",
        "-compression_level", "6", "a.png",
    ];
    assert_eq!(args, expected);
}

#[test]
fn command_without_size_has_no_filter() {
    let config = ThumbnailConfig { width: None, height: None, quality: 31, format: ImageFormat::Jpeg };
    let args = thumbnail_command_args("v", "o", &config);
    assert_eq!(args, vec!["-y", "-i", "v", "-ss", "00:00:00", "-vframes", "1", "-q:v", "31", "o"]);
}

#[test]
fn thumbnail_error_messages() {
    assert_eq!(ThumbnailError::FfmpegFailed("boom".to_string()).message(), "ffmpeg 执行失败: boom");
    assert_eq!(ThumbnailError::InputFileNotFound("/x.mp4".to_string()).message(), "输入文件不存在: /x.mp4");
    assert_eq!(ThumbnailError::IoError("denied".to_string()).message(), "IO 错误: denied");
}

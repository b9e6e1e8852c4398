use allui::image::{bracket, file_name};
use allui::{ContentMode, Image, ImageSource};

#[test]
fn file_image_caption_is_its_file_name() {
    let image = Image::new("assets/photos/photo.png");
    assert_eq!(image.placeholder_caption(), "[photo.png]");
}

#[test]
fn caption_of_plain_file_name() {
    assert_eq!(Image::new("photo.png").placeholder_caption(), "[photo.png]");
}

#[test]
fn caption_of_url_and_system_image() {
    assert_eq!(Image::url("https://example.com/a.png").placeholder_caption(), "[URL]");
    assert_eq!(Image::system_name("star.fill").placeholder_caption(), "[star.fill]");
}

#[test]
fn file_name_after_last_slash() {
    assert_eq!(file_name("a/b/c"), "c");
    assert_eq!(file_name("dir/"), "");
    assert_eq!(file_name("/root"), "root");
    assert_eq!(file_name(""), "");
    assert_eq!(file_name("plain"), "plain");
}

#[test]
fn bracket_wraps_text() {
    assert_eq!(bracket("x"), "[x]");
    assert_eq!(bracket(""), "[]");
}

#[test]
fn images_fit_by_default() {
    let image = Image::new("a.png");
    assert_eq!(image.content_mode, ContentMode::Fit);
    assert!(matches!(image.source, ImageSource::File(ref p) if p == "a.png"));
    let url = Image::url("u");
    assert!(matches!(url.source, ImageSource::Url(ref p) if p == "u"));
    let system = Image::system_name("gear");
    assert!(matches!(system.source, ImageSource::System(ref p) if p == "gear"));
}

#[test]
fn content_mode_builders() {
    let image = Image::new("a.png").scale_to_fill();
    assert_eq!(image.content_mode, ContentMode::Fill);
    let image = image.scale_to_fit();
    assert_eq!(image.content_mode, ContentMode::Fit);
    let image = image.content_mode(ContentMode::Fill).resizable();
    assert_eq!(image.content_mode, ContentMode::Fit);
    assert_eq!(ContentMode::default(), ContentMode::Fit);
}

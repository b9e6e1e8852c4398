use allui::icon::{icon_for_lowercase_name, icon_for_normalized_name, same_chars};
use allui::{map_system_image_to_icon, SystemIcon};

#[test]
fn fill_suffix_names_the_same_icon() {
    assert_eq!(map_system_image_to_icon("star.fill"), Some(SystemIcon::Star));
    assert_eq!(map_system_image_to_icon("star"), Some(SystemIcon::Star));
    assert_eq!(map_system_image_to_icon("heart.fill"), Some(SystemIcon::Heart));
}

#[test]
fn names_are_case_insensitive() {
    assert_eq!(map_system_image_to_icon("GearShape"), Some(SystemIcon::Settings));
    assert_eq!(map_system_image_to_icon("Star.Fill"), Some(SystemIcon::Star));
}

#[test]
fn fill_is_removed_anywhere() {
    assert_eq!(map_system_image_to_icon("star.fill.off"), Some(SystemIcon::StarOff));
    assert_eq!(map_system_image_to_icon("xmark.circle.fill"), Some(SystemIcon::Close));
}

#[test]
fn aliases_share_an_icon() {
    assert_eq!(map_system_image_to_icon("magnifyingglass"), Some(SystemIcon::Search));
    assert_eq!(map_system_image_to_icon("search"), Some(SystemIcon::Search));
    assert_eq!(map_system_image_to_icon("doc.on.doc"), Some(SystemIcon::Copy));
    assert_eq!(map_system_image_to_icon("line.horizontal.3"), Some(SystemIcon::Menu));
    assert_eq!(map_system_image_to_icon("book.closed"), Some(SystemIcon::BookOpen));
}

#[test]
fn unknown_names_have_no_icon() {
    assert_eq!(map_system_image_to_icon("cloud.rain"), None);
    assert_eq!(map_system_image_to_icon(""), None);
    assert_eq!(map_system_image_to_icon(".fill"), None);
}

#[test]
fn lowercase_name_lookup() {
    assert_eq!(icon_for_lowercase_name("bell.fill"), Some(SystemIcon::Bell));
    assert_eq!(icon_for_lowercase_name("Bell"), None);
}

#[test]
fn normalized_name_lookup() {
    assert_eq!(icon_for_normalized_name("chevron.right"), Some(SystemIcon::ChevronRight));
    assert_eq!(icon_for_normalized_name("star.fill"), None);
}

#[test]
fn same_chars_compares_characters() {
    assert!(same_chars("abc", "abc"));
    assert!(!same_chars("abc", "abd"));
    assert!(!same_chars("abc", "ab"));
    assert!(same_chars("", ""));
    assert!(same_chars("é", "é"));
}

#[test]
fn fill_variant_of_lowercase_name_is_same_icon() {
    for name in ["gear", "star.off", "arrow.up", "cloud", "x.fi", "doc."] {
        let variant = format!("{name}.fill");
        assert_eq!(icon_for_lowercase_name(&variant), icon_for_lowercase_name(name));
    }
}

use persian_subtitle_fixer::captions::{
    display_name, font_rule, opened_status, saved_status, window_title,
};
use persian_subtitle_fixer::encoding::InputEncoding;

#[test]
fn modes_are_listed_in_order() {
    assert_eq!(
        InputEncoding::ALL,
        [InputEncoding::Auto, InputEncoding::Utf8, InputEncoding::Windows1256]
    );
    assert_eq!(InputEncoding::ALL.len(), 3);
}

#[test]
fn labels_are_fixed() {
    assert_eq!(InputEncoding::Auto.label(), "Auto-detect (UTF-8 → Windows-1256)");
    assert_eq!(InputEncoding::Utf8.label(), "UTF-8");
    assert_eq!(InputEncoding::Windows1256.label(), "Windows-1256 (Arabic)");
}

#[test]
fn labels_follow_the_list() {
    let labels = InputEncoding::labels();
    assert_eq!(
        labels,
        vec!["Auto-detect (UTF-8 → Windows-1256)", "UTF-8", "Windows-1256 (Arabic)"]
    );
    for (index, mode) in InputEncoding::ALL.iter().enumerate() {
        assert_eq!(labels[index], mode.label());
        assert!(!labels[index].is_empty());
    }
    assert_ne!(labels[0], labels[1]);
    assert_ne!(labels[0], labels[2]);
    assert_ne!(labels[1], labels[2]);
}

#[test]
fn positions_and_modes_correspond() {
    assert_eq!(InputEncoding::Auto.position(), 0);
    assert_eq!(InputEncoding::Utf8.position(), 1);
    assert_eq!(InputEncoding::Windows1256.position(), 2);
    for (index, mode) in InputEncoding::ALL.iter().enumerate() {
        assert_eq!(mode.position(), index);
        assert_eq!(InputEncoding::from_index(index), *mode);
        assert_eq!(InputEncoding::from_index(mode.position()), *mode);
    }
}

#[test]
fn index_outside_the_list_selects_auto() {
    assert_eq!(InputEncoding::from_index(3), InputEncoding::Auto);
    assert_eq!(InputEncoding::from_index(4294967295), InputEncoding::Auto);
    assert_eq!(InputEncoding::from_index(usize::MAX), InputEncoding::Auto);
}

#[test]
fn window_title_names_file_and_encoding() {
    assert_eq!(
        window_title(Some("film.srt"), InputEncoding::Windows1256),
        "film.srt — Persian Subtitle Fixer (Windows-1256 (Arabic))"
    );
    assert_eq!(
        window_title(Some("فیلم.srt"), InputEncoding::Utf8),
        "فیلم.srt — Persian Subtitle Fixer (UTF-8)"
    );
    assert_eq!(window_title(None, InputEncoding::Windows1256), "Persian Subtitle Fixer — UTF-8");
}

#[test]
fn status_lines_name_the_file() {
    assert_eq!(
        opened_status(Some("film.srt"), InputEncoding::Windows1256),
        "Opened film.srt as Windows-1256 (Arabic)"
    );
    assert_eq!(opened_status(None, InputEncoding::Utf8), "Opened subtitle as UTF-8");
    assert_eq!(saved_status(Some("film.srt")), "Saved film.srt as UTF-8");
    assert_eq!(saved_status(None), "Saved subtitle as UTF-8");
}

#[test]
fn display_name_has_a_default() {
    assert_eq!(display_name(Some("a.sub")), "a.sub");
    assert_eq!(display_name(None), "subtitle");
}

#[test]
fn font_rule_styles_the_text_view() {
    assert_eq!(font_rule("Vazirmatn 14"), "textview { font: Vazirmatn 14; }");
    assert_eq!(font_rule(""), "textview { font: ; }");
}

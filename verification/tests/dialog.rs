use filedialog::config::{FileDialogConfig, ResultMode, Rgba, Scalar, Size};
use filedialog::dialog::{DialogState, FileDialog, FrameOutcome};
use filedialog::flags::{FileDialogFlags, FileStyleFlags};
use filedialog::selection::{Selection, SelectionEntry};
use filedialog::text::{contains_nul, Argument, DialogError};
use filedialog::util::{ptr_clone_to_string, ptr_into_string};
use filedialog::window::{
    fit_window, simple_window, DisplayRequest, WINDOW_NO_COLLAPSE, WINDOW_NO_RESIZE,
};

fn scalar(value: f32) -> Scalar {
    Scalar(value.to_bits())
}

fn size(width: f32, height: f32) -> Size {
    Size { width: scalar(width), height: scalar(height) }
}

fn rgba(r: f32, g: f32, b: f32, a: f32) -> Rgba {
    Rgba { r: scalar(r), g: scalar(g), b: scalar(b), a: scalar(a) }
}

fn white() -> Rgba {
    rgba(1.0, 1.0, 1.0, 1.0)
}

fn refused(which: Argument) -> DialogError {
    DialogError::InvalidArgument(which)
}

#[test]
fn default_config_has_the_documented_values() {
    let c = FileDialogConfig::default();
    assert_eq!(c.path, None);
    assert_eq!(c.file_name, None);
    assert_eq!(c.file_path_name, None);
    assert_eq!(c.count_selection_max, 1);
    assert_eq!(c.side_pane_width, scalar(250.0));
    assert_eq!(c.flags.bits(), 521);
    assert_eq!(
        c.flags,
        FileDialogFlags(FileDialogFlags::CONFIRM_OVERWRITE)
            .union(FileDialogFlags(FileDialogFlags::MODAL))
            .union(FileDialogFlags(FileDialogFlags::HIDE_COLUMN_TYPE))
    );
}

#[test]
fn result_mode_codes() {
    assert_eq!(ResultMode::AddIfNoFileExt.code(), 0);
    assert_eq!(ResultMode::OverwriteFileExt.code(), 1);
    assert_eq!(ResultMode::KeepInputFile.code(), 2);
    assert_eq!(ResultMode::default(), ResultMode::AddIfNoFileExt);
}

#[test]
fn created_dialog_is_closed() {
    let d = FileDialog::create("chooser").unwrap();
    assert_eq!(d.id(), "chooser");
    assert_eq!(d.state(), DialogState::Closed);
    assert!(!d.is_ok());
    assert!(!d.is_opened());
    assert!(!d.is_key_opened());
    assert!(!d.was_opened_this_frame());
    assert!(!d.was_key_opened_this_frame());
    assert_eq!(d.style_count(), 0);
}

#[test]
fn identifier_with_zero_byte_is_refused() {
    assert_eq!(FileDialog::create("a\0b").err(), Some(refused(Argument::Identifier)));
    assert!(FileDialog::create("").is_ok());
}

#[test]
fn display_while_closed_does_nothing() {
    let mut d = FileDialog::create("chooser").unwrap();
    assert_eq!(d.display(WINDOW_NO_COLLAPSE, size(200.0, 300.0), size(700.0, 500.0)), None);
    assert_eq!(d.display_simple(), None);
    assert!(!d.frame_shown(FrameOutcome::Pending));
    assert_eq!(d.state(), DialogState::Closed);
    assert!(!d.frame_shown(FrameOutcome::Accepted));
    assert_eq!(d.state(), DialogState::Closed);
    assert!(!d.is_ok());
}

#[test]
fn open_select_accept() {
    let mut d = FileDialog::create("chooser").unwrap();
    let mut config = FileDialogConfig::default();
    config.path = Some("/tmp".to_string());
    config.count_selection_max = 1;
    let request = d.open("Choose a file", Some(".txt"), config).unwrap();
    assert_eq!(request.key, "chooser");
    assert_eq!(request.title, "Choose a file");
    assert_eq!(request.filters, Some(".txt".to_string()));
    assert_eq!(request.path, Some("/tmp".to_string()));
    assert_eq!(request.file_name, None);
    assert_eq!(request.file_path_name, None);
    assert_eq!(request.count_selection_max, 1);
    assert_eq!(request.flags.bits(), 521);
    assert_eq!(request.side_pane_width, scalar(250.0));
    assert_eq!(d.state(), DialogState::OpenedThisFrame);
    assert!(d.was_opened_this_frame());
    assert!(d.was_key_opened_this_frame());
    assert!(d.is_opened());

    assert!(d.display_simple().is_some());
    assert!(!d.frame_shown(FrameOutcome::Pending));
    assert_eq!(d.state(), DialogState::Open);
    assert!(!d.was_opened_this_frame());
    assert!(d.is_opened());
    assert!(d.is_key_opened());
    assert!(!d.is_ok());

    assert!(d.frame_shown(FrameOutcome::Accepted));
    assert_eq!(d.state(), DialogState::Closed);
    assert!(d.is_ok());
    let selection = Selection::new(vec![SelectionEntry {
        file_name: "a.txt".to_string(),
        file_path_name: "/tmp/a.txt".to_string(),
    }]);
    assert_eq!(selection.files(), vec!["/tmp/a.txt".to_string()]);
    assert_eq!(selection.count(), 1);
}

#[test]
fn cancel_ends_the_dialog_without_ok() {
    let mut d = FileDialog::create("chooser").unwrap();
    d.open("t", None, FileDialogConfig::default()).unwrap();
    assert!(d.frame_shown(FrameOutcome::Accepted));
    assert!(d.is_ok());
    d.open("t", None, FileDialogConfig::default()).unwrap();
    assert!(d.is_ok());
    assert!(d.frame_shown(FrameOutcome::Cancelled));
    assert_eq!(d.state(), DialogState::Closed);
    assert!(!d.is_ok());
}

#[test]
fn accept_in_the_opening_frame() {
    let mut d = FileDialog::create("chooser").unwrap();
    d.open("t", None, FileDialogConfig::default()).unwrap();
    assert!(d.frame_shown(FrameOutcome::Accepted));
    assert_eq!(d.state(), DialogState::Closed);
}

#[test]
fn open_while_open_keeps_the_state() {
    let mut d = FileDialog::create("chooser").unwrap();
    d.open("t", None, FileDialogConfig::default()).unwrap();
    d.frame_shown(FrameOutcome::Pending);
    d.open("again", None, FileDialogConfig::default()).unwrap();
    assert_eq!(d.state(), DialogState::Open);
    assert!(!d.was_opened_this_frame());
}

#[test]
fn close_ends_the_dialog() {
    let mut d = FileDialog::create("chooser").unwrap();
    d.open("t", None, FileDialogConfig::default()).unwrap();
    d.close();
    assert_eq!(d.state(), DialogState::Closed);
    assert!(!d.is_opened());
    assert!(!d.is_ok());
    assert_eq!(d.display_simple(), None);
}

#[test]
fn open_request_carries_the_configuration_as_it_stands() {
    let mut d = FileDialog::create("chooser").unwrap();
    let mut config = FileDialogConfig::default();
    config.path = Some("/tmp".to_string());
    config.file_name = Some("a.txt".to_string());
    config.file_path_name = Some("/home/b.txt".to_string());
    config.count_selection_max = 0;
    config.flags = FileDialogFlags(FileDialogFlags::NATURAL_SORTING);
    let request = d.open("t", None, config).unwrap();
    assert_eq!(request.key, "chooser");
    assert_eq!(request.filters, None);
    assert_eq!(request.path, Some("/tmp".to_string()));
    assert_eq!(request.file_name, Some("a.txt".to_string()));
    assert_eq!(request.file_path_name, Some("/home/b.txt".to_string()));
    assert_eq!(request.count_selection_max, 0);
    assert_eq!(request.flags.bits(), 0x4000);
}

#[test]
fn open_request_leaves_unset_fields_absent() {
    let mut d = FileDialog::create("chooser").unwrap();
    let mut config = FileDialogConfig::default();
    config.file_name = Some(String::new());
    let request = d.open("t", None, config).unwrap();
    assert_eq!(request.path, None);
    assert_eq!(request.file_name, Some(String::new()));
    assert_eq!(request.file_path_name, None);
}

#[test]
fn filters_are_handed_on_as_they_are() {
    let mut d = FileDialog::create("chooser").unwrap();
    let text = "Images{.png,.jpg},Text{.txt}";
    let request = d.open("t", Some(text), FileDialogConfig::default()).unwrap();
    assert_eq!(request.filters, Some(text.to_string()));
}

#[test]
fn open_refuses_zero_bytes_and_stays_closed() {
    let mut d = FileDialog::create("chooser").unwrap();
    assert_eq!(d.open("a\0b", None, FileDialogConfig::default()), Err(refused(Argument::Title)));
    assert_eq!(
        d.open("t", Some(".txt\0"), FileDialogConfig::default()),
        Err(refused(Argument::Filters))
    );
    let mut c = FileDialogConfig::default();
    c.path = Some("\0".to_string());
    c.file_name = Some("x\0".to_string());
    assert_eq!(d.open("t", None, c), Err(refused(Argument::Path)));
    let mut c = FileDialogConfig::default();
    c.file_name = Some("x\0".to_string());
    c.file_path_name = Some("\0y".to_string());
    assert_eq!(d.open("t", None, c), Err(refused(Argument::FileName)));
    let mut c = FileDialogConfig::default();
    c.file_path_name = Some("\0y".to_string());
    assert_eq!(d.open("t", None, c), Err(refused(Argument::FilePathName)));
    assert_eq!(d.state(), DialogState::Closed);
}

#[test]
fn title_is_reported_before_filters() {
    let mut d = FileDialog::create("chooser").unwrap();
    assert_eq!(
        d.open("\0", Some("\0"), FileDialogConfig::default()),
        Err(refused(Argument::Title))
    );
}

#[test]
fn style_rules_accumulate_until_cleared() {
    let mut d = FileDialog::create("chooser").unwrap();
    let by_ext = FileStyleFlags(FileStyleFlags::BY_EXTENSION);
    let rule = d.set_file_style(by_ext, ".png", white(), None).unwrap();
    assert_eq!(rule.flags, by_ext);
    assert_eq!(rule.criteria, ".png");
    assert_eq!(rule.color, white());
    assert_eq!(rule.icon, None);
    assert_eq!(d.style_count(), 1);
    assert_eq!(d.style(0), Some(&rule));
    assert_eq!(d.style(1), None);
    let second = d
        .set_file_style(
            FileStyleFlags(FileStyleFlags::BY_TYPE_DIR),
            "",
            rgba(0.1, 0.2, 0.3, 0.4),
            Some("[D]"),
        )
        .unwrap();
    assert_eq!(second.icon, Some("[D]".to_string()));
    assert_eq!(d.style_count(), 2);
    assert_eq!(d.style(0), Some(&rule));
    assert_eq!(d.style(1), Some(&second));
    d.clear_file_styles();
    assert_eq!(d.style_count(), 0);
    assert_eq!(d.style(0), None);
}

#[test]
fn style_by_extension_then_clear_leaves_no_rule() {
    let mut d = FileDialog::create("chooser").unwrap();
    d.set_file_style(FileStyleFlags(FileStyleFlags::BY_EXTENSION), ".png", white(), None)
        .unwrap();
    d.clear_file_styles();
    assert_eq!(d.style_count(), 0);
}

#[test]
fn style_refuses_zero_bytes() {
    let mut d = FileDialog::create("chooser").unwrap();
    let by_ext = FileStyleFlags(FileStyleFlags::BY_EXTENSION);
    assert_eq!(
        d.set_file_style(by_ext, ".p\0ng", white(), Some("\0")),
        Err(refused(Argument::Criteria))
    );
    assert_eq!(
        d.set_file_style(by_ext, ".png", white(), Some("i\0")),
        Err(refused(Argument::Icon))
    );
    assert_eq!(d.style_count(), 0);
}

#[test]
fn locales_are_handed_on_or_refused() {
    let d = FileDialog::create("chooser").unwrap();
    let request = d.set_locales(6, "en_US.UTF-8", "C").unwrap();
    assert_eq!(request.category, 6);
    assert_eq!(request.begin_locale, "en_US.UTF-8");
    assert_eq!(request.end_locale, "C");
    assert_eq!(d.set_locales(6, "\0", "C\0"), Err(refused(Argument::BeginLocale)));
    assert_eq!(d.set_locales(6, "C", "C\0"), Err(refused(Argument::EndLocale)));
}

#[test]
fn window_with_room_keeps_its_flags() {
    let r = fit_window(WINDOW_NO_COLLAPSE, size(200.0, 300.0), size(700.0, 500.0));
    assert_eq!(
        r,
        DisplayRequest {
            window_flags: 32,
            min_size: size(200.0, 300.0),
            max_size: size(700.0, 500.0),
        }
    );
}

#[test]
fn window_without_room_is_not_resizable() {
    let r = fit_window(WINDOW_NO_COLLAPSE, size(200.0, 300.0), size(200.0, 100.0));
    assert_eq!(r.window_flags, 34);
    assert_eq!(r.window_flags & WINDOW_NO_RESIZE, WINDOW_NO_RESIZE);
    assert_eq!(r.min_size, size(200.0, 300.0));
    assert_eq!(r.max_size, size(200.0, 300.0));
    assert_eq!(fit_window(0, size(5.0, 5.0), size(5.0, 5.0)).window_flags, 2);
}

#[test]
fn window_with_room_on_one_axis_is_clamped_but_resizable() {
    let r = fit_window(0, size(200.0, 300.0), size(100.0, 500.0));
    assert_eq!(r.window_flags, 0);
    assert_eq!(r.max_size, size(200.0, 500.0));
    let r = fit_window(0, size(200.0, 300.0), size(700.0, 100.0));
    assert_eq!(r.window_flags, 0);
    assert_eq!(r.max_size, size(700.0, 300.0));
}

#[test]
fn simple_window_values() {
    let r = simple_window();
    assert_eq!(r.window_flags, 32);
    assert_eq!(r.min_size, size(200.0, 300.0));
    assert_eq!(r.max_size, size(700.0, 500.0));
    let mut d = FileDialog::create("chooser").unwrap();
    d.open("t", None, FileDialogConfig::default()).unwrap();
    assert_eq!(d.display_simple(), Some(r));
    assert_eq!(
        d.display(1, size(10.0, 10.0), size(10.0, 10.0)),
        Some(DisplayRequest { window_flags: 3, min_size: size(10.0, 10.0), max_size: size(10.0, 10.0) })
    );
}

#[test]
fn zero_bytes_are_found() {
    assert!(!contains_nul(""));
    assert!(!contains_nul("plain text"));
    assert!(contains_nul("\0"));
    assert!(contains_nul("end\0"));
    assert!(contains_nul("mid\0dle"));
    assert!(!contains_nul("caf\u{e9} \u{1f600}"));
}

#[test]
fn lent_text_is_decoded() {
    assert_eq!(ptr_clone_to_string(None), "");
    assert_eq!(ptr_clone_to_string(Some(b"")), "");
    assert_eq!(ptr_clone_to_string(Some(b"/tmp/a.txt")), "/tmp/a.txt");
    assert_eq!(ptr_clone_to_string(Some("caf\u{e9}".as_bytes())), "caf\u{e9}");
    assert_eq!(ptr_clone_to_string(Some(b"a\xffb")), "a\u{fffd}b");
}

#[test]
fn handed_over_text_is_decoded() {
    assert_eq!(ptr_into_string(None), "");
    assert_eq!(ptr_into_string(Some(Vec::new())), "");
    assert_eq!(ptr_into_string(Some(b"/tmp/a.txt".to_vec())), "/tmp/a.txt");
    assert_eq!(ptr_into_string(Some(vec![0x61, 0xff, 0x62])), "a\u{fffd}b");
}

#[test]
fn fractions_decide_the_resize_rule() {
    let r = fit_window(0, size(200.25, 300.0), size(200.5, 300.0));
    assert_eq!(r.window_flags, 0);
    assert_eq!(r.max_size, size(200.5, 300.0));
    let r = fit_window(0, size(200.5, 300.0), size(200.25, 300.0));
    assert_eq!(r.window_flags, 2);
    assert_eq!(r.max_size, size(200.5, 300.0));
}

#[test]
fn bound_that_is_no_number_gives_way() {
    let r = fit_window(0, size(200.0, 300.0), size(f32::NAN, 100.0));
    assert_eq!(r.window_flags, 0);
    assert_eq!(r.max_size, size(200.0, 300.0));
    let r = fit_window(0, size(f32::NAN, 300.0), size(150.0, 100.0));
    assert_eq!(r.window_flags, 0);
    assert_eq!(r.max_size, size(150.0, 300.0));
}

#[test]
fn side_pane_width_passes_through_exactly() {
    let mut d = FileDialog::create("chooser").unwrap();
    let mut config = FileDialogConfig::default();
    config.side_pane_width = scalar(123.456);
    let request = d.open("t", None, config).unwrap();
    assert_eq!(f32::from_bits(request.side_pane_width.0), 123.456);
}

#[test]
fn colour_passes_through_exactly() {
    let mut d = FileDialog::create("chooser").unwrap();
    let colour = rgba(0.1, 0.25, 1.0 / 3.0, 0.999);
    let rule =
        d.set_file_style(FileStyleFlags(FileStyleFlags::BY_FULL_NAME), "x", colour, None).unwrap();
    assert_eq!(f32::from_bits(rule.color.r.0), 0.1);
    assert_eq!(f32::from_bits(rule.color.b.0), 1.0 / 3.0);
    assert_eq!(rule.color, colour);
}

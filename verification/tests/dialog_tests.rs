//! Tests for the dialogs: the native file dialog, the help viewer and the
//! toolkit's own file chooser.

use fltk::dialog::BeepType;
use fltk::dialog::FileChooser;
use fltk::dialog::FileChooserType;
use fltk::dialog::FileDialog;
use fltk::dialog::FileDialogOptions;
use fltk::dialog::FileDialogType;
use fltk::dialog::HelpDialog;
use fltk::prelude::FltkError;
use fltk::prelude::FltkErrorKind;
use fltk::tracker::Toolkit;

#[test]
fn file_dialog_set_directory_stores_the_directory() {
    let mut dlg = FileDialog::new(FileDialogType::BrowseFile);
    assert_eq!(dlg.directory(), "");
    assert_eq!(dlg.set_directory("/tmp/pictures"), Ok(()));
    assert_eq!(dlg.directory(), "/tmp/pictures");
}

#[test]
fn file_dialog_set_directory_rejects_interior_nul() {
    let mut dlg = FileDialog::new(FileDialogType::BrowseDir);
    assert_eq!(dlg.set_directory("bad\0dir"), Err(FltkError::NullError));
    assert_eq!(dlg.directory(), "");
}

#[test]
fn file_dialog_records_the_native_selection() {
    let mut dlg = FileDialog::new(FileDialogType::BrowseMultiFile);
    assert_eq!(dlg.filename(), "");
    assert!(dlg.filenames().is_empty());
    dlg.native_choose("a.txt");
    dlg.native_choose("b.txt");
    assert_eq!(dlg.filename(), "a.txt");
    let names = dlg.filenames();
    assert_eq!(names.len(), 2);
    assert_eq!(names[0], "a.txt");
    assert_eq!(names[1], "b.txt");
}

#[test]
fn file_dialog_option_and_type_bits() {
    assert_eq!(FileDialogType::BrowseSaveDir.bits(), 5);
    assert_eq!(FileDialogOptions::Preview.bits(), 4);
    assert_eq!(FileDialogOptions::UseFilterExt.bits(), 8);
    let mut dlg = FileDialog::new(FileDialogType::BrowseFile);
    dlg.set_option(FileDialogOptions::SaveAsConfirm);
    dlg.set_type(FileDialogType::BrowseSaveFile);
    dlg.set_title("save it");
    dlg.set_filter("*.txt");
    dlg.set_preset_file("out.txt");
}

#[test]
fn help_dialog_new_places_the_window() {
    let mut dlg = HelpDialog::new(10, 20, 300, 200);
    assert_eq!(dlg.x(), 10);
    assert_eq!(dlg.y(), 20);
    assert_eq!(dlg.width(), 300);
    assert_eq!(dlg.height(), 200);
    assert!(!dlg.visible());
    dlg.show();
    assert!(dlg.visible());
    dlg.hide_window();
    assert!(!dlg.visible());
    dlg.position(1, 2);
    assert_eq!(dlg.x(), 1);
    assert_eq!(dlg.y(), 2);
    dlg.set_text_size(14);
    assert_eq!(dlg.text_size(), 14);
}

#[test]
fn help_dialog_load_succeeds_only_for_known_documents() {
    let mut tk = Toolkit::new();
    tk.register_document("manual.html");
    let mut dlg = HelpDialog::new(0, 0, 500, 400);
    assert_eq!(dlg.load(&tk, "manual.html"), Ok(()));
    assert_eq!(dlg.value(), Some(String::from("manual.html")));
    assert_eq!(
        dlg.load(&tk, "missing.html"),
        Err(FltkError::Internal(FltkErrorKind::ResourceNotFound))
    );
    assert_eq!(dlg.load(&tk, "bad\0name"), Err(FltkError::NullError));
    // the failed loads left the loaded document alone
    assert_eq!(dlg.value(), Some(String::from("manual.html")));
}

#[test]
fn help_dialog_set_value_overrides_the_document() {
    let mut dlg = HelpDialog::default();
    assert_eq!(dlg.value(), None);
    dlg.set_value("<b>hello</b>");
    assert_eq!(dlg.value(), Some(String::from("<b>hello</b>")));
}

#[test]
fn file_chooser_selection_is_numbered_from_one() {
    let mut chooser = FileChooser::new(".", "*", FileChooserType::Multi, "Title Of Chooser");
    assert_eq!(chooser.directory(), Some(String::from(".")));
    assert_eq!(chooser.filter(), Some(String::from("*")));
    assert_eq!(chooser.count(), 0);
    assert_eq!(chooser.value(1), None);
    chooser.native_select("first.rs");
    chooser.native_select("second.rs");
    assert_eq!(chooser.count(), 2);
    assert_eq!(chooser.value(0), Some(String::from("first.rs")));
    assert_eq!(chooser.value(1), Some(String::from("first.rs")));
    assert_eq!(chooser.value(2), Some(String::from("second.rs")));
    assert_eq!(chooser.value(3), None);
}

#[test]
fn file_chooser_show_and_hide() {
    let mut chooser = FileChooser::new("/", "*.rs", FileChooserType::Single, "pick");
    assert!(!chooser.shown());
    chooser.show();
    assert!(chooser.shown());
    chooser.hide_window();
    assert!(!chooser.shown());
    chooser.set_directory("/src");
    assert_eq!(chooser.directory(), Some(String::from("/src")));
    chooser.set_filter("*.toml");
    assert_eq!(chooser.filter(), Some(String::from("*.toml")));
}

#[test]
fn beep_type_bits_match_the_native_values() {
    assert_eq!(BeepType::Default.bits(), 0);
    assert_eq!(BeepType::Message.bits(), 1);
    assert_eq!(BeepType::Error.bits(), 2);
    assert_eq!(BeepType::Question.bits(), 3);
    assert_eq!(BeepType::Password.bits(), 4);
    assert_eq!(BeepType::Notification.bits(), 5);
}

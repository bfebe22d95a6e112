//! Dialogs: the native file dialog, the help viewer and the toolkit's own
//! file chooser.
//!
//! Unlike the widgets, each dialog is owned outright by its wrapper value:
//! there is exactly one owner, so Rust's move discipline already rules out a
//! second deletion, and the dialog state the wrapper configures — type,
//! directory, filter, title — is modelled as plain fields.  What the user
//! picks, and which documents the help viewer can load, comes from the
//! native side: the chooser's selection arrives through a native event, and
//! [`HelpDialog::load`] succeeds exactly for the documents the
//! [`crate::tracker::Toolkit`] knows.

use vstd::prelude::*;
use vstd::string::StringSliceAdditionalSpecFns;

use crate::prelude::contains_nul;
use crate::prelude::str_contains_nul;
use crate::prelude::FltkError;
use crate::prelude::FltkErrorKind;
use crate::tracker::Toolkit;

verus! {

/// Defines the type of dialog, which can be changed dynamically using the set_type() method
#[derive(Debug, Copy, Clone, PartialEq, Eq, Structural)]
pub enum FileDialogType {
    /// Browse file
    BrowseFile,
    /// Browse dir
    BrowseDir,
    /// Browse multiple files
    BrowseMultiFile,
    /// Browse multiple dirs
    BrowseMultiDir,
    /// Browse save file
    BrowseSaveFile,
    /// Browse save directory
    BrowseSaveDir,
}

/// Alias for NativeFileChooserType
pub type NativeFileChooserType = FileDialogType;

impl FileDialogType {
    /// The integer value the native toolkit uses for this dialog type.
    pub open spec fn spec_bits(self) -> i32 {
        match self {
            FileDialogType::BrowseFile => 0,
            FileDialogType::BrowseDir => 1,
            FileDialogType::BrowseMultiFile => 2,
            FileDialogType::BrowseMultiDir => 3,
            FileDialogType::BrowseSaveFile => 4,
            FileDialogType::BrowseSaveDir => 5,
        }
    }

    /// The integer value the native toolkit uses for this dialog type.
    pub fn bits(self) -> (r: i32)
        ensures
            r == self.spec_bits(),
    {
        match self {
            FileDialogType::BrowseFile => 0,
            FileDialogType::BrowseDir => 1,
            FileDialogType::BrowseMultiFile => 2,
            FileDialogType::BrowseMultiDir => 3,
            FileDialogType::BrowseSaveFile => 4,
            FileDialogType::BrowseSaveDir => 5,
        }
    }
}

/// Defines the File dialog options, which can be set using the set_option() method.
#[derive(Debug, Copy, Clone, PartialEq, Eq, Structural)]
pub enum FileDialogOptions {
    /// No options
    NoOptions,
    /// Confirm on save as
    SaveAsConfirm,
    /// New folder option
    NewFolder,
    /// Enable preview
    Preview,
    /// Use extension filter
    UseFilterExt,
}

/// Alias to NativeFileChooserOptions
pub type NativeFileChooserOptions = FileDialogOptions;

impl FileDialogOptions {
    /// The option bit the native toolkit uses for this option.
    pub open spec fn spec_bits(self) -> i32 {
        match self {
            FileDialogOptions::NoOptions => 0,
            FileDialogOptions::SaveAsConfirm => 1,
            FileDialogOptions::NewFolder => 2,
            FileDialogOptions::Preview => 4,
            FileDialogOptions::UseFilterExt => 8,
        }
    }

    /// The option bit the native toolkit uses for this option.
    pub fn bits(self) -> (r: i32)
        ensures
            r == self.spec_bits(),
    {
        match self {
            FileDialogOptions::NoOptions => 0,
            FileDialogOptions::SaveAsConfirm => 1,
            FileDialogOptions::NewFolder => 2,
            FileDialogOptions::Preview => 4,
            FileDialogOptions::UseFilterExt => 8,
        }
    }
}

/// Creates a file button
pub struct FileDialog {
    dtype: FileDialogType,
    directory: String,
    title: String,
    filter: String,
    preset_file: String,
    options: i32,
    filenames: Vec<String>,
}

/// Re-alias FileDialog to NativeFileChooser (the native file chooser)
pub type NativeFileChooser = FileDialog;

impl FileDialog {
    /// The dialog's current type.
    pub closed spec fn spec_type(self) -> FileDialogType {
        self.dtype
    }

    /// The preset directory.
    pub closed spec fn spec_directory(self) -> Seq<char> {
        self.directory@
    }

    /// The dialog's title.
    pub closed spec fn spec_title(self) -> Seq<char> {
        self.title@
    }

    /// The dialog's filter.
    pub closed spec fn spec_filter(self) -> Seq<char> {
        self.filter@
    }

    /// The dialog's preset file name.
    pub closed spec fn spec_preset_file(self) -> Seq<char> {
        self.preset_file@
    }

    /// The option bits set on the dialog.
    pub closed spec fn spec_options(self) -> i32 {
        self.options
    }

    /// The file names the user chose, newest native selection last.
    pub closed spec fn spec_filenames(self) -> Seq<Seq<char>> {
        self.filenames@.map(|i: int, d: String| d@)
    }

    /// Creates an new file dialog.  The native allocation is assumed
    /// infallible, so construction always succeeds.
    pub fn new(op: FileDialogType) -> (r: FileDialog)
        ensures
            r.spec_type() == op,
            r.spec_directory() == Seq::<char>::empty(),
            r.spec_title() == Seq::<char>::empty(),
            r.spec_filter() == Seq::<char>::empty(),
            r.spec_preset_file() == Seq::<char>::empty(),
            r.spec_options() == 0,
            r.spec_filenames() == Seq::<Seq<char>>::empty(),
    {
        let r = FileDialog {
            dtype: op,
            directory: String::new(),
            title: String::new(),
            filter: String::new(),
            preset_file: String::new(),
            options: 0,
            filenames: Vec::new(),
        };
        proof {
            assert(r.spec_filenames() =~= Seq::<Seq<char>>::empty());
        }
        r
    }

    /// Sets the starting directory.  The native conversion rejects a
    /// directory name holding a nul byte; any other name is accepted.
    pub fn set_directory(&mut self, dir: &str) -> (r: Result<(), FltkError>)
        ensures
            contains_nul(dir.spec_bytes()) ==> r == Result::<(), FltkError>::Err(
                FltkError::NullError) && *final(self) == *old(self),
            !contains_nul(dir.spec_bytes()) ==> r == Result::<(), FltkError>::Ok(()) && final(
                self).spec_directory() == dir@ && final(self).spec_type() == old(self).spec_type()
                && final(self).spec_title() == old(self).spec_title() && final(self).spec_filter()
                == old(self).spec_filter() && final(self).spec_preset_file() == old(
                self).spec_preset_file() && final(self).spec_options() == old(self).spec_options()
                && final(self).spec_filenames() == old(self).spec_filenames(),
    {
        if str_contains_nul(dir) {
            Err(FltkError::NullError)
        } else {
            self.directory = dir.to_owned();
            Ok(())
        }
    }

    /// Returns the preset directory
    pub fn directory(&self) -> (r: String)
        ensures
            r@ == self.spec_directory(),
    {
        self.directory.clone()
    }

    /// Sets the type for the dialog
    pub fn set_type(&mut self, op: FileDialogType)
        ensures
            final(self).spec_type() == op,
            final(self).spec_directory() == old(self).spec_directory(),
            final(self).spec_title() == old(self).spec_title(),
            final(self).spec_filter() == old(self).spec_filter(),
            final(self).spec_preset_file() == old(self).spec_preset_file(),
            final(self).spec_options() == old(self).spec_options(),
            final(self).spec_filenames() == old(self).spec_filenames(),
    {
        self.dtype = op;
    }

    /// Sets the option for the dialog
    pub fn set_option(&mut self, opt: FileDialogOptions)
        ensures
            final(self).spec_options() == opt.spec_bits(),
            final(self).spec_type() == old(self).spec_type(),
            final(self).spec_directory() == old(self).spec_directory(),
            final(self).spec_title() == old(self).spec_title(),
            final(self).spec_filter() == old(self).spec_filter(),
            final(self).spec_preset_file() == old(self).spec_preset_file(),
            final(self).spec_filenames() == old(self).spec_filenames(),
    {
        self.options = opt.bits();
    }

    /// Sets the title for the dialog
    pub fn set_title(&mut self, title: &str)
        ensures
            final(self).spec_title() == title@,
            final(self).spec_type() == old(self).spec_type(),
            final(self).spec_directory() == old(self).spec_directory(),
            final(self).spec_filter() == old(self).spec_filter(),
            final(self).spec_preset_file() == old(self).spec_preset_file(),
            final(self).spec_options() == old(self).spec_options(),
            final(self).spec_filenames() == old(self).spec_filenames(),
    {
        self.title = title.to_owned();
    }

    /// Sets the filter for the dialog, can be:
    /// A single wildcard (eg. `"*.txt"`)
    /// Multiple wildcards (eg. `"*.{cxx,h,H}"`)
    /// A descriptive name followed by a `\t` and a wildcard (eg. `"Text Files\t*.txt"`)
    /// A list of separate wildcards with a `\n` between each (eg. `"*.{cxx,H}\n*.txt"`)
    /// A list of descriptive names and wildcards (eg. `"C++ Files\t*.{cxx,H}\nTxt Files\t*.txt"`)
    pub fn set_filter(&mut self, f: &str)
        ensures
            final(self).spec_filter() == f@,
            final(self).spec_type() == old(self).spec_type(),
            final(self).spec_directory() == old(self).spec_directory(),
            final(self).spec_title() == old(self).spec_title(),
            final(self).spec_preset_file() == old(self).spec_preset_file(),
            final(self).spec_options() == old(self).spec_options(),
            final(self).spec_filenames() == old(self).spec_filenames(),
    {
        self.filter = f.to_owned();
    }

    /// Sets the preset filter for the dialog
    pub fn set_preset_file(&mut self, f: &str)
        ensures
            final(self).spec_preset_file() == f@,
            final(self).spec_type() == old(self).spec_type(),
            final(self).spec_directory() == old(self).spec_directory(),
            final(self).spec_title() == old(self).spec_title(),
            final(self).spec_filter() == old(self).spec_filter(),
            final(self).spec_options() == old(self).spec_options(),
            final(self).spec_filenames() == old(self).spec_filenames(),
    {
        self.preset_file = f.to_owned();
    }

    /// A native-side event: the user picked this file in the dialog.
    pub fn native_choose(&mut self, file: &str)
        ensures
            final(self).spec_filenames() == old(self).spec_filenames().push(file@),
            final(self).spec_type() == old(self).spec_type(),
            final(self).spec_directory() == old(self).spec_directory(),
            final(self).spec_title() == old(self).spec_title(),
            final(self).spec_filter() == old(self).spec_filter(),
            final(self).spec_preset_file() == old(self).spec_preset_file(),
            final(self).spec_options() == old(self).spec_options(),
    {
        self.filenames.push(file.to_owned());
        proof {
            assert(self.spec_filenames() =~= old(self).spec_filenames().push(file@));
        }
    }

    /// Returns the chosen file name: the first chosen file, or the empty
    /// string when the user chose nothing.
    pub fn filename(&self) -> (r: String)
        ensures
            self.spec_filenames().len() == 0 ==> r@ == Seq::<char>::empty(),
            self.spec_filenames().len() > 0 ==> r@ == self.spec_filenames()[0],
    {
        if self.filenames.len() == 0 {
            String::new()
        } else {
            self.filenames[0].clone()
        }
    }

    /// Returns the chosen file names
    pub fn filenames(&self) -> (r: Vec<String>)
        ensures
            r@.map(|i: int, d: String| d@) == self.spec_filenames(),
    {
        let r = self.filenames.clone();
        proof {
            assert(r@.map(|i: int, d: String| d@) =~= self.spec_filenames());
        }
        r
    }
}

/// Defines the type of beep to be passed to the beep function
#[derive(Debug, Copy, Clone, PartialEq, Eq, Structural)]
pub enum BeepType {
    /// Default beep
    Default,
    /// Message beep
    Message,
    /// Error beep
    Error,
    /// Question beep
    Question,
    /// Password sound
    Password,
    /// Notification sound
    Notification,
}

impl BeepType {
    /// The integer value the native toolkit uses for this beep type.
    pub open spec fn spec_bits(self) -> i32 {
        match self {
            BeepType::Default => 0,
            BeepType::Message => 1,
            BeepType::Error => 2,
            BeepType::Question => 3,
            BeepType::Password => 4,
            BeepType::Notification => 5,
        }
    }

    /// The integer value the native toolkit uses for this beep type.
    pub fn bits(self) -> (r: i32)
        ensures
            r == self.spec_bits(),
    {
        match self {
            BeepType::Default => 0,
            BeepType::Message => 1,
            BeepType::Error => 2,
            BeepType::Question => 3,
            BeepType::Password => 4,
            BeepType::Notification => 5,
        }
    }
}

/// Creates a help dialog
pub struct HelpDialog {
    x: i32,
    y: i32,
    w: i32,
    h: i32,
    text_size: i32,
    value_text: Option<String>,
    visible: bool,
}

impl HelpDialog {
    /// The dialog's horizontal position.
    pub closed spec fn spec_x(self) -> i32 {
        self.x
    }

    /// The dialog's vertical position.
    pub closed spec fn spec_y(self) -> i32 {
        self.y
    }

    /// The dialog's width.
    pub closed spec fn spec_w(self) -> i32 {
        self.w
    }

    /// The dialog's height.
    pub closed spec fn spec_h(self) -> i32 {
        self.h
    }

    /// The dialog's text size.
    pub closed spec fn spec_text_size(self) -> i32 {
        self.text_size
    }

    /// The document shown by the dialog, if one was loaded or set.
    pub closed spec fn spec_value(self) -> Option<Seq<char>> {
        match self.value_text {
            Option::Some(v) => Option::Some(v@),
            Option::None => Option::None,
        }
    }

    /// Whether the dialog is shown.
    pub closed spec fn spec_visible(self) -> bool {
        self.visible
    }

    /// Creates a default (size and location) help dialog; the model starts
    /// it at the origin with no document and hidden.
    pub fn default() -> (r: HelpDialog)
        ensures
            r.spec_x() == 0,
            r.spec_y() == 0,
            r.spec_w() == 0,
            r.spec_h() == 0,
            r.spec_value() is None,
            r.spec_visible() == false,
    {
        HelpDialog { x: 0, y: 0, w: 0, h: 0, text_size: 0, value_text: None, visible: false }
    }

    /// Creates a new Help dialog with position(x, y) and size(w, h)
    pub fn new(x: i32, y: i32, w: i32, h: i32) -> (r: HelpDialog)
        ensures
            r.spec_x() == x,
            r.spec_y() == y,
            r.spec_w() == w,
            r.spec_h() == h,
            r.spec_value() is None,
            r.spec_visible() == false,
    {
        let mut temp = HelpDialog::default();
        temp.resize(x, y, w, h);
        temp
    }

    /// Hides the help dialog
    pub fn hide_window(&mut self)
        ensures
            final(self).spec_visible() == false,
            final(self).spec_x() == old(self).spec_x(),
            final(self).spec_y() == old(self).spec_y(),
            final(self).spec_w() == old(self).spec_w(),
            final(self).spec_h() == old(self).spec_h(),
            final(self).spec_text_size() == old(self).spec_text_size(),
            final(self).spec_value() == old(self).spec_value(),
    {
        self.visible = false;
    }

    /// Shows the help dialog
    pub fn show(&mut self)
        ensures
            final(self).spec_visible() == true,
            final(self).spec_x() == old(self).spec_x(),
            final(self).spec_y() == old(self).spec_y(),
            final(self).spec_w() == old(self).spec_w(),
            final(self).spec_h() == old(self).spec_h(),
            final(self).spec_text_size() == old(self).spec_text_size(),
            final(self).spec_value() == old(self).spec_value(),
    {
        self.visible = true;
    }

    /// Loads a document for the help dialog: it succeeds exactly for the
    /// documents the native help viewer can find through the toolkit, fails
    /// with a nul error for a path the native string conversion rejects, and
    /// reports every other path as a missing resource.
    pub fn load(&mut self, tk: &Toolkit, file: &str) -> (r: Result<(), FltkError>)
        ensures
            contains_nul(file.spec_bytes()) ==> r == Result::<(), FltkError>::Err(
                FltkError::NullError) && *final(self) == *old(self),
            !contains_nul(file.spec_bytes()) && tk.spec_documents().contains(file@) ==> r
                == Result::<(), FltkError>::Ok(()) && final(self).spec_value()
                == Option::Some(file@) && final(self).spec_x() == old(self).spec_x() && final(
                self).spec_y() == old(self).spec_y() && final(self).spec_w() == old(self).spec_w()
                && final(self).spec_h() == old(self).spec_h() && final(self).spec_text_size()
                == old(self).spec_text_size() && final(self).spec_visible() == old(
                self).spec_visible(),
            !contains_nul(file.spec_bytes()) && !tk.spec_documents().contains(file@) ==> r
                == Result::<(), FltkError>::Err(FltkError::Internal(
                FltkErrorKind::ResourceNotFound)) && *final(self) == *old(self),
    {
        if str_contains_nul(file) {
            Err(FltkError::NullError)
        } else if tk.has_document(file) {
            self.value_text = Some(file.to_owned());
            Ok(())
        } else {
            Err(FltkError::Internal(FltkErrorKind::ResourceNotFound))
        }
    }

    /// Sets the position of the help dialog
    pub fn position(&mut self, x: i32, y: i32)
        ensures
            final(self).spec_x() == x,
            final(self).spec_y() == y,
            final(self).spec_w() == old(self).spec_w(),
            final(self).spec_h() == old(self).spec_h(),
            final(self).spec_text_size() == old(self).spec_text_size(),
            final(self).spec_value() == old(self).spec_value(),
            final(self).spec_visible() == old(self).spec_visible(),
    {
        self.x = x;
        self.y = y;
    }

    /// Resizes the help dialog
    pub fn resize(&mut self, x: i32, y: i32, w: i32, h: i32)
        ensures
            final(self).spec_x() == x,
            final(self).spec_y() == y,
            final(self).spec_w() == w,
            final(self).spec_h() == h,
            final(self).spec_text_size() == old(self).spec_text_size(),
            final(self).spec_value() == old(self).spec_value(),
            final(self).spec_visible() == old(self).spec_visible(),
    {
        self.x = x;
        self.y = y;
        self.w = w;
        self.h = h;
    }

    /// Sets the text size
    pub fn set_text_size(&mut self, s: i32)
        ensures
            final(self).spec_text_size() == s,
            final(self).spec_x() == old(self).spec_x(),
            final(self).spec_y() == old(self).spec_y(),
            final(self).spec_w() == old(self).spec_w(),
            final(self).spec_h() == old(self).spec_h(),
            final(self).spec_value() == old(self).spec_value(),
            final(self).spec_visible() == old(self).spec_visible(),
    {
        self.text_size = s;
    }

    /// Returns the text size
    pub fn text_size(&self) -> (r: i32)
        ensures
            r == self.spec_text_size(),
    {
        self.text_size
    }

    /// Sets the value of the help dialog
    pub fn set_value(&mut self, f: &str)
        ensures
            final(self).spec_value() == Option::Some(f@),
            final(self).spec_x() == old(self).spec_x(),
            final(self).spec_y() == old(self).spec_y(),
            final(self).spec_w() == old(self).spec_w(),
            final(self).spec_h() == old(self).spec_h(),
            final(self).spec_text_size() == old(self).spec_text_size(),
            final(self).spec_visible() == old(self).spec_visible(),
    {
        self.value_text = Some(f.to_owned());
    }

    /// Returns the value of the help dialog
    pub fn value(&self) -> (r: Option<String>)
        ensures
            r is Some <==> self.spec_value() is Some,
            r matches Some(v) ==> self.spec_value() == Option::Some(v@),
    {
        match &self.value_text {
            Some(v) => Some(v.clone()),
            None => None,
        }
    }

    /// Returs whether the help dialog is visible
    pub fn visible(&self) -> (r: bool)
        ensures
            r == self.spec_visible(),
    {
        self.visible
    }

    /// Returns the width of the help dialog
    pub fn width(&self) -> (r: i32)
        ensures
            r == self.spec_w(),
    {
        self.w
    }

    /// Returns the height of the help dialog
    pub fn height(&self) -> (r: i32)
        ensures
            r == self.spec_h(),
    {
        self.h
    }

    /// Returns the x position of the help dialog
    pub fn x(&self) -> (r: i32)
        ensures
            r == self.spec_x(),
    {
        self.x
    }

    /// Returns the y position of the help dialog
    pub fn y(&self) -> (r: i32)
        ensures
            r == self.spec_y(),
    {
        self.y
    }
}

/// The types of the toolkit's own file chooser.
#[derive(Debug, Copy, Clone, PartialEq, Eq, Structural)]
pub enum FileChooserType {
    /// Single file
    Single,
    /// Multiple files
    Multi,
    /// Allow creation of file/dir
    Create,
    /// Directory
    Directory,
}

impl FileChooserType {
    /// The flag bit the native toolkit uses for this chooser type.
    pub open spec fn spec_bits(self) -> i32 {
        match self {
            FileChooserType::Single => 0,
            FileChooserType::Multi => 1,
            FileChooserType::Create => 2,
            FileChooserType::Directory => 4,
        }
    }

    /// The flag bit the native toolkit uses for this chooser type.
    pub fn bits(self) -> (r: i32)
        ensures
            r == self.spec_bits(),
    {
        match self {
            FileChooserType::Single => 0,
            FileChooserType::Multi => 1,
            FileChooserType::Create => 2,
            FileChooserType::Directory => 4,
        }
    }
}

/// The toolkit's own file chooser, which differs from the native
/// [`FileDialog`].
pub struct FileChooser {
    directory: String,
    pattern: String,
    type_bits: i32,
    title: String,
    shown: bool,
    selection: Vec<String>,
}

impl FileChooser {
    /// The chooser's current directory.
    pub closed spec fn spec_directory(self) -> Seq<char> {
        self.directory@
    }

    /// The chooser's file name pattern.
    pub closed spec fn spec_filter(self) -> Seq<char> {
        self.pattern@
    }

    /// The chooser's type bits.
    pub closed spec fn spec_type_bits(self) -> i32 {
        self.type_bits
    }

    /// The chooser's title.
    pub closed spec fn spec_title(self) -> Seq<char> {
        self.title@
    }

    /// Whether the chooser window is shown.
    pub closed spec fn spec_shown(self) -> bool {
        self.shown
    }

    /// The file names the user selected, in order.
    pub closed spec fn spec_selection(self) -> Seq<Seq<char>> {
        self.selection@.map(|i: int, d: String| d@)
    }

    /// Instantiates a new FileChooser.  The native allocation is assumed
    /// infallible, so construction always succeeds.
    pub fn new(dir: &str, pattern: &str, typ: FileChooserType, title: &str) -> (r: FileChooser)
        ensures
            r.spec_directory() == dir@,
            r.spec_filter() == pattern@,
            r.spec_type_bits() == typ.spec_bits(),
            r.spec_title() == title@,
            r.spec_shown() == false,
            r.spec_selection() == Seq::<Seq<char>>::empty(),
    {
        let r = FileChooser {
            directory: dir.to_owned(),
            pattern: pattern.to_owned(),
            type_bits: typ.bits(),
            title: title.to_owned(),
            shown: false,
            selection: Vec::new(),
        };
        proof {
            assert(r.spec_selection() =~= Seq::<Seq<char>>::empty());
        }
        r
    }

    /// Sets the directory of the FileChooser
    pub fn set_directory(&mut self, dir: &str)
        ensures
            final(self).spec_directory() == dir@,
            final(self).spec_filter() == old(self).spec_filter(),
            final(self).spec_type_bits() == old(self).spec_type_bits(),
            final(self).spec_title() == old(self).spec_title(),
            final(self).spec_shown() == old(self).spec_shown(),
            final(self).spec_selection() == old(self).spec_selection(),
    {
        self.directory = dir.to_owned();
    }

    /// Gets the directory of the FileChooser
    pub fn directory(&self) -> (r: Option<String>)
        ensures
            r matches Some(v) && v@ == self.spec_directory(),
    {
        Some(self.directory.clone())
    }

    /// Sets the filter pattern of the FileChooser
    pub fn set_filter(&mut self, pattern: &str)
        ensures
            final(self).spec_filter() == pattern@,
            final(self).spec_directory() == old(self).spec_directory(),
            final(self).spec_type_bits() == old(self).spec_type_bits(),
            final(self).spec_title() == old(self).spec_title(),
            final(self).spec_shown() == old(self).spec_shown(),
            final(self).spec_selection() == old(self).spec_selection(),
    {
        self.pattern = pattern.to_owned();
    }

    /// Gets the filter pattern of the FileChooser
    pub fn filter(&self) -> (r: Option<String>)
        ensures
            r matches Some(v) && v@ == self.spec_filter(),
    {
        Some(self.pattern.clone())
    }

    /// Shows the File Chooser
    pub fn show(&mut self)
        ensures
            final(self).spec_shown() == true,
            final(self).spec_directory() == old(self).spec_directory(),
            final(self).spec_filter() == old(self).spec_filter(),
            final(self).spec_type_bits() == old(self).spec_type_bits(),
            final(self).spec_title() == old(self).spec_title(),
            final(self).spec_selection() == old(self).spec_selection(),
    {
        self.shown = true;
    }

    /// Hides the File chooser
    pub fn hide_window(&mut self)
        ensures
            final(self).spec_shown() == false,
            final(self).spec_directory() == old(self).spec_directory(),
            final(self).spec_filter() == old(self).spec_filter(),
            final(self).spec_type_bits() == old(self).spec_type_bits(),
            final(self).spec_title() == old(self).spec_title(),
            final(self).spec_selection() == old(self).spec_selection(),
    {
        self.shown = false;
    }

    /// Returns whether the file chooser is shown
    pub fn shown(&self) -> (r: bool)
        ensures
            r == self.spec_shown(),
    {
        self.shown
    }

    /// A native-side event: the user selected this file in the chooser.
    pub fn native_select(&mut self, file: &str)
        ensures
            final(self).spec_selection() == old(self).spec_selection().push(file@),
            final(self).spec_directory() == old(self).spec_directory(),
            final(self).spec_filter() == old(self).spec_filter(),
            final(self).spec_type_bits() == old(self).spec_type_bits(),
            final(self).spec_title() == old(self).spec_title(),
            final(self).spec_shown() == old(self).spec_shown(),
    {
        self.selection.push(file.to_owned());
        proof {
            assert(self.spec_selection() =~= old(self).spec_selection().push(file@));
        }
    }

    /// Gets the count of chosen items
    pub fn count(&self) -> (r: usize)
        ensures
            r == self.spec_selection().len(),
    {
        self.selection.len()
    }

    /// Gets the file or dir name chosen by the FileChooser; the selection is
    /// numbered from 1, and asking for entry 0 yields the first.
    pub fn value(&self, f: usize) -> (r: Option<String>)
        ensures
            ({
                let i = if f == 0 {
                    1int
                } else {
                    f as int
                };
                &&& (i > self.spec_selection().len() ==> r is None)
                &&& (i <= self.spec_selection().len() ==> (r matches Some(v) && v@
                    == self.spec_selection()[i - 1]))
            }),
    {
        let i = if f == 0 {
            1
        } else {
            f
        };
        if i > self.selection.len() {
            None
        } else {
            Some(self.selection[i - 1].clone())
        }
    }
}

} // verus!

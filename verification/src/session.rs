use vstd::prelude::*;

verus! {

/// Determines the outcome of closing the "Save" dialog
#[derive(Debug, Clone, Copy, PartialEq, Eq, Structural)]
pub enum DialogPurpose {
    Close,
    Open,
    New,
}

/// What saving does next.
#[derive(Debug, Clone, Copy, PartialEq, Eq, Structural)]
pub enum SaveStep {
    /// Nothing to save
    UpToDate,
    /// The file has no name yet: ask for one, then write
    AskPath,
    /// Write the file
    Write,
}

/// Name of a file that was never saved.
pub open spec fn untitled() -> Seq<char> {
    "untitled.auto"@
}

/// The file being edited and the state of the "save changes?" dialog.
pub struct Session {
    file: String,
    file_uptodate: bool,
    allowed_to_close: bool,
    show_save_dialog: bool,
    dialog_purpose: DialogPurpose,
}

/// Text after the file name in the "save changes?" question.
pub open spec fn dialog_suffix(purpose: DialogPurpose) -> Seq<char> {
    match purpose {
        DialogPurpose::Close => " before exiting"@,
        DialogPurpose::Open => ""@,
        DialogPurpose::New => " before creating a new file"@,
    }
}

/// Says what the "save changes?" question ends with for a purpose.
pub fn dialog_message_suffix(purpose: DialogPurpose) -> (text: String)
    ensures
        text@ == dialog_suffix(purpose),
{
    match purpose {
        DialogPurpose::Close => String::from_str(" before exiting"),
        DialogPurpose::Open => String::from_str(""),
        DialogPurpose::New => String::from_str(" before creating a new file"),
    }
}

/// The window title for a file: its name, a star when there are unsaved
/// changes, then " - Automate".
pub open spec fn title(name: Seq<char>, uptodate: bool) -> Seq<char> {
    name + (if uptodate {
        ""@
    } else {
        "*"@
    }) + " - Automate"@
}

/// Builds the window title from the file's name.
pub fn window_title(name: &str, uptodate: bool) -> (t: String)
    ensures
        t@ == title(name@, uptodate),
{
    let mut t = String::from_str(name);
    if uptodate {
        t.append("");
    } else {
        t.append("*");
    }
    t.append(" - Automate");
    t
}

impl Session {
    pub closed spec fn file(&self) -> Seq<char> {
        self.file@
    }

    pub closed spec fn uptodate(&self) -> bool {
        self.file_uptodate
    }

    pub closed spec fn may_close(&self) -> bool {
        self.allowed_to_close
    }

    pub closed spec fn dialog_shown(&self) -> bool {
        self.show_save_dialog
    }

    pub closed spec fn purpose(&self) -> DialogPurpose {
        self.dialog_purpose
    }

    /// Everything but the dialog state is as in `other`.
    pub open spec fn same_file(&self, other: &Self) -> bool {
        &&& self.file() == other.file()
        &&& self.uptodate() == other.uptodate()
        &&& self.may_close() == other.may_close()
    }

    /// A session on an untitled file without changes.
    pub fn new() -> (s: Self)
        ensures
            s.file() == untitled(),
            s.uptodate(),
            !s.may_close(),
            !s.dialog_shown(),
            s.purpose() == DialogPurpose::Close,
    {
        Session {
            file: String::from_str("untitled.auto"),
            file_uptodate: true,
            allowed_to_close: false,
            show_save_dialog: false,
            dialog_purpose: DialogPurpose::Close,
        }
    }

    /// The file's path.
    pub fn file_name(&self) -> (f: &String)
        ensures
            f@ == self.file(),
    {
        &self.file
    }

    /// Whether everything is saved.
    pub fn is_uptodate(&self) -> (b: bool)
        ensures
            b == self.uptodate(),
    {
        self.file_uptodate
    }

    /// Whether the "save changes?" dialog is shown.
    pub fn show_save_dialog(&self) -> (b: bool)
        ensures
            b == self.dialog_shown(),
    {
        self.show_save_dialog
    }

    /// What the dialog was opened for.
    pub fn dialog_purpose(&self) -> (p: DialogPurpose)
        ensures
            p == self.purpose(),
    {
        self.dialog_purpose
    }

    /// Records whether the edits are saved.
    pub fn set_uptodate(&mut self, uptodate: bool)
        ensures
            final(self).uptodate() == uptodate,
            final(self).file() == old(self).file(),
            final(self).may_close() == old(self).may_close(),
            final(self).dialog_shown() == old(self).dialog_shown(),
            final(self).purpose() == old(self).purpose(),
    {
        self.file_uptodate = uptodate;
    }

    /// Safely creates a new file: without unsaved changes the session moves
    /// to an untitled file and `true` tells the application to empty the
    /// sequencer; otherwise the dialog offers to save first.
    pub fn new_file(&mut self) -> (reset: bool)
        ensures
            reset == old(self).uptodate(),
            reset ==> final(self).file() == untitled() && final(self).uptodate()
                && final(self).may_close() == old(self).may_close() && final(self).dialog_shown()
                == old(self).dialog_shown() && final(self).purpose() == old(self).purpose(),
            !reset ==> final(self).same_file(old(self)) && final(self).dialog_shown() && final(self).purpose() == DialogPurpose::New,
    {
        if self.file_uptodate {
            self.file = String::from_str("untitled.auto");
            self.file_uptodate = true;
            true
        } else {
            self.show_save_dialog = true;
            self.dialog_purpose = DialogPurpose::New;
            false
        }
    }

    /// Safely opens a file: without unsaved changes `true` tells the
    /// application to let the user pick one; otherwise the dialog offers to
    /// save first.
    pub fn open_file(&mut self) -> (pick: bool)
        ensures
            pick == old(self).uptodate(),
            pick ==> *final(self) == *old(self),
            !pick ==> final(self).same_file(old(self)) && final(self).dialog_shown() && final(self).purpose() == DialogPurpose::Open,
    {
        if self.file_uptodate {
            true
        } else {
            self.show_save_dialog = true;
            self.dialog_purpose = DialogPurpose::Open;
            false
        }
    }

    /// What saving does: nothing when everything is saved, ask for a name
    /// for an untitled file, otherwise write.
    pub fn save_step(&self) -> (step: SaveStep)
        ensures
            self.uptodate() ==> step == SaveStep::UpToDate,
            !self.uptodate() && self.file() == untitled() ==> step == SaveStep::AskPath,
            !self.uptodate() && self.file() != untitled() ==> step == SaveStep::Write,
    {
        if self.file_uptodate {
            return SaveStep::UpToDate;
        }
        let untitled_name = String::from_str("untitled.auto");
        if self.file == untitled_name {
            SaveStep::AskPath
        } else {
            SaveStep::Write
        }
    }

    /// Names the file being saved or saved as.
    pub fn set_file(&mut self, path: String)
        ensures
            final(self).file() == path@,
            final(self).uptodate() == old(self).uptodate(),
            final(self).may_close() == old(self).may_close(),
            final(self).dialog_shown() == old(self).dialog_shown(),
            final(self).purpose() == old(self).purpose(),
    {
        self.file = path;
    }

    /// "Save as": the file gets the chosen path and counts as unsaved, so
    /// that saving writes it.
    pub fn save_as(&mut self, path: String)
        ensures
            final(self).file() == path@,
            !final(self).uptodate(),
            final(self).may_close() == old(self).may_close(),
            final(self).dialog_shown() == old(self).dialog_shown(),
            final(self).purpose() == old(self).purpose(),
    {
        self.file = path;
        self.file_uptodate = false;
    }

    /// The file was written: everything is saved.
    pub fn saved(&mut self)
        ensures
            final(self).uptodate(),
            final(self).file() == old(self).file(),
            final(self).may_close() == old(self).may_close(),
            final(self).dialog_shown() == old(self).dialog_shown(),
            final(self).purpose() == old(self).purpose(),
    {
        self.file_uptodate = true;
    }

    /// A file was loaded from `path`: it is the file being edited, saved.
    pub fn loaded(&mut self, path: String)
        ensures
            final(self).file() == path@,
            final(self).uptodate(),
            final(self).may_close() == old(self).may_close(),
            final(self).dialog_shown() == old(self).dialog_shown(),
            final(self).purpose() == old(self).purpose(),
    {
        self.file = path;
        self.file_uptodate = true;
    }

    /// Whether the file named in the session has to be loaded: it is not the
    /// one the sequencer holds, and it has a name.
    pub fn needs_load(&self, loaded_file: &String) -> (b: bool)
        ensures
            b == (self.file() != loaded_file@ && self.file() != untitled()),
    {
        let untitled_name = String::from_str("untitled.auto");
        !(self.file == *loaded_file) && !(self.file == untitled_name)
    }

    /// The window is asked to close: with unsaved changes, unless closing
    /// was allowed, the dialog offers to save and `true` cancels the close.
    pub fn close_requested(&mut self) -> (cancel: bool)
        ensures
            cancel == (!old(self).uptodate() && !old(self).may_close()),
            cancel ==> final(self).same_file(old(self)) && final(self).dialog_shown() && final(self).purpose() == DialogPurpose::Close,
            !cancel ==> *final(self) == *old(self),
    {
        if !self.file_uptodate && !self.allowed_to_close {
            self.show_save_dialog = true;
            self.dialog_purpose = DialogPurpose::Close;
            true
        } else {
            false
        }
    }

    /// "Save" in the dialog, after the application saved: the dialog
    /// closes; closing the window becomes allowed when that was the purpose.
    /// Returns the purpose, which the application carries out (close the
    /// window, `new_file`, or `open_file`).
    pub fn dialog_saved(&mut self) -> (purpose: DialogPurpose)
        ensures
            purpose == old(self).purpose(),
            !final(self).dialog_shown(),
            final(self).purpose() == old(self).purpose(),
            final(self).file() == old(self).file(),
            final(self).uptodate() == old(self).uptodate(),
            final(self).may_close() == (old(self).may_close() || purpose == DialogPurpose::Close),
    {
        self.show_save_dialog = false;
        if self.dialog_purpose == DialogPurpose::Close {
            self.allowed_to_close = true;
        }
        self.dialog_purpose
    }

    /// "Don't Save" in the dialog: the dialog closes; closing becomes
    /// allowed, or the changes are dropped so that a new file or another
    /// file can follow. Returns the purpose, which the application carries
    /// out.
    pub fn dialog_dont_save(&mut self) -> (purpose: DialogPurpose)
        ensures
            purpose == old(self).purpose(),
            !final(self).dialog_shown(),
            final(self).purpose() == old(self).purpose(),
            final(self).file() == old(self).file(),
            purpose == DialogPurpose::Close ==> final(self).may_close() && final(self).uptodate()
                == old(self).uptodate(),
            purpose != DialogPurpose::Close ==> final(self).uptodate() && final(self).may_close()
                == old(self).may_close(),
    {
        self.show_save_dialog = false;
        match self.dialog_purpose {
            DialogPurpose::Close => {
                self.allowed_to_close = true;
            },
            DialogPurpose::New => {
                self.file_uptodate = true;
            },
            DialogPurpose::Open => {
                self.file_uptodate = true;
            },
        }
        self.dialog_purpose
    }

    /// "Cancel" in the dialog: it closes and closing the window is not
    /// allowed.
    pub fn dialog_cancel(&mut self)
        ensures
            !final(self).dialog_shown(),
            !final(self).may_close(),
            final(self).file() == old(self).file(),
            final(self).uptodate() == old(self).uptodate(),
            final(self).purpose() == old(self).purpose(),
    {
        self.show_save_dialog = false;
        self.allowed_to_close = false;
    }
}

} // verus!

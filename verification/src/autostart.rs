//! Add TimeKeeper to autostart
//!
//! The desktop starts the program by itself while a `*.desktop` file of
//! the program lies in the autostart directory. Writing and deleting the
//! file is the host's part; [`Autostart`] keeps book and decides.

use vstd::prelude::*;

verus! {

/// What the autostart file holds.
pub const AUTOSTART_DESKTOP: &'static str = "[Desktop Entry]\n
Type=Application\n
Name=TimeKeeper\n
Exec=time_keeper\n
Icon=TimeKeeper\n
Terminal=false\n
Hidden=true\n
StartupNotify=true";

/// What an [`Autostart`] stands for.
pub struct Registration {
    /// Where the autostart file lies
    pub path: Seq<char>,
    /// Whether the file is taken to be there
    pub is_autostart: bool,
}

/// Where the autostart file lies, and whether it is there.
#[derive(Debug)]
pub struct Autostart {
    autostart_pth: String,
    is_autostart: bool,
}

impl View for Autostart {
    type V = Registration;

    closed spec fn view(&self) -> Registration {
        Registration { path: self.autostart_pth@, is_autostart: self.is_autostart }
    }
}

impl Autostart {
    /// `exists` says whether anything lies at `autostart_pth`.
    pub fn new(autostart_pth: String, exists: bool) -> (autostart: Self)
        ensures
            autostart@ == (Registration { path: autostart_pth@, is_autostart: exists }),
    {
        Self { is_autostart: exists, autostart_pth }
    }

    pub fn is_autostart(&self) -> (is_autostart: bool)
        ensures
            is_autostart == self@.is_autostart,
    {
        self.is_autostart
    }

    /// Where the autostart file lies.
    pub fn path(&self) -> (path: &str)
        ensures
            path@ == self@.path,
    {
        self.autostart_pth.as_str()
    }

    /// To be called when [`AUTOSTART_DESKTOP`] was written to the path.
    /// `is_file` says whether a file lies there now.
    pub fn add_autostart(&mut self, is_file: bool)
        ensures
            final(self)@ == (Registration { is_autostart: is_file, ..old(self)@ }),
    {
        self.is_autostart = is_file;
    }

    /// Decides whether the file at the path is to be deleted. `is_file`
    /// says whether a file lies there. Where autostart is off already, or
    /// no file is there, nothing is to be deleted and autostart is off.
    /// After a deletion [`Autostart::removed`] takes note of the outcome.
    pub fn remove_autostart(&mut self, is_file: bool) -> (delete: bool)
        ensures
            delete == (old(self)@.is_autostart && is_file),
            final(self)@ == (Registration { is_autostart: delete, ..old(self)@ }),
    {
        if !self.is_autostart || !is_file {
            self.is_autostart = false;
            return false;
        }
        true
    }

    /// To be called when the file at the path was deleted. `is_file` says
    /// whether a file lies there still.
    pub fn removed(&mut self, is_file: bool)
        ensures
            final(self)@ == (Registration { is_autostart: is_file, ..old(self)@ }),
    {
        self.is_autostart = is_file;
    }
}

} // verus!

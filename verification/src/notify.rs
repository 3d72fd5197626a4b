//! Which desktop dialog backend a notification is shown with, and the title
//! it carries.

use vstd::prelude::*;

verus! {

/// A dialog backend choice: each variant names the backend's window title,
/// and the sizable backends carry a width and height.
#[derive(Debug, Clone, Copy)]
pub enum DialogBackend<'title> {
    Dialog(&'title str, [u32; 2]),
    KDialog(&'title str),
    Stdio(&'title str),
    Zenity(&'title str, [u32; 2]),
    WinApi(&'title str),
}

impl<'title> DialogBackend<'title> {
    /// The window title the notification is shown under.
    pub fn title(&self) -> (r: &'title str)
        ensures
            self matches DialogBackend::Dialog(t, _) ==> r@ == t@,
            self matches DialogBackend::KDialog(t) ==> r@ == t@,
            self matches DialogBackend::Stdio(t) ==> r@ == t@,
            self matches DialogBackend::Zenity(t, _) ==> r@ == t@,
            self matches DialogBackend::WinApi(t) ==> r@ == t@,
    {
        match self {
            DialogBackend::Dialog(title, _) => title,
            DialogBackend::KDialog(title) => title,
            DialogBackend::Stdio(title) => title,
            DialogBackend::Zenity(title, _) => title,
            DialogBackend::WinApi(title) => title,
        }
    }
}

} // verus!

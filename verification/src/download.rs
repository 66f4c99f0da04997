//! Download interceptor.
//!
//! A single-slot component that tracks the destination of the most recently
//! requested download of the primary surface.  On a download request the
//! proposed file name is redirected into the platform download directory
//! and remembered; on a successful completion the remembered path is handed
//! back so the host can invoke the platform open-file action.  The slot is
//! overwritten by every new request and never cleared.

use vstd::prelude::*;

verus! {

/// The redirected destination for a proposed download: the platform
/// download directory joined with the proposed file name by a path
/// separator.
pub open spec fn spec_redirected(download_dir: Seq<char>, file_name: Seq<char>) -> Seq<char> {
    download_dir + "/"@ + file_name
}

/// A download event of the primary surface, as delivered by the host
/// toolkit.  Events other than a request and a completion are ignored by
/// design.
#[derive(Debug)]
pub enum DownloadEvent {
    /// The toolkit proposes to store a download under `file_name`.
    Requested { file_name: String },
    /// The in-flight download finished, successfully or not.
    Finished { success: bool },
    /// Any other download event.
    Other,
}

/// What the host must do in reaction to a download event.
#[derive(Debug)]
pub enum DownloadAction {
    /// Tell the toolkit to store the download under this path instead of
    /// its proposed destination.
    Redirect(String),
    /// Invoke the platform open-file action on this path.
    Open(String),
    /// Nothing.
    Ignore,
}

/// The single slot holding the destination of the in-flight or most
/// recently completed download.  It starts out empty and is overwritten by
/// every new request.
#[derive(Debug)]
pub struct DownloadSlot {
    pub path: String,
}

impl DownloadSlot {
    /// An empty slot: no download has been requested yet.
    pub fn new() -> (s: DownloadSlot)
        ensures
            s.path@ == Seq::<char>::empty(),
    {
        DownloadSlot { path: String::new() }
    }

    /// A download was requested under the proposed `file_name`: compute the
    /// redirected path inside the platform download directory, overwrite
    /// the slot with it, and return it for the toolkit to use.
    pub fn on_requested(&mut self, download_dir: &str, file_name: &str) -> (redirected: String)
        ensures
            redirected@ == spec_redirected(download_dir@, file_name@),
            final(self).path@ == spec_redirected(download_dir@, file_name@),
    {
        let mut path = String::from_str(download_dir);
        path.append("/");
        path.append(file_name);
        self.path = path.clone();
        path
    }

    /// The in-flight download finished.  On success, return the slot's path
    /// so the host invokes the platform open-file action on it exactly
    /// once; on failure return nothing.  The slot itself is left as it is.
    pub fn on_finished(&self, success: bool) -> (r: Option<String>)
        ensures
            success ==> (r matches Some(p) && p@ == self.path@),
            !success ==> r is None,
    {
        if success {
            Some(self.path.clone())
        } else {
            None
        }
    }

    /// Dispatch one download event: a request redirects and records its
    /// destination, a successful completion yields the recorded path to
    /// open, and every other event is silently ignored.
    pub fn handle_event(&mut self, download_dir: &str, event: &DownloadEvent) -> (a: DownloadAction)
        ensures
            match *event {
                DownloadEvent::Requested { file_name } => (a matches DownloadAction::Redirect(p)
                    && p@ == spec_redirected(download_dir@, file_name@)
                    && final(self).path@ == spec_redirected(download_dir@, file_name@)),
                DownloadEvent::Finished { success } => final(self).path@ == old(self).path@ && (
                if success {
                    a matches DownloadAction::Open(p) && p@ == old(self).path@
                } else {
                    a is Ignore
                }),
                DownloadEvent::Other => final(self).path@ == old(self).path@ && a is Ignore,
            },
    {
        match event {
            DownloadEvent::Requested { file_name } => {
                let redirected = self.on_requested(download_dir, file_name.as_str());
                DownloadAction::Redirect(redirected)
            },
            DownloadEvent::Finished { success } => {
                match self.on_finished(*success) {
                    Some(path) => DownloadAction::Open(path),
                    None => DownloadAction::Ignore,
                }
            },
            DownloadEvent::Other => DownloadAction::Ignore,
        }
    }
}

} // verus!

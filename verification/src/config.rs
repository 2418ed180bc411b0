//! The configuration as the rest of the crate reads it: an ordered camera
//! list, a few behaviour switches, and the alarm source's address.  It is
//! loaded and parsed outside, handed in once, and never re-read.

use vstd::prelude::*;

verus! {

/// One camera as the configuration names it: a display name and the network
/// address that doubles as the camera's identity.
#[derive(Clone)]
pub struct Camera {
    pub name: String,
    pub url: String,
}

/// Behaviour switches read once at startup.
pub struct Config {
    pub capture_path: String,
    pub cursor_visible: bool,
    pub use_tcp_for_rtsp: bool,
}

/// Address and credential of the alarm source polled by the event monitor.
pub struct DoorbellConfig {
    pub bell_ip: String,
    pub mdp: String,
}

/// The whole configuration, owned immutably for the process lifetime.
pub struct RootConfig {
    pub config: Config,
    pub bell: DoorbellConfig,
    pub camera: Vec<Camera>,
}

/// Whether every camera of the list carries a distinct address — the
/// address is the camera's identity, so two alike would make one worker
/// unreachable.
pub open spec fn urls_unique(cams: Seq<Camera>) -> bool {
    forall|i: int, j: int| 0 <= i < j < cams.len() ==> cams[i].url@ != cams[j].url@
}

impl RootConfig {
    /// A configuration the process may start with: at least one camera, so
    /// that an initial selection exists, and no two cameras sharing an
    /// address.  Anything less is fatal at startup.
    pub open spec fn is_valid(&self) -> bool {
        self.camera@.len() > 0 && urls_unique(self.camera@)
    }

    /// The ordered camera addresses; position 0 is the initial selection.
    pub fn get_camera_urls(&self) -> (urls: Vec<String>)
        ensures
            urls@.len() == self.camera@.len(),
            forall|i: int| 0 <= i < urls@.len() ==> urls@[i]@ == self.camera@[i].url@,
    {
        let mut urls: Vec<String> = Vec::new();
        let mut i: usize = 0;
        while i < self.camera.len()
            invariant
                i <= self.camera@.len(),
                urls@.len() == i,
                forall|j: int| 0 <= j < i ==> urls@[j]@ == self.camera@[j].url@,
            decreases self.camera@.len() - i,
        {
            urls.push(self.camera[i].url.clone());
            i = i + 1;
        }
        urls
    }

    /// The ordered camera display names, in the same order as the addresses.
    pub fn get_camera_names(&self) -> (names: Vec<String>)
        ensures
            names@.len() == self.camera@.len(),
            forall|i: int| 0 <= i < names@.len() ==> names@[i]@ == self.camera@[i].name@,
    {
        let mut names: Vec<String> = Vec::new();
        let mut i: usize = 0;
        while i < self.camera.len()
            invariant
                i <= self.camera@.len(),
                names@.len() == i,
                forall|j: int| 0 <= j < i ==> names@[j]@ == self.camera@[j].name@,
            decreases self.camera@.len() - i,
        {
            names.push(self.camera[i].name.clone());
            i = i + 1;
        }
        names
    }

    /// The display name of the first camera with this address, for naming
    /// a snapshot after the camera it shows.
    pub fn camera_name_for_url(&self, url: &String) -> (r: Option<String>)
        ensures
            match r {
                Some(name) => exists|i: int|
                    0 <= i < self.camera@.len() && self.camera@[i].url@ == url@ && name@
                        == self.camera@[i].name@ && (forall|j: int|
                        0 <= j < i ==> self.camera@[j].url@ != url@),
                None => forall|i: int| 0 <= i < self.camera@.len() ==> self.camera@[i].url@ != url@,
            },
    {
        let mut i: usize = 0;
        while i < self.camera.len()
            invariant
                i <= self.camera@.len(),
                forall|j: int| 0 <= j < i ==> self.camera@[j].url@ != url@,
            decreases self.camera@.len() - i,
        {
            if self.camera[i].url == *url {
                return Some(self.camera[i].name.clone());
            }
            i = i + 1;
        }
        None
    }

    /// Whether the process may start with this configuration.
    pub fn check_valid(&self) -> (ok: bool)
        ensures
            ok == self.is_valid(),
    {
        if self.camera.len() == 0 {
            return false;
        }
        let mut i: usize = 0;
        while i < self.camera.len()
            invariant
                i <= self.camera@.len(),
                forall|p: int, q: int|
                    0 <= p < q < self.camera@.len() && p < i ==> self.camera@[p].url@
                        != self.camera@[q].url@,
            decreases self.camera@.len() - i,
        {
            let mut j: usize = i + 1;
            while j < self.camera.len()
                invariant
                    i < j <= self.camera@.len(),
                    forall|q: int|
                        i < q < j ==> self.camera@[i as int].url@ != self.camera@[q].url@,
                decreases self.camera@.len() - j,
            {
                if self.camera[i].url == self.camera[j].url {
                    return false;
                }
                j = j + 1;
            }
            i = i + 1;
        }
        true
    }
}

} // verus!

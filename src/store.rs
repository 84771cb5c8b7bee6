//! The working directory that commands start from.
use vstd::prelude::*;

use crate::text::{decode_lossy, trim, trim_str, utf8_lossy};

verus! {

/// Holds the current working directory of the session. It is empty until
/// it is seeded with the environment's home directory.
pub struct DirectoryStore {
    dir: String,
}

impl View for DirectoryStore {
    type V = Seq<char>;

    closed spec fn view(&self) -> Seq<char> {
        self.dir@
    }
}

impl DirectoryStore {
    pub fn new() -> (r: DirectoryStore)
        ensures
            r@.len() == 0,
    {
        DirectoryStore { dir: String::new() }
    }

    /// The directory now held. Reading does not change it, so reads with
    /// no change in between give the same value.
    pub fn get(&self) -> (r: String)
        ensures
            r@ == self@,
    {
        self.dir.clone()
    }

    /// Replaces the directory held.
    pub fn set(&mut self, path: String)
        ensures
            final(self)@ == path@,
    {
        self.dir = path;
    }

    /// Takes the output of the home-directory query: trimmed, it becomes the
    /// directory held unless it is empty.
    pub fn seed_from_text(&mut self, pwd_output: &str)
        ensures
            trim(pwd_output@).len() > 0 ==> final(self)@ == trim(pwd_output@),
            trim(pwd_output@).len() == 0 ==> final(self)@ == old(self)@,
    {
        let home = trim_str(pwd_output);
        if home.unicode_len() > 0 {
            self.dir = home;
        }
    }

    /// As `seed_from_text`, on the raw bytes that the query printed.
    pub fn seed(&mut self, pwd_stdout: &[u8])
        ensures
            trim(utf8_lossy(pwd_stdout@)).len() > 0 ==> final(self)@ == trim(
                utf8_lossy(pwd_stdout@),
            ),
            trim(utf8_lossy(pwd_stdout@)).len() == 0 ==> final(self)@ == old(self)@,
    {
        let text = decode_lossy(pwd_stdout);
        self.seed_from_text(text.as_str());
    }
}

} // verus!

//! What the native API reports of a compilation or of a linking.

use vstd::prelude::*;

verus! {

/// What the native API reports of a build: the status, which is one where
/// the build succeeded, and the length and the bytes of the text that its
/// compiler or linker left.
///
/// The text matters only where the build failed. Whoever fills the report
/// may leave it empty otherwise, see [`BuildReport::wants_log`].
#[derive(Debug)]
pub struct BuildReport {
    pub status: i32,
    pub log_length: i32,
    pub log: Vec<u8>,
}

/// The text that bytes stand for when they are read as UTF-8 and every ill
/// formed part is replaced by the replacement character.
pub uninterp spec fn lossy_text(bytes: Seq<u8>) -> Seq<char>;

/// `String::from_utf8_lossy`: the bytes as text, with the replacement
/// character in place of what is not UTF-8.
#[verifier::external_body]
fn text_of(bytes: &[u8]) -> (text: String)
    ensures
        text@ == lossy_text(bytes@),
{
    String::from_utf8_lossy(bytes).into_owned()
}

/// The status that the native API reports of a build that succeeded.
pub const BUILT: i32 = 1;

impl BuildReport {
    /// A report of a build that succeeded.
    pub fn success() -> (report: Self)
        ensures
            report.status == BUILT,
            report.log_length == 0,
            report.log@ == Seq::<u8>::empty(),
    {
        Self { status: BUILT, log_length: 0, log: Vec::new() }
    }

    /// Whether a build with this status left a text that has to be fetched:
    /// one that failed did.
    pub fn wants_log(status: i32) -> (wanted: bool)
        ensures
            wanted == (status != BUILT),
    {
        status != BUILT
    }

    /// The number of bytes to fetch for a text of the reported length, or
    /// nothing where the length is no length.
    pub fn log_size(log_length: i32) -> (size: Option<usize>)
        ensures
            log_length >= 0 ==> size == Some(log_length as usize),
            log_length < 0 ==> size is None,
    {
        if log_length >= 0 {
            Some(log_length as usize)
        } else {
            None
        }
    }

    /// The text of the report.
    pub open spec fn reason(&self) -> Seq<char> {
        lossy_text(self.log@)
    }

    /// The text that the compiler or linker left, as far as it is text.
    pub fn read_log(&self) -> (reason: String)
        ensures
            reason@ == self.reason(),
    {
        text_of(self.log.as_slice())
    }
}

} // verus!

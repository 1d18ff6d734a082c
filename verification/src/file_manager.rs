//! The file manager page, which has no state and no settings of its own yet.

use vstd::prelude::*;

verus! {

/// The settings of the file manager page; it has none yet.
pub struct FileManagerPageConfig {}

impl Default for FileManagerPageConfig {
    fn default() -> (r: Self)
        ensures
            r == (FileManagerPageConfig {}),
    {
        FileManagerPageConfig {}
    }
}

/// The file manager page; it holds nothing yet.
pub struct FileManagerPage {}

impl FileManagerPage {
    /// The page, opened with the settings `_config`.
    pub fn new(_config: &FileManagerPageConfig) -> (r: Self)
        ensures
            r == (FileManagerPage {}),
    {
        FileManagerPage {}
    }
}

impl Default for FileManagerPage {
    fn default() -> (r: Self)
        ensures
            r == (FileManagerPage {}),
    {
        FileManagerPage {}
    }
}

} // verus!

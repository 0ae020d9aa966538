//! The description written beside an export: which program wrote it, when,
//! and in which format.

use crate::clock::{format_rfc3339, now_micros, rfc3339_text};
use vstd::prelude::*;

verus! {

/// The format of the files that an export writes.
pub const EXPORT_FORMAT_VERSION: u32 = 2;

/// The contents of `meta.json`.
pub struct SerializableMeta {
    pub app: String,
    pub version: String,
    pub exported_at: String,
    pub format_version: u32,
}

impl SerializableMeta {
    /// The description of an export written now by the given program version.
    pub fn new(app: String, version: String) -> (r: Self)
        ensures
            r.app == app,
            r.version == version,
            exists|t: i64| r.exported_at@ == rfc3339_text(t),
            r.format_version == EXPORT_FORMAT_VERSION,
    {
        let now = now_micros();
        SerializableMeta {
            app,
            version,
            exported_at: format_rfc3339(now),
            format_version: EXPORT_FORMAT_VERSION,
        }
    }

    /// Accepts a description that was read back when its format is the one
    /// this program writes; otherwise gives the format it has.
    pub fn validate(self) -> (r: Result<Self, u32>)
        ensures
            self.format_version == EXPORT_FORMAT_VERSION ==> r == Ok::<Self, u32>(self),
            self.format_version != EXPORT_FORMAT_VERSION ==> r == Err::<Self, u32>(
                self.format_version,
            ),
    {
        if self.format_version != EXPORT_FORMAT_VERSION {
            return Err(self.format_version);
        }
        Ok(self)
    }
}

} // verus!

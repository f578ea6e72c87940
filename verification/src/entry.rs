//! The entry model: raw per-entry filesystem metadata, the normalized
//! `Entry` record, the `EntrySet` collection, and the error taxonomy.

use vstd::prelude::*;

verus! {

/// The classification of one directory member.
#[derive(Clone, Copy, PartialEq, Eq, Structural, Debug)]
pub enum EntryType {
    File,
    Dir,
}

impl EntryType {
    /// The display label for this kind.
    pub fn as_str(&self) -> (r: &'static str)
        ensures
            r@ == kind_label(*self),
    {
        proof {
            reveal_strlit("Dir");
            reveal_strlit("File");
        }
        match self {
            EntryType::Dir => "Dir",
            EntryType::File => "File",
        }
    }
}

/// The label that `EntryType::as_str` returns for each variant.
pub open spec fn kind_label(k: EntryType) -> Seq<char> {
    match k {
        EntryType::Dir => "Dir"@,
        EntryType::File => "File"@,
    }
}

/// Why a listing failed.
#[derive(Clone, Copy, PartialEq, Eq, Structural, Debug)]
pub enum ListError {
    /// The supplied path does not exist or is not a directory.
    DirectoryNotFound,
    /// Insufficient permission to enumerate the directory.
    AccessDenied,
    /// A specific entry's metadata could not be read, or a required
    /// timestamp is absent or lies in the future.
    MetadataUnavailable,
    /// Rendering was invoked with no entries.
    EmptyEntrySet,
}

impl ListError {
    /// A short human-readable label for the error kind.
    pub fn label(&self) -> (r: &'static str)
        ensures
            r@ == error_label(*self),
    {
        proof {
            reveal_strlit("directory not found");
            reveal_strlit("access denied");
            reveal_strlit("metadata unavailable");
            reveal_strlit("empty entry set");
        }
        match self {
            ListError::DirectoryNotFound => "directory not found",
            ListError::AccessDenied => "access denied",
            ListError::MetadataUnavailable => "metadata unavailable",
            ListError::EmptyEntrySet => "empty entry set",
        }
    }
}

/// The label that `ListError::label` returns for each variant.
pub open spec fn error_label(e: ListError) -> Seq<char> {
    match e {
        ListError::DirectoryNotFound => "directory not found"@,
        ListError::AccessDenied => "access denied"@,
        ListError::MetadataUnavailable => "metadata unavailable"@,
        ListError::EmptyEntrySet => "empty entry set"@,
    }
}

/// Raw per-entry metadata as the operating system reports it, before
/// normalization: the name, the byte length, the permission flag, the
/// kind, and the three timestamps as whole seconds since the epoch
/// (`None` when the platform could not supply one).
pub struct RawEntry {
    pub name: String,
    pub len: u64,
    pub readonly: bool,
    pub is_file: bool,
    pub modified: Option<u64>,
    pub accessed: Option<u64>,
    pub created: Option<u64>,
}

/// The mathematical model of a `RawEntry`.
pub struct RawEntryV {
    pub name: Seq<char>,
    pub len: u64,
    pub readonly: bool,
    pub is_file: bool,
    pub modified: Option<u64>,
    pub accessed: Option<u64>,
    pub created: Option<u64>,
}

impl View for RawEntry {
    type V = RawEntryV;

    open spec fn view(&self) -> RawEntryV {
        RawEntryV {
            name: self.name@,
            len: self.len,
            readonly: self.readonly,
            is_file: self.is_file,
            modified: self.modified,
            accessed: self.accessed,
            created: self.created,
        }
    }
}

/// One normalized directory member: the display name, the byte length,
/// the elapsed whole seconds since each timestamp (relative to the
/// collection instant), the kind, and the permission flag.
#[derive(Debug)]
pub struct Entry {
    pub name: String,
    pub len: u64,
    pub modified: u64,
    pub accessed: u64,
    pub created: u64,
    pub kind: EntryType,
    pub readonly: bool,
}

/// The mathematical model of an `Entry`.
pub struct EntryV {
    pub name: Seq<char>,
    pub len: u64,
    pub modified: u64,
    pub accessed: u64,
    pub created: u64,
    pub kind: EntryType,
    pub readonly: bool,
}

impl View for Entry {
    type V = EntryV;

    open spec fn view(&self) -> EntryV {
        EntryV {
            name: self.name@,
            len: self.len,
            modified: self.modified,
            accessed: self.accessed,
            created: self.created,
            kind: self.kind,
            readonly: self.readonly,
        }
    }
}

/// Whether every required timestamp of a raw entry is present and does
/// not lie after the collection instant, so that each elapsed age is a
/// representable non-negative number of seconds.
pub open spec fn raw_ok(raw: RawEntryV, now: u64) -> bool {
    &&& raw.modified is Some && raw.modified.unwrap() <= now
    &&& raw.accessed is Some && raw.accessed.unwrap() <= now
    &&& raw.created is Some && raw.created.unwrap() <= now
}

/// The entry that normalization produces from a raw entry whose
/// timestamps satisfy `raw_ok`: each age is `now` minus the timestamp,
/// in whole seconds.
pub open spec fn normalized(raw: RawEntryV, now: u64) -> EntryV {
    EntryV {
        name: raw.name,
        len: raw.len,
        modified: (now - raw.modified.unwrap()) as u64,
        accessed: (now - raw.accessed.unwrap()) as u64,
        created: (now - raw.created.unwrap()) as u64,
        kind: if raw.is_file {
            EntryType::File
        } else {
            EntryType::Dir
        },
        readonly: raw.readonly,
    }
}

/// The metadata normalizer: converts one raw entry into an `Entry`,
/// computing each age as `now - timestamp` in whole seconds, or fails
/// with `MetadataUnavailable` when a required timestamp is absent or
/// lies after `now`.
pub fn normalize(raw: &RawEntry, now: u64) -> (r: Result<Entry, ListError>)
    ensures
        r is Ok <==> raw_ok(raw@, now),
        r is Ok ==> r.unwrap()@ == normalized(raw@, now),
        r is Err ==> r.unwrap_err() == ListError::MetadataUnavailable,
{
    let modified = match raw.modified {
        Some(t) if t <= now => now - t,
        _ => {
            return Err(ListError::MetadataUnavailable);
        },
    };
    let accessed = match raw.accessed {
        Some(t) if t <= now => now - t,
        _ => {
            return Err(ListError::MetadataUnavailable);
        },
    };
    let created = match raw.created {
        Some(t) if t <= now => now - t,
        _ => {
            return Err(ListError::MetadataUnavailable);
        },
    };
    let kind = if raw.is_file {
        EntryType::File
    } else {
        EntryType::Dir
    };
    Ok(Entry {
        name: raw.name.clone(),
        len: raw.len,
        modified,
        accessed,
        created,
        kind,
        readonly: raw.readonly,
    })
}

} // verus!

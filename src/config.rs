use vstd::prelude::*;

use crate::error::IoError;
use crate::tomlx::{get_table, string_at, CheckError, TomlTable, TomlValue};

verus! {

/// An entry of the configuration file's `files` table.
#[derive(Debug, Clone)]
pub struct FileItem {
    /// Where to link the `source` to.
    pub path: String,
    /// Which file to link to `path`.
    pub source: String,
}

#[derive(Debug, Clone)]
pub enum FromTableError {
    InvalidField(String, String, CheckError),
}

#[derive(Debug, Clone)]
pub enum ReadTomlError {
    Io(IoError),
    ParseUTF8,
    ParseToml,
}

/// The runtime data: the configured files.
#[derive(Debug, Clone)]
pub struct Cardinal {
    pub files: Vec<FileItem>,
}

#[derive(Debug, Clone)]
pub enum CardinalError {
    Read(ReadTomlError),
    InvalidField(String, CheckError),
    InvalidFileType(String),
    InvalidFileSchema(FromTableError),
}

/// The source that the `files` entry `e` names, if it is a table with a
/// string `source`.
pub open spec fn file_source(e: (String, TomlValue)) -> Option<Seq<char>> {
    match e.1 {
        TomlValue::Table(inner) => match string_at(inner@, "source"@) {
            Ok(s) => Some(s),
            Err(_) => None,
        },
        _ => None,
    }
}

/// Whether `err` is the error that the `files` entry `e` gives.
pub open spec fn file_error(e: (String, TomlValue), err: CardinalError) -> bool {
    match e.1 {
        TomlValue::Table(inner) => match string_at(inner@, "source"@) {
            Ok(_) => false,
            Err(c) => err is InvalidFileSchema && err->InvalidFileSchema_0->InvalidField_0@ == e.0@
                && err->InvalidFileSchema_0->InvalidField_1@ == "source"@
                && err->InvalidFileSchema_0->InvalidField_2 == c,
        },
        _ => err is InvalidFileType && err->InvalidFileType_0@ == e.0@,
    }
}

/// What loading the configuration `config` gives: one item per entry of its
/// `files` table, in order, or the error of the first entry that is not a
/// table with a string `source`.
pub open spec fn loaded(config: Seq<(String, TomlValue)>, r: Result<Cardinal, CardinalError>) -> bool {
    match lookup_files(config) {
        Ok(files) => match r {
            Ok(c) => (forall|i: int| 0 <= i < files.len() ==> (#[trigger] file_source(files[i])) is Some)
                && c.files@.len() == files.len() && forall|i: int|
                0 <= i < files.len() ==> {
                    &&& (#[trigger] c.files@[i]).path@ == files[i].0@
                    &&& file_source(files[i]) == Some(c.files@[i].source@)
                },
            Err(err) => exists|i: int|
                0 <= i < files.len() && (forall|j: int| 0 <= j < i ==> (#[trigger] file_source(files[j])) is Some)
                    && file_error(#[trigger] files[i], err),
        },
        Err(c) => r is Err && r->Err_0 is InvalidField && r->Err_0->InvalidField_0@ == "files"@
            && r->Err_0->InvalidField_1 == c,
    }
}

/// The entries of the `files` table of `config`, or why there is none.
pub open spec fn lookup_files(config: Seq<(String, TomlValue)>) -> Result<Seq<(String, TomlValue)>, CheckError> {
    match crate::tomlx::lookup(config, "files"@) {
        None => Err(CheckError::Missing),
        Some(TomlValue::Table(files)) => Ok(files@),
        Some(_) => Err(CheckError::Mismatch),
    }
}

proof fn first_failure(
    config: Seq<(String, TomlValue)>,
    files: Seq<(String, TomlValue)>,
    i: int,
    err: CardinalError,
)
    requires
        lookup_files(config) == Ok::<Seq<(String, TomlValue)>, CheckError>(files),
        0 <= i < files.len(),
        forall|j: int| 0 <= j < i ==> (#[trigger] file_source(files[j])) is Some,
        file_error(files[i], err),
    ensures
        loaded(config, Err(err)),
{
}

impl FileItem {
    pub fn new(path: String, source: String) -> (r: FileItem)
        ensures
            r.path@ == path@,
            r.source@ == source@,
    {
        FileItem { path, source }
    }

    /// The item under the key `k`, whose table is `v`.
    pub fn from_table(k: &str, v: &TomlTable) -> (r: Result<FileItem, FromTableError>)
        ensures
            match string_at(v@, "source"@) {
                Ok(s) => r is Ok && r->Ok_0.path@ == k@ && r->Ok_0.source@ == s,
                Err(e) => r is Err && r->Err_0->InvalidField_0@ == k@
                    && r->Err_0->InvalidField_1@ == "source"@ && r->Err_0->InvalidField_2 == e,
            },
    {
        match crate::tomlx::get_string(v, "source") {
            Ok(s) => Ok(FileItem::new(k.to_owned(), s)),
            Err(e) => Err(FromTableError::InvalidField(k.to_owned(), "source".to_owned(), e)),
        }
    }
}

impl Cardinal {
    /// The configured files, from the parsed configuration table.
    pub fn new(config: TomlTable) -> (r: Result<Cardinal, CardinalError>)
        ensures
            loaded(config@, r),
    {
        let ghost config_view = config@;
        let files_table = match get_table(config, "files") {
            Ok(t) => t,
            Err(e) => return Err(CardinalError::InvalidField("files".to_owned(), e)),
        };
        assert(lookup_files(config_view) == Ok::<Seq<(String, TomlValue)>, CheckError>(
            files_table@,
        ));
        let mut files: Vec<FileItem> = Vec::new();
        let mut i: usize = 0;
        while i < files_table.len()
            invariant
                i <= files_table@.len(),
                files@.len() == i,
                config_view == config@,
                lookup_files(config_view) == Ok::<Seq<(String, TomlValue)>, CheckError>(
                    files_table@,
                ),
                forall|j: int| 0 <= j < i ==> (#[trigger] file_source(files_table@[j])) is Some,
                forall|j: int|
                    0 <= j < i ==> {
                        &&& (#[trigger] files@[j]).path@ == files_table@[j].0@
                        &&& file_source(files_table@[j]) == Some(files@[j].source@)
                    },
            decreases files_table@.len() - i,
        {
            let (key, value) = &files_table[i];
            match value {
                TomlValue::Table(inner) => match FileItem::from_table(key.as_str(), inner) {
                    Ok(item) => {
                        files.push(item);
                    },
                    Err(e) => {
                        let err = CardinalError::InvalidFileSchema(e);
                        assert(file_error(files_table@[i as int], err));
                        proof {
                            first_failure(config_view, files_table@, i as int, err);
                        }
                        return Err(err);
                    },
                },
                _ => {
                    let err = CardinalError::InvalidFileType(key.clone());
                    assert(file_error(files_table@[i as int], err));
                    proof {
                        first_failure(config_view, files_table@, i as int, err);
                    }
                    return Err(err);
                },
            }
            i += 1;
        }
        Ok(Cardinal { files })
    }
}

} // verus!

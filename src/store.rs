use vstd::prelude::*;

use crate::error::{IoError, IoKind};
use crate::hash::{is_digest, is_lower_hex, HashPathError};
use crate::paths::{after_last_separator, file_name, file_name_spec, join, join_spec, trim_end_separators};
use crate::xdg;

verus! {

/// A directory of immutable copies, each named after its content's digest.
#[derive(Debug, Clone)]
pub struct Store {
    /// The filesystem path of the store directory.
    pub path: String,
}

#[derive(Debug, Clone)]
pub enum CreateError {
    Io(IoError),
}

#[derive(Debug, Clone)]
pub enum ListError {
    Io(IoError),
}

#[derive(Debug, Clone)]
pub enum AddError {
    NotFound,
    Copy(IoError),
    Conflict,
    Hashing(HashPathError),
    InvalidSourceName,
}

#[derive(Debug, Clone)]
pub enum DeleteError {
    Io(String, IoError),
    InvalidName(String),
}

/// The name of a store entry: the digest, a dash, and the source's name.
pub open spec fn store_name_spec(digest: Seq<char>, base: Seq<char>) -> Seq<char> {
    digest + seq!['-'] + base
}

/// Where a copy of `source`, whose digest is `digest`, is placed in the
/// store at `store`; none where `source` has no final component.
pub open spec fn store_path_spec(store: Seq<char>, source: Seq<char>, digest: Seq<char>) -> Option<
    Seq<char>,
> {
    match file_name_spec(source) {
        Some(base) => Some(join_spec(store, store_name_spec(digest, base))),
        None => None,
    }
}

/// What creating the store comes to, given what making its directory did:
/// a directory that already exists is no failure.
pub open spec fn create_outcome(made: Result<(), IoError>) -> Result<(), CreateError> {
    match made {
        Ok(()) => Ok(()),
        Err(e) => if e.kind == IoKind::AlreadyExists {
            Ok(())
        } else {
            Err(CreateError::Io(e))
        },
    }
}

/// The paths listed for the directory entries `names`, in order; entries
/// that could not be read (`None`) are skipped.
pub open spec fn listed(dir: Seq<char>, names: Seq<Option<String>>) -> Seq<Seq<char>>
    decreases names.len(),
{
    if names.len() == 0 {
        Seq::empty()
    } else {
        let rest = listed(dir, names.drop_last());
        match names.last() {
            Some(n) => rest.push(join_spec(dir, n@)),
            None => rest,
        }
    }
}

/// A name that denotes an entry directly inside the store: not empty, not
/// `.` or `..`, and without a separator.
pub open spec fn valid_entry_name(n: Seq<char>) -> bool {
    n.len() > 0 && n != seq!['.'] && n != seq!['.', '.'] && forall|i: int|
        0 <= i < n.len() ==> #[trigger] n[i] != '/'
}

impl Store {
    pub fn new(path: String) -> (r: Store)
        ensures
            r.path@ == path@,
    {
        Store { path }
    }

    /// The store at its usual place inside the data directory `data_dir`.
    pub fn in_data_dir(data_dir: &str) -> (r: Store)
        ensures
            r.path@ == join_spec(data_dir@, "store"@),
    {
        Store { path: xdg::store(data_dir) }
    }

    /// Decides the result of creating the store from what making its
    /// directory did.
    pub fn finish_create(made: Result<(), IoError>) -> (r: Result<(), CreateError>)
        ensures
            r == create_outcome(made),
    {
        match made {
            Ok(()) => Ok(()),
            Err(e) => if e.kind == IoKind::AlreadyExists {
                Ok(())
            } else {
                Err(CreateError::Io(e))
            },
        }
    }

    /// The store's listing, from the result of reading its directory: the
    /// name of each entry, or `None` for one that could not be read.
    pub fn finish_list(&self, read: Result<Vec<Option<String>>, IoError>) -> (r: Result<
        Vec<String>,
        ListError,
    >)
        ensures
            match read {
                Ok(names) => r is Ok && r->Ok_0@.map_values(|p: String| p@) == listed(
                    self.path@,
                    names@,
                ),
                Err(e) => r == Err::<Vec<String>, ListError>(ListError::Io(e)),
            },
    {
        match read {
            Ok(names) => {
                let mut out: Vec<String> = Vec::new();
                let mut i: usize = 0;
                while i < names.len()
                    invariant
                        i <= names@.len(),
                        out@.map_values(|p: String| p@) == listed(
                            self.path@,
                            names@.subrange(0, i as int),
                        ),
                    decreases names@.len() - i,
                {
                    let ghost before = names@.subrange(0, i as int);
                    let ghost prev = out@;
                    assert(names@.subrange(0, i + 1).drop_last() =~= before);
                    match &names[i] {
                        Some(n) => {
                            let p = join(self.path.as_str(), n.as_str());
                            out.push(p);
                            assert(out@.map_values(|p: String| p@) =~= prev.map_values(
                                |p: String| p@,
                            ).push(p@));
                        },
                        None => {},
                    }
                    i += 1;
                }
                assert(names@.subrange(0, i as int) =~= names@);
                Ok(out)
            },
            Err(e) => Err(ListError::Io(e)),
        }
    }

    /// The path in the store for a copy of `source` whose digest is `digest`.
    pub fn make_store_path_for(&self, source: &str, digest: &str) -> (r: Result<String, AddError>)
        ensures
            match r {
                Ok(p) => store_path_spec(self.path@, source@, digest@) == Some(p@),
                Err(e) => store_path_spec(self.path@, source@, digest@) is None
                    && e is InvalidSourceName,
            },
    {
        match file_name(source) {
            Some(base) => {
                let mut name = digest.to_owned();
                name.append("-");
                name.append(base.as_str());
                proof {
                    reveal_strlit("-");
                    assert(name@ =~= store_name_spec(digest@, base@));
                }
                Ok(join(self.path.as_str(), name.as_str()))
            },
            None => Err(AddError::InvalidSourceName),
        }
    }

    /// The first step of adding `source` to the store: given whether it
    /// exists and what hashing it gave, the path its copy is to take.
    pub fn plan_add(&self, source: &str, source_exists: bool, hashed: Result<String, HashPathError>) -> (r:
        Result<String, AddError>)
        ensures
            !source_exists ==> r is Err && r->Err_0 is NotFound,
            source_exists && hashed is Err ==> r == Err::<String, AddError>(
                AddError::Hashing(hashed->Err_0),
            ),
            source_exists && hashed is Ok ==> match store_path_spec(
                self.path@,
                source@,
                hashed->Ok_0@,
            ) {
                Some(p) => r is Ok && r->Ok_0@ == p,
                None => r is Err && r->Err_0 is InvalidSourceName,
            },
    {
        if !source_exists {
            return Err(AddError::NotFound);
        }
        match hashed {
            Ok(digest) => self.make_store_path_for(source, digest.as_str()),
            Err(e) => Err(AddError::Hashing(e)),
        }
    }

    /// The second step of adding: a destination that is already taken is a
    /// conflict, and nothing is to be copied there.
    pub fn check_vacant(dest: String, dest_exists: bool) -> (r: Result<String, AddError>)
        ensures
            dest_exists ==> r is Err && r->Err_0 is Conflict,
            !dest_exists ==> r is Ok && r->Ok_0@ == dest@,
    {
        if dest_exists {
            Err(AddError::Conflict)
        } else {
            Ok(dest)
        }
    }

    /// The last step of adding: the destination, once the copy is made.
    pub fn finish_copy(dest: String, copied: Result<(), IoError>) -> (r: Result<String, AddError>)
        ensures
            match copied {
                Ok(()) => r is Ok && r->Ok_0@ == dest@,
                Err(e) => r == Err::<String, AddError>(AddError::Copy(e)),
            },
    {
        match copied {
            Ok(()) => Ok(dest),
            Err(e) => Err(AddError::Copy(e)),
        }
    }

    /// The path of the entry `name`, which must lie directly in the store.
    pub fn delete_path(&self, name: &str) -> (r: Result<String, DeleteError>)
        ensures
            valid_entry_name(name@) ==> r is Ok && r->Ok_0@ == join_spec(self.path@, name@),
            !valid_entry_name(name@) ==> r is Err && r->Err_0 is InvalidName
                && r->Err_0->InvalidName_0@ == name@,
    {
        let n = name.unicode_len();
        let mut i: usize = 0;
        while i < n
            invariant
                n == name@.len(),
                i <= n,
                forall|j: int| 0 <= j < i ==> #[trigger] name@[j] != '/',
            decreases n - i,
        {
            if name.get_char(i) == '/' {
                return Err(DeleteError::InvalidName(name.to_owned()));
            }
            i += 1;
        }
        let dots = n == 1 && name.get_char(0) == '.' || n == 2 && name.get_char(0) == '.'
            && name.get_char(1) == '.';
        assert(dots ==> name@ =~= seq!['.'] || name@ =~= seq!['.', '.']);
        assert(name@ == seq!['.'] ==> name@.len() == 1 && name@[0] == '.');
        assert(name@ == seq!['.', '.'] ==> name@.len() == 2 && name@[0] == '.' && name@[1] == '.');
        if n == 0 || dots {
            return Err(DeleteError::InvalidName(name.to_owned()));
        }
        Ok(join(self.path.as_str(), name))
    }

    /// The result of deleting the entry at `path`, from what removing it did.
    pub fn finish_delete(path: String, removed: Result<(), IoError>) -> (r: Result<(), DeleteError>)
        ensures
            match removed {
                Ok(()) => r is Ok,
                Err(e) => r is Err && r->Err_0 is Io && r->Err_0->Io_0@ == path@
                    && r->Err_0->Io_1 == e,
            },
    {
        match removed {
            Ok(()) => Ok(()),
            Err(e) => Err(DeleteError::Io(path, e)),
        }
    }
}

/// Creating the store twice in a row succeeds both times: the first call
/// makes the directory, the second finds it already there.
pub proof fn create_is_idempotent(second: IoError)
    requires
        second.kind == IoKind::AlreadyExists,
    ensures
        create_outcome(Ok(())) is Ok,
        create_outcome(Err(second)) is Ok,
{
}

proof fn after_last_separator_has_none(s: Seq<char>)
    ensures
        forall|i: int|
            0 <= i < after_last_separator(s).len() ==> #[trigger] after_last_separator(s)[i] != '/',
    decreases s.len(),
{
    if s.len() > 0 && s.last() != '/' {
        after_last_separator_has_none(s.drop_last());
        let prev = after_last_separator(s.drop_last());
        assert forall|i: int|
            0 <= i < after_last_separator(s).len() implies #[trigger] after_last_separator(s)[i]
            != '/' by {
            if i < prev.len() {
                assert(after_last_separator(s)[i] == prev[i]);
            }
        }
    }
}

/// What `add` stores can be deleted by name: the copy of a source with a
/// final component lands at the entry named by the digest, a dash and that
/// component; the name starts with the digest, is a valid entry name, and
/// `delete` of it reaches exactly the path that `add` copied to.
pub proof fn added_entry_is_deletable(store: Seq<char>, source: Seq<char>, digest: Seq<char>)
    requires
        file_name_spec(source) is Some,
        is_digest(digest),
    ensures
        ({
            let name = store_name_spec(digest, file_name_spec(source)->Some_0);
            &&& name.subrange(0, digest.len() as int) == digest
            &&& valid_entry_name(name)
            &&& store_path_spec(store, source, digest) == Some(join_spec(store, name))
        }),
{
    let base = file_name_spec(source)->Some_0;
    let name = store_name_spec(digest, base);
    after_last_separator_has_none(trim_end_separators(source));
    assert(name.subrange(0, digest.len() as int) =~= digest);
    assert forall|i: int| 0 <= i < name.len() implies #[trigger] name[i] != '/' by {
        if i < digest.len() {
            assert(name[i] == digest[i]);
            assert(is_lower_hex(digest[i]));
        } else if i > digest.len() {
            assert(name[i] == base[i - digest.len() - 1]);
        }
    }
    assert(name.len() > 2);
}

} // verus!

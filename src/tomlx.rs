use vstd::prelude::*;

verus! {

/// A value of a TOML document, as the library reads it.
#[derive(Debug)]
pub enum TomlValue {
    String(String),
    Integer(i64),
    /// A floating-point value; the library never reads its number.
    Float,
    Boolean(bool),
    Datetime(String),
    Array(Vec<TomlValue>),
    Table(Vec<(String, TomlValue)>),
}

/// A TOML table: its keys with their values, in document order.
pub type TomlTable = Vec<(String, TomlValue)>;

/// Why a typed lookup in a table failed.
#[derive(Debug, Clone, Copy, PartialEq, Eq, Structural)]
pub enum CheckError {
    Missing,
    Mismatch,
}

/// The value under `key`: that of the first entry with this key.
pub open spec fn lookup(t: Seq<(String, TomlValue)>, key: Seq<char>) -> Option<TomlValue>
    decreases t.len(),
{
    if t.len() == 0 {
        None
    } else if t[0].0@ == key {
        Some(t[0].1)
    } else {
        lookup(t.drop_first(), key)
    }
}

/// What a string lookup of `key` gives: the string, or why there is none.
pub open spec fn string_at(t: Seq<(String, TomlValue)>, key: Seq<char>) -> Result<Seq<char>, CheckError> {
    match lookup(t, key) {
        None => Err(CheckError::Missing),
        Some(TomlValue::String(s)) => Ok(s@),
        Some(_) => Err(CheckError::Mismatch),
    }
}

fn str_eq(a: &str, b: &str) -> (r: bool)
    ensures
        r == (a@ == b@),
{
    let n = a.unicode_len();
    if n != b.unicode_len() {
        return false;
    }
    let mut i: usize = 0;
    while i < n
        invariant
            n == a@.len() == b@.len(),
            i <= n,
            forall|j: int| 0 <= j < i ==> a@[j] == b@[j],
        decreases n - i,
    {
        if a.get_char(i) != b.get_char(i) {
            return false;
        }
        i += 1;
    }
    assert(a@ =~= b@);
    true
}

/// The index of the entry that `lookup` finds, if any.
fn find(t: &TomlTable, key: &str) -> (r: Option<usize>)
    ensures
        match r {
            Some(i) => i < t@.len() && lookup(t@, key@) == Some(t@[i as int].1),
            None => lookup(t@, key@) is None,
        },
{
    let mut i: usize = 0;
    assert(t@.subrange(0, t@.len() as int) =~= t@);
    while i < t.len()
        invariant
            i <= t@.len(),
            lookup(t@, key@) == lookup(t@.subrange(i as int, t@.len() as int), key@),
        decreases t@.len() - i,
    {
        let ghost rest = t@.subrange(i as int, t@.len() as int);
        assert(rest.drop_first() =~= t@.subrange(i + 1, t@.len() as int));
        assert(rest[0] == t@[i as int]);
        if str_eq(t[i].0.as_str(), key) {
            return Some(i);
        }
        i += 1;
    }
    None
}

/// Gets the string under `key`.
pub fn get_string(t: &TomlTable, key: &str) -> (r: Result<String, CheckError>)
    ensures
        match string_at(t@, key@) {
            Ok(s) => r is Ok && r->Ok_0@ == s,
            Err(e) => r == Err::<String, CheckError>(e),
        },
{
    match find(t, key) {
        None => Err(CheckError::Missing),
        Some(i) => match &t[i].1 {
            TomlValue::String(s) => Ok(s.clone()),
            _ => Err(CheckError::Mismatch),
        },
    }
}

/// Gets the integer under `key`.
pub fn get_integer(t: &TomlTable, key: &str) -> (r: Result<i64, CheckError>)
    ensures
        match lookup(t@, key@) {
            None => r == Err::<i64, CheckError>(CheckError::Missing),
            Some(TomlValue::Integer(n)) => r == Ok::<i64, CheckError>(n),
            Some(_) => r == Err::<i64, CheckError>(CheckError::Mismatch),
        },
{
    match find(t, key) {
        None => Err(CheckError::Missing),
        Some(i) => match &t[i].1 {
            TomlValue::Integer(n) => Ok(*n),
            _ => Err(CheckError::Mismatch),
        },
    }
}

/// Takes the table under `key` out of `t`.
pub fn get_table(t: TomlTable, key: &str) -> (r: Result<TomlTable, CheckError>)
    ensures
        match lookup(t@, key@) {
            None => r == Err::<TomlTable, CheckError>(CheckError::Missing),
            Some(TomlValue::Table(inner)) => r is Ok && r->Ok_0@ == inner@,
            Some(_) => r == Err::<TomlTable, CheckError>(CheckError::Mismatch),
        },
{
    let mut t = t;
    match find(&t, key) {
        None => Err(CheckError::Missing),
        Some(i) => {
            let (_, value) = t.remove(i);
            match value {
                TomlValue::Table(inner) => Ok(inner),
                _ => Err(CheckError::Mismatch),
            }
        },
    }
}

impl TomlValue {
    /// The integer this value holds, if it is one.
    pub fn as_integer(&self) -> (r: Option<i64>)
        ensures
            match self {
                TomlValue::Integer(n) => r == Some(*n),
                _ => r is None,
            },
    {
        match self {
            TomlValue::Integer(n) => Some(*n),
            _ => None,
        }
    }
}

} // verus!

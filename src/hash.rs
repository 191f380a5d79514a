use vstd::prelude::*;
use vstd::utf8::encode_utf8;

use crate::error::IoError;

verus! {

/// The SHA-1 digest of `data`, written as lowercase hexadecimal.
pub uninterp spec fn sha1_hex(data: Seq<u8>) -> Seq<char>;

pub open spec fn is_lower_hex(c: char) -> bool {
    ('0' <= c && c <= '9') || ('a' <= c && c <= 'f')
}

/// A digest in its textual form: 40 lowercase hexadecimal digits.
pub open spec fn is_digest(s: Seq<char>) -> bool {
    s.len() == 40 && forall|i: int| 0 <= i < s.len() ==> #[trigger] is_lower_hex(s[i])
}

/// Relies on `sha1_smol::Sha1::from`, which hashes the bytes, and on the
/// `Display` of `sha1_smol::Digest`, which writes its five state words with
/// `{:08x}`: forty lowercase hexadecimal digits.
#[verifier::external_body]
fn sha1_hex_of(data: &[u8]) -> (r: String)
    ensures
        r@ == sha1_hex(data@),
        is_digest(r@),
{
    sha1_smol::Sha1::from(data).digest().to_string()
}

/// What a directory child contributes to its parent's digest, as read from
/// the filesystem: a regular file's bytes, the digest already computed for a
/// subdirectory, or an entry of any other type (a symbolic link, a device).
#[derive(Debug, Clone)]
pub enum Child {
    File(Vec<u8>),
    Dir(String),
    Unsupported,
}

#[derive(Debug, Clone)]
pub enum HashPathError {
    Io(IoError),
    Symlink,
}

/// The digest of a file whose content is `contents`.
pub open spec fn file_digest(contents: Seq<u8>) -> Seq<char> {
    sha1_hex(contents)
}

/// The hexadecimal digest that `c` contributes to its directory.
pub open spec fn child_digest(c: Child) -> Seq<char> {
    match c {
        Child::File(bytes) => file_digest(bytes@),
        Child::Dir(d) => d@,
        Child::Unsupported => Seq::empty(),
    }
}

/// The children's digests, joined in the order given.
pub open spec fn joined_digests(cs: Seq<Child>) -> Seq<char>
    decreases cs.len(),
{
    if cs.len() == 0 {
        Seq::empty()
    } else {
        joined_digests(cs.drop_last()) + child_digest(cs.last())
    }
}

pub open spec fn all_supported(cs: Seq<Child>) -> bool {
    forall|i: int| 0 <= i < cs.len() ==> !(#[trigger] cs[i] is Unsupported)
}

/// The digest of a directory whose children, in enumeration order, are `cs`.
pub open spec fn dir_digest(cs: Seq<Child>) -> Seq<char> {
    sha1_hex(encode_utf8(joined_digests(cs)))
}

/// Computes the digest of a file from its raw content.
pub fn hash_file(contents: &[u8]) -> (r: String)
    ensures
        r@ == file_digest(contents@),
        is_digest(r@),
{
    sha1_hex_of(contents)
}

/// Computes the digest of a directory from its children, taken in the order
/// the directory enumeration yielded them: the digest of the concatenated
/// hexadecimal digests of the children. Any child that is neither a file nor
/// a directory makes the whole operation fail.
pub fn hash_dir(children: &Vec<Child>) -> (r: Result<String, HashPathError>)
    ensures
        match r {
            Ok(d) => all_supported(children@) && d@ == dir_digest(children@) && is_digest(d@),
            Err(e) => !all_supported(children@) && e is Symlink,
        },
{
    let mut joined = String::new();
    let mut i: usize = 0;
    while i < children.len()
        invariant
            i <= children@.len(),
            all_supported(children@.subrange(0, i as int)),
            joined@ == joined_digests(children@.subrange(0, i as int)),
        decreases children@.len() - i,
    {
        let ghost before = children@.subrange(0, i as int);
        match &children[i] {
            Child::File(bytes) => {
                let d = hash_file(bytes.as_slice());
                joined.append(d.as_str());
            },
            Child::Dir(d) => {
                joined.append(d.as_str());
            },
            Child::Unsupported => {
                assert(!all_supported(children@)) by {
                    assert(children@[i as int] is Unsupported);
                }
                return Err(HashPathError::Symlink);
            },
        }
        proof {
            let after = children@.subrange(0, i + 1);
            assert(after.drop_last() =~= before);
            assert(after.last() == children@[i as int]);
            assert forall|j: int| 0 <= j < after.len() implies !(#[trigger] after[j] is Unsupported) by {
                if j < i {
                    assert(after[j] == before[j]);
                }
            }
        }
        i += 1;
    }
    assert(children@.subrange(0, i as int) =~= children@);
    let r = sha1_hex_of(joined.as_str().as_bytes());
    Ok(r)
}

/// Hashing the same content twice gives the same digest.
pub proof fn file_digest_is_deterministic(a: Seq<u8>, b: Seq<u8>)
    requires
        a == b,
    ensures
        file_digest(a) == file_digest(b),
        is_digest(file_digest(a)) ==> is_digest(file_digest(b)),
{
}

/// A directory of two files hashes to the digest of the two files' digests,
/// concatenated in enumeration order.
pub proof fn dir_of_two_files(cs: Seq<Child>)
    requires
        cs.len() == 2,
        cs[0] is File,
        cs[1] is File,
    ensures
        dir_digest(cs) == sha1_hex(
            encode_utf8(file_digest(cs[0]->File_0@) + file_digest(cs[1]->File_0@)),
        ),
{
    let first = cs.drop_last();
    assert(first.drop_last().len() == 0);
    assert(joined_digests(first.drop_last()) == Seq::<char>::empty());
    assert(first.last() == cs[0]);
    assert(child_digest(cs[0]) == file_digest(cs[0]->File_0@));
    assert(joined_digests(first) =~= file_digest(cs[0]->File_0@));
}

} // verus!

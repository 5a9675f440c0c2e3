//! The values that renaming is about: identities, content hashes and the
//! metadata of a repository.
//!
//! A type that holds text is written over the type of its text. With `String`
//! it is the type that code uses; with `Seq<char>` it is that type's view.
use vstd::prelude::*;
use vstd::std_specs::cmp::PartialEqSpecImpl;

verus! {

/// The text of a `String`, as contracts speak of it.
pub type Text = Seq<char>;

/// Whether two byte slices hold the same bytes.
fn same_bytes(left: &[u8], right: &[u8]) -> (same: bool)
    ensures
        same == (left@ == right@),
{
    if left.len() != right.len() {
        return false;
    }
    let mut i: usize = 0;
    while i < left.len()
        invariant
            i <= left.len(),
            left@.len() == right@.len(),
            forall|j: int| 0 <= j < i ==> left@[j] == right@[j],
        decreases left.len() - i,
    {
        if left[i] != right[i] {
            return false;
        }
        i = i + 1;
    }
    assert(left@ =~= right@);
    true
}

/// The identity of a repository: sixteen bytes.
#[derive(Clone, Copy, Debug)]
pub struct RepositoryId {
    pub bytes: [u8; 16],
}

impl PartialEqSpecImpl for RepositoryId {
    open spec fn obeys_eq_spec() -> bool {
        true
    }

    open spec fn eq_spec(&self, other: &RepositoryId) -> bool {
        *self == *other
    }
}

impl PartialEq for RepositoryId {
    fn eq(&self, other: &RepositoryId) -> (same: bool) {
        let same = same_bytes(self.bytes.as_slice(), other.bytes.as_slice());
        assert(same ==> self.bytes =~= other.bytes);
        same
    }
}

impl Eq for RepositoryId {

}

impl RepositoryId {
    /// The id of no repository: every byte is zero.
    pub open spec fn none() -> RepositoryId {
        RepositoryId { bytes: vstd::array::spec_array_fill_for_copy_type::<u8, 16>(0) }
    }

    /// Whether this is the id of no repository.
    pub fn is_zero(&self) -> (zero: bool)
        ensures
            zero == (*self == RepositoryId::none()),
            zero == (forall|i: int| 0 <= i < 16 ==> self.bytes@[i] == 0),
    {
        let none = RepositoryId { bytes: [0u8; 16] };
        let zero = *self == none;
        proof {
            if forall|i: int| 0 <= i < 16 ==> self.bytes@[i] == 0 {
                assert(self.bytes@ =~= none.bytes@);
                assert(self.bytes =~= none.bytes);
            }
        }
        zero
    }
}

impl Default for RepositoryId {
    fn default() -> (id: RepositoryId)
        ensures
            id == RepositoryId::none(),
    {
        RepositoryId { bytes: [0u8; 16] }
    }
}

/// The identity of a branch: sixteen bytes.
#[derive(Clone, Copy, Debug, PartialEq, Eq)]
pub struct BranchId {
    pub bytes: [u8; 16],
}

/// The address of stored content: the thirty-two bytes of its hash.
#[derive(Clone, Copy, Debug)]
pub struct ContentHash {
    pub bytes: [u8; 32],
}

impl PartialEqSpecImpl for ContentHash {
    open spec fn obeys_eq_spec() -> bool {
        true
    }

    open spec fn eq_spec(&self, other: &ContentHash) -> bool {
        *self == *other
    }
}

impl PartialEq for ContentHash {
    fn eq(&self, other: &ContentHash) -> (same: bool) {
        let same = same_bytes(self.bytes.as_slice(), other.bytes.as_slice());
        assert(same ==> self.bytes =~= other.bytes);
        same
    }
}

impl Eq for ContentHash {

}

impl ContentHash {
    /// The hash of no content: every byte is zero.
    pub open spec fn none() -> ContentHash {
        ContentHash { bytes: vstd::array::spec_array_fill_for_copy_type::<u8, 32>(0) }
    }
}

/// What a repository's metadata blob says of it.
#[derive(Debug, PartialEq, Eq)]
pub struct RepositoryMetadata<S = String> {
    /// The canonical name of the repository.
    pub name: S,
    pub description: S,
    pub default_branch: BranchId,
    pub default_branch_name: S,
    pub creator: S,
    /// When the repository was created, in milliseconds of the Unix epoch.
    pub created: u64,
}

impl View for RepositoryMetadata {
    type V = RepositoryMetadata<Text>;

    open spec fn view(&self) -> RepositoryMetadata<Text> {
        RepositoryMetadata {
            name: self.name@,
            description: self.description@,
            default_branch: self.default_branch,
            default_branch_name: self.default_branch_name@,
            creator: self.creator@,
            created: self.created,
        }
    }
}

impl Clone for RepositoryMetadata {
    fn clone(&self) -> (copy: RepositoryMetadata)
        ensures
            copy@ == self@,
    {
        RepositoryMetadata {
            name: self.name.clone(),
            description: self.description.clone(),
            default_branch: self.default_branch,
            default_branch_name: self.default_branch_name.clone(),
            creator: self.creator.clone(),
            created: self.created,
        }
    }
}

impl RepositoryMetadata<Text> {
    /// The same metadata under another name.
    pub open spec fn renamed(self, name: Text) -> RepositoryMetadata<Text> {
        RepositoryMetadata { name: name, ..self }
    }
}

impl RepositoryMetadata {
    /// The same metadata under another name.
    pub fn with_name(&self, name: &str) -> (other: RepositoryMetadata)
        ensures
            other@ == self@.renamed(name@),
            other.name@ == name@,
            other.description@ == self.description@,
            other.default_branch == self.default_branch,
            other.default_branch_name@ == self.default_branch_name@,
            other.creator@ == self.creator@,
            other.created == self.created,
    {
        RepositoryMetadata { name: name.to_owned(), ..self.clone() }
    }
}

} // verus!

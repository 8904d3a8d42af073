use vstd::prelude::*;
use crate::todo::Todo;

verus! {

/// What reading the backing file gave: no file, a file whose content is
/// not a valid collection, or the collection it holds.
pub enum StoredFile {
    Missing,
    Malformed,
    Records(Vec<Todo>),
}

/// The collection that a run starts from. A missing or malformed file
/// yields an empty collection rather than an error.
pub fn load_todos(file: StoredFile) -> (r: Vec<Todo>)
    ensures
        file is Missing ==> r@.len() == 0,
        file is Malformed ==> r@.len() == 0,
        file matches StoredFile::Records(v) ==> r@ == v@,
{
    match file {
        StoredFile::Missing => Vec::new(),
        StoredFile::Malformed => Vec::new(),
        StoredFile::Records(v) => v,
    }
}

} // verus!

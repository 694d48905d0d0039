//! Views of the plain values that cross the library's boundary.

use vstd::prelude::*;

verus! {

/// The view of an optional text.
pub open spec fn text_view(text: Option<String>) -> Option<Seq<char>> {
    match text {
        Some(t) => Some(t@),
        None => None,
    }
}

/// The view of what a read gave, from a file or from a connection: the bytes,
/// or the reason why they could not be read.
pub open spec fn file_view(file: Result<Vec<u8>, String>) -> Result<Seq<u8>, Seq<char>> {
    match file {
        Ok(bytes) => Ok(bytes@),
        Err(reason) => Err(reason@),
    }
}

/// The view of a file-read result that may be absent.
pub open spec fn optional_file_view(file: Option<Result<Vec<u8>, String>>) -> Option<
    Result<Seq<u8>, Seq<char>>,
> {
    match file {
        Some(f) => Some(file_view(f)),
        None => None,
    }
}

} // verus!

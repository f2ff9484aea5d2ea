use vstd::prelude::*;

use crate::error::Error;
use crate::text::{decimal, str_eq, u64_to_string};

verus! {

/// The index of a camera: a number or a name.
#[derive(Debug)]
pub enum CameraIndex {
    /// A numeric index.
    Index(u32),
    /// A named index.
    String(String),
}

/// The text that displays a camera index.
pub open spec fn index_text(i: CameraIndex) -> Seq<char> {
    match i {
        CameraIndex::Index(n) => decimal(n as nat),
        CameraIndex::String(s) => s@,
    }
}

/// Whether two camera indexes are the same index.
pub open spec fn same_index(a: CameraIndex, b: CameraIndex) -> bool {
    match (a, b) {
        (CameraIndex::Index(x), CameraIndex::Index(y)) => x == y,
        (CameraIndex::String(s), CameraIndex::String(t)) => s@ == t@,
        _ => false,
    }
}

impl Clone for CameraIndex {
    fn clone(&self) -> (r: Self)
        ensures
            r == *self,
    {
        match self {
            CameraIndex::Index(n) => CameraIndex::Index(*n),
            CameraIndex::String(s) => CameraIndex::String(s.clone()),
        }
    }
}

impl CameraIndex {
    /// Returns whether two camera indexes are the same index.
    pub fn same(&self, other: &CameraIndex) -> (r: bool)
        ensures
            r == same_index(*self, *other),
    {
        match (self, other) {
            (CameraIndex::Index(x), CameraIndex::Index(y)) => *x == *y,
            (CameraIndex::String(s), CameraIndex::String(t)) => str_eq(s.as_str(), t.as_str()),
            _ => false,
        }
    }

    /// Returns the text that displays the camera index.
    pub fn to_text(&self) -> (r: String)
        ensures
            r@ == index_text(*self),
    {
        match self {
            CameraIndex::Index(n) => u64_to_string(*n as u64),
            CameraIndex::String(s) => s.clone(),
        }
    }
}

/// Whether a camera with index `i` is among `available`.
pub open spec fn is_available(available: Seq<CameraIndex>, i: CameraIndex) -> bool {
    exists|j: int| 0 <= j < available.len() && same_index(#[trigger] available[j], i)
}

/// A camera is available exactly when some entry of the available cameras
/// is the same index, numeric or named.
pub proof fn law_available_any_kind(available: Seq<CameraIndex>, i: CameraIndex)
    ensures
        is_available(available, i) <==> exists|j: int| 0 <= j < available.len() && same_index(available[j], i),
{
}

/// Each camera listed among the available ones is available, numeric
/// indexes as well as named ones.
pub proof fn law_listed_camera_available(available: Seq<CameraIndex>, j: int)
    requires
        0 <= j < available.len(),
    ensures
        is_available(available, available[j]),
        available[j] matches CameraIndex::Index(n) ==> is_available(available, CameraIndex::Index(n)),
{
    assert(same_index(available[j], available[j]));
}

/// No camera is available when none is listed.
pub proof fn law_nothing_available_in_empty_list(i: CameraIndex)
    ensures
        !is_available(Seq::empty(), i),
{
}

/// Returns the index a camera configuration takes when `requested` is
/// asked for while `current` is in use and the cameras of the system are
/// `available`, with the message that reports it.
///
/// The index is unchanged when `requested` is the current one or no
/// available camera has it.
pub fn change_camera(current: &CameraIndex, requested: CameraIndex, available: &[CameraIndex]) -> (r: (
    CameraIndex,
    String,
))
    ensures
        same_index(*current, requested) ==> r.0 == *current
            && r.1@ == "Camera index remained unchanged at "@ + index_text(*current),
        !same_index(*current, requested) && is_available(available@, requested) ==> r.0 == requested
            && r.1@ == "Camera changed to index "@ + index_text(requested),
        !same_index(*current, requested) && !is_available(available@, requested) ==> r.0 == *current
            && r.1@ == "Camera changed to index "@ + index_text(*current),
{
    if current.same(&requested) {
        let mut message = String::from_str("Camera index remained unchanged at ");
        message.append(current.to_text().as_str());
        return (current.clone(), message);
    }
    let mut found = false;
    let mut i: usize = 0;
    while i < available.len()
        invariant_except_break
            0 <= i <= available@.len(),
            !found,
            forall|j: int| 0 <= j < i ==> !same_index(#[trigger] available@[j], requested),
        ensures
            found ==> is_available(available@, requested),
            !found ==> !is_available(available@, requested),
        decreases available@.len() - i,
    {
        if available[i].same(&requested) {
            found = true;
            break;
        }
        i = i + 1;
    }
    let index = if found { requested } else { current.clone() };
    let mut message = String::from_str("Camera changed to index ");
    message.append(index.to_text().as_str());
    (index, message)
}

/// The information of an error raised at server startup.
pub open spec fn startup_text(error: Seq<char>) -> Seq<char> {
    error + " at server startup"@
}

/// The information of an error raised at server startup by an error of
/// another component.
pub open spec fn startup_with_error_text(description: Seq<char>, error: Seq<char>) -> Seq<char> {
    "\n            "@ + description + " at server startup\n            Info: "@ + error + "\n        "@
}

/// Creates an [`Error`] raised at server startup.
pub fn startup_error(error: &str) -> (r: Error)
    ensures
        r.kind() == crate::error::ErrorKind::External,
        r.info()@ == startup_text(error@),
{
    let mut info = String::from_str(error);
    info.append(" at server startup");
    Error::external(info.as_str())
}

/// Creates an [`Error`] raised at server startup by an error of another
/// component, whose text is `error`.
pub fn startup_with_error(description: &str, error: &str) -> (r: Error)
    ensures
        r.kind() == crate::error::ErrorKind::External,
        r.info()@ == startup_with_error_text(description@, error@),
{
    let mut info = String::from_str("\n            ");
    info.append(description);
    info.append(" at server startup\n            Info: ");
    info.append(error);
    info.append("\n        ");
    Error::external(info.as_str())
}

}

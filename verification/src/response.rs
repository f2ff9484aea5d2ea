use vstd::prelude::*;

verus! {

/// The kind of response a device action returns.
#[derive(Debug, Clone, Copy, PartialEq, Eq, Structural)]
pub enum ResponseKind {
    /// A response stating that an action completed correctly.
    Success,
    /// A response carrying serialized data.
    Serial,
    /// A response carrying information about a device.
    Info,
    /// A response carrying a stream of bytes.
    Stream,
}

impl Default for ResponseKind {
    fn default() -> (r: Self)
        ensures
            r == ResponseKind::Success,
    {
        ResponseKind::Success
    }
}

}

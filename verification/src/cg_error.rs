use vstd::prelude::*;

verus! {

/// The status code that every window-server entry point answers with.
///
/// Zero conventionally means success; any other value is a failure reason that
/// the operating system defines. This crate never looks inside one.
pub type CGError = i32;

} // verus!

//! The client itself.
use vstd::prelude::*;

verus! {

/// The client's part in talking to a server: what it asks for and what it makes of the answers.
/// Nothing is kept from one call to the next.
#[derive(Debug, Clone, Copy, PartialEq, Eq)]
pub struct McpClient;

} // verus!

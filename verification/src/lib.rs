//! Anonymous pipes and non-inheritable stdio handles, verified at the level
//! of the handle bookkeeping.
//!
//! Creating a pipe pair, or a redirection-capable duplicate of one of the
//! process's standard streams, is a short conversation with the operating
//! system: request a resource, look at the answer, and on a platform without
//! an atomic "create non-inheritable" primitive, duplicate each inheritable
//! endpoint and close the original — cleaning up every handle already opened
//! if a step fails partway.  The operating system calls themselves cannot be
//! verified, so this crate verifies everything around them: the decision
//! logic is a state machine that, fed the outcome of each call, says which
//! call to make next, and its contracts prove that a failed acquisition
//! closes every descriptor it opened and that a successful one hands back
//! exactly two fresh, non-inheritable endpoints duplicated from one created
//! pipe.  An unverified driver performs the calls and feeds the answers in.

pub mod acquire;
pub mod direct;
pub mod handles;
pub mod laws;

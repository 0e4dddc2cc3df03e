//! Deferred actions: the verified core of a scope guard.
//!
//! [`defer`] wraps an action in a guard, and the guard's teardown,
//! [`Defer::fire`], runs the action: once, however often the teardown runs. A
//! scope guard is this guard together with a destructor that calls the
//! teardown; the destructor is a single line and lives with the caller,
//! because a destructor that may pass on a panic is not one that Verus admits.
//!
//! [`lifecycle`] describes a guard's life as values and proves that the action
//! is invoked exactly once; [`guard`] holds the guard itself, whose teardown
//! is verified against that description.

pub mod guard;
pub mod lifecycle;

pub use guard::defer;
pub use guard::Defer;

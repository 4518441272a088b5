//! A scoped, fallible, restore-on-exit stream-position guard.
//!
//! The guard records the current position of a seekable byte stream, runs an
//! operation that may move the position, and then unconditionally attempts to
//! seek back to the recorded position, on every exit path. The operation's
//! error takes priority over a restoration error; a restoration failure after
//! a successful operation is reported to the caller.

mod arrays;
mod guard;
mod hoagie;
mod stream;
mod url;

pub use arrays::demo;
pub use guard::GuardError;
pub use guard::Operation;
pub use guard::Output;
pub use guard::guarded_call;
pub use guard::peek_exact;
pub use guard::resolve;
pub use hoagie::Hoagie;
pub use stream::Stream;
pub use stream::StreamError;
pub use url::Url;
pub use url::fetch;

//! Structural core of a leveled, key-value structured-logging facade.
//!
//! A hierarchy of cheaply-cloneable [`logger::Logger`] handles shares one
//! swappable output sink (a "drain") and accumulates contextual key-value
//! pairs down the hierarchy.  A logging call builds per-call record metadata
//! with a lazily-computed timestamp, invokes the hierarchy's current drain
//! exactly once with a scratch buffer and the inherited context, absorbs any
//! drain failure, and clears the buffer before returning.
//!
//! Concrete drain implementations (formatting, filtering, real output) are
//! external collaborators: they implement [`drain::Drain`] and are installed
//! with [`logger::Logger::set_drain`] or [`logger::Logger::swap_drain`].

pub mod drain;
pub mod kv;
pub mod level;
pub mod logger;
pub mod record;

pub use drain::discard;
pub use drain::Discard;
pub use drain::Drain;
pub use drain::DrainError;
pub use drain::DrainRef;
pub use kv::BorrowedKeyValue;
pub use kv::OwnedKeyValue;
pub use level::Level;
pub use logger::Logger;
pub use record::RecordInfo;

//! The synchronisation worker: what it makes of the rows of the source, and
//! when its checkpoint moves.

mod error;
mod machine;
mod postgres;
mod world;

pub use self::error::WorkerError;
pub use self::error::WorkerErrorKind;
pub use self::error::WorkerErrorView;
pub use self::error::WorkerResult;
pub use self::machine::Action;
pub use self::machine::Event;
pub use self::machine::Phase;
pub use self::machine::Worker;
pub use self::machine::PAGE_ROWS;
pub use self::postgres::build_document;
pub use self::postgres::connection_url;
pub use self::postgres::read_rows;
pub use self::postgres::read_state;
pub use self::postgres::Batch;
pub use self::postgres::Ingest;
pub use self::postgres::SourceRow;
pub use self::postgres::SourceValue;
pub use self::postgres::State;
pub use self::world::start;

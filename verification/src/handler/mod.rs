//! What a request asks of the index: the compilation of queries and the
//! rendering of results.

mod error;
mod fields;
pub mod search;

pub use self::error::HandlerError;
pub use self::error::HandlerResult;
pub use self::fields::FieldsHandler;
pub use self::fields::ResponseField;
pub use self::search::build_query;
pub use self::search::compile_token;
pub use self::search::create_bound_query_i64;
pub use self::search::create_bound_query_u64;
pub use self::search::create_term_query_i64;
pub use self::search::create_term_query_text;
pub use self::search::create_term_query_u64;
pub use self::search::map_occurance;
pub use self::search::parse_bound_i64;
pub use self::search::parse_bound_u64;
pub use self::search::plan_search;
pub use self::search::plan_tokens;
pub use self::search::render_document;
pub use self::search::render_rows;
pub use self::search::value_to_string;
pub use self::search::RowField;
pub use self::search::SearchPlan;
pub use self::search::RESULT_LIMIT;
pub use self::search::Clause;
pub use self::search::CompiledQuery;
pub use self::search::Matcher;
pub use self::search::Occurrence;
pub use self::search::Predicate;

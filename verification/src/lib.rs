//! A minimal HTTP request router.
//!
//! Handlers are registered on a [`Router`] under an exact (verb, path) key,
//! the router is sealed into an immutable [`RouteTable`], and incoming
//! requests are dispatched by exact-match lookup.

mod http;
mod router;
mod scaffold;

pub use http::Dispatch;
pub use http::HttpRequest;
pub use http::HttpResponse;
pub use http::STATUS_INTERNAL_ERROR;
pub use http::STATUS_NOT_FOUND;
pub use http::STATUS_OK;
pub use http::Verb;
pub use http::echo;
pub use http::wire_response;
pub use router::Registration;
pub use router::RouteTable;
pub use router::Router;
pub use router::lemma_last_registration_wins;
pub use router::lemma_match_requires_verb_and_path;
pub use router::lemma_unregistered_route_misses;
pub use router::lookup;
pub use router::reg_matches;
pub use router::registration;
pub use router::table_of;
pub use scaffold::DB;
pub use scaffold::InvalidDbName;
pub use scaffold::MigrationCliStatus;
pub use scaffold::New;
pub use scaffold::Opt;
pub use scaffold::classify_migration_cli;
pub use scaffold::is_space;
pub use scaffold::migration_cli_version_supported;
pub use scaffold::scaffold_dependencies;
pub use scaffold::trim;
pub use scaffold::trim_end_spec;
pub use scaffold::trim_start_spec;
pub use scaffold::trimmed;

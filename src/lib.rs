//! Native-type validation, DDL statement builders and migration rendering
//! for SQL databases.

pub mod text;
pub mod connector_error;
pub mod native_types;
pub mod mysql_connector;
pub mod postgres_ddl;
pub mod sql_schema;
pub mod sql_schema_differ;
pub mod mysql_renderer;
pub mod mark_migration_rolled_back;
pub mod field_filter_types;

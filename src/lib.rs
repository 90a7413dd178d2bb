//! A registry of named, schema-described tools and a dispatcher that routes
//! call requests to the tool handler registered under the requested name.

pub mod text;
pub mod error;
pub mod schema;
pub mod args;
pub mod tool;
pub mod mcprs;
pub mod tools;
pub mod registry;
pub mod dispatch;
pub mod server;

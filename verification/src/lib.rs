//! Native-library configuration for the MySQL / MariaDB client library (`libmysqlclient`):
//! reading the version that an installed client announces, asking `mysql_config`, choosing the
//! bundled bindings that fit a version and a target, deriving the link directives of the build,
//! and the SSL modes of the client API.
#![allow(non_camel_case_types)]

pub mod bindings;
pub mod helper;
pub mod link;
pub mod ssl_mode;
pub mod text;
pub mod version;

pub use ssl_mode::mysql_ssl_mode;

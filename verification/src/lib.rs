//! Test-fixture lifecycle support for an integration-test harness.
//!
//! The crate has three parts: a write-once registry for the path of the
//! executable under test, a workspace manager that plans the provisioning
//! and teardown of a disposable workspace directory and unpacks the fixture
//! archive, and a generator for random hexadecimal identifiers.

pub mod archive;
pub mod identifier;
pub mod model;
pub mod registry;
pub mod workspace;

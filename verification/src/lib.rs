//! Supervision of one local development server: where its toolchain and its
//! project directory are found, when it is started, and how it is stopped.
//!
//! The library decides and never acts. Whatever it has to know of the machine
//! it asks as a [`host::Query`]; whoever runs it finds the answer and hands it
//! back. What is to be launched comes out as a [`launch::LaunchSpec`], and the
//! child that was launched is kept by the [`supervisor::Supervisor`] until a
//! stop hands it out again, to be ended as a [`stop::StopFlow`] says.
//!
//! Every search is stated twice: as the steps that ask one thing at a time,
//! and as the result on a machine whose facts are all known
//! ([`host::HostFacts`]). The steps are proved to come to that result.

pub mod activation;
pub mod health;
pub mod host;
pub mod launch;
pub mod paths;
pub mod server_dir;
pub mod stop;
pub mod supervisor;
pub mod text;
pub mod toolchain;

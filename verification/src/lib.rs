//! Locating the Playwright driver and installing browsers with it.
//!
//! The driver is a JavaScript program, `cli.js`, that runs on a Deno of the system. This crate
//! decides where to look for the two, in which order, what to run and what to report. It touches
//! neither the file system nor other programs: a search or an installation asks for what it has
//! to know, and goes on with the answer.
//!
//! - [`driver`]: the search for the driver, made up of those for `cli.js` ([`cli`]) and for Deno
//!   ([`deno`])
//! - [`install`]: the installation of browsers
//! - [`host`]: the questions and the answers
//! - [`probe`], [`location`]: candidates, and the places that they name
//! - [`text`]: what programs print
//! - [`error`]: what can go wrong
//! - [`laws`]: what holds of every search and of every installation
pub mod cli;
pub mod deno;
pub mod driver;
pub mod error;
pub mod host;
pub mod install;
pub mod laws;
pub mod location;
pub mod probe;
pub mod text;

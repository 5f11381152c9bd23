//! Plain carrier for the command-line options the surrounding program reads.
//!
//! Argument parsing itself lives outside this crate; the parsed values arrive
//! here as plain strings and integers, and [`crate::Params::from_cli_args`]
//! wires each option to its own configuration field.

use vstd::prelude::*;

verus! {

/// The three configuration options a command line can override.
#[derive(Clone, Debug)]
pub struct CliArgs {
    pub api_request_url: String,
    pub api_result_url: String,
    pub poll_timeout_ms: u64,
}

/// Mathematical image of [`CliArgs`].
pub struct CliArgsView {
    pub api_request_url: Seq<char>,
    pub api_result_url: Seq<char>,
    pub poll_timeout_ms: u64,
}

impl View for CliArgs {
    type V = CliArgsView;

    open spec fn view(&self) -> CliArgsView {
        CliArgsView {
            api_request_url: self.api_request_url@,
            api_result_url: self.api_result_url@,
            poll_timeout_ms: self.poll_timeout_ms,
        }
    }
}

impl crate::Params {
    /// Each option feeds exactly the configuration field of the same name.
    pub fn from_cli_args(cli_args: &CliArgs) -> (r: Self)
        ensures
            r@.api_request_url == cli_args@.api_request_url,
            r@.api_result_url == cli_args@.api_result_url,
            r@.poll_timeout_ms == cli_args@.poll_timeout_ms,
    {
        Self {
            api_request_url: cli_args.api_request_url.clone(),
            api_result_url: cli_args.api_result_url.clone(),
            poll_timeout_ms: cli_args.poll_timeout_ms,
        }
    }
}

} // verus!

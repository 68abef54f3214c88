//! Command surface: the parsed invocation and its dispatch onto the
//! bring-up or take-down flow.
//!
//! Reading the actual command line happens outside this library; `run`
//! takes the already-parsed invocation and decides which flow runs with
//! which arguments.

use crate::cmd::down;
use crate::cmd::up;
use vstd::prelude::*;

verus! {

/// The service named by an invocation. This is the service being managed
/// by the invoking host tool, not the remote resource.
pub struct ServiceArgs {
    pub service: String,
}

/// Arguments of the bring-up subcommand; the take-down subcommand reuses
/// the shape and reads only the service.
pub struct UpArgs {
    /// Name of a resource on the remote cluster, e.g. `deployment/x`.
    pub resource: String,
    /// The local:remote port mapping handed to the delegated command.
    pub port_mapping: String,
    pub service: ServiceArgs,
}

/// The two operations the command surface offers.
pub enum ComposeCommand {
    Up(UpArgs),
    Down(UpArgs),
}

/// The invocation: a project identifier and the chosen operation.
pub enum Compose {
    Compose { project: String, command: ComposeCommand },
}

/// Everything parsed from one invocation.
pub struct Opts {
    pub compose: Compose,
}

/// Which flow an invocation dispatches to, with the arguments it carries.
pub enum Dispatch {
    Up(up::Args),
    Down(down::Args),
}

/// How an invocation maps onto a flow: the project identifier joins the
/// subcommand's own arguments; take-down keeps only project and service.
pub open spec fn spec_run(opts: Opts) -> Dispatch {
    match opts.compose {
        Compose::Compose { project, command } => match command {
            ComposeCommand::Up(args) => Dispatch::Up(
                up::Args {
                    project: project,
                    service: args.service.service,
                    port_mapping: args.port_mapping,
                    resource: args.resource,
                },
            ),
            ComposeCommand::Down(args) => Dispatch::Down(
                down::Args { project: project, service: args.service.service },
            ),
        },
    }
}

/// Dispatch one parsed invocation onto its flow.
pub fn run(opts: Opts) -> (r: Dispatch)
    ensures
        r == spec_run(opts),
{
    match opts.compose {
        Compose::Compose { project, command } => match command {
            ComposeCommand::Up(args) => Dispatch::Up(
                up::Args {
                    project: project,
                    service: args.service.service,
                    port_mapping: args.port_mapping,
                    resource: args.resource,
                },
            ),
            ComposeCommand::Down(args) => Dispatch::Down(
                down::Args { project: project, service: args.service.service },
            ),
        },
    }
}

} // verus!

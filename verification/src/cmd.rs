//! Choosing the action from the parsed command line.

use vstd::prelude::*;
use crate::session::Request;

verus! {

/// A subcommand given on the command line. A bare secret name with no
/// subcommand is not one of these: it means a read.
pub enum SubCommand {
    Edit { secret: String },
    Generate { secret: String },
    Qr { secret: String },
}

/// The request a subcommand stands for.
pub open spec fn request_of(c: SubCommand) -> Request {
    match c {
        SubCommand::Edit { secret } => Request::Edit { secret },
        SubCommand::Generate { secret } => Request::Generate { secret },
        SubCommand::Qr { secret } => Request::Qr { secret },
    }
}

/// Which action a parsed command line asks for: a bare secret name
/// means a read and takes precedence; otherwise the subcommand
/// decides; a command line with neither names no action at all.
pub fn choose_request(secret: Option<String>, command: Option<SubCommand>) -> (r: Option<
    Request,
>)
    ensures
        (match (secret, command) {
            (Some(s), _) => r == Some(Request::Read { secret: s }),
            (None, Some(c)) => r == Some(request_of(c)),
            (None, None) => r is None,
        }),
{
    match secret {
        Some(s) => Some(Request::Read { secret: s }),
        None => match command {
            Some(SubCommand::Edit { secret }) => Some(Request::Edit { secret }),
            Some(SubCommand::Generate { secret }) => Some(Request::Generate { secret }),
            Some(SubCommand::Qr { secret }) => Some(Request::Qr { secret }),
            None => None,
        },
    }
}

} // verus!

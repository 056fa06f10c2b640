//! The command-line surface as plain data.  Argument parsing itself is the
//! driver's job; these types are what it hands over.

use vstd::prelude::*;

verus! {

/// A parsed command-line invocation.
#[derive(Debug)]
pub struct Cli {
    pub command: Commands,
}

/// Every subcommand the command line offers.
#[derive(Debug)]
pub enum Commands {
    Config { action: ConfigAction },
    Add {
        title: String,
        description: Option<String>,
        due: Option<String>,
        priority: Option<String>,
        tags: Option<String>,
    },
    List { all: bool, tag: Option<String>, priority: Option<String> },
    Get { id: String },
    Update {
        id: String,
        title: Option<String>,
        description: Option<String>,
        due: Option<String>,
        priority: Option<String>,
        tags: Option<String>,
    },
    Delete { id: String },
    Toggle { id: String },
    Complete { id: String },
    Search { query: String },
    Init { url: String },
    Admin { action: AdminAction },
}

/// Configuration subcommands.
#[derive(Debug)]
pub enum ConfigAction {
    Endpoint { url: String },
    Key { key: String },
    Show,
}

/// Administrative subcommands.
#[derive(Debug)]
pub enum AdminAction {
    RotateKey,
    GenerateKey { name: Option<String> },
    ListKeys,
    RevokeKey { id: String },
    Reinitialize,
}

} // verus!

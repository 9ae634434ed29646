//! The dispatcher's command line.
//!
//! Every argument after the program's name is `--help`,
//! `--fractal=<name>`, `--host=<host>` or `--port=<port>`. Arguments are
//! read from left to right: the first `--help` asks for the usage, the
//! first argument that is none of the four, or whose value cannot be read,
//! makes the command line invalid; a flag given twice keeps its last value.

use crate::fractal::FractalName;
use crate::text::{after_prefix, parse_u16, spec_parse_u16, spec_starts_with, str_eq};
use vstd::prelude::*;

verus! {

/// The port both programs use unless told otherwise.
pub const DEFAULT_PORT: u16 = 8787;

/// What the dispatcher runs with.
#[derive(Clone, Debug, PartialEq, Eq)]
pub struct ServerArgs {
    pub host: String,
    pub port: u16,
    pub fractal: FractalName,
}

/// The content of a `ServerArgs`.
pub struct ServerArgsView {
    pub host: Seq<char>,
    pub port: u16,
    pub fractal: FractalName,
}

impl View for ServerArgs {
    type V = ServerArgsView;

    open spec fn view(&self) -> ServerArgsView {
        ServerArgsView { host: self.host@, port: self.port, fractal: self.fractal }
    }
}

/// What a command line asks for.
#[derive(Clone, Debug, PartialEq, Eq)]
pub enum ServerCli {
    /// Run with these settings.
    Run(ServerArgs),
    /// Print the usage and leave with success.
    Help,
    /// Print the usage and leave with failure.
    Invalid,
}

/// The content of a `ServerCli`.
pub enum ServerCliView {
    Run(ServerArgsView),
    Help,
    Invalid,
}

impl View for ServerCli {
    type V = ServerCliView;

    open spec fn view(&self) -> ServerCliView {
        match self {
            ServerCli::Run(args) => ServerCliView::Run(args@),
            ServerCli::Help => ServerCliView::Help,
            ServerCli::Invalid => ServerCliView::Invalid,
        }
    }
}

/// The texts of the arguments.
pub open spec fn spec_texts(args: Seq<String>) -> Seq<Seq<char>> {
    Seq::new(args.len(), |i: int| args[i]@)
}

/// The settings of a command line without arguments: Julia on
/// `localhost:8787`.
pub open spec fn spec_defaults() -> ServerArgsView {
    ServerArgsView { host: "localhost"@, port: DEFAULT_PORT, fractal: FractalName::Julia }
}

/// What one argument makes of the settings so far.
pub open spec fn spec_apply(arg: Seq<char>, so_far: ServerArgsView) -> ServerCliView {
    if arg == "--help"@ {
        ServerCliView::Help
    } else if spec_starts_with(arg, "--fractal="@) {
        match FractalName::spec_parse(arg.skip("--fractal="@.len() as int)) {
            Some(fractal) => ServerCliView::Run(ServerArgsView { fractal, ..so_far }),
            None => ServerCliView::Invalid,
        }
    } else if spec_starts_with(arg, "--host="@) {
        ServerCliView::Run(ServerArgsView { host: arg.skip("--host="@.len() as int), ..so_far })
    } else if spec_starts_with(arg, "--port="@) {
        match spec_parse_u16(arg.skip("--port="@.len() as int)) {
            Some(port) => ServerCliView::Run(ServerArgsView { port, ..so_far }),
            None => ServerCliView::Invalid,
        }
    } else {
        ServerCliView::Invalid
    }
}

/// What the arguments from position `i` on make of the settings so far.
pub open spec fn spec_parse_from(args: Seq<Seq<char>>, i: int, so_far: ServerArgsView) -> ServerCliView
    decreases args.len() - i,
{
    if i >= args.len() {
        ServerCliView::Run(so_far)
    } else {
        match spec_apply(args[i], so_far) {
            ServerCliView::Run(next) => spec_parse_from(args, i + 1, next),
            other => other,
        }
    }
}

/// What a command line asks for; its first text is the program's name.
pub open spec fn spec_parse_args(args: Seq<Seq<char>>) -> ServerCliView {
    spec_parse_from(args, 1, spec_defaults())
}

/// What one argument makes of the settings so far.
fn apply(arg: &str, so_far: ServerArgs) -> (r: ServerCli)
    ensures
        r@ == spec_apply(arg@, so_far@),
{
    if str_eq(arg, "--help") {
        return ServerCli::Help;
    }
    if let Some(name) = after_prefix(arg, "--fractal=") {
        return match FractalName::parse(name.as_str()) {
            Some(fractal) => ServerCli::Run(
                ServerArgs { host: so_far.host, port: so_far.port, fractal },
            ),
            None => ServerCli::Invalid,
        };
    }
    if let Some(host) = after_prefix(arg, "--host=") {
        return ServerCli::Run(ServerArgs { host, port: so_far.port, fractal: so_far.fractal });
    }
    if let Some(text) = after_prefix(arg, "--port=") {
        return match parse_u16(text.as_str()) {
            Some(port) => ServerCli::Run(
                ServerArgs { host: so_far.host, port, fractal: so_far.fractal },
            ),
            None => ServerCli::Invalid,
        };
    }
    ServerCli::Invalid
}

/// Reads the dispatcher's command line; `args[0]` is the program's name.
pub fn parse_args(args: &Vec<String>) -> (r: ServerCli)
    ensures
        r@ == spec_parse_args(spec_texts(args@)),
{
    let ghost texts = spec_texts(args@);
    let mut so_far = ServerArgs {
        host: "localhost".to_owned(),
        port: DEFAULT_PORT,
        fractal: FractalName::Julia,
    };
    let mut i: usize = 1;
    while i < args.len()
        invariant
            1 <= i,
            texts == spec_texts(args@),
            spec_parse_args(texts) == spec_parse_from(texts, i as int, so_far@),
        decreases args.len() - i,
    {
        assert(texts[i as int] == args[i as int]@);
        match apply(args[i].as_str(), so_far) {
            ServerCli::Run(next) => {
                so_far = next;
            },
            ServerCli::Help => {
                return ServerCli::Help;
            },
            ServerCli::Invalid => {
                return ServerCli::Invalid;
            },
        }
        i += 1;
    }
    ServerCli::Run(so_far)
}

} // verus!

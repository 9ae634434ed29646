//! The worker's command line.
//!
//! The host is given as `--ip=<host>` or as the first argument, the port as
//! `--port=<port>` or as the second argument; `--help` asks for the usage.

use crate::server_args::{spec_texts, DEFAULT_PORT};
use crate::text::{parse_u16, spec_parse_u16, spec_starts_with, starts_with, str_eq};
use vstd::prelude::*;
use vstd::string::StrSliceExecFns;

verus! {

/// What the worker runs with.
#[derive(Clone, Debug, PartialEq, Eq)]
pub struct WorkerArgs {
    pub host: String,
    pub port: u16,
}

/// The content of a `WorkerArgs`.
pub struct WorkerArgsView {
    pub host: Seq<char>,
    pub port: u16,
}

impl View for WorkerArgs {
    type V = WorkerArgsView;

    open spec fn view(&self) -> WorkerArgsView {
        WorkerArgsView { host: self.host@, port: self.port }
    }
}

/// What a command line asks for.
#[derive(Clone, Debug, PartialEq, Eq)]
pub enum WorkerCli {
    /// Run with these settings.
    Run(WorkerArgs),
    /// Print the usage and leave with success.
    Help,
    /// Report the port that cannot be read and leave with failure.
    Invalid,
}

/// The content of a `WorkerCli`.
pub enum WorkerCliView {
    Run(WorkerArgsView),
    Help,
    Invalid,
}

impl View for WorkerCli {
    type V = WorkerCliView;

    open spec fn view(&self) -> WorkerCliView {
        match self {
            WorkerCli::Run(args) => WorkerCliView::Run(args@),
            WorkerCli::Help => WorkerCliView::Help,
            WorkerCli::Invalid => WorkerCliView::Invalid,
        }
    }
}

/// A text without the copies of `prefix` that it opens with.
pub open spec fn spec_trim_start(s: Seq<char>, prefix: Seq<char>) -> Seq<char>
    decreases s.len(),
{
    if prefix.len() > 0 && spec_starts_with(s, prefix) {
        spec_trim_start(s.skip(prefix.len() as int), prefix)
    } else {
        s
    }
}

/// The value of the first text, from position `i` on, that opens with
/// `prefix`: that text without the copies of `prefix` it opens with.
pub open spec fn spec_first_flag(args: Seq<Seq<char>>, prefix: Seq<char>, i: int) -> Option<
    Seq<char>,
>
    decreases args.len() - i,
{
    if i >= args.len() {
        None
    } else if spec_starts_with(args[i], prefix) {
        Some(spec_trim_start(args[i], prefix))
    } else {
        spec_first_flag(args, prefix, i + 1)
    }
}

/// Whether one of the texts after the first is `--help`.
pub open spec fn spec_asks_help(args: Seq<Seq<char>>) -> bool {
    exists|i: int| 1 <= i < args.len() && args[i] == "--help"@
}

/// The host that the flags give: the value of the first `--ip=`, or
/// `localhost`.
pub open spec fn spec_flag_host(args: Seq<Seq<char>>) -> Seq<char> {
    match spec_first_flag(args, "--ip="@, 0) {
        Some(host) => host,
        None => "localhost"@,
    }
}

/// The port that the flags give: the value of the first `--port=`, or
/// 8787; `None` where that value cannot be read.
pub open spec fn spec_flag_port(args: Seq<Seq<char>>) -> Option<u16> {
    match spec_first_flag(args, "--port="@, 0) {
        Some(text) => spec_parse_u16(text),
        None => Some(DEFAULT_PORT),
    }
}

/// Whether a text stands for itself rather than for a flag.
pub open spec fn spec_is_positional(arg: Seq<char>) -> bool {
    !spec_starts_with(arg, "--"@)
}

/// What a command line asks for; its first text is the program's name.
/// With one or two arguments, an argument that is no flag takes the place
/// of the flag's value: the first as host, the second as port.
pub open spec fn spec_parse_args(args: Seq<Seq<char>>) -> WorkerCliView {
    if spec_asks_help(args) {
        WorkerCliView::Help
    } else {
        match spec_flag_port(args) {
            None => WorkerCliView::Invalid,
            Some(flag_port) => {
                let host = if (args.len() == 2 || args.len() == 3) && spec_is_positional(args[1]) {
                    args[1]
                } else {
                    spec_flag_host(args)
                };
                if args.len() == 3 && spec_is_positional(args[2]) {
                    match spec_parse_u16(args[2]) {
                        Some(port) => WorkerCliView::Run(WorkerArgsView { host, port }),
                        None => WorkerCliView::Invalid,
                    }
                } else {
                    WorkerCliView::Run(WorkerArgsView { host, port: flag_port })
                }
            },
        }
    }
}

/// A text without the copies of `prefix` that it opens with.
fn trim_start(s: &str, prefix: &str) -> (rest: String)
    ensures
        rest@ == spec_trim_start(s@, prefix@),
{
    let step = prefix.unicode_len();
    let n = s.unicode_len();
    let mut from: usize = 0;
    if step > 0 {
        assert(s@.skip(0) =~= s@);
        while from <= n && starts_with(s.substring_char(from, n), prefix)
            invariant
                step == prefix@.len(),
                step > 0,
                n == s@.len(),
                from <= n,
                spec_trim_start(s@, prefix@) == spec_trim_start(s@.skip(from as int), prefix@),
            decreases n - from,
        {
            assert(s@.subrange(from as int, n as int) =~= s@.skip(from as int));
            assert(s@.skip(from as int).skip(step as int) =~= s@.skip(from + step));
            from += step;
        }
        assert(s@.subrange(from as int, n as int) =~= s@.skip(from as int));
    } else {
        assert(s@.skip(0) =~= s@);
    }
    s.substring_char(from, n).to_owned()
}

/// The value of the first argument that opens with `prefix`.
fn first_flag(args: &Vec<String>, prefix: &str) -> (value: Option<String>)
    ensures
        match spec_first_flag(spec_texts(args@), prefix@, 0) {
            Some(text) => value is Some && value->Some_0@ == text,
            None => value is None,
        },
{
    let ghost texts = spec_texts(args@);
    let mut i: usize = 0;
    while i < args.len()
        invariant
            texts == spec_texts(args@),
            spec_first_flag(texts, prefix@, 0) == spec_first_flag(texts, prefix@, i as int),
        decreases args.len() - i,
    {
        assert(texts[i as int] == args[i as int]@);
        if starts_with(args[i].as_str(), prefix) {
            return Some(trim_start(args[i].as_str(), prefix));
        }
        i += 1;
    }
    None
}

/// Whether one of the arguments is `--help`.
fn asks_help(args: &Vec<String>) -> (yes: bool)
    ensures
        yes == spec_asks_help(spec_texts(args@)),
{
    let ghost texts = spec_texts(args@);
    let mut i: usize = 1;
    while i < args.len()
        invariant
            1 <= i,
            texts == spec_texts(args@),
            forall|k: int| 1 <= k < i && k < texts.len() ==> texts[k] != "--help"@,
        decreases args.len() - i,
    {
        assert(texts[i as int] == args[i as int]@);
        if str_eq(args[i].as_str(), "--help") {
            return true;
        }
        i += 1;
    }
    false
}

/// Reads the worker's command line; `args[0]` is the program's name.
pub fn parse_args(args: &Vec<String>) -> (r: WorkerCli)
    ensures
        r@ == spec_parse_args(spec_texts(args@)),
{
    let ghost texts = spec_texts(args@);
    if asks_help(args) {
        return WorkerCli::Help;
    }
    let flag_port: u16 = match first_flag(args, "--port=") {
        Some(text) => match parse_u16(text.as_str()) {
            Some(port) => port,
            None => { return WorkerCli::Invalid; },
        },
        None => DEFAULT_PORT,
    };
    let n = args.len();
    assert(n >= 2 ==> texts[1] == args[1]@);
    assert(n >= 3 ==> texts[2] == args[2]@);
    let host: String = if (n == 2 || n == 3) && !starts_with(args[1].as_str(), "--") {
        args[1].clone()
    } else {
        match first_flag(args, "--ip=") {
            Some(host) => host,
            None => "localhost".to_owned(),
        }
    };
    if n == 3 && !starts_with(args[2].as_str(), "--") {
        match parse_u16(args[2].as_str()) {
            Some(port) => WorkerCli::Run(WorkerArgs { host, port }),
            None => WorkerCli::Invalid,
        }
    } else {
        WorkerCli::Run(WorkerArgs { host, port: flag_port })
    }
}

} // verus!

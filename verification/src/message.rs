//! From one line of the miner's protocol to a command.

use crate::job::{
    authorize_from, submit_from, subscribe_from, Authorize, AuthorizeParams, AuthorizeView,
    Submit, SubmitParams, SubmitView, Subscribe, SubscribeParams, SubscribeView,
};
use crate::json::{decode_json, json_of_text, Json};
use crate::params::params_of;
use crate::validation::{
    submit_validation, validation_authorize, validation_subscribe, verdict, Verdict,
};
use vstd::prelude::*;

verus! {

/// What a line asks for. `Unknown` stands for every line that is no
/// well-formed request of a known method.
#[derive(Debug)]
pub enum Command {
    Ping,
    CSubmit(Submit),
    CAuthorize(Authorize),
    CSubscribe(Subscribe),
    Unknown,
}

/// A command, or a job, as plain texts.
pub enum CommandView {
    Ping,
    Submit(SubmitView),
    Authorize(AuthorizeView),
    Subscribe(SubscribeView),
    Unknown,
}

impl View for Command {
    type V = CommandView;

    open spec fn view(&self) -> CommandView {
        match self {
            Command::Ping => CommandView::Ping,
            Command::CSubmit(p) => CommandView::Submit(p@),
            Command::CAuthorize(p) => CommandView::Authorize(p@),
            Command::CSubscribe(p) => CommandView::Subscribe(p@),
            Command::Unknown => CommandView::Unknown,
        }
    }
}

/// The method name of a request, where it has one that is a string.
pub open spec fn method_of(m: Json) -> Option<Seq<char>> {
    match m.member("method"@) {
        Some(name) => name.text(),
        None => None,
    }
}

/// The command of a request with a given method name. A request that fails
/// its shape check, or whose parameters cannot be read, is `Unknown`.
pub open spec fn command_for(m: Json, name: Seq<char>) -> CommandView {
    if name == "PING"@ {
        CommandView::Ping
    } else if name == "mining.submit"@ {
        if verdict(m, 5, 6) is Valid && submit_from(params_of(m).unwrap()) is Ok {
            CommandView::Submit(submit_from(params_of(m).unwrap()).unwrap())
        } else {
            CommandView::Unknown
        }
    } else if name == "mining.authorize"@ {
        if verdict(m, 1, 2) is Valid && authorize_from(params_of(m).unwrap()) is Ok {
            CommandView::Authorize(authorize_from(params_of(m).unwrap()).unwrap())
        } else {
            CommandView::Unknown
        }
    } else if name == "mining.subscribe"@ {
        if verdict(m, 1, 2) is Valid && subscribe_from(params_of(m).unwrap()) is Ok {
            CommandView::Subscribe(subscribe_from(params_of(m).unwrap()).unwrap())
        } else {
            CommandView::Unknown
        }
    } else {
        CommandView::Unknown
    }
}

/// The command of a decoded line; `None` stands for a line that is no JSON.
pub open spec fn command_of(doc: Option<Json>) -> CommandView {
    match doc {
        None => CommandView::Unknown,
        Some(m) => match method_of(m) {
            None => CommandView::Unknown,
            Some(name) => command_for(m, name),
        },
    }
}

/// The command of a line: the bare word `PING`, or what the line decodes to.
pub open spec fn parse_of(line: Seq<char>) -> CommandView {
    if line == "PING"@ {
        CommandView::Ping
    } else {
        command_of(json_of_text(line))
    }
}

/// Whether two string slices hold the same text.
pub fn same_text(a: &str, b: &str) -> (r: bool)
    ensures
        r == (a@ == b@),
{
    a.to_owned() == b.to_owned()
}

/// Reads the command out of a decoded line.
pub fn command_from_json(doc: &Option<Json>) -> (r: Command)
    ensures
        r@ == command_of(*doc),
{
    let m = match doc {
        Some(m) => m,
        None => {
            return Command::Unknown;
        },
    };
    let name = match m.get("method") {
        Some(method) => match method.as_str() {
            Some(name) => name,
            None => {
                return Command::Unknown;
            },
        },
        None => {
            return Command::Unknown;
        },
    };
    if same_text(name, "PING") {
        Command::Ping
    } else if same_text(name, "mining.submit") {
        if submit_validation(m).is_err() {
            return Command::Unknown;
        }
        match SubmitParams::from_value(m) {
            Ok(p) => Command::CSubmit(p),
            Err(_) => Command::Unknown,
        }
    } else if same_text(name, "mining.authorize") {
        if validation_authorize(m).is_err() {
            return Command::Unknown;
        }
        match AuthorizeParams::form_value(m) {
            Ok(p) => Command::CAuthorize(p),
            Err(_) => Command::Unknown,
        }
    } else if same_text(name, "mining.subscribe") {
        if validation_subscribe(m).is_err() {
            return Command::Unknown;
        }
        match SubscribeParams::from_value(m) {
            Ok(p) => Command::CSubscribe(p),
            Err(_) => Command::Unknown,
        }
    } else {
        Command::Unknown
    }
}

/// Parses one trimmed, non-empty line. It never fails: what cannot be read is
/// `Unknown`.
pub fn parse_message(line: &str) -> (r: Command)
    ensures
        r@ == parse_of(line@),
{
    if same_text(line, "PING") {
        return Command::Ping;
    }
    let doc = decode_json(line);
    command_from_json(&doc)
}

} // verus!

use vstd::prelude::*;

verus! {

/// One command that a handle sends to the server.
#[derive(Clone, Debug, PartialEq, Eq)]
pub enum Command {
    Get { key: String },
    SetValue { key: String, value: String },
    Expire { key: String, seconds: i64 },
    HSet { key: String, field: String, value: String },
    HGet { key: String, field: String },
    HGetAll { key: String },
    HDel { key: String, field: String },
}

/// What a command is, with its texts as sequences of characters.
pub enum Cmd {
    Get { key: Seq<char> },
    SetValue { key: Seq<char>, value: Seq<char> },
    Expire { key: Seq<char>, seconds: int },
    HSet { key: Seq<char>, field: Seq<char>, value: Seq<char> },
    HGet { key: Seq<char>, field: Seq<char> },
    HGetAll { key: Seq<char> },
    HDel { key: Seq<char>, field: Seq<char> },
}

impl View for Command {
    type V = Cmd;

    open spec fn view(&self) -> Cmd {
        match self {
            Command::Get { key } => Cmd::Get { key: key@ },
            Command::SetValue { key, value } => Cmd::SetValue { key: key@, value: value@ },
            Command::Expire { key, seconds } => Cmd::Expire { key: key@, seconds: *seconds as int },
            Command::HSet { key, field, value } => Cmd::HSet { key: key@, field: field@, value: value@ },
            Command::HGet { key, field } => Cmd::HGet { key: key@, field: field@ },
            Command::HGetAll { key } => Cmd::HGetAll { key: key@ },
            Command::HDel { key, field } => Cmd::HDel { key: key@, field: field@ },
        }
    }
}

/// The commands that store a string: the value is always written, and an
/// expiry follows only for a positive time to live.
pub open spec fn set_str_cmds(key: Seq<char>, value: Seq<char>, ttl_seconds: int) -> Seq<Cmd> {
    if ttl_seconds > 0 {
        seq![Cmd::SetValue { key, value }, Cmd::Expire { key, seconds: ttl_seconds }]
    } else {
        seq![Cmd::SetValue { key, value }]
    }
}

/// The views of a list of commands.
pub open spec fn cmds_of(v: Seq<Command>) -> Seq<Cmd> {
    v.map_values(|c: Command| c@)
}

/// The commands, in order, that store `value` under `key` and, for a
/// positive `ttl_seconds`, make it expire after that many seconds. They are
/// two separate commands: when the second fails the value stays written.
pub fn set_str_plan(key: &str, value: &str, ttl_seconds: i64) -> (r: Vec<Command>)
    ensures
        cmds_of(r@) == set_str_cmds(key@, value@, ttl_seconds as int),
{
    let mut r: Vec<Command> = Vec::new();
    r.push(Command::SetValue { key: key.to_string(), value: value.to_string() });
    if ttl_seconds > 0 {
        r.push(Command::Expire { key: key.to_string(), seconds: ttl_seconds });
    }
    assert(cmds_of(r@) =~= set_str_cmds(key@, value@, ttl_seconds as int));
    r
}

} // verus!

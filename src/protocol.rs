use vstd::prelude::*;
use crate::error::ErrCode;

verus! {

/// Highest channel index that discovery asks the engine about.
pub const NAME_QUERY_LIMIT: u32 = 256;

/// Size of the text buffer offered to the engine for one channel name.
pub const NAME_BUFFER_LEN: u32 = 68;

pub open spec fn digit_char(d: nat) -> char {
    if d == 0 {
        '0'
    } else if d == 1 {
        '1'
    } else if d == 2 {
        '2'
    } else if d == 3 {
        '3'
    } else if d == 4 {
        '4'
    } else if d == 5 {
        '5'
    } else if d == 6 {
        '6'
    } else if d == 7 {
        '7'
    } else if d == 8 {
        '8'
    } else {
        '9'
    }
}

/// `n` written in decimal, without leading zeros.
pub open spec fn decimal(n: nat) -> Seq<char>
    decreases n,
{
    if n < 10 {
        seq![digit_char(n)]
    } else {
        decimal(n / 10).push(digit_char(n % 10))
    }
}

/// Name of the parameter that holds the name of channel `index` (counted from 1).
pub open spec fn name_key(index: nat) -> Seq<char> {
    "IA_Scaled_Name"@ + decimal(index)
}

/// One call to make on the engine, for the session that the caller holds.
#[derive(Debug)]
pub enum Command {
    SetParameterString { name: String, value: String },
    SetParameterInt { name: String, value: i32 },
    OpenSensor,
    ExecSCmd { command: String },
    /// Read a text parameter into a buffer of `max_len` bytes.
    GetParameterString { name: String, max_len: u32 },
    CloseSensor,
    ReleaseSensorInstance,
}

/// A command with its texts as character sequences.
pub enum CommandView {
    SetString(Seq<char>, Seq<char>),
    SetInt(Seq<char>, i32),
    Open,
    Exec(Seq<char>),
    Query(Seq<char>, u32),
    Close,
    Release,
}

impl View for Command {
    type V = CommandView;

    open spec fn view(&self) -> CommandView {
        match self {
            Command::SetParameterString { name, value } => CommandView::SetString(name@, value@),
            Command::SetParameterInt { name, value } => CommandView::SetInt(name@, *value),
            Command::OpenSensor => CommandView::Open,
            Command::ExecSCmd { command } => CommandView::Exec(command@),
            Command::GetParameterString { name, max_len } => CommandView::Query(name@, *max_len),
            Command::CloseSensor => CommandView::Close,
            Command::ReleaseSensorInstance => CommandView::Release,
        }
    }
}

pub open spec fn command_views(s: Seq<Command>) -> Seq<CommandView> {
    s.map_values(|c: Command| c@)
}

/// What the engine answered to the last command.
#[derive(Debug)]
pub enum Reply {
    /// The call's status, with no text (or a failed text query).
    Status(ErrCode),
    /// A text query succeeded with this text.
    Text(String),
    /// A text query succeeded but its text was not valid UTF-8.
    InvalidText,
}

/// `Some(e)` when the reply reports the failure status `e`.
pub open spec fn failed_status(reply: Reply) -> Option<ErrCode> {
    match reply {
        Reply::Status(e) => if e.is_success() {
            None
        } else {
            Some(e)
        },
        _ => None,
    }
}

fn digit_str(d: u32) -> (r: &'static str)
    requires
        d < 10,
    ensures
        r@ == seq![digit_char(d as nat)],
{
    if d == 0 {
        proof { reveal_strlit("0"); }
        "0"
    } else if d == 1 {
        proof { reveal_strlit("1"); }
        "1"
    } else if d == 2 {
        proof { reveal_strlit("2"); }
        "2"
    } else if d == 3 {
        proof { reveal_strlit("3"); }
        "3"
    } else if d == 4 {
        proof { reveal_strlit("4"); }
        "4"
    } else if d == 5 {
        proof { reveal_strlit("5"); }
        "5"
    } else if d == 6 {
        proof { reveal_strlit("6"); }
        "6"
    } else if d == 7 {
        proof { reveal_strlit("7"); }
        "7"
    } else if d == 8 {
        proof { reveal_strlit("8"); }
        "8"
    } else {
        proof { reveal_strlit("9"); }
        "9"
    }
}

/// `n` in decimal.
pub fn decimal_string(n: u32) -> (r: String)
    ensures
        r@ == decimal(n as nat),
    decreases n,
{
    if n < 10 {
        String::from_str(digit_str(n))
    } else {
        let mut s = decimal_string(n / 10);
        s.append(digit_str(n % 10));
        s
    }
}

/// The parameter name under which the engine reports channel `index`'s name.
pub fn channel_name_key(index: u32) -> (r: String)
    ensures
        r@ == name_key(index as nat),
{
    let digits = decimal_string(index);
    String::from_str("IA_Scaled_Name").concat(digits.as_str())
}

} // verus!

//! The control protocol's wire format: line-delimited JSON, one object
//! per line. Outgoing command lines are framed and escaped here, byte
//! for byte; incoming lines are classified into the three shapes the
//! protocol knows — greeting, event, and command response.

use vstd::prelude::*;
use vstd::utf8::encode_utf8;
use crate::text::{push_bytes, push_json_escaped, spec_json_escape};

verus! {

/// A JSON string literal holding the UTF-8 bytes of `s`, escaped, with
/// the surrounding quotes.
pub open spec fn spec_json_string_of(s: Seq<char>) -> Seq<u8> {
    seq![34u8] + spec_json_escape(encode_utf8(s)) + seq![34u8]
}

/// Appends a JSON string literal holding `s` to `out`.
pub fn push_json_string(out: &mut Vec<u8>, s: &str)
    ensures
        final(out)@ == old(out)@ + spec_json_string_of(s@),
{
    out.push(34);
    push_json_escaped(out, s.as_bytes());
    out.push(34);
    proof {
        assert(final(out)@ =~= old(out)@ + spec_json_string_of(s@));
    }
}

/// A command without arguments.
#[derive(Debug)]
pub struct EmptyCommand {
    pub execute: String,
}

/// A command with a pre-framed JSON arguments object.
#[derive(Debug)]
pub struct CommandWithArgs {
    pub execute: String,
    pub arguments: Option<Vec<u8>>,
}

/// A command to send to the instance.
#[derive(Debug)]
pub enum InvokeCommand {
    Empty(EmptyCommand),
    WithArgs(CommandWithArgs),
}

/// The mathematical value of an [`InvokeCommand`].
pub enum InvokeCommandView {
    Empty { execute: Seq<char> },
    WithArgs { execute: Seq<char>, arguments: Option<Seq<u8>> },
}

impl View for InvokeCommand {
    type V = InvokeCommandView;

    open spec fn view(&self) -> InvokeCommandView {
        match self {
            InvokeCommand::Empty(c) => InvokeCommandView::Empty { execute: c.execute@ },
            InvokeCommand::WithArgs(c) => InvokeCommandView::WithArgs {
                execute: c.execute@,
                arguments: match &c.arguments {
                    Some(a) => Some(a@),
                    None => None,
                },
            },
        }
    }
}

impl DeepView for InvokeCommand {
    type V = InvokeCommandView;

    open spec fn deep_view(&self) -> InvokeCommandView {
        self.view()
    }
}

/// The wire line of a command: a single JSON object, terminated by a
/// newline, with the arguments object embedded verbatim when present.
pub open spec fn spec_invoke_line(c: InvokeCommandView) -> Seq<u8> {
    match c {
        InvokeCommandView::Empty { execute } => encode_utf8("{\"execute\":"@)
            + spec_json_string_of(execute) + encode_utf8("}\n"@),
        InvokeCommandView::WithArgs { execute, arguments } => match arguments {
            Some(a) => encode_utf8("{\"execute\":"@) + spec_json_string_of(execute) + encode_utf8(
                ",\"arguments\":"@,
            ) + a + encode_utf8("}\n"@),
            None => encode_utf8("{\"execute\":"@) + spec_json_string_of(execute) + encode_utf8(
                "}\n"@,
            ),
        },
    }
}

/// The arguments object of the display-password command.
pub open spec fn spec_vnc_password_args(password: Seq<char>) -> Seq<u8> {
    encode_utf8("{\"password\":"@) + spec_json_string_of(password) + encode_utf8(
        ",\"protocol\":\"vnc\"}"@,
    )
}

impl InvokeCommand {
    /// A command without arguments.
    pub fn empty(command: &str) -> (r: Self)
        ensures
            r@ == (InvokeCommandView::Empty { execute: command@ }),
    {
        InvokeCommand::Empty(EmptyCommand { execute: command.to_owned() })
    }

    /// A command with a pre-framed JSON arguments object.
    pub fn with_args(command: &str, arguments: Vec<u8>) -> (r: Self)
        ensures
            r@ == (InvokeCommandView::WithArgs {
                execute: command@,
                arguments: Some(arguments@),
            }),
    {
        InvokeCommand::WithArgs(
            CommandWithArgs { execute: command.to_owned(), arguments: Some(arguments) },
        )
    }

    /// The command setting the remote display's password.
    pub fn set_vnc_password(password: &str) -> (r: Self)
        ensures
            r@ == (InvokeCommandView::WithArgs {
                execute: "set_password"@,
                arguments: Some(spec_vnc_password_args(password@)),
            }),
    {
        let mut args: Vec<u8> = Vec::new();
        push_bytes(&mut args, "{\"password\":".as_bytes());
        push_json_string(&mut args, password);
        push_bytes(&mut args, ",\"protocol\":\"vnc\"}".as_bytes());
        proof {
            assert(args@ =~= spec_vnc_password_args(password@));
        }
        InvokeCommand::with_args("set_password", args)
    }

    /// The soft-reset command.
    pub fn reboot() -> (r: Self)
        ensures
            r@ == (InvokeCommandView::Empty { execute: "system_reset"@ }),
    {
        InvokeCommand::empty("system_reset")
    }

    /// The power-off command.
    pub fn quit() -> (r: Self)
        ensures
            r@ == (InvokeCommandView::Empty { execute: "quit"@ }),
    {
        InvokeCommand::empty("quit")
    }

    /// The capability-negotiation command that completes the handshake.
    pub fn capabilities() -> (r: Self)
        ensures
            r@ == (InvokeCommandView::Empty { execute: "qmp_capabilities"@ }),
    {
        InvokeCommand::empty("qmp_capabilities")
    }

    /// The exact bytes this command puts on the wire.
    pub fn to_line(&self) -> (r: Vec<u8>)
        ensures
            r@ == spec_invoke_line(self@),
    {
        let mut out: Vec<u8> = Vec::new();
        match self {
            InvokeCommand::Empty(c) => {
                push_bytes(&mut out, "{\"execute\":".as_bytes());
                push_json_string(&mut out, c.execute.as_str());
                push_bytes(&mut out, "}\n".as_bytes());
            },
            InvokeCommand::WithArgs(c) => {
                push_bytes(&mut out, "{\"execute\":".as_bytes());
                push_json_string(&mut out, c.execute.as_str());
                match &c.arguments {
                    Some(a) => {
                        push_bytes(&mut out, ",\"arguments\":".as_bytes());
                        push_bytes(&mut out, a.as_slice());
                        push_bytes(&mut out, "}\n".as_bytes());
                    },
                    None => {
                        push_bytes(&mut out, "}\n".as_bytes());
                    },
                }
            },
        }
        proof {
            assert(out@ =~= spec_invoke_line(self@));
        }
        out
    }
}

/// An unsolicited event, by name.
#[derive(Debug)]
pub struct Event {
    pub event: String,
}

/// The error object a failed command carries.
#[derive(Debug)]
pub struct CommandError {
    pub class: String,
    pub desc: String,
}

/// The response to one command, delivered as the raw line it arrived in.
#[derive(Debug)]
pub struct CommandResponse {
    pub raw: Vec<u8>,
}

impl View for CommandResponse {
    type V = Seq<u8>;

    open spec fn view(&self) -> Seq<u8> {
        self.raw@
    }
}

/// The three shapes a line from the server can take, plus everything
/// else, which is fatal to the session.
#[derive(Debug, Clone, Copy, PartialEq, Eq, Structural)]
pub enum LineShape {
    /// The one-time greeting that opens the handshake.
    Greeting,
    /// An unsolicited event; never satisfies a pending command.
    Event,
    /// The response to the single in-flight command.
    Reply,
    /// Not a JSON object of any known shape.
    Malformed,
}

/// What the top-level keys of a line's JSON object are, in the order the
/// parser yields them, as UTF-8 bytes; `None` when the line is not a
/// JSON object. A function of the line alone.
pub uninterp spec fn json_keys_of(line: Seq<u8>) -> Option<Seq<Seq<u8>>>;

/// Relies on serde_json::from_slice with serde_json::Map: parses the
/// line as a JSON object and hands back its top-level keys, or `None`
/// when the line is not a JSON object.
#[verifier::external_body]
fn json_object_keys(line: &[u8]) -> (r: Option<Vec<Vec<u8>>>)
    ensures
        r matches Some(ks) <==> json_keys_of(line@) is Some,
        r matches Some(ks) ==> ks.deep_view() == json_keys_of(line@)->Some_0,
{
    serde_json::from_slice::<serde_json::Map<String, serde_json::Value>>(line).ok().map(
        |m| m.keys().map(|k| k.clone().into_bytes()).collect(),
    )
}

/// Whether one of the keys is exactly `k`.
pub open spec fn keys_contain(ks: Seq<Seq<u8>>, k: Seq<u8>) -> bool {
    exists|i: int| 0 <= i < ks.len() && ks[i] == k
}

/// The shape of a line, decided by its top-level keys: a greeting
/// carries the protocol banner key, otherwise an event key makes it an
/// event, otherwise a return key makes it a response; anything else —
/// including a line that is no JSON object — is malformed.
pub open spec fn spec_classify(keys: Option<Seq<Seq<u8>>>) -> LineShape {
    match keys {
        None => LineShape::Malformed,
        Some(ks) => if keys_contain(ks, encode_utf8("QMP"@)) {
            LineShape::Greeting
        } else if keys_contain(ks, encode_utf8("event"@)) {
            LineShape::Event
        } else if keys_contain(ks, encode_utf8("return"@)) {
            LineShape::Reply
        } else {
            LineShape::Malformed
        },
    }
}

fn bytes_eq(a: &[u8], b: &[u8]) -> (r: bool)
    ensures
        r == (a@ == b@),
{
    if a.len() != b.len() {
        proof {
            assert(a@.len() != b@.len());
        }
        return false;
    }
    let mut i: usize = 0;
    while i < a.len()
        invariant
            i <= a@.len(),
            a@.len() == b@.len(),
            forall|k: int| 0 <= k < i ==> a@[k] == b@[k],
        decreases a@.len() - i,
    {
        if a[i] != b[i] {
            return false;
        }
        i = i + 1;
    }
    proof {
        assert(a@ =~= b@);
    }
    true
}

fn keys_contain_exec(ks: &Vec<Vec<u8>>, k: &[u8]) -> (r: bool)
    ensures
        r == keys_contain(ks.deep_view(), k@),
{
    let mut i: usize = 0;
    while i < ks.len()
        invariant
            i <= ks.len(),
            forall|j: int| 0 <= j < i ==> ks.deep_view()[j] != k@,
        decreases ks.len() - i,
    {
        proof {
            assert(ks.deep_view()[i as int] =~= ks@[i as int]@);
        }
        if bytes_eq(ks[i].as_slice(), k) {
            proof {
                assert(ks.deep_view()[i as int] == k@);
            }
            return true;
        }
        i = i + 1;
    }
    false
}

/// Classifies one line from the server.
pub fn classify_line(line: &[u8]) -> (r: LineShape)
    ensures
        r == spec_classify(json_keys_of(line@)),
{
    match json_object_keys(line) {
        None => LineShape::Malformed,
        Some(ks) => {
            if keys_contain_exec(&ks, "QMP".as_bytes()) {
                LineShape::Greeting
            } else if keys_contain_exec(&ks, "event".as_bytes()) {
                LineShape::Event
            } else if keys_contain_exec(&ks, "return".as_bytes()) {
                LineShape::Reply
            } else {
                LineShape::Malformed
            }
        },
    }
}

} // verus!

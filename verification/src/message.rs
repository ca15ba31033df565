//! The wire protocol: one parsed client request, and the grammar that
//! produces it from a raw byte buffer.
//!
//! A request is ASCII text whose fields are separated by `|`, each field
//! terminated by a trailing `|`:
//!
//! ```text
//! request := "ADD" "|" key "|" type-tag "|" literal "|"
//!          | "GET" "|" key "|"
//!          | "DEL" "|" key "|"
//! ```

use vstd::prelude::*;
use vstd::pervasive::unreached;
use vstd::string::{StrSliceExecFns, StringSliceAdditionalSpecFns};
use vstd::utf8::{decode_utf8, encode_utf8, is_ascii_chars, is_ascii_chars_encode_utf8, valid_utf8};
use crate::channel::channel_send;
use crate::command::Command;
use crate::events::{Candidate, EventView, Search, TransmitterEvent};
use crate::item::{text_too_long, Item};
use crate::strutil::{int_of_str, parse_int_in, str_eq};
use crate::value::{Value, ValueView};
use crate::MAX_KEY_LEN;

verus! {

broadcast use vstd::string::group_string_axioms;

/// Why a raw request could not be parsed. The malformed request is discarded
/// whole; no error here is fatal to the caller.
#[derive(Debug, PartialEq, Eq, Structural, Clone, Copy)]
pub enum MessageParseError {
    /// The key field is longer than the store accepts.
    KeyNameTooLong,
    /// The request held no bytes at all.
    Empty,
    /// The bytes are not valid ASCII text.
    Encoding,
    /// The command token is not one of the recognized commands.
    Command,
    /// A field delimiter required by every request is missing.
    Malformed,
    /// An `ADD` request whose type tag or literal field is missing, or whose
    /// literal does not parse for its declared type.
    MalformedAdd,
}

/// Why a parsed message could not be submitted to the dispatcher.
#[derive(Debug, PartialEq, Eq, Structural, Clone, Copy)]
pub enum MessageSendError {
    Add,
    Get,
    Del,
}

/// One parsed client request: a command, a key, and an optional value.
#[derive(Debug, Clone, PartialEq)]
pub struct Message {
    pub command: Command,
    pub key: String,
    pub value: Option<Value>,
}

/// Mathematical model of a `Message`.
#[verifier::ext_equal]
pub struct MessageView {
    pub command: Command,
    pub key: Seq<char>,
    pub value: Option<ValueView>,
}

impl View for Message {
    type V = MessageView;

    open spec fn view(&self) -> MessageView {
        MessageView {
            command: self.command,
            key: self.key@,
            value: match self.value {
                Some(v) => Some(v@),
                None => None,
            },
        }
    }
}

/// The outcome of one parse: either a complete message, or an `ADD` whose
/// float literal still needs conversion to bits by the protocol boundary
/// (the store holds floats as bit patterns and does no floating-point work
/// itself; `Message::from_thin_float` and `Message::from_large_float` finish
/// the request).
#[derive(Debug, PartialEq)]
pub enum Parsed {
    Complete(Message),
    ThinFloatLiteral { key: String, literal: String },
    LargeFloatLiteral { key: String, literal: String },
}

/// The position of the first `|` delimiter.
pub open spec fn sp_delim(s: Seq<char>) -> Option<int>
    decreases s.len(),
{
    if s.len() == 0 {
        None
    } else if s[0] == '|' {
        Some(0int)
    } else {
        match sp_delim(s.drop_first()) {
            Some(i) => Some(i + 1),
            None => None,
        }
    }
}

/// Splits at the first delimiter: the field before it, and the rest after.
pub open spec fn sp_split(s: Seq<char>) -> Option<(Seq<char>, Seq<char>)> {
    match sp_delim(s) {
        Some(i) => Some((s.take(i), s.skip(i + 1))),
        None => None,
    }
}

proof fn lemma_sp_delim_some(s: Seq<char>, i: int)
    requires
        0 <= i < s.len(),
        s[i] == '|',
        forall|j: int| 0 <= j < i ==> s[j] != '|',
    ensures
        sp_delim(s) == Some(i),
    decreases i,
{
    if i > 0 {
        lemma_sp_delim_some(s.drop_first(), i - 1);
    }
}

proof fn lemma_sp_delim_none(s: Seq<char>)
    requires
        forall|j: int| 0 <= j < s.len() ==> s[j] != '|',
    ensures
        sp_delim(s) is None,
    decreases s.len(),
{
    if s.len() > 0 {
        lemma_sp_delim_none(s.drop_first());
    }
}

/// Splits off the field before the first delimiter, returning it together
/// with the remainder after the delimiter.
pub fn get_part<'a>(text: &'a str) -> (r: Option<(&'a str, &'a str)>)
    requires
        is_ascii_chars(text@),
    ensures
        match r {
            Some(p) => {
                &&& sp_split(text@) == Some((p.0@, p.1@))
                &&& is_ascii_chars(p.0@)
                &&& is_ascii_chars(p.1@)
            },
            None => sp_split(text@) is None,
        },
{
    proof {
        is_ascii_chars_encode_utf8(text@);
    }
    let b = text.as_bytes();
    let n = b.len();
    let mut i: usize = 0;
    while i < n
        invariant
            is_ascii_chars(text@),
            b@ == text.spec_bytes(),
            b@.len() == text@.len(),
            forall|j: int| 0 <= j < text@.len() ==> text@[j] as u8 == #[trigger] b@[j],
            n == b@.len(),
            0 <= i <= n,
            forall|j: int| 0 <= j < i ==> text@[j] != '|',
        decreases n - i,
    {
        if b[i] == 124 {
            proof {
                assert(text@[i as int] == '|');
                lemma_sp_delim_some(text@, i as int);
            }
            let left = text.substring_ascii(0, i);
            let right = text.substring_ascii(i + 1, n);
            proof {
                assert(left@ =~= text@.take(i as int));
                assert(right@ =~= text@.skip(i as int + 1));
            }
            return Some((left, right));
        }
        proof {
            assert(text@[i as int] != '|');
        }
        i = i + 1;
    }
    proof {
        lemma_sp_delim_none(text@);
    }
    None
}

/// True when `r` is a complete message with exactly these parts.
pub open spec fn complete_msg(
    r: Result<Parsed, MessageParseError>,
    cmd: Command,
    key: Seq<char>,
    val: Option<ValueView>,
) -> bool {
    match r {
        Ok(Parsed::Complete(m)) => m@.command == cmd && m@.key == key && m@.value == val,
        _ => false,
    }
}

/// What a correct parse of an `ADD` request's value fields yields.
pub open spec fn add_value_post(
    key: Seq<char>,
    tag: Seq<char>,
    lit: Seq<char>,
    r: Result<Parsed, MessageParseError>,
) -> bool {
    if tag == "s"@ {
        complete_msg(r, Command::Add, key, Some(ValueView::Text(lit)))
    } else if tag == "i8"@ {
        match int_of_str(lit) {
            Some(n) => if -128 <= n <= 127 {
                complete_msg(r, Command::Add, key, Some(ValueView::ThinNumber(n as i8)))
            } else {
                r == Err::<Parsed, MessageParseError>(MessageParseError::MalformedAdd)
            },
            None => r == Err::<Parsed, MessageParseError>(MessageParseError::MalformedAdd),
        }
    } else if tag == "i16"@ {
        match int_of_str(lit) {
            Some(n) => if -32768 <= n <= 32767 {
                complete_msg(r, Command::Add, key, Some(ValueView::MidNumber(n as i16)))
            } else {
                r == Err::<Parsed, MessageParseError>(MessageParseError::MalformedAdd)
            },
            None => r == Err::<Parsed, MessageParseError>(MessageParseError::MalformedAdd),
        }
    } else if tag == "i32"@ {
        match int_of_str(lit) {
            Some(n) => if -2147483648 <= n <= 2147483647 {
                complete_msg(r, Command::Add, key, Some(ValueView::LargeNumber(n as i32)))
            } else {
                r == Err::<Parsed, MessageParseError>(MessageParseError::MalformedAdd)
            },
            None => r == Err::<Parsed, MessageParseError>(MessageParseError::MalformedAdd),
        }
    } else if tag == "l"@ {
        if lit == "true"@ {
            complete_msg(r, Command::Add, key, Some(ValueView::Logical(true)))
        } else if lit == "false"@ {
            complete_msg(r, Command::Add, key, Some(ValueView::Logical(false)))
        } else {
            r == Err::<Parsed, MessageParseError>(MessageParseError::MalformedAdd)
        }
    } else if tag == "f32"@ {
        match r {
            Ok(Parsed::ThinFloatLiteral { key: k, literal: l }) => k@ == key && l@ == lit,
            _ => false,
        }
    } else if tag == "f64"@ {
        match r {
            Ok(Parsed::LargeFloatLiteral { key: k, literal: l }) => k@ == key && l@ == lit,
            _ => false,
        }
    } else {
        complete_msg(r, Command::Add, key, None)
    }
}

/// What a correct parse yields for the decoded request text `s`. The
/// command token is classified before the key is even examined, so an
/// unrecognized command wins over any fault in the fields after it.
pub open spec fn parse_post(s: Seq<char>, r: Result<Parsed, MessageParseError>) -> bool {
    match sp_split(s) {
        None => r == Err::<Parsed, MessageParseError>(MessageParseError::Malformed),
        Some((cmd, rest)) => if cmd != "ADD"@ && cmd != "GET"@ && cmd != "DEL"@ {
            r == Err::<Parsed, MessageParseError>(MessageParseError::Command)
        } else {
            match sp_split(rest) {
                None => r == Err::<Parsed, MessageParseError>(MessageParseError::Malformed),
                Some((key, rest2)) => if key.len() > MAX_KEY_LEN {
                    r == Err::<Parsed, MessageParseError>(MessageParseError::KeyNameTooLong)
                } else if cmd == "ADD"@ {
                    match sp_split(rest2) {
                        None => r == Err::<Parsed, MessageParseError>(
                            MessageParseError::MalformedAdd,
                        ),
                        Some((tag, rest3)) => match sp_split(rest3) {
                            None => r == Err::<Parsed, MessageParseError>(
                                MessageParseError::MalformedAdd,
                            ),
                            Some((lit, _)) => add_value_post(key, tag, lit, r),
                        },
                    }
                } else if cmd == "GET"@ {
                    complete_msg(r, Command::Get, key, None)
                } else {
                    complete_msg(r, Command::Del, key, None)
                },
            }
        },
    }
}

/// Relies on `core::str::from_utf8`: it yields a string slice reading the
/// given bytes exactly when they are valid UTF-8.
#[verifier::external_body]
fn bytes_to_str(v: &[u8]) -> (r: Option<&str>)
    ensures
        r is Some <==> valid_utf8(v@),
        r matches Some(s) ==> s@ == decode_utf8(v@),
{
    core::str::from_utf8(v).ok()
}

impl Message {
    /// Assembles a message from its parts.
    pub fn new(command: Command, key: String, value: Option<Value>) -> (r: Message)
        ensures
            r == (Message { command, key, value }),
    {
        Message { command, key, value }
    }

    /// Parses one raw request according to the wire grammar. Strictly
    /// left-to-right: the command token is classified before the key is
    /// examined, a missing delimiter at a required split point rejects the
    /// whole request, and an `ADD` literal that does not parse for its
    /// declared type is rejected rather than substituted.
    pub fn try_from(value: &[u8]) -> (r: Result<Parsed, MessageParseError>)
        ensures
            value@.len() == 0 ==> r == Err::<Parsed, MessageParseError>(MessageParseError::Empty),
            value@.len() > 0 && !valid_utf8(value@) ==> r == Err::<Parsed, MessageParseError>(
                MessageParseError::Encoding,
            ),
            value@.len() > 0 && valid_utf8(value@) && !is_ascii_chars(decode_utf8(value@)) ==> r
                == Err::<Parsed, MessageParseError>(MessageParseError::Encoding),
            value@.len() > 0 && valid_utf8(value@) && is_ascii_chars(decode_utf8(value@))
                ==> parse_post(decode_utf8(value@), r),
    {
        if value.len() == 0 {
            return Err(MessageParseError::Empty);
        }
        let s = match bytes_to_str(value) {
            Some(s) => s,
            None => {
                return Err(MessageParseError::Encoding);
            },
        };
        if !s.is_ascii() {
            return Err(MessageParseError::Encoding);
        }
        let (command_tok, after_command) = match get_part(s) {
            Some(p) => p,
            None => {
                return Err(MessageParseError::Malformed);
            },
        };
        let is_add = str_eq(command_tok, "ADD");
        let is_get = str_eq(command_tok, "GET");
        let is_del = str_eq(command_tok, "DEL");
        if !is_add && !is_get && !is_del {
            return Err(MessageParseError::Command);
        }
        let (key_tok, after_key) = match get_part(after_command) {
            Some(p) => p,
            None => {
                return Err(MessageParseError::Malformed);
            },
        };
        if key_tok.unicode_len() > MAX_KEY_LEN {
            return Err(MessageParseError::KeyNameTooLong);
        }
        if is_add {
            let (tag, after_tag) = match get_part(after_key) {
                Some(p) => p,
                None => {
                    return Err(MessageParseError::MalformedAdd);
                },
            };
            let (lit, _after_lit) = match get_part(after_tag) {
                Some(p) => p,
                None => {
                    return Err(MessageParseError::MalformedAdd);
                },
            };
            if str_eq(tag, "s") {
                Ok(Parsed::Complete(Message::new(
                    Command::Add,
                    key_tok.to_owned(),
                    Some(Value::Text(lit.to_owned())),
                )))
            } else if str_eq(tag, "i8") {
                match parse_int_in(lit, -128, 127) {
                    Some(v) => Ok(Parsed::Complete(Message::new(
                        Command::Add,
                        key_tok.to_owned(),
                        Some(Value::ThinNumber(v as i8)),
                    ))),
                    None => Err(MessageParseError::MalformedAdd),
                }
            } else if str_eq(tag, "i16") {
                match parse_int_in(lit, -32768, 32767) {
                    Some(v) => Ok(Parsed::Complete(Message::new(
                        Command::Add,
                        key_tok.to_owned(),
                        Some(Value::MidNumber(v as i16)),
                    ))),
                    None => Err(MessageParseError::MalformedAdd),
                }
            } else if str_eq(tag, "i32") {
                match parse_int_in(lit, -2147483648, 2147483647) {
                    Some(v) => Ok(Parsed::Complete(Message::new(
                        Command::Add,
                        key_tok.to_owned(),
                        Some(Value::LargeNumber(v as i32)),
                    ))),
                    None => Err(MessageParseError::MalformedAdd),
                }
            } else if str_eq(tag, "l") {
                if str_eq(lit, "true") {
                    Ok(Parsed::Complete(Message::new(
                        Command::Add,
                        key_tok.to_owned(),
                        Some(Value::Logical(true)),
                    )))
                } else if str_eq(lit, "false") {
                    Ok(Parsed::Complete(Message::new(
                        Command::Add,
                        key_tok.to_owned(),
                        Some(Value::Logical(false)),
                    )))
                } else {
                    Err(MessageParseError::MalformedAdd)
                }
            } else if str_eq(tag, "f32") {
                Ok(Parsed::ThinFloatLiteral { key: key_tok.to_owned(), literal: lit.to_owned() })
            } else if str_eq(tag, "f64") {
                Ok(Parsed::LargeFloatLiteral { key: key_tok.to_owned(), literal: lit.to_owned() })
            } else {
                Ok(Parsed::Complete(Message::new(Command::Add, key_tok.to_owned(), None)))
            }
        } else if is_get {
            Ok(Parsed::Complete(Message::new(Command::Get, key_tok.to_owned(), None)))
        } else {
            Ok(Parsed::Complete(Message::new(Command::Del, key_tok.to_owned(), None)))
        }
    }

    /// The inbound command this message stands for: an `Add` becomes an
    /// insert command carrying a freshly built entry with the message's key
    /// and value, a `Get` a lookup command for the message's key, and `Del`
    /// no command at all, as the dispatcher does not implement deletion
    /// yet. An `Add` must carry a value within the length bounds.
    pub fn to_event(self) -> (ev: Option<TransmitterEvent>)
        requires
            self@.command == Command::Add ==> match self@.value {
                Some(v) => encode_utf8(self@.key).len() <= MAX_KEY_LEN && !text_too_long(v),
                None => false,
            },
        ensures
            self@.command == Command::Add ==> match ev {
                Some(e) => match e@ {
                    EventView::AddNewItem(it) => it.key == self@.key && Some(it.value)
                        == self@.value && it.uuid != 0,
                    _ => false,
                },
                None => false,
            },
            self@.command == Command::Get ==> match ev {
                Some(e) => e@ == EventView::GetItem(self@.key),
                None => false,
            },
            self@.command == Command::Del ==> ev is None,
    {
        match self.command {
            Command::Add => {
                let value = match self.value {
                    Some(v) => v,
                    None => unreached(),
                };
                let object = match Item::new(self.key, value) {
                    Ok(it) => it,
                    Err(_) => unreached(),
                };
                Some(TransmitterEvent::AddNewItem(Candidate { object }))
            },
            Command::Get => Some(TransmitterEvent::GetItem(Search { key: self.key })),
            Command::Del => None,
        }
    }

    /// Submits this message to the dispatcher's inbound channel. The
    /// command handed over is exactly `to_event`'s; `Del` gives none and is
    /// acknowledged without work. The result reports whether the command
    /// was delivered, which the receiving side decides.
    pub fn send(self, event: &crossbeam::channel::Sender<TransmitterEvent>) -> (r: Result<
        u8,
        MessageSendError,
    >)
        requires
            self@.command == Command::Add ==> match self@.value {
                Some(v) => encode_utf8(self@.key).len() <= MAX_KEY_LEN && !text_too_long(v),
                None => false,
            },
        ensures
            self@.command == Command::Del ==> r == Ok::<u8, MessageSendError>(1),
            r matches Ok(v) ==> v == 1,
            r matches Err(e) ==> (self@.command == Command::Add && e == MessageSendError::Add) || (
            self@.command == Command::Get && e == MessageSendError::Get),
    {
        let command = self.command;
        match self.to_event() {
            Some(ev) => {
                if channel_send(event, ev) {
                    Ok(1)
                } else {
                    match command {
                        Command::Add => Err(MessageSendError::Add),
                        Command::Get => Err(MessageSendError::Get),
                        Command::Del => unreached(),
                    }
                }
            },
            None => Ok(1),
        }
    }

    /// Finishes an `ADD` whose literal was declared a 32-bit float, from the
    /// bits the protocol boundary converted the literal to (`None` when the
    /// literal did not parse as such a float).
    pub fn from_thin_float(key: String, bits: Option<u32>) -> (r: Result<Message, MessageParseError>)
        ensures
            match bits {
                Some(b) => match r {
                    Ok(m) => m@.command == Command::Add && m@.key == key@ && m@.value == Some(
                        ValueView::ThinFloat(b),
                    ),
                    Err(_) => false,
                },
                None => r == Err::<Message, MessageParseError>(MessageParseError::MalformedAdd),
            },
    {
        match bits {
            Some(b) => Ok(Message::new(Command::Add, key, Some(Value::ThinFloat(b)))),
            None => Err(MessageParseError::MalformedAdd),
        }
    }

    /// Finishes an `ADD` whose literal was declared a 64-bit float, from the
    /// bits the protocol boundary converted the literal to.
    pub fn from_large_float(key: String, bits: Option<u64>) -> (r: Result<
        Message,
        MessageParseError,
    >)
        ensures
            match bits {
                Some(b) => match r {
                    Ok(m) => m@.command == Command::Add && m@.key == key@ && m@.value == Some(
                        ValueView::LargeFloat(b),
                    ),
                    Err(_) => false,
                },
                None => r == Err::<Message, MessageParseError>(MessageParseError::MalformedAdd),
            },
    {
        match bits {
            Some(b) => Ok(Message::new(Command::Add, key, Some(Value::LargeFloat(b)))),
            None => Err(MessageParseError::MalformedAdd),
        }
    }
}

} // verus!

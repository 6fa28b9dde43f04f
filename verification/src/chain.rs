//! The handlers, the chain they form and the steps of a resolution.

use crate::args::{argument, argument_values, value_of};
use crate::json::{json_document, parse_json, search, JsonNode};
use vstd::prelude::*;
use vstd::string::StringExecFns;

verus! {

/// The one piece of outside information that a handler needs.
pub enum Request {
    /// The value of the environment variable `name`.
    Variable { name: String },
    /// The text of the file at `path`, to be handed out as it is.
    PlainFile { path: String },
    /// The text of the file at `path`, to be searched as a JSON document.
    JsonFile { path: String },
}

/// A `Request` as contracts see it.
pub enum Wanted {
    Variable { name: Seq<char> },
    PlainFile { path: Seq<char> },
    JsonFile { path: Seq<char> },
}

impl View for Request {
    type V = Wanted;

    open spec fn view(&self) -> Wanted {
        match self {
            Request::Variable { name } => Wanted::Variable { name: name@ },
            Request::PlainFile { path } => Wanted::PlainFile { path: path@ },
            Request::JsonFile { path } => Wanted::JsonFile { path: path@ },
        }
    }
}

/// The state outside the program that a resolution may consult: the
/// environment variables that are set, and the text of each file that can be
/// read.
pub struct Ambient {
    pub variables: Map<Seq<char>, Seq<char>>,
    pub files: Map<Seq<char>, Seq<char>>,
}

impl Ambient {
    /// The answer that this state gives to `wanted`: `None` for a variable
    /// that is not set and for a file that cannot be read.
    pub open spec fn reply(self, wanted: Wanted) -> Option<Seq<char>> {
        match wanted {
            Wanted::Variable { name } => value_of(self.variables, name),
            Wanted::PlainFile { path } => value_of(self.files, path),
            Wanted::JsonFile { path } => value_of(self.files, path),
        }
    }
}

impl Wanted {
    /// The value that the asking handler draws from `reply`.
    ///
    /// A variable's value and a plain file's text are the value, unchanged.
    /// The text of a JSON file is parsed and searched for `key`. No reply,
    /// text that does not parse and a document without the key give no value.
    pub open spec fn value_from(self, key: Seq<char>, reply: Option<Seq<char>>) -> Option<Seq<char>> {
        match self {
            Wanted::Variable { .. } => reply,
            Wanted::PlainFile { .. } => reply,
            Wanted::JsonFile { .. } => match reply {
                Some(text) => found_in(json_document(text), key),
                None => None,
            },
        }
    }
}

/// The result of searching a parsed document, where there is one.
pub open spec fn found_in(document: Option<JsonNode>, key: Seq<char>) -> Option<Seq<char>> {
    match document {
        Some(node) => node.find_key(key),
        None => None,
    }
}

impl Request {
    /// Draws the asking handler's value from `reply`, the outcome of the
    /// outside work: `None` where the variable is not set or the file could
    /// not be read.
    pub fn value_from(&self, key: &str, reply: Option<String>) -> (value: Option<String>)
        ensures
            value.deep_view() == self@.value_from(key@, reply.deep_view()),
    {
        match self {
            Request::Variable { .. } => reply,
            Request::PlainFile { .. } => reply,
            Request::JsonFile { .. } => match reply {
                Some(text) => match parse_json(text.as_str()) {
                    Some(document) => JSONFileHandler::find_key_recursive(&document, key),
                    None => None,
                },
                None => None,
            },
        }
    }
}

/// A link of the chain: it answers a request for a key, or names the outside
/// information that it needs first.
pub trait Handler {
    /// Where a resolution of `key` that starts here first stops: at the
    /// first handler that needs outside information, or at the final answer
    /// where the handlers before that settle it.
    spec fn first_stop<'h>(&'h self, key: Seq<char>) -> Stop<'h>;

    /// Starts a resolution of `key` at this handler.
    fn handle_request<'h>(&'h self, key: &str) -> (outcome: Outcome<'h>)
        ensures
            outcome@ == self.first_stop(key@),
    ;
}

/// Looks the key up among the parsed command-line arguments.
pub struct ArgHandler<'a> {
    pub args: &'a clap::ArgMatches,
    pub next: Option<Box<AnyHandler<'a>>>,
}

/// Looks up the environment variable named by the prefix, if any, followed
/// by the key.
pub struct EnvHandler<'a> {
    pub prefix: Option<String>,
    pub next: Option<Box<AnyHandler<'a>>>,
}

/// Hands out the whole text of a file, whatever the key.
pub struct FileHandler<'a> {
    pub file_path: String,
    pub next: Option<Box<AnyHandler<'a>>>,
}

/// Searches a JSON file for the key.
pub struct JSONFileHandler<'a> {
    pub file_handler: FileHandler<'a>,
}

/// Hands out a fixed value, whatever the key. Nothing follows it.
pub struct DefaultHandler {
    pub value: String,
}

/// Any one of the handlers: a link of the chain.
pub enum AnyHandler<'a> {
    Argument(ArgHandler<'a>),
    Environment(EnvHandler<'a>),
    File(FileHandler<'a>),
    JsonFile(JSONFileHandler<'a>),
    Default(DefaultHandler),
}

/// Where a resolution stands, as contracts see it.
pub enum Stop<'a> {
    /// The chain has answered: a value, or none.
    Resolved(Option<Seq<char>>),
    /// A handler needs the answer to a request; the second field is the
    /// handler that follows it, if any.
    Pending(Wanted, Option<AnyHandler<'a>>),
}

/// Where a resolution stands.
pub enum Outcome<'h> {
    /// The chain has answered: a value, or none.
    Resolved(Option<String>),
    /// A handler needs the answer to `request`; `rest` is the handler that
    /// follows it, if any.
    Pending { request: Request, rest: Option<&'h AnyHandler<'h>> },
}

impl<'h> View for Outcome<'h> {
    type V = Stop<'h>;

    open spec fn view(&self) -> Stop<'h> {
        match self {
            Outcome::Resolved(value) => Stop::Resolved(value.deep_view()),
            Outcome::Pending { request, rest } => Stop::Pending(
                request@,
                match rest {
                    Some(handler) => Some(**handler),
                    None => None,
                },
            ),
        }
    }
}

impl<'a> Stop<'a> {
    /// Where the resolution stands once `reply` has answered the pending
    /// request: at the asking handler's value where the reply gives one,
    /// else at the first stop of the handlers that follow. A resolution
    /// that has ended stays where it is.
    pub open spec fn resume(self, key: Seq<char>, reply: Option<Seq<char>>) -> Stop<'a> {
        match self {
            Stop::Resolved(value) => Stop::Resolved(value),
            Stop::Pending(wanted, rest) => match wanted.value_from(key, reply) {
                Some(value) => Stop::Resolved(Some(value)),
                None => first_stop_of(rest, key),
            },
        }
    }

    /// The value that the resolution ends with when every request from here
    /// on is answered by `ambient`.
    pub open spec fn settle(self, key: Seq<char>, ambient: Ambient) -> Option<Seq<char>> {
        match self {
            Stop::Resolved(value) => value,
            Stop::Pending(wanted, rest) => match wanted.value_from(key, ambient.reply(wanted)) {
                Some(value) => Some(value),
                None => match rest {
                    Some(handler) => handler.resolution(key, ambient),
                    None => None,
                },
            },
        }
    }

    /// The most requests that may still have to be answered before the
    /// resolution ends: one for each handler from the asking one on.
    pub open spec fn requests_left(self) -> nat {
        match self {
            Stop::Resolved(_) => 0,
            Stop::Pending(_, rest) => match rest {
                Some(handler) => 1 + handler.length(),
                None => 1,
            },
        }
    }

    /// A value is certain from here on: the resolution has ended with one,
    /// or the handlers still to come end in a default.
    pub open spec fn answer_assured(self) -> bool {
        match self {
            Stop::Resolved(value) => value.is_some(),
            Stop::Pending(_, rest) => match rest {
                Some(handler) => handler.ends_in_default(),
                None => false,
            },
        }
    }
}

impl<'h> Outcome<'h> {
    /// The rule of the chain: a handler whose own source gave `value` ends
    /// the resolution with it; one whose source gave nothing hands the
    /// request for `key` on to `rest`, and where nothing follows the
    /// resolution ends without a value.
    pub fn answer_or_go_on(
        value: Option<String>,
        rest: Option<&'h AnyHandler<'h>>,
        key: &str,
    ) -> (outcome: Outcome<'h>)
        ensures
            outcome@ == match value {
                Some(text) => Stop::Resolved(Some(text@)),
                None => match rest {
                    Some(handler) => handler.first_stop(key@),
                    None => Stop::Resolved(None),
                },
            },
        decreases rest,
    {
        match value {
            Some(text) => Outcome::Resolved(Some(text)),
            None => match rest {
                Some(handler) => handler.handle_request(key),
                None => Outcome::Resolved(None),
            },
        }
    }

    /// Goes on with the resolution of `key` after the outside work: `reply`
    /// is the answer to the pending request, `None` where the variable is
    /// not set or the file could not be read.
    pub fn resume(self, key: &str, reply: Option<String>) -> (outcome: Outcome<'h>)
        ensures
            outcome@ == self@.resume(key@, reply.deep_view()),
    {
        match self {
            Outcome::Resolved(value) => Outcome::Resolved(value),
            Outcome::Pending { request, rest } => {
                let value = request.value_from(key, reply);
                Outcome::answer_or_go_on(value, rest, key)
            },
        }
    }
}

/// The handler inside an optional box.
pub open spec fn following<'a>(next: Option<Box<AnyHandler<'a>>>) -> Option<AnyHandler<'a>> {
    match next {
        Some(handler) => Some(*handler),
        None => None,
    }
}

/// Where the chain that starts at `handler` first stops for `key`; an empty
/// chain has no value to give.
pub open spec fn first_stop_of<'a>(handler: Option<AnyHandler<'a>>, key: Seq<char>) -> Stop<'a> {
    match handler {
        Some(handler) => handler.first_stop(key),
        None => Stop::Resolved(None),
    }
}

/// A reference to the handler inside an optional box.
fn borrow_next<'h>(next: &'h Option<Box<AnyHandler<'h>>>) -> (rest: Option<&'h AnyHandler<'h>>)
    ensures
        match rest {
            Some(handler) => following(*next) == Some(*handler),
            None => following(*next).is_none(),
        },
{
    match next {
        Some(handler) => Some(&**handler),
        None => None,
    }
}

impl<'a> AnyHandler<'a> {
    /// The handler that follows this one, if any.
    pub open spec fn next(&self) -> Option<AnyHandler<'a>> {
        match self {
            AnyHandler::Argument(h) => following(h.next),
            AnyHandler::Environment(h) => following(h.next),
            AnyHandler::File(h) => following(h.next),
            AnyHandler::JsonFile(h) => following(h.file_handler.next),
            AnyHandler::Default(_) => None,
        }
    }

    /// The outside information that this handler needs for `key`; `None`
    /// for a handler that answers from what it holds.
    pub open spec fn wanted(&self, key: Seq<char>) -> Option<Wanted> {
        match self {
            AnyHandler::Argument(_) => None,
            AnyHandler::Environment(h) => Some(h.wanted(key)),
            AnyHandler::File(h) => Some(h.wanted()),
            AnyHandler::JsonFile(h) => Some(h.wanted()),
            AnyHandler::Default(_) => None,
        }
    }

    /// The value that this handler's own source gives for `key`, whatever
    /// follows the handler.
    pub open spec fn own_value(&self, key: Seq<char>, ambient: Ambient) -> Option<Seq<char>> {
        match self {
            AnyHandler::Argument(h) => h.value(key),
            AnyHandler::Default(h) => Some(h.value@),
            _ => match self.wanted(key) {
                Some(wanted) => wanted.value_from(key, ambient.reply(wanted)),
                None => None,
            },
        }
    }

    /// The value that the chain starting here gives for `key`: that of the
    /// first handler whose own source has one.
    pub open spec fn resolution(&self, key: Seq<char>, ambient: Ambient) -> Option<Seq<char>>
        decreases self,
    {
        match self.own_value(key, ambient) {
            Some(value) => Some(value),
            None => match self.next() {
                Some(handler) => handler.resolution(key, ambient),
                None => None,
            },
        }
    }

    /// This handler with `next` in place of what follows it. Nothing
    /// follows a default.
    pub open spec fn with_next(self, next: Option<Box<AnyHandler<'a>>>) -> AnyHandler<'a> {
        match self {
            AnyHandler::Argument(h) => AnyHandler::Argument(ArgHandler { args: h.args, next }),
            AnyHandler::Environment(h) => AnyHandler::Environment(EnvHandler { prefix: h.prefix, next }),
            AnyHandler::File(h) => AnyHandler::File(FileHandler { file_path: h.file_path, next }),
            AnyHandler::JsonFile(h) => AnyHandler::JsonFile(
                JSONFileHandler { file_handler: FileHandler { file_path: h.file_handler.file_path, next } },
            ),
            AnyHandler::Default(h) => AnyHandler::Default(h),
        }
    }

    /// The last handler of the chain is a default.
    pub open spec fn ends_in_default(&self) -> bool
        decreases self,
    {
        match self {
            AnyHandler::Default(_) => true,
            _ => match self.next() {
                Some(handler) => handler.ends_in_default(),
                None => false,
            },
        }
    }

    /// The number of handlers in the chain that starts here.
    pub open spec fn length(&self) -> nat
        decreases self,
    {
        match self.next() {
            Some(handler) => 1 + handler.length(),
            None => 1,
        }
    }

    /// Some handler of the chain asks for `wanted` when `key` is resolved.
    pub open spec fn asks(&self, key: Seq<char>, wanted: Wanted) -> bool
        decreases self,
    {
        self.wanted(key) == Some(wanted) || match self.next() {
            Some(handler) => handler.asks(key, wanted),
            None => false,
        }
    }
}

impl<'a> Handler for AnyHandler<'a> {
    open spec fn first_stop<'h>(&'h self, key: Seq<char>) -> Stop<'h>
        decreases self,
    {
        match self {
            AnyHandler::Argument(h) => h.first_stop(key),
            AnyHandler::Environment(h) => h.first_stop(key),
            AnyHandler::File(h) => h.first_stop(key),
            AnyHandler::JsonFile(h) => h.first_stop(key),
            AnyHandler::Default(h) => h.first_stop(key),
        }
    }

    fn handle_request<'h>(&'h self, key: &str) -> (outcome: Outcome<'h>)
        decreases self,
    {
        match self {
            AnyHandler::Argument(h) => h.handle_request(key),
            AnyHandler::Environment(h) => h.handle_request(key),
            AnyHandler::File(h) => h.handle_request(key),
            AnyHandler::JsonFile(h) => h.handle_request(key),
            AnyHandler::Default(h) => h.handle_request(key),
        }
    }
}

impl<'a> ArgHandler<'a> {
    /// A handler that looks keys up in `args` and hands on to `next`.
    pub fn new(args: &'a clap::ArgMatches, next: Option<Box<AnyHandler<'a>>>) -> (handler: Self)
        ensures
            handler.args == args,
            handler.next == next,
    {
        ArgHandler { args, next }
    }

    /// The string value that the command line gave for `key`, if any.
    pub open spec fn value(&self, key: Seq<char>) -> Option<Seq<char>> {
        value_of(argument_values(*self.args), key)
    }
}

impl<'a> Handler for ArgHandler<'a> {
    /// The argument's value where the command line gave one, else the first
    /// stop of what follows.
    open spec fn first_stop<'h>(&'h self, key: Seq<char>) -> Stop<'h>
        decreases self,
    {
        match self.value(key) {
            Some(value) => Stop::Resolved(Some(value)),
            None => match self.next {
                Some(handler) => handler.first_stop(key),
                None => Stop::Resolved(None),
            },
        }
    }

    fn handle_request<'h>(&'h self, key: &str) -> (outcome: Outcome<'h>)
        decreases self,
    {
        let value = argument(self.args, key);
        Outcome::answer_or_go_on(value, borrow_next(&self.next), key)
    }
}

impl<'a> EnvHandler<'a> {
    /// A handler that looks up the variable named like the key and hands on
    /// to `next`.
    pub fn new(next: Option<Box<AnyHandler<'a>>>) -> (handler: Self)
        ensures
            handler.prefix.is_none(),
            handler.next == next,
    {
        EnvHandler { prefix: None, next }
    }

    /// The same handler with `prefix` put before every key.
    pub fn prefix(self, prefix: &str) -> (handler: Self)
        ensures
            handler.prefix.deep_view() == Some(prefix@),
            handler.next == self.next,
    {
        EnvHandler { prefix: Some(prefix.to_owned()), next: self.next }
    }

    /// The name of the variable that is looked up for `key`.
    pub open spec fn variable_name(&self, key: Seq<char>) -> Seq<char> {
        match self.prefix {
            Some(prefix) => prefix@ + key,
            None => key,
        }
    }

    /// What this handler asks for when `key` is resolved.
    pub open spec fn wanted(&self, key: Seq<char>) -> Wanted {
        Wanted::Variable { name: self.variable_name(key) }
    }

}

impl<'a> Handler for EnvHandler<'a> {
    /// Asks for the variable named by the prefix and `key`.
    open spec fn first_stop<'h>(&'h self, key: Seq<char>) -> Stop<'h> {
        Stop::Pending(self.wanted(key), following(self.next))
    }

    fn handle_request<'h>(&'h self, key: &str) -> (outcome: Outcome<'h>) {
        let name = match &self.prefix {
            Some(prefix) => prefix.clone().concat(key),
            None => key.to_owned(),
        };
        Outcome::Pending { request: Request::Variable { name }, rest: borrow_next(&self.next) }
    }
}

impl<'a> FileHandler<'a> {
    /// A handler that hands out the text of the file at `file_path` and
    /// hands on to `next` where the file cannot be read.
    pub fn new(file_path: &str, next: Option<Box<AnyHandler<'a>>>) -> (handler: Self)
        ensures
            handler.file_path@ == file_path@,
            handler.next == next,
    {
        FileHandler { file_path: file_path.to_owned(), next }
    }

    /// What this handler asks for, whatever the key.
    pub open spec fn wanted(&self) -> Wanted {
        Wanted::PlainFile { path: self.file_path@ }
    }

}

impl<'a> Handler for FileHandler<'a> {
    /// Asks for the text of the file.
    open spec fn first_stop<'h>(&'h self, key: Seq<char>) -> Stop<'h> {
        Stop::Pending(self.wanted(), following(self.next))
    }

    fn handle_request<'h>(&'h self, key: &str) -> (outcome: Outcome<'h>) {
        Outcome::Pending {
            request: Request::PlainFile { path: self.file_path.clone() },
            rest: borrow_next(&self.next),
        }
    }
}

impl<'a> JSONFileHandler<'a> {
    /// A handler that searches the JSON file at `file_path` and hands on to
    /// `next` where the file cannot be read, is not JSON or lacks the key.
    pub fn new(file_path: &str, next: Option<Box<AnyHandler<'a>>>) -> (handler: Self)
        ensures
            handler.file_handler.file_path@ == file_path@,
            handler.file_handler.next == next,
    {
        JSONFileHandler { file_handler: FileHandler::new(file_path, next) }
    }

    /// What this handler asks for, whatever the key.
    pub open spec fn wanted(&self) -> Wanted {
        Wanted::JsonFile { path: self.file_handler.file_path@ }
    }

    /// Searches a parsed document for `key`: an object's own member of that
    /// name first, then its member values in order; an array's elements in
    /// order; depth first, stopping at the first hit.
    pub fn find_key_recursive(json_value: &JsonNode, key: &str) -> (found: Option<String>)
        ensures
            found.deep_view() == json_value.find_key(key@),
    {
        let name = key.to_owned();
        search(json_value, &name)
    }

}

impl<'a> Handler for JSONFileHandler<'a> {
    /// Asks for the text of the file, to be searched as a JSON document.
    open spec fn first_stop<'h>(&'h self, key: Seq<char>) -> Stop<'h> {
        Stop::Pending(self.wanted(), following(self.file_handler.next))
    }

    fn handle_request<'h>(&'h self, key: &str) -> (outcome: Outcome<'h>) {
        Outcome::Pending {
            request: Request::JsonFile { path: self.file_handler.file_path.clone() },
            rest: borrow_next(&self.file_handler.next),
        }
    }
}

impl DefaultHandler {
    /// A handler that answers every key with `value`.
    pub fn new(value: &str) -> (handler: Self)
        ensures
            handler.value@ == value@,
    {
        DefaultHandler { value: value.to_owned() }
    }

}

impl Handler for DefaultHandler {
    /// Answers with the fixed value.
    open spec fn first_stop<'h>(&'h self, key: Seq<char>) -> Stop<'h> {
        Stop::Resolved(Some(self.value@))
    }

    fn handle_request<'h>(&'h self, key: &str) -> (outcome: Outcome<'h>) {
        Outcome::Resolved(Some(self.value.clone()))
    }
}

} // verus!

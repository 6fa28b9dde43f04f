//! What holds of every chain and of every resolution.

use crate::chain::{following, Ambient, AnyHandler, Handler, JSONFileHandler, Stop, Wanted};
use crate::json::{found_iff_present, json_document, JsonNode};
use vstd::prelude::*;

verus! {

/// The first answer wins: where a handler's own source has a value for
/// `key`, the chain's result is that value, whatever follows the handler.
pub proof fn first_answer_wins(handler: AnyHandler, other: Option<Box<AnyHandler>>, key: Seq<char>, ambient: Ambient)
    requires
        handler.own_value(key, ambient).is_some(),
    ensures
        handler.resolution(key, ambient) == handler.own_value(key, ambient),
        handler.with_next(other).resolution(key, ambient) == handler.own_value(key, ambient),
{
    assert(handler.with_next(other).own_value(key, ambient) == handler.own_value(key, ambient));
}

/// A handler whose own source has no value for `key` hands the request on:
/// the chain's result is that of the handlers that follow, and no value
/// where none follows.
pub proof fn no_answer_delegates(handler: AnyHandler, key: Seq<char>, ambient: Ambient)
    requires
        handler.own_value(key, ambient).is_none(),
    ensures
        handler.resolution(key, ambient) == match handler.next() {
            Some(rest) => rest.resolution(key, ambient),
            None => None,
        },
{
}

/// A JSON file that nowhere holds the key gives no value: where the file's
/// text parses to `document` and no object of `document` has a member
/// called `key`, the request goes on to the handlers that follow, and ends
/// without a value where none follows.
pub proof fn missing_key_delegates(
    handler: JSONFileHandler,
    key: Seq<char>,
    ambient: Ambient,
    text: Seq<char>,
    document: JsonNode,
)
    ensures
        ambient.reply(handler.wanted()) == Some(text) && json_document(text) == Some(document)
            && !document.holds_key(key) ==> AnyHandler::JsonFile(handler).resolution(key, ambient)
            == match following(handler.file_handler.next) {
            Some(rest) => rest.resolution(key, ambient),
            None => None,
        },
{
    found_iff_present(document, key);
}

/// A chain that ends in a default has a value for every key, whatever the
/// state outside.
pub proof fn default_always_answers(handler: AnyHandler, key: Seq<char>, ambient: Ambient)
    requires
        handler.ends_in_default(),
    ensures
        handler.resolution(key, ambient).is_some(),
    decreases handler,
{
    if handler.own_value(key, ambient).is_none() {
        match handler.next() {
            Some(rest) => default_always_answers(rest, key, ambient),
            None => {},
        }
    }
}

/// In a chain that ends in a default a resolution never stops without a
/// value in reach.
pub proof fn default_assures_first_stop(handler: AnyHandler, key: Seq<char>)
    requires
        handler.ends_in_default(),
    ensures
        handler.first_stop(key).answer_assured(),
    decreases handler,
{
    match handler {
        AnyHandler::Argument(h) => {
            match handler.next() {
                Some(rest) => default_assures_first_stop(rest, key),
                None => {},
            }
        },
        _ => {},
    }
}

/// Once a value is in reach it stays in reach, whatever the outside work
/// answers.
pub proof fn resume_keeps_assurance(stop: Stop, key: Seq<char>, reply: Option<Seq<char>>)
    requires
        stop.answer_assured(),
    ensures
        stop.resume(key, reply).answer_assured(),
{
    match stop {
        Stop::Pending(_, Some(rest)) => default_assures_first_stop(rest, key),
        _ => {},
    }
}

/// Stopping loses nothing: the value that a resolution ends with from its
/// first stop is the chain's value.
pub proof fn first_stop_settles(handler: AnyHandler, key: Seq<char>, ambient: Ambient)
    ensures
        handler.first_stop(key).settle(key, ambient) == handler.resolution(key, ambient),
    decreases handler,
{
    match handler {
        AnyHandler::Argument(h) => {
            match handler.next() {
                Some(rest) => first_stop_settles(rest, key, ambient),
                None => {},
            }
        },
        _ => {},
    }
}

/// Going on loses nothing: where the pending request is answered as the
/// state outside answers it, the resolution ends with the same value after
/// the step as before it.
pub proof fn resume_settles(stop: Stop, key: Seq<char>, ambient: Ambient)
    ensures
        match stop {
            Stop::Resolved(_) => true,
            Stop::Pending(wanted, _) => stop.resume(key, ambient.reply(wanted)).settle(key, ambient)
                == stop.settle(key, ambient),
        },
{
    match stop {
        Stop::Pending(_, Some(rest)) => first_stop_settles(rest, key, ambient),
        _ => {},
    }
}

/// A resolution never has more requests before it than the chain has
/// handlers.
pub proof fn first_stop_within_length(handler: AnyHandler, key: Seq<char>)
    ensures
        handler.first_stop(key).requests_left() <= handler.length(),
    decreases handler,
{
    match handler {
        AnyHandler::Argument(h) => {
            match handler.next() {
                Some(rest) => first_stop_within_length(rest, key),
                None => {},
            }
        },
        _ => {},
    }
}

/// Every answer brings the end nearer: a resolution ends after at most as
/// many requests as the chain has handlers.
pub proof fn resume_makes_progress(stop: Stop, key: Seq<char>, reply: Option<Seq<char>>)
    requires
        stop is Pending,
    ensures
        stop.resume(key, reply).requests_left() < stop.requests_left(),
{
    match stop {
        Stop::Pending(_, Some(rest)) => first_stop_within_length(rest, key),
        _ => {},
    }
}

/// The result depends on nothing but the answers to the chain's own
/// requests: two states outside that answer each of them alike give the
/// same value. In particular a resolution repeated while nothing outside
/// has changed gives the same value again.
pub proof fn same_answers_same_value(handler: AnyHandler, key: Seq<char>, first: Ambient, second: Ambient)
    requires
        forall|wanted: Wanted| #[trigger] handler.asks(key, wanted) ==> first.reply(wanted) == second.reply(wanted),
    ensures
        handler.resolution(key, first) == handler.resolution(key, second),
    decreases handler,
{
    match handler.wanted(key) {
        Some(wanted) => {
            assert(handler.asks(key, wanted));
        },
        None => {},
    }
    assert(handler.own_value(key, first) == handler.own_value(key, second));
    match handler.next() {
        Some(rest) => {
            assert forall|wanted: Wanted| #[trigger] rest.asks(key, wanted) implies first.reply(wanted)
                == second.reply(wanted) by {
                assert(handler.asks(key, wanted));
            }
            same_answers_same_value(rest, key, first, second);
        },
        None => {},
    }
}

} // verus!

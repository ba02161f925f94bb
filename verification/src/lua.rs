//! Entries written in Lua: a script sets a global `module` table whose `entry` field
//! is the entry's table (or a function that returns it). The table's `push`, `read`
//! and `call` functions answer for the entry.
//!
//! Running Lua code may end the process or never return, so the Lua calls are made by
//! the program around this library; here stands what it decides from their results.
//! `T`, `F`, `S` and `X` are the Lua state's tables, functions, strings and errors.
use vstd::prelude::*;

use crate::entry::{Invoke, Read, ReadView};
use crate::toml_model::string_eq_str;

verus! {

/// A Lua value, told apart as far as the entry logic needs.
pub enum LuaValue<T, F, S> {
    Table(T),
    Function(F),
    Str(S),
    Other,
}

/// Why a script gave no entry.
pub enum LuaLoadError<X> {
    /// Lua raised this error.
    Lua(X),
    /// No global `module` table.
    NoModuleTable,
    /// `module.entry()` did not return a table.
    EntryNotTable,
    /// `module.entry` is neither a table nor a function.
    EntryInvalid,
}

impl<X> LuaLoadError<X> {
    /// The text of the error, for the three that the loader raises itself.
    pub fn message(&self) -> (m: Option<&'static str>)
        ensures
            self is Lua <==> m is None,
            self is NoModuleTable ==> m == Some("no global module table found"),
            self is EntryNotTable ==> m == Some("module.entry() did not return a table"),
            self is EntryInvalid ==> m == Some("module.entry not found or invalid"),
    {
        match self {
            LuaLoadError::Lua(_) => None,
            LuaLoadError::NoModuleTable => Some("no global module table found"),
            LuaLoadError::EntryNotTable => Some("module.entry() did not return a table"),
            LuaLoadError::EntryInvalid => Some("module.entry not found or invalid"),
        }
    }
}

/// How loading goes on from what `module.entry` holds.
pub enum EntryStep<T, F, X> {
    /// This table is the entry.
    Ready(T),
    /// The entry is what this function returns.
    CallFor(F),
    /// Loading stops with this error.
    Stop(LuaLoadError<X>),
}

/// The global `module` table, from what the lookup of `module` gave: a table is it;
/// anything else means there is none.
pub fn module_table<T, F, S, X>(v: Result<LuaValue<T, F, S>, X>) -> (r: Result<T, LuaLoadError<X>>)
    ensures
        match v {
            Ok(LuaValue::Table(t)) => r == Ok::<T, LuaLoadError<X>>(t),
            Ok(_) => r matches Err(LuaLoadError::NoModuleTable),
            Err(e) => r == Err::<T, LuaLoadError<X>>(LuaLoadError::Lua(e)),
        },
{
    match v {
        Ok(LuaValue::Table(t)) => Ok(t),
        Ok(_) => Err(LuaLoadError::NoModuleTable),
        Err(e) => Err(LuaLoadError::Lua(e)),
    }
}

/// The next step, from what the lookup of `module.entry` gave: a table is the entry, a
/// function is called for it, anything else is refused.
pub fn entry_step<T, F, S, X>(v: Result<LuaValue<T, F, S>, X>) -> (r: EntryStep<T, F, X>)
    ensures
        match v {
            Ok(LuaValue::Table(t)) => r == EntryStep::<T, F, X>::Ready(t),
            Ok(LuaValue::Function(f)) => r == EntryStep::<T, F, X>::CallFor(f),
            Ok(_) => r matches EntryStep::Stop(LuaLoadError::EntryInvalid),
            Err(e) => r == EntryStep::<T, F, X>::Stop(LuaLoadError::Lua(e)),
        },
{
    match v {
        Ok(LuaValue::Table(t)) => EntryStep::Ready(t),
        Ok(LuaValue::Function(f)) => EntryStep::CallFor(f),
        Ok(_) => EntryStep::Stop(LuaLoadError::EntryInvalid),
        Err(e) => EntryStep::Stop(LuaLoadError::Lua(e)),
    }
}

/// The entry table, from what calling `module.entry()` gave: it must be a table.
pub fn called_entry<T, F, S, X>(v: Result<LuaValue<T, F, S>, X>) -> (r: Result<T, LuaLoadError<X>>)
    ensures
        match v {
            Ok(LuaValue::Table(t)) => r == Ok::<T, LuaLoadError<X>>(t),
            Ok(_) => r matches Err(LuaLoadError::EntryNotTable),
            Err(e) => r == Err::<T, LuaLoadError<X>>(LuaLoadError::Lua(e)),
        },
{
    match v {
        Ok(LuaValue::Table(t)) => Ok(t),
        Ok(_) => Err(LuaLoadError::EntryNotTable),
        Err(e) => Err(LuaLoadError::Lua(e)),
    }
}

/// What a `read` function answered, as plain values.
pub enum ReadReply {
    /// A table, with the text of its `title` and `description` fields where they have one.
    Row { title: Option<String>, description: Option<String> },
    /// A string, with its text when it is UTF-8.
    Text(Option<String>),
    /// Anything else, an error, or no `read` function.
    Nothing,
}

/// The text of an optional string, empty where there is none.
pub open spec fn text_or_empty(s: Option<String>) -> Seq<char> {
    match s {
        Some(t) => t@,
        None => Seq::empty(),
    }
}

/// The row that a `read` reply makes.
pub open spec fn reply_read(reply: ReadReply) -> Option<ReadView> {
    match reply {
        ReadReply::Row { title, description } => Some(
            ReadView { title: text_or_empty(title), description: text_or_empty(description) },
        ),
        ReadReply::Text(s) => Some(ReadView { title: text_or_empty(s), description: Seq::empty() }),
        ReadReply::Nothing => None,
    }
}

fn unwrap_text(s: Option<String>) -> (t: String)
    ensures
        t@ == text_or_empty(s),
{
    match s {
        Some(t) => t,
        None => String::new(),
    }
}

/// The row that `reply` makes: a table's title and description, a string's text as
/// the title; nothing for anything else.
pub fn read_from_reply(reply: ReadReply) -> (r: Option<Read>)
    ensures
        match (r, reply_read(reply)) {
            (Some(x), Some(v)) => x@ == v,
            (None, None) => true,
            _ => false,
        },
{
    match reply {
        ReadReply::Row { title, description } => Some(
            Read { title: unwrap_text(title), description: unwrap_text(description) },
        ),
        ReadReply::Text(s) => Some(Read { title: unwrap_text(s), description: String::new() }),
        ReadReply::Nothing => None,
    }
}

/// What a `call` function answered, as plain values.
pub enum CallReply<T> {
    /// A string, with its text when it is UTF-8.
    Word(Option<String>),
    /// A table: the entry to raise.
    Entry(T),
    /// Anything else, an error, or no `call` function.
    Nothing,
}

/// What a word answers: `leave` and `exit` say so; any other word stays.
pub enum WordAnswer {
    Leave,
    Exit,
    Remain,
}

pub open spec fn word_answer(w: Seq<char>) -> WordAnswer {
    if w == "leave"@ {
        WordAnswer::Leave
    } else if w == "exit"@ {
        WordAnswer::Exit
    } else {
        WordAnswer::Remain
    }
}

/// What `reply` asks: a word leaves, exits or stays (a string that is not UTF-8 asks
/// nothing); a table is the entry to raise. A Lua entry never asks to update the
/// input.
pub fn call_answer<T>(reply: CallReply<T>) -> (r: Option<Invoke<T>>)
    ensures
        match reply {
            CallReply::Word(None) => r is None,
            CallReply::Word(Some(w)) => match word_answer(w@) {
                WordAnswer::Leave => r matches Some(Invoke::Leave),
                WordAnswer::Exit => r matches Some(Invoke::Exit),
                WordAnswer::Remain => r matches Some(Invoke::Remain),
            },
            CallReply::Entry(t) => r == Some(Invoke::Raise(t)),
            CallReply::Nothing => r is None,
        },
        !(r matches Some(Invoke::Update(_))),
{
    match reply {
        CallReply::Word(None) => None,
        CallReply::Word(Some(w)) => {
            if string_eq_str(&w, "leave") {
                Some(Invoke::Leave)
            } else if string_eq_str(&w, "exit") {
                Some(Invoke::Exit)
            } else {
                Some(Invoke::Remain)
            }
        },
        CallReply::Entry(t) => Some(Invoke::Raise(t)),
        CallReply::Nothing => None,
    }
}

} // verus!

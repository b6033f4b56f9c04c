//! The `umoka` commands: their names, their texts, and what each one does
//! to the store once its arguments have been read.

use vstd::prelude::*;

use crate::cache::{insert_outcome, insertion_fits};
use crate::store::{get_or_put_outcome, incr_outcome, put_if_absent_outcome, Store, StoreStats};
use crate::value::StoredValue;

verus! {

/// An error that a command reports: a message, an optional hint, and the
/// text of the label that points at the call.
#[derive(Debug, Clone, Copy, PartialEq, Eq)]
pub struct CommandError {
    pub message: &'static str,
    pub help: Option<&'static str>,
    pub label: &'static str,
}

/// The error of a command that takes a value when it was given none.
pub open spec fn missing_value() -> CommandError {
    CommandError {
        message: "Missing value",
        help: Some("Pass a value as pipeline input or as the second positional argument."),
        label: "value required here",
    }
}

/// The error of a command that takes a value when it was given two.
pub open spec fn ambiguous_value() -> CommandError {
    CommandError {
        message: "Ambiguous value input",
        help: Some("Use either pipeline input or a positional value, not both."),
        label: "conflicting inputs",
    }
}

/// The error of `umoka` called without a subcommand.
pub open spec fn subcommand_required() -> CommandError {
    CommandError {
        message: "Subcommand required",
        help: Some("Use a subcommand such as `put`, `put-if-absent`, `get`, or `take`."),
        label: "subcommand missing here",
    }
}

/// The error of `umoka incr` on a value that is not an integer.
pub open spec fn integer_required() -> CommandError {
    CommandError {
        message: "Value is not an integer",
        help: Some("Use `umoka incr` only on integer values or on missing keys."),
        label: "integer value required here",
    }
}

/// The error of a command that finds the store's lock poisoned.
pub open spec fn store_unavailable() -> CommandError {
    CommandError { message: "UMoka store lock poisoned", help: None, label: "store unavailable" }
}

/// The value a command stores, from its pipeline input and its optional
/// positional value: exactly one of the two must be given, where an input
/// of `nothing` counts as none.
pub open spec fn value_input(input: StoredValue, positional: Option<StoredValue>) -> Result<StoredValue, CommandError> {
    match positional {
        None => if input is Nothing {
            Err(missing_value())
        } else {
            Ok(input)
        },
        Some(v) => if input is Nothing {
            Ok(v)
        } else {
            Err(ambiguous_value())
        },
    }
}

/// Picks the value a command stores from its pipeline input and its
/// optional positional value, as `value_input` says.
pub fn resolve_value_input(input: StoredValue, positional: Option<StoredValue>) -> (r: Result<StoredValue, CommandError>)
    ensures
        r == value_input(input, positional),
{
    let nothing = input.is_nothing();
    match positional {
        None => if nothing {
            Err(
                CommandError {
                    message: "Missing value",
                    help: Some("Pass a value as pipeline input or as the second positional argument."),
                    label: "value required here",
                },
            )
        } else {
            Ok(input)
        },
        Some(v) => if nothing {
            Ok(v)
        } else {
            Err(
                CommandError {
                    message: "Ambiguous value input",
                    help: Some("Use either pipeline input or a positional value, not both."),
                    label: "conflicting inputs",
                },
            )
        },
    }
}

/// The error to report when the store's lock is poisoned.
pub fn poison_error() -> (r: CommandError)
    ensures
        r == store_unavailable(),
{
    CommandError { message: "UMoka store lock poisoned", help: None, label: "store unavailable" }
}

/// The `umoka` command.
pub struct UMoka;

impl UMoka {
    /// The command's name as Nushell calls it.
    pub fn name(&self) -> (r: &'static str)
        ensures
            r@ == "umoka"@,
    {
        "umoka"
    }

    /// One line on what the command does.
    pub fn description(&self) -> (r: &'static str)
        ensures
            r@ == "A bounded in-memory key to value store."@,
    {
        "A bounded in-memory key to value store."
    }

    /// Where to look for the subcommands.
    pub fn extra_description(&self) -> (r: &'static str)
        ensures
            r@ == "Run `help umoka put` or `help umoka get` for subcommands."@,
    {
        "Run `help umoka put` or `help umoka get` for subcommands."
    }

    /// `umoka` alone does nothing but report that a subcommand is needed.
    pub fn run(&self) -> (r: CommandError)
        ensures
            r == subcommand_required(),
    {
        CommandError {
            message: "Subcommand required",
            help: Some("Use a subcommand such as `put`, `put-if-absent`, `get`, or `take`."),
            label: "subcommand missing here",
        }
    }
}

/// The `umoka put` command.
pub struct Put;

impl Put {
    /// The command's name as Nushell calls it.
    pub fn name(&self) -> (r: &'static str)
        ensures
            r@ == "umoka put"@,
    {
        "umoka put"
    }

    /// One line on what the command does.
    pub fn description(&self) -> (r: &'static str)
        ensures
            r@ == "Store a value under a key."@,
    {
        "Store a value under a key."
    }

    /// Stores the value given (see `value_input`) under `key`, and returns
    /// it. Without exactly one value given, the store is left as it is and
    /// the input error is returned.
    pub fn run(
        &self,
        store: &mut Store,
        key: String,
        input: StoredValue,
        positional: Option<StoredValue>,
    ) -> (r: Result<StoredValue, CommandError>)
        requires
            value_input(input, positional) is Ok ==> insertion_fits(old(store)@, old(store).capacity(), key@),
        ensures
            final(store).capacity() == old(store).capacity(),
            r == value_input(input, positional),
            r matches Ok(v) ==> insert_outcome(old(store)@, old(store).capacity(), key@, v, final(store)@),
            r is Err ==> final(store)@ == old(store)@,
    {
        let value = resolve_value_input(input, positional)?;
        store.put(key, value.clone());
        Ok(value)
    }
}

/// The `umoka put-if-absent` command.
pub struct PutIfAbsent;

impl PutIfAbsent {
    /// The command's name as Nushell calls it.
    pub fn name(&self) -> (r: &'static str)
        ensures
            r@ == "umoka put-if-absent"@,
    {
        "umoka put-if-absent"
    }

    /// One line on what the command does.
    pub fn description(&self) -> (r: &'static str)
        ensures
            r@ == "Store a value only if the key is missing."@,
    {
        "Store a value only if the key is missing."
    }

    /// Stores the value given (see `value_input`) under `key` unless the key
    /// is present; returns whether it stored, and the value now under the
    /// key. Without exactly one value given, the store is left as it is and
    /// the input error is returned.
    pub fn run(
        &self,
        store: &mut Store,
        key: String,
        input: StoredValue,
        positional: Option<StoredValue>,
    ) -> (r: Result<(bool, StoredValue), CommandError>)
        requires
            value_input(input, positional) is Ok ==> insertion_fits(old(store)@, old(store).capacity(), key@),
        ensures
            final(store).capacity() == old(store).capacity(),
            value_input(input, positional) matches Err(e) ==> r == Err::<(bool, StoredValue), CommandError>(e)
                && final(store)@ == old(store)@,
            value_input(input, positional) matches Ok(v) ==> r matches Ok(out) && put_if_absent_outcome(
                old(store)@,
                old(store).capacity(),
                key@,
                v,
                out,
                final(store)@,
            ),
    {
        let value = resolve_value_input(input, positional)?;
        Ok(store.put_if_absent(key, value))
    }
}

/// The `umoka get` command.
pub struct Get;

impl Get {
    /// The command's name as Nushell calls it.
    pub fn name(&self) -> (r: &'static str)
        ensures
            r@ == "umoka get"@,
    {
        "umoka get"
    }

    /// One line on what the command does.
    pub fn description(&self) -> (r: &'static str)
        ensures
            r@ == "Get a value by key."@,
    {
        "Get a value by key."
    }

    /// The value under `key`, or `nothing` (at the call's span) if there is none.
    pub fn run(&self, store: &mut Store, key: &str, head: nu_protocol::Span) -> (r: StoredValue)
        ensures
            final(store).capacity() == old(store).capacity(),
            final(store)@ == old(store)@,
            r == (if old(store)@.contains_key(key@) {
                old(store)@[key@]
            } else {
                StoredValue::Nothing { span: head }
            }),
    {
        match store.get(key) {
            Some(v) => v,
            None => StoredValue::Nothing { span: head },
        }
    }
}

/// The `umoka get-or-put` command.
pub struct GetOrPut;

impl GetOrPut {
    /// The command's name as Nushell calls it.
    pub fn name(&self) -> (r: &'static str)
        ensures
            r@ == "umoka get-or-put"@,
    {
        "umoka get-or-put"
    }

    /// One line on what the command does.
    pub fn description(&self) -> (r: &'static str)
        ensures
            r@ == "Return the existing value for a key, or store and return a fallback."@,
    {
        "Return the existing value for a key, or store and return a fallback."
    }

    /// The value under `key`; if there is none, stores the value given (see
    /// `value_input`) there and returns it. Without exactly one value given,
    /// the store is left as it is and the input error is returned.
    pub fn run(
        &self,
        store: &mut Store,
        key: String,
        input: StoredValue,
        positional: Option<StoredValue>,
    ) -> (r: Result<StoredValue, CommandError>)
        requires
            value_input(input, positional) is Ok ==> insertion_fits(old(store)@, old(store).capacity(), key@),
        ensures
            final(store).capacity() == old(store).capacity(),
            value_input(input, positional) matches Err(e) ==> r == Err::<StoredValue, CommandError>(e)
                && final(store)@ == old(store)@,
            value_input(input, positional) matches Ok(v) ==> r matches Ok(out) && get_or_put_outcome(
                old(store)@,
                old(store).capacity(),
                key@,
                v,
                out,
                final(store)@,
            ),
    {
        let value = resolve_value_input(input, positional)?;
        Ok(store.get_or_put(key, value))
    }
}

/// The `umoka take` command.
pub struct Take;

impl Take {
    /// The command's name as Nushell calls it.
    pub fn name(&self) -> (r: &'static str)
        ensures
            r@ == "umoka take"@,
    {
        "umoka take"
    }

    /// One line on what the command does.
    pub fn description(&self) -> (r: &'static str)
        ensures
            r@ == "Get and delete a value by key."@,
    {
        "Get and delete a value by key."
    }

    /// Removes the entry under `key` and returns its value, or `nothing`
    /// (at the call's span) if there was none.
    pub fn run(&self, store: &mut Store, key: &str, head: nu_protocol::Span) -> (r: StoredValue)
        ensures
            final(store).capacity() == old(store).capacity(),
            final(store)@ == old(store)@.remove(key@),
            r == (if old(store)@.contains_key(key@) {
                old(store)@[key@]
            } else {
                StoredValue::Nothing { span: head }
            }),
    {
        match store.take(key) {
            Some(v) => v,
            None => StoredValue::Nothing { span: head },
        }
    }
}

/// The `umoka delete` command.
pub struct Delete;

impl Delete {
    /// The command's name as Nushell calls it.
    pub fn name(&self) -> (r: &'static str)
        ensures
            r@ == "umoka delete"@,
    {
        "umoka delete"
    }

    /// One line on what the command does.
    pub fn description(&self) -> (r: &'static str)
        ensures
            r@ == "Delete a value by key."@,
    {
        "Delete a value by key."
    }

    /// Removes the entry under `key`; returns whether there was one.
    pub fn run(&self, store: &mut Store, key: &str) -> (r: bool)
        ensures
            final(store).capacity() == old(store).capacity(),
            final(store)@ == old(store)@.remove(key@),
            r == old(store)@.contains_key(key@),
    {
        store.delete(key)
    }
}

/// The `umoka has` command.
pub struct Has;

impl Has {
    /// The command's name as Nushell calls it.
    pub fn name(&self) -> (r: &'static str)
        ensures
            r@ == "umoka has"@,
    {
        "umoka has"
    }

    /// One line on what the command does.
    pub fn description(&self) -> (r: &'static str)
        ensures
            r@ == "Check whether a key exists."@,
    {
        "Check whether a key exists."
    }

    /// Whether an entry is held under `key`.
    pub fn run(&self, store: &mut Store, key: &str) -> (r: bool)
        ensures
            final(store).capacity() == old(store).capacity(),
            final(store)@ == old(store)@,
            r == old(store)@.contains_key(key@),
    {
        store.has(key)
    }
}

/// The `umoka clear` command.
pub struct Clear;

impl Clear {
    /// The command's name as Nushell calls it.
    pub fn name(&self) -> (r: &'static str)
        ensures
            r@ == "umoka clear"@,
    {
        "umoka clear"
    }

    /// One line on what the command does.
    pub fn description(&self) -> (r: &'static str)
        ensures
            r@ == "Delete all entries."@,
    {
        "Delete all entries."
    }

    /// Removes every entry, and answers `true`.
    pub fn run(&self, store: &mut Store) -> (r: bool)
        ensures
            final(store).capacity() == old(store).capacity(),
            final(store)@ == Map::<Seq<char>, StoredValue>::empty(),
            r,
    {
        store.clear();
        true
    }
}

/// The `umoka incr` command.
pub struct Incr;

impl Incr {
    /// The command's name as Nushell calls it.
    pub fn name(&self) -> (r: &'static str)
        ensures
            r@ == "umoka incr"@,
    {
        "umoka incr"
    }

    /// One line on what the command does.
    pub fn description(&self) -> (r: &'static str)
        ensures
            r@ == "Atomically increment an integer value by key."@,
    {
        "Atomically increment an integer value by key."
    }

    /// Adds `delta` (1 when it is not given) to the integer under `key`, as
    /// `Store::incr` does, and returns the new integer.
    pub fn run(&self, store: &mut Store, key: String, delta: Option<i64>, head: nu_protocol::Span) -> (r: Result<i64, CommandError>)
        requires
            insertion_fits(old(store)@, old(store).capacity(), key@),
        ensures
            final(store).capacity() == old(store).capacity(),
            ({
                let d = match delta {
                    Some(d) => d,
                    None => 1i64,
                };
                match r {
                    Ok(n) => incr_outcome(old(store)@, old(store).capacity(), key@, d, head, Ok(n), final(store)@),
                    Err(e) => e == integer_required() && incr_outcome(
                        old(store)@,
                        old(store).capacity(),
                        key@,
                        d,
                        head,
                        Err("Value is not an integer"),
                        final(store)@,
                    ),
                }
            }),
    {
        let d: i64 = match delta {
            Some(d) => d,
            None => 1,
        };
        match store.incr(key, d, head) {
            Ok(n) => Ok(n),
            Err(message) => Err(
                CommandError {
                    message,
                    help: Some("Use `umoka incr` only on integer values or on missing keys."),
                    label: "integer value required here",
                },
            ),
        }
    }
}

/// The `umoka stats` command.
pub struct Stats;

impl Stats {
    /// The command's name as Nushell calls it.
    pub fn name(&self) -> (r: &'static str)
        ensures
            r@ == "umoka stats"@,
    {
        "umoka stats"
    }

    /// One line on what the command does.
    pub fn description(&self) -> (r: &'static str)
        ensures
            r@ == "Show store statistics."@,
    {
        "Show store statistics."
    }

    /// The number of entries held and the store's capacity.
    pub fn run(&self, store: &mut Store) -> (r: StoreStats)
        ensures
            final(store)@ == old(store)@,
            final(store).capacity() == old(store).capacity(),
            r.entry_count == old(store)@.len(),
            r.max_capacity == #[verifier::truncate] (old(store).capacity() as i64),
    {
        store.stats()
    }
}

} // verus!

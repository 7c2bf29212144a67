//! Notifications that the debugger sends unasked, as plain values, and what
//! a stop notification says about where execution stands.

use vstd::prelude::*;

verus! {

/// A value of a notification: text, a mapping from names to values, or a
/// list of values.
#[derive(Debug)]
pub enum Value {
    Const(String),
    Tuple(Vec<(String, Value)>),
    List(Vec<Value>),
}

/// The kind of a structured notification.
#[derive(Clone, Copy, Debug, PartialEq, Eq)]
pub enum AsyncKind {
    Exec,
    Status,
    Notify,
}

/// The class of a structured notification: a stop, or any other class under
/// its name.
#[derive(Debug)]
pub enum AsyncClass {
    Stopped,
    Other(String),
}

/// One notification. `payload` is the fields' raw text, kept for the log.
#[derive(Debug)]
pub enum OutOfBandRecord {
    StreamRecord { data: String },
    AsyncRecord { kind: AsyncKind, class: AsyncClass, payload: String, results: Vec<(String, Value)> },
}

/// What remains to be done after a notification was logged.
#[derive(Debug)]
pub enum RecordEffect {
    /// Nothing.
    Logged,
    /// Show the file at the zero-based line in the source pager.
    Show { path: String, line: usize },
    /// A stop notification without a usable `frame.fullname` and
    /// `frame.line`.
    Malformed,
}

/// The name of a kind, as the log shows it.
pub open spec fn kind_name(kind: AsyncKind) -> Seq<char> {
    match kind {
        AsyncKind::Exec => "Exec"@,
        AsyncKind::Status => "Status"@,
        AsyncKind::Notify => "Notify"@,
    }
}

/// The name of a class, as the log shows it.
pub open spec fn class_name(class: AsyncClass) -> Seq<char> {
    match class {
        AsyncClass::Stopped => "Stopped"@,
        AsyncClass::Other(name) => name@,
    }
}

impl AsyncKind {
    /// The name of the kind, as the log shows it.
    pub fn name(&self) -> (name: &'static str)
        ensures
            name@ == kind_name(*self),
    {
        match self {
            AsyncKind::Exec => "Exec",
            AsyncKind::Status => "Status",
            AsyncKind::Notify => "Notify",
        }
    }
}

impl AsyncClass {
    /// The name of the class, as the log shows it.
    pub fn name(&self) -> (name: String)
        ensures
            name@ == class_name(*self),
    {
        match self {
            AsyncClass::Stopped => "Stopped".to_owned(),
            AsyncClass::Other(name) => name.clone(),
        }
    }
}

/// The value of the first field with the given name.
pub open spec fn lookup(fields: Seq<(String, Value)>, name: Seq<char>) -> Option<Value>
    decreases fields.len(),
{
    if fields.len() == 0 {
        None
    } else if fields[0].0@ == name {
        Some(fields[0].1)
    } else {
        lookup(fields.subrange(1, fields.len() as int), name)
    }
}

/// The texts of `frame.fullname` and `frame.line`, where `frame` is a mapping
/// and both are texts.
pub open spec fn stop_fields(results: Seq<(String, Value)>) -> Option<(Seq<char>, Seq<char>)> {
    match lookup(results, "frame"@) {
        Some(Value::Tuple(frame)) => match (
            lookup(frame@, "fullname"@),
            lookup(frame@, "line"@),
        ) {
            (Some(Value::Const(path)), Some(Value::Const(line))) => Some((path@, line@)),
            _ => None,
        },
        _ => None,
    }
}

/// What a stop at `path` asks for, given the one-based line number read from
/// the notification: the zero-based line, if there is a number and it is at
/// least one.
pub open spec fn stop_effect(path: Seq<char>, number: Option<usize>, effect: RecordEffect) -> bool {
    match number {
        Some(n) if n >= 1 => effect matches RecordEffect::Show { path: p, line } && p@ == path
            && line == n - 1,
        _ => effect is Malformed,
    }
}

/// What `str::parse::<usize>` makes of a text.
pub uninterp spec fn parsed_number(text: Seq<char>) -> Option<usize>;

/// `str::parse::<usize>`: the number that the text denotes, if it denotes one
/// that fits.
#[verifier::external_body]
fn parse_number(text: &str) -> (number: Option<usize>)
    ensures
        number == parsed_number(text@),
{
    text.parse::<usize>().ok()
}

/// Finds the first field with the given name.
pub fn find_field<'a>(fields: &'a Vec<(String, Value)>, name: &str) -> (found: Option<&'a Value>)
    ensures
        match found {
            Some(value) => lookup(fields@, name@) == Some(*value),
            None => lookup(fields@, name@) is None,
        },
{
    let wanted = name.to_owned();
    let mut i: usize = 0;
    assert(fields@.subrange(0, fields@.len() as int) =~= fields@);
    while i < fields.len()
        invariant
            i <= fields.len(),
            wanted@ == name@,
            lookup(fields@, name@) == lookup(fields@.subrange(i as int, fields@.len() as int), name@),
        decreases fields.len() - i,
    {
        let ghost rest = fields@.subrange(i as int, fields@.len() as int);
        if fields[i].0 == wanted {
            assert(rest[0] == fields@[i as int]);
            return Some(&fields[i].1);
        }
        assert(rest.subrange(1, rest.len() as int) =~= fields@.subrange(
            i as int + 1,
            fields@.len() as int,
        ));
        i = i + 1;
    }
    None
}

/// Reads the file and the line text of a stop notification.
pub fn stop_location(results: &Vec<(String, Value)>) -> (location: Option<(String, String)>)
    ensures
        match location {
            Some((path, line)) => stop_fields(results@) == Some((path@, line@)),
            None => stop_fields(results@) is None,
        },
{
    match find_field(results, "frame") {
        Some(Value::Tuple(frame)) => {
            match (find_field(frame, "fullname"), find_field(frame, "line")) {
                (Some(Value::Const(path)), Some(Value::Const(line))) => Some(
                    (path.clone(), line.clone()),
                ),
                _ => None,
            }
        },
        _ => None,
    }
}

/// Turns the one-based line number of a stop into what is to be shown.
pub fn stop_target(path: String, number: Option<usize>) -> (effect: RecordEffect)
    ensures
        stop_effect(path@, number, effect),
{
    match number {
        Some(n) => {
            if n >= 1 {
                RecordEffect::Show { path, line: n - 1 }
            } else {
                RecordEffect::Malformed
            }
        },
        None => RecordEffect::Malformed,
    }
}

/// What a stop notification with the given fields asks for.
pub fn stop_request(results: &Vec<(String, Value)>) -> (effect: RecordEffect)
    ensures
        match stop_fields(results@) {
            Some((path, line)) => stop_effect(path, parsed_number(line), effect),
            None => effect is Malformed,
        },
{
    match stop_location(results) {
        Some((path, line)) => stop_target(path, parse_number(line.as_str())),
        None => RecordEffect::Malformed,
    }
}

} // verus!

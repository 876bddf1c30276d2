//! Small validated values shared by jobs and runs.
use std::str::FromStr;

use vstd::prelude::*;

use crate::outside;
use crate::text::{contains_char, decimal, push_decimal, push_text};

verus! {

// ---------------------------------------------------------------------------------------------
// Errors
// ---------------------------------------------------------------------------------------------
/// Why a small value was refused.
#[derive(Clone, Copy, Debug, PartialEq, Eq)]
pub enum PrimitiveError {
    /// The text holds a NUL character.
    ContainsNul { field: &'static str },
    /// The text has too many characters.
    TooLong { field: &'static str, maximum: usize },
    /// The counter is zero.
    Zero { field: &'static str },
    /// The counter has no successor.
    Overflow { field: &'static str },
    /// The instant is not one that can be represented.
    TimestampRange,
}

/// The message of a refused value.
pub open spec fn primitive_message(error: PrimitiveError) -> Seq<char> {
    match error {
        PrimitiveError::ContainsNul { field } => field@ + " cannot contain NUL"@,
        PrimitiveError::TooLong { field, maximum } => field@ + " is longer than "@ + decimal(
            maximum as nat,
        ) + " Unicode scalar values"@,
        PrimitiveError::Zero { field } => field@ + " must be greater than zero"@,
        PrimitiveError::Overflow { field } => field@ + " overflowed"@,
        PrimitiveError::TimestampRange => "timestamp is outside the supported range"@,
    }
}

impl PrimitiveError {
    /// The error as a message.
    pub fn to_string(&self) -> (text: String)
        ensures
            text@ == primitive_message(*self),
    {
        let mut out = String::new();
        match self {
            PrimitiveError::ContainsNul { field } => {
                push_text(&mut out, field);
                push_text(&mut out, " cannot contain NUL");
            },
            PrimitiveError::TooLong { field, maximum } => {
                push_text(&mut out, field);
                push_text(&mut out, " is longer than ");
                push_decimal(&mut out, *maximum as u64);
                push_text(&mut out, " Unicode scalar values");
            },
            PrimitiveError::Zero { field } => {
                push_text(&mut out, field);
                push_text(&mut out, " must be greater than zero");
            },
            PrimitiveError::Overflow { field } => {
                push_text(&mut out, field);
                push_text(&mut out, " overflowed");
            },
            PrimitiveError::TimestampRange => {
                push_text(&mut out, "timestamp is outside the supported range");
            },
        }
        assert(out@ =~= primitive_message(*self));
        out
    }
}

// ---------------------------------------------------------------------------------------------
// Texts
// ---------------------------------------------------------------------------------------------
/// The longest name, in characters.
pub const MAX_NAME_CHARS: usize = 256;

/// The longest description, in characters.
pub const MAX_DESCRIPTION_CHARS: usize = 4096;

/// `text` holds no NUL and at most `maximum` characters.
pub open spec fn valid_text(text: Seq<char>, maximum: usize) -> bool {
    !text.contains('\0') && text.len() <= maximum
}

/// The message for a text that is no valid value of its field.
pub open spec fn text_message(text: Seq<char>, field: &'static str, maximum: usize) -> Seq<char> {
    if text.contains('\0') {
        primitive_message(PrimitiveError::ContainsNul { field })
    } else {
        primitive_message(PrimitiveError::TooLong { field, maximum })
    }
}

/// Hands back `value` if it holds no NUL and at most `maximum` characters.
pub fn validate_text(value: String, field: &'static str, maximum: usize) -> (r: Result<
    String,
    PrimitiveError,
>)
    ensures
        r == if value@.contains('\0') {
            Err::<String, PrimitiveError>(PrimitiveError::ContainsNul { field })
        } else if value@.len() > maximum {
            Err(PrimitiveError::TooLong { field, maximum })
        } else {
            Ok(value)
        },
{
    if contains_char(value.as_str(), '\0') {
        return Err(PrimitiveError::ContainsNul { field });
    }
    if value.as_str().unicode_len() > maximum {
        return Err(PrimitiveError::TooLong { field, maximum });
    }
    Ok(value)
}

/// The display name of a job: at most 256 characters, none of them NUL.
#[derive(Debug, PartialEq, Eq, PartialOrd, Ord, Hash)]
pub struct Name(String);

impl View for Name {
    type V = Seq<char>;

    closed spec fn view(&self) -> Seq<char> {
        self.0@
    }
}

impl Name {
    #[verifier::type_invariant]
    spec fn wf(self) -> bool {
        valid_text(self.0@, MAX_NAME_CHARS)
    }

    /// A name with the given text.
    pub fn new(value: String) -> (r: Result<Name, PrimitiveError>)
        ensures
            match r {
                Ok(name) => valid_text(value@, MAX_NAME_CHARS) && name@ == value@,
                Err(error) => if value@.contains('\0') {
                    error == (PrimitiveError::ContainsNul { field: "name" })
                } else {
                    value@.len() > MAX_NAME_CHARS && error == (PrimitiveError::TooLong {
                        field: "name",
                        maximum: MAX_NAME_CHARS,
                    })
                },
            },
    {
        match validate_text(value, "name", MAX_NAME_CHARS) {
            Ok(text) => Ok(Name(text)),
            Err(error) => Err(error),
        }
    }

    /// The text of the name.
    pub fn as_str(&self) -> (r: &str)
        ensures
            r@ == self@,
            valid_text(r@, MAX_NAME_CHARS),
    {
        proof {
            use_type_invariant(self);
        }
        self.0.as_str()
    }
}

impl Clone for Name {
    fn clone(&self) -> (r: Name)
        ensures
            r@ == self@,
    {
        proof {
            use_type_invariant(self);
        }
        Name(self.0.clone())
    }
}

/// A longer note on a job: at most 4096 characters, none of them NUL.
#[derive(Debug, PartialEq, Eq, PartialOrd, Ord, Hash)]
pub struct Description(String);

impl View for Description {
    type V = Seq<char>;

    closed spec fn view(&self) -> Seq<char> {
        self.0@
    }
}

impl Description {
    #[verifier::type_invariant]
    spec fn wf(self) -> bool {
        valid_text(self.0@, MAX_DESCRIPTION_CHARS)
    }

    /// A description with the given text.
    pub fn new(value: String) -> (r: Result<Description, PrimitiveError>)
        ensures
            match r {
                Ok(description) => valid_text(value@, MAX_DESCRIPTION_CHARS) && description@
                    == value@,
                Err(error) => if value@.contains('\0') {
                    error == (PrimitiveError::ContainsNul { field: "description" })
                } else {
                    value@.len() > MAX_DESCRIPTION_CHARS && error == (PrimitiveError::TooLong {
                        field: "description",
                        maximum: MAX_DESCRIPTION_CHARS,
                    })
                },
            },
    {
        match validate_text(value, "description", MAX_DESCRIPTION_CHARS) {
            Ok(text) => Ok(Description(text)),
            Err(error) => Err(error),
        }
    }

    /// The text of the description.
    pub fn as_str(&self) -> (r: &str)
        ensures
            r@ == self@,
            valid_text(r@, MAX_DESCRIPTION_CHARS),
    {
        proof {
            use_type_invariant(self);
        }
        self.0.as_str()
    }
}

impl Clone for Description {
    fn clone(&self) -> (r: Description)
        ensures
            r@ == self@,
    {
        proof {
            use_type_invariant(self);
        }
        Description(self.0.clone())
    }
}

// ---------------------------------------------------------------------------------------------
// Counters
// ---------------------------------------------------------------------------------------------
/// The revision of a stored job; it grows with every update and is never zero.
#[derive(Clone, Copy, Debug, PartialEq, Eq, PartialOrd, Ord, Hash, Structural)]
pub struct Revision(u64);

impl View for Revision {
    type V = u64;

    closed spec fn view(&self) -> u64 {
        self.0
    }
}

impl Revision {
    #[verifier::type_invariant]
    spec fn wf(self) -> bool {
        self.0 != 0
    }

    /// The revision with the given number, unless it is zero.
    pub fn new(value: u64) -> (r: Result<Revision, PrimitiveError>)
        ensures
            match r {
                Ok(revision) => value != 0 && revision@ == value,
                Err(error) => value == 0 && error == (PrimitiveError::Zero { field: "revision" }),
            },
    {
        if value == 0 {
            return Err(PrimitiveError::Zero { field: "revision" });
        }
        Ok(Revision(value))
    }

    /// The number of the revision.
    pub fn get(self) -> (r: u64)
        ensures
            r == self@,
            r != 0,
    {
        proof {
            use_type_invariant(&self);
        }
        self.0
    }

    /// The following revision; the last one has none.
    pub fn next(self) -> (r: Result<Revision, PrimitiveError>)
        ensures
            match r {
                Ok(next) => next@ == self@ + 1,
                Err(error) => self@ == u64::MAX && error == (PrimitiveError::Overflow {
                    field: "revision",
                }),
            },
    {
        match self.0.checked_add(1) {
            Some(value) => Ok(Revision(value)),
            None => Err(PrimitiveError::Overflow { field: "revision" }),
        }
    }

    /// Whether both are the same revision.
    pub fn same(self, other: Revision) -> (r: bool)
        ensures
            r == (self@ == other@),
            r == (self == other),
    {
        self.0 == other.0
    }
}

/// The number of a run among the runs of its job; never zero.
#[derive(Clone, Copy, Debug, PartialEq, Eq, PartialOrd, Ord, Hash, Structural)]
pub struct Sequence(u64);

impl View for Sequence {
    type V = u64;

    closed spec fn view(&self) -> u64 {
        self.0
    }
}

impl Sequence {
    #[verifier::type_invariant]
    spec fn wf(self) -> bool {
        self.0 != 0
    }

    /// The sequence with the given number, unless it is zero.
    pub fn new(value: u64) -> (r: Result<Sequence, PrimitiveError>)
        ensures
            match r {
                Ok(sequence) => value != 0 && sequence@ == value,
                Err(error) => value == 0 && error == (PrimitiveError::Zero { field: "sequence" }),
            },
    {
        if value == 0 {
            return Err(PrimitiveError::Zero { field: "sequence" });
        }
        Ok(Sequence(value))
    }

    /// The number of the sequence.
    pub fn get(self) -> (r: u64)
        ensures
            r == self@,
            r != 0,
    {
        proof {
            use_type_invariant(&self);
        }
        self.0
    }
}

// ---------------------------------------------------------------------------------------------
// Timestamps
// ---------------------------------------------------------------------------------------------
/// The first supported second since the Unix epoch.
pub const MIN_SECOND: i64 = -377_705_023_201;

/// The last supported second since the Unix epoch.
pub const MAX_SECOND: i64 = 253_402_207_200;

/// The nanoseconds of a second.
pub const NANOS_PER_SECOND: i128 = 1_000_000_000;

/// The number of nanoseconds since the Unix epoch is that of a supported instant.
pub open spec fn in_time_range(nanos: int) -> bool {
    MIN_SECOND * NANOS_PER_SECOND <= nanos < (MAX_SECOND + 1) * NANOS_PER_SECOND
}

/// An instant, to the nanosecond, between the years -9999 and 9999. Its view is the number of
/// nanoseconds since the Unix epoch.
#[derive(Clone, Copy, Debug, PartialEq, Eq, PartialOrd, Ord, Hash, Structural)]
pub struct UtcTimestamp {
    nanos: i128,
}

impl View for UtcTimestamp {
    type V = int;

    closed spec fn view(&self) -> int {
        self.nanos as int
    }
}

impl UtcTimestamp {
    #[verifier::type_invariant]
    pub open spec fn wf(self) -> bool {
        in_time_range(self@)
    }

    /// The instant so many seconds after the Unix epoch.
    pub fn from_second(second: i64) -> (r: Result<UtcTimestamp, PrimitiveError>)
        ensures
            match r {
                Ok(timestamp) => MIN_SECOND <= second <= MAX_SECOND && timestamp@ == second
                    * NANOS_PER_SECOND,
                Err(error) => !(MIN_SECOND <= second <= MAX_SECOND) && error
                    is TimestampRange,
            },
    {
        match outside::timestamp_from_second(second) {
            Some(nanos) => Ok(UtcTimestamp { nanos }),
            None => Err(PrimitiveError::TimestampRange),
        }
    }

    /// The instant so many nanoseconds after the Unix epoch.
    pub fn from_nanosecond(nanos: i128) -> (r: Result<UtcTimestamp, PrimitiveError>)
        ensures
            match r {
                Ok(timestamp) => in_time_range(nanos as int) && timestamp@ == nanos,
                Err(error) => !in_time_range(nanos as int) && error is TimestampRange,
            },
    {
        if outside::timestamp_exists(nanos) {
            Ok(UtcTimestamp { nanos })
        } else {
            Err(PrimitiveError::TimestampRange)
        }
    }

    /// The number of nanoseconds since the Unix epoch.
    pub fn as_nanosecond(self) -> (r: i128)
        ensures
            r == self@,
            in_time_range(r as int),
    {
        proof {
            use_type_invariant(&self);
        }
        self.nanos
    }

    /// Whether this instant comes before the other.
    pub fn is_before(self, other: UtcTimestamp) -> (r: bool)
        ensures
            r == (self@ < other@),
    {
        self.nanos < other.nanos
    }

    /// Whether both are the same instant.
    pub fn same(self, other: UtcTimestamp) -> (r: bool)
        ensures
            r == (self@ == other@),
            r == (self == other),
    {
        self.nanos == other.nanos
    }

    /// The instant so many seconds later, if it is supported.
    pub fn plus_seconds(self, seconds: i64) -> (r: Option<UtcTimestamp>)
        ensures
            match r {
                Some(later) => later@ == self@ + seconds * NANOS_PER_SECOND && in_time_range(
                    later@,
                ),
                None => !in_time_range(self@ + seconds * NANOS_PER_SECOND),
            },
    {
        proof {
            use_type_invariant(&self);
        }
        match outside::timestamp_plus_seconds(self.nanos, seconds) {
            Some(nanos) => Some(UtcTimestamp { nanos }),
            None => None,
        }
    }

    /// The instant in RFC 3339 form, in UTC.
    pub fn to_string(&self) -> (text: String)
        ensures
            text@ == outside::timestamp_text(self@),
            outside::timestamp_of_text(text@) == Some(self@),
    {
        proof {
            use_type_invariant(self);
        }
        outside::format_timestamp(self.nanos)
    }

    /// The instant that a text in RFC 3339 form names.
    pub fn from_str(value: &str) -> (r: Result<UtcTimestamp, PrimitiveError>)
        ensures
            match r {
                Ok(timestamp) => outside::timestamp_of_text(value@) == Some(timestamp@),
                Err(error) => outside::timestamp_of_text(value@) is None && error
                    is TimestampRange,
            },
    {
        match outside::parse_timestamp(value) {
            Some(nanos) => Ok(UtcTimestamp { nanos }),
            None => Err(PrimitiveError::TimestampRange),
        }
    }
}

impl FromStr for UtcTimestamp {
    type Err = PrimitiveError;

    fn from_str(value: &str) -> Result<UtcTimestamp, PrimitiveError> {
        UtcTimestamp::from_str(value)
    }
}

/// Two counters with the same number are the same.
pub proof fn lemma_counter_views_injective(a: Revision, b: Revision, c: Sequence, d: Sequence)
    ensures
        (a == b) == (a@ == b@),
        (c == d) == (c@ == d@),
{
}

/// Two instants with the same number of nanoseconds are the same.
pub proof fn lemma_timestamp_view_injective(a: UtcTimestamp, b: UtcTimestamp)
    ensures
        (a == b) == (a@ == b@),
{
}

} // verus!

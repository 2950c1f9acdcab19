//! Identifiers and instants.
use vstd::prelude::*;
use vstd::string::*;

verus! {

/// A universally unique identifier, held as its 128-bit value.
#[derive(Clone, Copy, Debug, PartialEq, Eq, Structural, PartialOrd, Ord, Hash)]
pub struct Uuid {
    pub value: u128,
}

impl Uuid {
    /// The identifier with the given 128-bit value.
    pub fn from_u128(value: u128) -> (id: Uuid)
        ensures
            id.value == value,
    {
        Uuid { value }
    }

    /// The identifier's 128-bit value.
    pub fn as_u128(&self) -> (value: u128)
        ensures
            value == self.value,
    {
        self.value
    }
}

/// The hexadecimal digit with value `d`, in lower case.
pub open spec fn hex_digit(d: nat) -> char
    recommends
        d < 16,
{
    if d < 10 {
        ((48 + d) as u8) as char
    } else {
        ((87 + d) as u8) as char
    }
}

/// `value` in `len` hexadecimal digits, most significant first.
pub open spec fn hex_of(value: nat, len: nat) -> Seq<char>
    decreases len,
{
    if len == 0 {
        Seq::empty()
    } else {
        hex_of(value / 16, (len - 1) as nat).push(hex_digit(value % 16))
    }
}

/// An identifier as text: its 32 hexadecimal digits in groups of 8, 4, 4, 4 and
/// 12, joined by hyphens.
pub open spec fn uuid_text(value: u128) -> Seq<char> {
    let d = hex_of(value as nat, 32);
    d.subrange(0, 8).push('-') + d.subrange(8, 12).push('-') + d.subrange(12, 16).push('-')
        + d.subrange(16, 20).push('-') + d.subrange(20, 32)
}

/// The text that `uuid::Uuid` prints for the identifier with the given value,
/// through `uuid::Uuid::from_u128` and its `Display`: the hyphenated form in lower
/// case.
#[verifier::external_body]
fn hyphenated(value: u128) -> (r: String)
    ensures
        r@ == uuid_text(value),
{
    uuid::Uuid::from_u128(value).to_string()
}

impl Uuid {
    /// The identifier as text, in the hyphenated lower-case form.
    pub fn to_text(&self) -> (r: String)
        ensures
            r@ == uuid_text(self.value),
    {
        hyphenated(self.value)
    }
}

/// The text that `chrono` gives to an instant in UTC by RFC 3339, for whole seconds
/// since the Unix epoch and nanoseconds beyond them. Nothing where `chrono` has no
/// such instant.
pub uninterp spec fn rfc3339(seconds: i64, nanos: u32) -> Option<Seq<char>>;

/// `chrono::DateTime::from_timestamp`, and `to_rfc3339` of the instant it gives. The
/// text depends on the two numbers alone.
#[verifier::external_body]
fn rfc3339_text(seconds: i64, nanos: u32) -> (r: Option<String>)
    ensures
        match r {
            Some(text) => rfc3339(seconds, nanos) == Some(text@),
            None => rfc3339(seconds, nanos) is None,
        },
{
    chrono::DateTime::<chrono::Utc>::from_timestamp(seconds, nanos).map(|t| t.to_rfc3339())
}

/// An instant that has a text by RFC 3339.
#[derive(Clone, Copy, Debug, PartialEq, Eq, PartialOrd, Ord, Hash)]
pub struct Timestamp {
    seconds: i64,
    nanos: u32,
}

impl Timestamp {
    /// Whole seconds since the Unix epoch.
    pub closed spec fn seconds(self) -> i64 {
        self.seconds
    }

    /// Nanoseconds beyond the whole seconds.
    pub closed spec fn nanos(self) -> u32 {
        self.nanos
    }

    #[verifier::type_invariant]
    spec fn has_text(self) -> bool {
        rfc3339(self.seconds, self.nanos) is Some
    }

    /// The instant that many seconds and nanoseconds after the Unix epoch, where it
    /// has a text.
    pub fn new(seconds: i64, nanos: u32) -> (r: Option<Timestamp>)
        ensures
            r is Some <==> rfc3339(seconds, nanos) is Some,
            r matches Some(t) ==> t.seconds() == seconds && t.nanos() == nanos,
    {
        match rfc3339_text(seconds, nanos) {
            Some(_) => Some(Timestamp { seconds, nanos }),
            None => None,
        }
    }

    /// Whole seconds since the Unix epoch, and nanoseconds beyond them.
    pub fn parts(&self) -> (r: (i64, u32))
        ensures
            r.0 == self.seconds(),
            r.1 == self.nanos(),
    {
        (self.seconds, self.nanos)
    }

    /// The instant's text by RFC 3339.
    pub fn to_rfc3339(&self) -> (r: String)
        ensures
            rfc3339(self.seconds(), self.nanos()) == Some(r@),
    {
        proof {
            use_type_invariant(self);
        }
        match rfc3339_text(self.seconds, self.nanos) {
            Some(text) => text,
            None => vstd::pervasive::unreached(),
        }
    }
}

} // verus!

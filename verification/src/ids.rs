//! Newtype vocabulary for every external identifier.
//!
//! The snowflake types wrap `u64` and reject non-numeric input. The string types
//! guarantee only non-emptiness, and keep the text they were given verbatim.

use vstd::prelude::*;

use crate::text::{number, parse_unsigned, trim, IntError};

#[allow(unused_imports)]
use crate::text::{decimal, trimmed, unsigned_value, law_number_round_trips};

verus! {

/// Why a text is not an identifier.
#[derive(Debug, Clone, Copy, PartialEq, Eq, Structural)]
pub enum IdParseError {
    /// A snowflake that is not a `u64`.
    DiscordSnowflake(IntError),
    /// A string identifier that is empty or only whitespace.
    Empty,
}

impl IntError {
    /// What went wrong, in words.
    pub fn message(&self) -> (r: &'static str)
        ensures
            r@ == self.words(),
    {
        match self {
            IntError::Empty => "cannot parse integer from empty string",
            IntError::InvalidDigit => "invalid digit found in string",
            IntError::PosOverflow => "number too large to fit in target type",
        }
    }

    /// The words `message` returns.
    pub open spec fn words(&self) -> Seq<char> {
        match self {
            IntError::Empty => "cannot parse integer from empty string"@,
            IntError::InvalidDigit => "invalid digit found in string"@,
            IntError::PosOverflow => "number too large to fit in target type"@,
        }
    }
}

impl IdParseError {
    /// The error as a line of text.
    pub fn message(&self) -> (r: String)
        ensures
            r@ == (match self {
                IdParseError::DiscordSnowflake(e) => "discord snowflake must be a u64: "@ + e.words(),
                IdParseError::Empty => "value cannot be empty"@,
            }),
    {
        match self {
            IdParseError::DiscordSnowflake(e) => {
                let mut s = "discord snowflake must be a u64: ".to_owned();
                s.append(e.message());
                s
            },
            IdParseError::Empty => "value cannot be empty".to_owned(),
        }
    }
}

/// The snowflake a text denotes.
pub open spec fn snowflake(s: Seq<char>) -> Result<u64, IdParseError> {
    match unsigned_value(s, 10, u64::MAX as nat) {
        Ok(v) => Ok(v as u64),
        Err(e) => Err(IdParseError::DiscordSnowflake(e)),
    }
}

fn parse_snowflake(s: &str) -> (r: Result<u64, IdParseError>)
    ensures
        r == snowflake(s@),
{
    match parse_unsigned(s, 10, u64::MAX) {
        Ok(v) => Ok(v),
        Err(e) => Err(IdParseError::DiscordSnowflake(e)),
    }
}

/// A snowflake survives being written out and read back.
pub proof fn law_snowflake_round_trips(id: u64)
    ensures
        snowflake(decimal(id as nat)) == Ok::<u64, IdParseError>(id),
{
    law_number_round_trips(id as nat, u64::MAX as nat);
}

fn non_blank(s: &str) -> (r: Result<String, IdParseError>)
    ensures
        r is Err <==> trimmed(s@).len() == 0,
        r matches Err(e) ==> e == IdParseError::Empty,
        r matches Ok(v) ==> v@ == s@,
{
    if trim(s).is_empty() {
        Err(IdParseError::Empty)
    } else {
        Ok(s.to_owned())
    }
}

/// A Discord user snowflake.
#[derive(Debug, Clone, Copy, PartialEq, Eq, PartialOrd, Ord, Hash, Structural)]
pub struct DiscordUserId(pub u64);

impl DiscordUserId {
    /// Read a snowflake from its decimal text.
    pub fn parse(s: &str) -> (r: Result<DiscordUserId, IdParseError>)
        ensures
            r == (match snowflake(s@) {
                Ok(v) => Ok(DiscordUserId(v)),
                Err(e) => Err(e),
            }),
    {
        match parse_snowflake(s) {
            Ok(v) => Ok(DiscordUserId(v)),
            Err(e) => Err(e),
        }
    }

    /// The decimal text of the snowflake.
    pub fn to_text(&self) -> (r: String)
        ensures
            r@ == decimal(self.0 as nat),
    {
        number(self.0)
    }
}

impl std::str::FromStr for DiscordUserId {
    type Err = IdParseError;

    fn from_str(s: &str) -> (r: Result<Self, IdParseError>)
        ensures
            r == (match snowflake(s@) {
                Ok(v) => Ok(DiscordUserId(v)),
                Err(e) => Err(e),
            }),
    {
        DiscordUserId::parse(s)
    }
}

/// A Discord guild (server) snowflake.
#[derive(Debug, Clone, Copy, PartialEq, Eq, PartialOrd, Ord, Hash, Structural)]
pub struct DiscordGuildId(pub u64);

impl DiscordGuildId {
    /// Read a snowflake from its decimal text.
    pub fn parse(s: &str) -> (r: Result<DiscordGuildId, IdParseError>)
        ensures
            r == (match snowflake(s@) {
                Ok(v) => Ok(DiscordGuildId(v)),
                Err(e) => Err(e),
            }),
    {
        match parse_snowflake(s) {
            Ok(v) => Ok(DiscordGuildId(v)),
            Err(e) => Err(e),
        }
    }

    /// The decimal text of the snowflake.
    pub fn to_text(&self) -> (r: String)
        ensures
            r@ == decimal(self.0 as nat),
    {
        number(self.0)
    }
}

impl std::str::FromStr for DiscordGuildId {
    type Err = IdParseError;

    fn from_str(s: &str) -> (r: Result<Self, IdParseError>)
        ensures
            r == (match snowflake(s@) {
                Ok(v) => Ok(DiscordGuildId(v)),
                Err(e) => Err(e),
            }),
    {
        DiscordGuildId::parse(s)
    }
}

/// A Discord channel snowflake. Channel ids are ordered so review output is stable.
#[derive(Debug, Clone, Copy, PartialEq, Eq, PartialOrd, Ord, Hash, Structural)]
pub struct DiscordChannelId(pub u64);

impl DiscordChannelId {
    /// Read a snowflake from its decimal text.
    pub fn parse(s: &str) -> (r: Result<DiscordChannelId, IdParseError>)
        ensures
            r == (match snowflake(s@) {
                Ok(v) => Ok(DiscordChannelId(v)),
                Err(e) => Err(e),
            }),
    {
        match parse_snowflake(s) {
            Ok(v) => Ok(DiscordChannelId(v)),
            Err(e) => Err(e),
        }
    }

    /// The decimal text of the snowflake.
    pub fn to_text(&self) -> (r: String)
        ensures
            r@ == decimal(self.0 as nat),
    {
        number(self.0)
    }
}

impl std::str::FromStr for DiscordChannelId {
    type Err = IdParseError;

    fn from_str(s: &str) -> (r: Result<Self, IdParseError>)
        ensures
            r == (match snowflake(s@) {
                Ok(v) => Ok(DiscordChannelId(v)),
                Err(e) => Err(e),
            }),
    {
        DiscordChannelId::parse(s)
    }
}

/// A Discord role snowflake.
#[derive(Debug, Clone, Copy, PartialEq, Eq, PartialOrd, Ord, Hash, Structural)]
pub struct DiscordRoleId(pub u64);

impl DiscordRoleId {
    /// Read a snowflake from its decimal text.
    pub fn parse(s: &str) -> (r: Result<DiscordRoleId, IdParseError>)
        ensures
            r == (match snowflake(s@) {
                Ok(v) => Ok(DiscordRoleId(v)),
                Err(e) => Err(e),
            }),
    {
        match parse_snowflake(s) {
            Ok(v) => Ok(DiscordRoleId(v)),
            Err(e) => Err(e),
        }
    }

    /// The decimal text of the snowflake.
    pub fn to_text(&self) -> (r: String)
        ensures
            r@ == decimal(self.0 as nat),
    {
        number(self.0)
    }
}

impl std::str::FromStr for DiscordRoleId {
    type Err = IdParseError;

    fn from_str(s: &str) -> (r: Result<Self, IdParseError>)
        ensures
            r == (match snowflake(s@) {
                Ok(v) => Ok(DiscordRoleId(v)),
                Err(e) => Err(e),
            }),
    {
        DiscordRoleId::parse(s)
    }
}

/// A Discord message snowflake.
#[derive(Debug, Clone, Copy, PartialEq, Eq, PartialOrd, Ord, Hash, Structural)]
pub struct DiscordMessageId(pub u64);

impl DiscordMessageId {
    /// Read a snowflake from its decimal text.
    pub fn parse(s: &str) -> (r: Result<DiscordMessageId, IdParseError>)
        ensures
            r == (match snowflake(s@) {
                Ok(v) => Ok(DiscordMessageId(v)),
                Err(e) => Err(e),
            }),
    {
        match parse_snowflake(s) {
            Ok(v) => Ok(DiscordMessageId(v)),
            Err(e) => Err(e),
        }
    }

    /// The decimal text of the snowflake.
    pub fn to_text(&self) -> (r: String)
        ensures
            r@ == decimal(self.0 as nat),
    {
        number(self.0)
    }
}

impl std::str::FromStr for DiscordMessageId {
    type Err = IdParseError;

    fn from_str(s: &str) -> (r: Result<Self, IdParseError>)
        ensures
            r == (match snowflake(s@) {
                Ok(v) => Ok(DiscordMessageId(v)),
                Err(e) => Err(e),
            }),
    {
        DiscordMessageId::parse(s)
    }
}

/// A Discord handle as a member wrote it. Only non-emptiness is guaranteed.
#[derive(Debug, Clone, PartialEq, Eq, Hash)]
pub struct DiscordHandle(pub String);

impl View for DiscordHandle {
    type V = Seq<char>;

    open spec fn view(&self) -> Seq<char> {
        self.0@
    }
}

impl DiscordHandle {
    /// Accept any text that is not blank, verbatim.
    pub fn parse(s: &str) -> (r: Result<DiscordHandle, IdParseError>)
        ensures
            r is Err <==> trimmed(s@).len() == 0,
            r matches Err(e) ==> e == IdParseError::Empty,
            r matches Ok(v) ==> v@ == s@,
    {
        match non_blank(s) {
            Ok(v) => Ok(DiscordHandle(v)),
            Err(e) => Err(e),
        }
    }

    /// The text itself.
    pub fn as_str(&self) -> (r: &str)
        ensures
            r@ == self@,
    {
        self.0.as_str()
    }
}

impl std::str::FromStr for DiscordHandle {
    type Err = IdParseError;

    fn from_str(s: &str) -> (r: Result<Self, IdParseError>)
        ensures
            r is Err <==> trimmed(s@).len() == 0,
            r matches Err(e) ==> e == IdParseError::Empty,
            r matches Ok(v) ==> v@ == s@,
    {
        DiscordHandle::parse(s)
    }
}

/// A Solidarity Tech user id, opaque to the bot.
#[derive(Debug, Clone, PartialEq, Eq, Hash)]
pub struct StUserId(pub String);

impl View for StUserId {
    type V = Seq<char>;

    open spec fn view(&self) -> Seq<char> {
        self.0@
    }
}

impl StUserId {
    /// Accept any text that is not blank, verbatim.
    pub fn parse(s: &str) -> (r: Result<StUserId, IdParseError>)
        ensures
            r is Err <==> trimmed(s@).len() == 0,
            r matches Err(e) ==> e == IdParseError::Empty,
            r matches Ok(v) ==> v@ == s@,
    {
        match non_blank(s) {
            Ok(v) => Ok(StUserId(v)),
            Err(e) => Err(e),
        }
    }

    /// The text itself.
    pub fn as_str(&self) -> (r: &str)
        ensures
            r@ == self@,
    {
        self.0.as_str()
    }
}

impl std::str::FromStr for StUserId {
    type Err = IdParseError;

    fn from_str(s: &str) -> (r: Result<Self, IdParseError>)
        ensures
            r is Err <==> trimmed(s@).len() == 0,
            r matches Err(e) ==> e == IdParseError::Empty,
            r matches Ok(v) ==> v@ == s@,
    {
        StUserId::parse(s)
    }
}

/// An email address. Only non-emptiness is guaranteed.
#[derive(Debug, Clone, PartialEq, Eq, Hash)]
pub struct Email(pub String);

impl View for Email {
    type V = Seq<char>;

    open spec fn view(&self) -> Seq<char> {
        self.0@
    }
}

impl Email {
    /// Accept any text that is not blank, verbatim.
    pub fn parse(s: &str) -> (r: Result<Email, IdParseError>)
        ensures
            r is Err <==> trimmed(s@).len() == 0,
            r matches Err(e) ==> e == IdParseError::Empty,
            r matches Ok(v) ==> v@ == s@,
    {
        match non_blank(s) {
            Ok(v) => Ok(Email(v)),
            Err(e) => Err(e),
        }
    }

    /// The text itself.
    pub fn as_str(&self) -> (r: &str)
        ensures
            r@ == self@,
    {
        self.0.as_str()
    }
}

impl std::str::FromStr for Email {
    type Err = IdParseError;

    fn from_str(s: &str) -> (r: Result<Self, IdParseError>)
        ensures
            r is Err <==> trimmed(s@).len() == 0,
            r matches Err(e) ==> e == IdParseError::Empty,
            r matches Ok(v) ==> v@ == s@,
    {
        Email::parse(s)
    }
}

/// A phone number as the source reports it.
#[derive(Debug, Clone, PartialEq, Eq, Hash)]
pub struct Phone(pub String);

impl View for Phone {
    type V = Seq<char>;

    open spec fn view(&self) -> Seq<char> {
        self.0@
    }
}

impl Phone {
    /// Accept any text that is not blank, verbatim.
    pub fn parse(s: &str) -> (r: Result<Phone, IdParseError>)
        ensures
            r is Err <==> trimmed(s@).len() == 0,
            r matches Err(e) ==> e == IdParseError::Empty,
            r matches Ok(v) ==> v@ == s@,
    {
        match non_blank(s) {
            Ok(v) => Ok(Phone(v)),
            Err(e) => Err(e),
        }
    }

    /// The text itself.
    pub fn as_str(&self) -> (r: &str)
        ensures
            r@ == self@,
    {
        self.0.as_str()
    }
}

impl std::str::FromStr for Phone {
    type Err = IdParseError;

    fn from_str(s: &str) -> (r: Result<Self, IdParseError>)
        ensures
            r is Err <==> trimmed(s@).len() == 0,
            r matches Err(e) ==> e == IdParseError::Empty,
            r matches Ok(v) ==> v@ == s@,
    {
        Phone::parse(s)
    }
}

/// An id read from its own text is that id, of whatever kind it is.
pub proof fn law_ids_read_back_as_themselves(
    text: &str,
    id: u64,
    user: Result<DiscordUserId, IdParseError>,
    guild: Result<DiscordGuildId, IdParseError>,
    channel: Result<DiscordChannelId, IdParseError>,
    role: Result<DiscordRoleId, IdParseError>,
    message: Result<DiscordMessageId, IdParseError>,
)
    requires
        text@ == decimal(id as nat),
        call_ensures(DiscordUserId::parse, (text,), user),
        call_ensures(DiscordGuildId::parse, (text,), guild),
        call_ensures(DiscordChannelId::parse, (text,), channel),
        call_ensures(DiscordRoleId::parse, (text,), role),
        call_ensures(DiscordMessageId::parse, (text,), message),
    ensures
        user == Ok::<DiscordUserId, IdParseError>(DiscordUserId(id)),
        guild == Ok::<DiscordGuildId, IdParseError>(DiscordGuildId(id)),
        channel == Ok::<DiscordChannelId, IdParseError>(DiscordChannelId(id)),
        role == Ok::<DiscordRoleId, IdParseError>(DiscordRoleId(id)),
        message == Ok::<DiscordMessageId, IdParseError>(DiscordMessageId(id)),
{
    law_snowflake_round_trips(id);
}

/// A text is taken as it is, blanks and all, unless it is nothing but blanks.
pub proof fn law_texts_are_taken_as_they_are(
    text: &str,
    handle: Result<DiscordHandle, IdParseError>,
    user: Result<StUserId, IdParseError>,
    email: Result<Email, IdParseError>,
    phone: Result<Phone, IdParseError>,
)
    requires
        call_ensures(DiscordHandle::parse, (text,), handle),
        call_ensures(StUserId::parse, (text,), user),
        call_ensures(Email::parse, (text,), email),
        call_ensures(Phone::parse, (text,), phone),
    ensures
        trimmed(text@).len() > 0 ==> (handle matches Ok(v) && v@ == text@) && (user matches Ok(v)
            && v@ == text@) && (email matches Ok(v) && v@ == text@) && (phone matches Ok(v) && v@
            == text@),
        trimmed(text@).len() == 0 ==> handle == Err::<DiscordHandle, IdParseError>(
            IdParseError::Empty,
        ) && user == Err::<StUserId, IdParseError>(IdParseError::Empty) && email == Err::<
            Email,
            IdParseError,
        >(IdParseError::Empty) && phone == Err::<Phone, IdParseError>(IdParseError::Empty),
{
}

/// Each reason for refusing a number has words of its own.
pub proof fn law_number_errors_have_their_own_words(a: IntError, b: IntError)
    ensures
        a != b ==> a.words() != b.words(),
        IntError::Empty.words() == "cannot parse integer from empty string"@,
        IntError::InvalidDigit.words() == "invalid digit found in string"@,
        IntError::PosOverflow.words() == "number too large to fit in target type"@,
{
    reveal_strlit("cannot parse integer from empty string");
    reveal_strlit("invalid digit found in string");
    reveal_strlit("number too large to fit in target type");
    assert(IntError::Empty.words()[0] == 'c' && IntError::InvalidDigit.words()[0] == 'i'
        && IntError::PosOverflow.words()[0] == 'n');
}

} // verus!

use vstd::prelude::*;

verus! {

/// A type with exactly one value, standing where a request or reply carries
/// no data.
#[derive(Debug, PartialEq, Eq, Clone, Copy, Structural)]
pub struct Unit {}

/// The hyphenated text form of a 128-bit identifier, as uuid renders it.
pub uninterp spec fn uuid_text_of(u: u128) -> Seq<char>;

/// What uuid's parser makes of a piece of text: the identifier it denotes,
/// or nothing when the text is not a well-formed identifier.
pub uninterp spec fn uuid_of_text(s: Seq<char>) -> Option<u128>;

/// Relies on uuid's Hyphenated formatting: the text depends on the identifier
/// alone, and uuid documents that parsing the hyphenated form gives back the
/// same identifier.
#[verifier::external_body]
pub(crate) fn uuid_text(u: u128) -> (r: String)
    ensures
        r@ == uuid_text_of(u),
        uuid_of_text(r@) == Some(u),
{
    uuid::Uuid::from_u128(u).hyphenated().to_string()
}

/// Relies on uuid::Uuid::parse_str: the outcome depends on the text alone.
#[verifier::external_body]
pub(crate) fn uuid_parse(s: &str) -> (r: Option<u128>)
    ensures
        r == uuid_of_text(s@),
{
    match uuid::Uuid::parse_str(s) {
        Ok(u) => Some(u.as_u128()),
        Err(_) => None,
    }
}

/// Relies on uuid::Uuid::new_v4: a freshly drawn random identifier, about
/// which nothing further can be promised.
#[verifier::external_body]
pub(crate) fn uuid_random() -> u128 {
    uuid::Uuid::new_v4().as_u128()
}

/// The error returned when a credential's text form cannot be parsed.
#[derive(Debug, PartialEq, Eq, Clone, Copy, Structural)]
pub struct InvalidToken;

/// An opaque identifier naming one room.
#[derive(Debug, PartialEq, Eq, Clone, Copy, Structural)]
pub struct RoomId(pub u128);

impl RoomId {
    /// The identifier's canonical text form.
    pub fn text(&self) -> (r: String)
        ensures
            r@ == uuid_text_of(self.0),
    {
        uuid_text(self.0)
    }
}

/// The opaque credential a human player holds for one seat in one room.
#[derive(Debug, PartialEq, Eq, Clone, Copy, Structural)]
pub struct AccessToken(pub u128);

impl AccessToken {
    /// Parses a credential from its text form; rejects anything that is not
    /// a well-formed identifier.
    pub fn parse_str(s: &str) -> (r: Result<AccessToken, InvalidToken>)
        ensures
            r matches Ok(t) ==> uuid_of_text(s@) == Some(t.0),
            r is Err <==> uuid_of_text(s@) is None,
    {
        match uuid_parse(s) {
            Some(u) => Ok(AccessToken(u)),
            None => Err(InvalidToken),
        }
    }

    /// The credential's canonical text form.
    pub fn text(&self) -> (r: String)
        ensures
            r@ == uuid_text_of(self.0),
            uuid_of_text(r@) == Some(self.0),
    {
        uuid_text(self.0)
    }

    /// Mints a fresh credential.
    pub fn fresh() -> AccessToken {
        AccessToken(uuid_random())
    }
}

/// The identifier a bot holds for its seat, kept in a space parallel to the
/// human credentials.
#[derive(Debug, PartialEq, Eq, Clone, Copy, Structural)]
pub struct BotToken(pub u128);

impl BotToken {
    /// Parses a bot identifier from its text form.
    pub fn parse_str(s: &str) -> (r: Result<BotToken, InvalidToken>)
        ensures
            r matches Ok(t) ==> uuid_of_text(s@) == Some(t.0),
            r is Err <==> uuid_of_text(s@) is None,
    {
        match uuid_parse(s) {
            Some(u) => Ok(BotToken(u)),
            None => Err(InvalidToken),
        }
    }

    /// The identifier's canonical text form.
    pub fn text(&self) -> (r: String)
        ensures
            r@ == uuid_text_of(self.0),
            uuid_of_text(r@) == Some(self.0),
    {
        uuid_text(self.0)
    }

    /// Mints a fresh bot identifier.
    pub fn fresh() -> BotToken {
        BotToken(uuid_random())
    }
}

/// The credential-scoped view of a room: which room, and whether the side
/// nearest the IA row is this credential's side.
#[derive(Debug, PartialEq, Eq, Clone, Copy, Structural)]
pub struct RoomInfoWithPerspective {
    pub room_id: RoomId,
    pub is_ia_down_for_me: bool,
}

} // verus!

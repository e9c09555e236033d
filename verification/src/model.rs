//! The values that the API's list endpoints return: pages, and the plain
//! records that go with them.

use vstd::prelude::*;

pub mod cursor_page;
pub mod items;
pub mod page;

pub use cursor_page::{Cursor, CursorPage};
pub use page::Page;

verus! {

/// An image that belongs to some content.
#[derive(Clone, Debug, PartialEq)]
pub struct Image {
    /// Where the image can be fetched.
    pub url: String,
    /// The height in pixels, where known.
    pub height: Option<u32>,
    /// The width in pixels, where known.
    pub width: Option<u32>,
}

/// A copyright statement.
#[derive(Clone, Debug, PartialEq)]
pub struct Copyright {
    /// The wording of the statement.
    pub text: String,
    /// What the statement covers.
    pub kind: CopyrightType,
}

/// A restriction on content.
#[derive(Clone, Debug, PartialEq)]
pub struct Restriction {
    /// Why the content is restricted.
    pub reason: RestrictionReason,
}

/// The identifiers under which content is known elsewhere.
#[derive(Clone, Debug, PartialEq)]
pub struct ExternalIds {
    /// The International Standard Recording Code.
    pub isrc: Option<String>,
    /// The International Article Number.
    pub ean: Option<String>,
    /// The Universal Product Code.
    pub upc: Option<String>,
}

/// The URLs under which content can be reached elsewhere.
#[derive(Clone, Debug, PartialEq)]
pub struct ExternalUrls {
    /// The URL of the content at Spotify.
    pub spotify: String,
}

/// The followers of an artist, a playlist or a user.
#[derive(Clone, Debug, PartialEq)]
pub struct Followers {
    /// A link to the followers. The API leaves it out for now.
    pub href: Option<String>,
    /// How many followers there are.
    pub total: u32,
}

/// How far a user has got in a chapter or an episode.
#[derive(Clone, Debug, PartialEq)]
pub struct ResumePoint {
    /// Whether the user has played it to the end.
    pub fully_played: bool,
    /// The latest position in milliseconds.
    pub resume_position_ms: u32,
}

/// Why content is restricted.
#[derive(Clone, Debug, PartialEq)]
#[non_exhaustive]
pub enum RestrictionReason {
    /// The content is not available in the user's market.
    Market,
    /// The user's subscription does not include the content.
    Product,
    /// The content is explicit and the user's settings keep such content out.
    Explicit,
    /// A reason that this library does not know.
    Unknown,
}

/// What a copyright statement covers.
#[derive(Clone, Debug, PartialEq)]
pub enum CopyrightType {
    /// The work itself.
    Copyright,
    /// The sound recording of a performance.
    Performance,
}

/// How exactly a date is known.
#[derive(Clone, Debug, PartialEq)]
pub enum DatePrecision {
    /// To the year.
    Year,
    /// To the month.
    Month,
    /// To the day.
    Day,
}

/// The value of a field that the server may send as null: what it sent, or
/// the default of the type where it sent null.
pub fn null_to_default<T: Default>(decoded: Option<T>) -> (value: T)
    ensures
        decoded matches Some(sent) ==> value == sent,
        decoded is None ==> T::default.ensures((), value),
{
    decoded.unwrap_or_default()
}

} // verus!

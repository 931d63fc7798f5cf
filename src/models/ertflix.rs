//! The adapter's own content records, built from resolved tiles.

use vstd::prelude::*;
use crate::api::ertflix_client::{FromTile, SectionContents, Tile};
use crate::text::{decimal, decimal_string};

verus! {

/// The year that stands for "unknown".
pub const UNKNOWN_YEAR: u32 = 1970;

#[derive(Debug, Clone)]
pub struct Movie {
    pub id: String,
    pub title: String,
    pub year: u32,
    pub genre: Vec<String>,
    pub description: String,
}

#[derive(Debug, Clone)]
pub struct TVShow {
    pub id: String,
    pub title: String,
    pub seasons: Vec<Season>,
}

#[derive(Debug, Clone)]
pub struct Season {
    pub season_number: u32,
    pub episodes: Vec<Episode>,
}

#[derive(Debug, Clone)]
pub struct Episode {
    pub id: String,
    pub title: String,
    /// Length in seconds.
    pub duration: u32,
}

/// A named toplist of the catalog, shown downstream as a library.
#[derive(Debug, Clone)]
pub struct Collection {
    pub name: String,
    pub id: String,
}

/// The text of an optional field, or `fallback` where it is absent.
pub open spec fn text_or(o: Option<String>, fallback: Seq<char>) -> Seq<char> {
    match o {
        Some(s) => s@,
        None => fallback,
    }
}

impl Collection {
    /// The collection that a toplist section stands for: named by its
    /// codename (empty where it has none), identified by its section id in
    /// decimal.
    pub fn from_section(section: &SectionContents) -> (r: Collection)
        ensures
            r.name@ == text_or(section.toplist_codename, Seq::empty()),
            r.id@ == decimal(section.section_id as int),
    {
        let name = match &section.toplist_codename {
            Some(c) => c.clone(),
            None => String::new(),
        };
        Collection { name, id: decimal_string(section.section_id) }
    }
}

impl FromTile for Movie {
    /// Title and description default to empty, the year to 1970; the
    /// upstream gives no genres.
    open spec fn converts(tile: Tile, r: Movie) -> bool {
        &&& r.id@ == tile.id@
        &&& r.title@ == text_or(tile.title, Seq::empty())
        &&& r.year == match tile.year {
            Some(y) => y,
            None => UNKNOWN_YEAR,
        }
        &&& r.genre@.len() == 0
        &&& r.description@ == text_or(tile.description, Seq::empty())
    }

    fn from_tile(tile: Tile) -> (r: Movie) {
        let title = match tile.title {
            Some(t) => t,
            None => String::new(),
        };
        let year = match tile.year {
            Some(y) => y,
            None => UNKNOWN_YEAR,
        };
        let description = match tile.description {
            Some(d) => d,
            None => String::new(),
        };
        Movie { id: tile.id, title, year, genre: Vec::new(), description }
    }
}

impl FromTile for TVShow {
    /// A show without a title is named by its codename; seasons are not
    /// resolved.
    open spec fn converts(tile: Tile, r: TVShow) -> bool {
        &&& r.id@ == tile.id@
        &&& r.title@ == text_or(tile.title, tile.codename@)
        &&& r.seasons@.len() == 0
    }

    fn from_tile(tile: Tile) -> (r: TVShow) {
        let title = match tile.title {
            Some(t) => t,
            None => tile.codename,
        };
        TVShow { id: tile.id, title, seasons: Vec::new() }
    }
}


/// A tile without title or year converts to a movie with an empty title
/// and the year 1970.
pub proof fn movie_defaults_for_missing_fields(tile: Tile, m: Movie)
    requires
        tile.title is None,
        tile.year is None,
        Movie::converts(tile, m),
    ensures
        m.title@ == Seq::<char>::empty(),
        m.year == 1970,
{
}

/// A tile without title converts to a show named by the tile's codename.
pub proof fn show_title_falls_back_to_codename(tile: Tile, t: TVShow)
    requires
        tile.title is None,
        TVShow::converts(tile, t),
    ensures
        t.title@ == tile.codename@,
{
}

} // verus!

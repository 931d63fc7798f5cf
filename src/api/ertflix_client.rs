//! The upstream catalog's records, the section classifier and the tile
//! resolver.

use vstd::prelude::*;

verus! {

/// The page-content listing: every section of the catalog's main page.
#[derive(Debug, Clone)]
pub struct ApiResponse {
    pub section_contents: Vec<SectionContents>,
}

/// One section of the catalog. A section with a toplist codename is one of
/// the catalog's named toplists; its tiles are references to be resolved.
#[derive(Debug, Clone)]
pub struct SectionContents {
    pub toplist_codename: Option<String>,
    pub section_id: i32,
    pub tiles_ids: Option<Vec<Tile>>,
}

/// A tile: a reference inside a section, or a resolved record from the
/// batch lookup. Only `id` is always there.
#[derive(Debug, Clone)]
pub struct Tile {
    pub origin_entity_id: i32,
    pub codename: String,
    pub id: String,
    pub year: Option<u32>,
    pub description: Option<String>,
    pub title: Option<String>,
}

/// Why a catalog request produced no content.
#[derive(Debug, Clone)]
pub enum Error {
    /// The upstream could not be reached, or did not answer in time.
    Transport(String),
    /// The upstream answered with a body of an unexpected shape.
    Decode(String),
    /// No section carries the requested toplist codename.
    SectionNotFound,
    /// The selected section has no tiles.
    EmptySection,
}

/// `s` is a toplist section named `wanted`.
pub open spec fn has_codename(s: SectionContents, wanted: Seq<char>) -> bool {
    s.toplist_codename matches Some(c) && c@ == wanted
}

/// `s` has at least one tile reference.
pub open spec fn has_tiles(s: SectionContents) -> bool {
    s.tiles_ids matches Some(t) && t@.len() > 0
}

/// The index of the last section named `wanted`, if any.
pub open spec fn last_match(sections: Seq<SectionContents>, wanted: Seq<char>) -> Option<int>
    decreases sections.len(),
{
    if sections.len() == 0 {
        None
    } else if has_codename(sections.last(), wanted) {
        Some(sections.len() - 1)
    } else {
        last_match(sections.drop_last(), wanted)
    }
}

/// The outcome of classifying `sections` for `wanted`: the last section so
/// named, provided it has tiles.
pub open spec fn classified(sections: Seq<SectionContents>, wanted: Seq<char>) -> Result<
    SectionContents,
    Error,
> {
    match last_match(sections, wanted) {
        None => Err(Error::SectionNotFound),
        Some(i) => if has_tiles(sections[i]) {
            Ok(sections[i])
        } else {
            Err(Error::EmptySection)
        },
    }
}

/// The ids of a section's tile references, in order.
pub open spec fn ids_of(s: SectionContents) -> Seq<Seq<char>> {
    match s.tiles_ids {
        Some(t) => t@.map_values(|tile: Tile| tile.id@),
        None => Seq::empty(),
    }
}

/// `i` is the position of the last section named `wanted`.
pub open spec fn is_last_match(sections: Seq<SectionContents>, wanted: Seq<char>, i: int) -> bool {
    &&& 0 <= i < sections.len()
    &&& has_codename(sections[i], wanted)
    &&& forall|j: int| i < j < sections.len() ==> !has_codename(#[trigger] sections[j], wanted)
}

proof fn lemma_last_match(sections: Seq<SectionContents>, wanted: Seq<char>)
    ensures
        match last_match(sections, wanted) {
            Some(i) => is_last_match(sections, wanted, i),
            None => forall|j: int|
                0 <= j < sections.len() ==> !has_codename(#[trigger] sections[j], wanted),
        },
    decreases sections.len(),
{
    if sections.len() > 0 && !has_codename(sections.last(), wanted) {
        let rest = sections.drop_last();
        lemma_last_match(rest, wanted);
        assert forall|j: int| 0 <= j < rest.len() implies rest[j] == sections[j] by {}
    }
}

/// Classification takes the last section named `wanted`, not the first:
/// where section `i` is so named and no later one is, the result is section
/// `i`, or `EmptySection` if it has no tiles.
pub proof fn classify_takes_last_match(sections: Seq<SectionContents>, wanted: Seq<char>, i: int)
    requires
        is_last_match(sections, wanted, i),
    ensures
        classified(sections, wanted) == if has_tiles(sections[i]) {
            Ok::<SectionContents, Error>(sections[i])
        } else {
            Err::<SectionContents, Error>(Error::EmptySection)
        },
{
    lemma_last_match(sections, wanted);
    match last_match(sections, wanted) {
        Some(k) => {
            if k < i {
                assert(!has_codename(sections[i], wanted));
            }
            if k > i {
                assert(!has_codename(sections[k], wanted));
            }
        },
        None => {
            assert(!has_codename(sections[i], wanted));
        },
    }
}

/// Where no section is named `wanted` (in particular where there are no
/// sections at all), classification fails with `SectionNotFound`.
pub proof fn classify_without_match(sections: Seq<SectionContents>, wanted: Seq<char>)
    requires
        forall|j: int| 0 <= j < sections.len() ==> !has_codename(#[trigger] sections[j], wanted),
    ensures
        classified(sections, wanted) == Err::<SectionContents, Error>(Error::SectionNotFound),
{
    lemma_last_match(sections, wanted);
    if let Some(k) = last_match(sections, wanted) {
        assert(has_codename(sections[k], wanted));
    }
}

/// Where the section that classification selects has no tile list, or an
/// empty one, classification fails with `EmptySection`.
pub proof fn classify_empty_section(sections: Seq<SectionContents>, wanted: Seq<char>, i: int)
    requires
        is_last_match(sections, wanted, i),
        sections[i].tiles_ids is None || sections[i].tiles_ids->0@.len() == 0,
    ensures
        classified(sections, wanted) == Err::<SectionContents, Error>(Error::EmptySection),
{
    classify_takes_last_match(sections, wanted, i);
}

/// The sections that are named toplists, in order.
pub open spec fn toplists(sections: Seq<SectionContents>) -> Seq<SectionContents> {
    sections.filter(|s: SectionContents| s.toplist_codename is Some)
}

/// What to ask the tile lookup for, given what the section fetch returned:
/// the ids of the classified section, or the error that ends the request.
pub open spec fn tile_request(
    fetched: Result<Vec<SectionContents>, Error>,
    wanted: Seq<char>,
) -> Result<Seq<Seq<char>>, Error> {
    match fetched {
        Err(e) => Err(e),
        Ok(sections) => match classified(sections@, wanted) {
            Ok(s) => Ok(ids_of(s)),
            Err(e) => Err(e),
        },
    }
}

/// How a resolved tile becomes a record of one content kind.
pub trait FromTile: Sized {
    /// `r` is the record that `tile` converts to.
    spec fn converts(tile: Tile, r: Self) -> bool;

    fn from_tile(tile: Tile) -> (r: Self)
        ensures
            Self::converts(tile, r),
    ;
}

/// The log line for an error: its kind, then the detail if it has one.
pub open spec fn error_message(e: Error) -> Seq<char> {
    match e {
        Error::Transport(d) => "Transport error"@ + ": "@ + d@,
        Error::Decode(d) => "Decode error"@ + ": "@ + d@,
        Error::SectionNotFound => "Section not found"@,
        Error::EmptySection => "Section has no tiles"@,
    }
}

impl Error {
    /// A one-line description, for logs.
    pub fn message(&self) -> (r: String)
        ensures
            r@ == error_message(*self),
    {
        let head = match self {
            Error::Transport(_) => "Transport error",
            Error::Decode(_) => "Decode error",
            Error::SectionNotFound => "Section not found",
            Error::EmptySection => "Section has no tiles",
        };
        let mut r = head.to_owned();
        match self {
            Error::Transport(detail) | Error::Decode(detail) => {
                r.append(": ");
                r.append(detail.as_str());
            },
            _ => {},
        }
        r
    }
}

/// Selects the section to read a content kind from: the **last** section
/// whose toplist codename is `wanted`, which must have tiles.
pub fn classify<'a>(sections: &'a Vec<SectionContents>, wanted: &String) -> (r: Result<
    &'a SectionContents,
    Error,
>)
    ensures
        match r {
            Ok(s) => classified(sections@, wanted@) == Ok::<SectionContents, Error>(*s),
            Err(e) => classified(sections@, wanted@) == Err::<SectionContents, Error>(e),
        },
{
    let mut i = sections.len();
    assert(sections@.take(i as int) =~= sections@);
    while i > 0
        invariant
            i <= sections@.len(),
            last_match(sections@, wanted@) == last_match(sections@.take(i as int), wanted@),
        decreases i,
    {
        let named = match &sections[i - 1].toplist_codename {
            Some(c) => *c == *wanted,
            None => false,
        };
        assert(sections@.take(i as int).drop_last() =~= sections@.take(i - 1));
        if named {
            let found = &sections[i - 1];
            let has = match &found.tiles_ids {
                Some(t) => t.len() > 0,
                None => false,
            };
            if has {
                return Ok(found);
            } else {
                return Err(Error::EmptySection);
            }
        }
        i = i - 1;
    }
    Err(Error::SectionNotFound)
}

/// The ids of a section's tile references, in order.
pub fn tile_ids(section: &SectionContents) -> (r: Vec<String>)
    ensures
        r@.map_values(|id: String| id@) == ids_of(*section),
{
    let mut out: Vec<String> = Vec::new();
    match &section.tiles_ids {
        Some(tiles) => {
            let mut i: usize = 0;
            while i < tiles.len()
                invariant
                    i <= tiles@.len(),
                    out@.len() == i,
                    forall|j: int| 0 <= j < i ==> (#[trigger] out@[j])@ == tiles@[j].id@,
                decreases tiles@.len() - i,
            {
                out.push(tiles[i].id.clone());
                i = i + 1;
            }
            assert(out@.map_values(|id: String| id@) =~= tiles@.map_values(|tile: Tile| tile.id@));
        },
        None => {
            assert(out@.map_values(|id: String| id@) =~= Seq::<Seq<char>>::empty());
        },
    }
    out
}

/// Converts every resolved tile, keeping the order in which the upstream
/// returned them (not the order in which they were requested).
pub fn resolve<T: FromTile>(tiles: Vec<Tile>) -> (r: Vec<T>)
    ensures
        r@.len() == tiles@.len(),
        forall|i: int| 0 <= i < tiles@.len() ==> T::converts(#[trigger] tiles@[i], r@[i]),
{
    let ghost all = tiles@;
    let mut out: Vec<T> = Vec::new();
    for tile in it: tiles.into_iter()
        invariant
            it.seq() == all,
            out@.len() == it.index(),
            forall|i: int| 0 <= i < out@.len() ==> T::converts(#[trigger] all[i], out@[i]),
    {
        out.push(T::from_tile(tile));
    }
    out
}


/// The step after the section fetch: the ids to resolve, from the last
/// section named `wanted`, or the error that ends the request (the fetch's
/// own, `SectionNotFound` or `EmptySection`).
pub fn select_tile_ids(fetched: Result<Vec<SectionContents>, Error>, wanted: &String) -> (r: Result<
    Vec<String>,
    Error,
>)
    ensures
        match r {
            Ok(ids) => tile_request(fetched, wanted@) == Ok::<Seq<Seq<char>>, Error>(
                ids@.map_values(|id: String| id@),
            ),
            Err(e) => tile_request(fetched, wanted@) == Err::<Seq<Seq<char>>, Error>(e),
        },
{
    match fetched {
        Err(e) => Err(e),
        Ok(sections) => match classify(&sections, wanted) {
            Ok(section) => Ok(tile_ids(section)),
            Err(e) => Err(e),
        },
    }
}

/// The step after the tile lookup: every returned tile converted, in the
/// order returned, or the lookup's error unchanged.
pub fn finish_resolve<T: FromTile>(fetched: Result<Vec<Tile>, Error>) -> (r: Result<Vec<T>, Error>)
    ensures
        match fetched {
            Err(e) => r == Err::<Vec<T>, Error>(e),
            Ok(tiles) => r matches Ok(items) && items@.len() == tiles@.len() && forall|i: int|
                0 <= i < tiles@.len() ==> T::converts(#[trigger] tiles@[i], items@[i]),
        },
{
    match fetched {
        Err(e) => Err(e),
        Ok(tiles) => Ok(resolve(tiles)),
    }
}

/// The sections of `sections` that are named toplists, in order.
pub fn toplist_sections(sections: Vec<SectionContents>) -> (r: Vec<SectionContents>)
    ensures
        r@ == toplists(sections@),
{
    let ghost all = sections@;
    let mut out: Vec<SectionContents> = Vec::new();
    for s in it: sections.into_iter()
        invariant
            it.seq() == all,
            out@ == toplists(all.take(it.index() as int)),
    {
        proof {
            let i = it.index() as int;
            assert(all.take(i + 1).drop_last() =~= all.take(i));
            reveal(Seq::filter);
        }
        let keep = s.toplist_codename.is_some();
        if keep {
            out.push(s);
        }
    }
    assert(all.take(all.len() as int) =~= all);
    out
}

} // verus!

//! The catalog translator. Each content kind is one upstream round trip or
//! two; the transport runs them and hands each outcome to the step here that
//! decides what follows.

use vstd::prelude::*;
use crate::api::ertflix_client::{
    finish_resolve, select_tile_ids, tile_request, toplist_sections, toplists, ApiResponse, Error,
    FromTile, SectionContents, Tile,
};
use crate::config::Config;
use crate::models::ertflix;
use crate::models::ertflix::text_or;
use crate::models::jellyfin;
use crate::models::jellyfin::{collection_entry, user_data_with_key};
use crate::text::decimal;

verus! {

/// Translates between the upstream catalog and the downstream protocol.
#[derive(Debug, Clone)]
pub struct MediaService {
    /// The toplist that lists every movie.
    pub movies_codename: String,
    /// The toplist that lists every complete series.
    pub tv_shows_codename: String,
    /// The server id stamped on library entries.
    pub server_id: String,
}

/// `n`, or `i32::MAX` where it does not fit.
pub open spec fn saturate_i32(n: int) -> i32 {
    if n <= i32::MAX {
        n as i32
    } else {
        i32::MAX
    }
}

fn to_i32_saturating(n: u64) -> (r: i32)
    ensures
        r == saturate_i32(n as int),
{
    if n <= i32::MAX as u64 {
        n as i32
    } else {
        i32::MAX
    }
}

/// `j` shows movie `m`: the description becomes the overview; no poster is
/// known.
pub open spec fn movie_shown(j: jellyfin::Movie, m: ertflix::Movie) -> bool {
    &&& j.id@ == m.id@
    &&& j.title@ == m.title@
    &&& j.year == saturate_i32(m.year as int)
    &&& j.genre@ == m.genre@
    &&& j.overview@ == m.description@
    &&& j.poster_url@.len() == 0
}

/// `j` shows episode `e`, the `position`-th (from 0) of season `number`.
pub open spec fn episode_shown(j: jellyfin::Episode, e: ertflix::Episode, number: u32, position: int) -> bool {
    &&& j.id@ == e.id@
    &&& j.title@ == e.title@
    &&& j.season_number == saturate_i32(number as int)
    &&& j.episode_number == saturate_i32(position + 1)
    &&& j.overview@.len() == 0
    &&& j.duration == saturate_i32(e.duration as int)
}

/// `j` shows season `s`, episode by episode in order; seasons carry no id
/// or title upstream.
pub open spec fn season_shown(j: jellyfin::Season, s: ertflix::Season) -> bool {
    &&& j.id@.len() == 0
    &&& j.title@.len() == 0
    &&& j.season_number == saturate_i32(s.season_number as int)
    &&& j.episodes@.len() == s.episodes@.len()
    &&& forall|i: int|
        0 <= i < s.episodes@.len() ==> episode_shown(
            #[trigger] j.episodes@[i],
            s.episodes@[i],
            s.season_number,
            i,
        )
}

/// `j` shows series `t`, season by season in order.
pub open spec fn show_shown(j: jellyfin::TVShow, t: ertflix::TVShow) -> bool {
    &&& j.id@ == t.id@
    &&& j.title@ == t.title@
    &&& j.seasons@.len() == t.seasons@.len()
    &&& forall|i: int| 0 <= i < t.seasons@.len() ==> season_shown(#[trigger] j.seasons@[i], t.seasons@[i])
    &&& j.overview@.len() == 0
    &&& j.poster_url@.len() == 0
}

/// `c` is the library entry of toplist section `s` on server `server_id`.
pub open spec fn section_entry(c: jellyfin::Collection, s: SectionContents, server_id: Seq<char>) -> bool {
    collection_entry(
        c,
        text_or(s.toplist_codename, Seq::empty()),
        decimal(s.section_id as int),
        server_id,
    )
}

fn convert_season(season: ertflix::Season) -> (r: jellyfin::Season)
    ensures
        season_shown(r, season),
{
    let ghost src = season;
    let number = season.season_number;
    let season_number = to_i32_saturating(number as u64);
    let mut episodes: Vec<jellyfin::Episode> = Vec::new();
    let count = season.episodes.len();
    let mut position: usize = 0;
    for e in it: season.episodes.into_iter()
        invariant
            it.seq() == src.episodes@,
            count == src.episodes@.len(),
            number == src.season_number,
            season_number == saturate_i32(number as int),
            position == it.index(),
            episodes@.len() == position,
            forall|i: int|
                0 <= i < position ==> episode_shown(#[trigger] episodes@[i], src.episodes@[i], number, i),
    {
        assert(position < count);
        let episode_number = to_i32_saturating(position as u64 + 1);
        let duration = to_i32_saturating(e.duration as u64);
        episodes.push(
            jellyfin::Episode {
                id: e.id,
                title: e.title,
                season_number,
                episode_number,
                overview: String::new(),
                duration,
            },
        );
        position = position + 1;
    }
    jellyfin::Season { id: String::new(), title: String::new(), season_number, episodes }
}

impl MediaService {
    /// A translator reading movies and shows from the toplists that `config`
    /// names.
    pub fn new(config: &Config) -> (r: MediaService)
        ensures
            r.movies_codename@ == config.ertflix.movies_codename@,
            r.tv_shows_codename@ == config.ertflix.tv_shows_codename@,
            r.server_id@ == config.server.server_id@,
    {
        MediaService {
            movies_codename: config.ertflix.movies_codename.clone(),
            tv_shows_codename: config.ertflix.tv_shows_codename.clone(),
            server_id: config.server.server_id.clone(),
        }
    }

    /// After fetching the movie section: the tile ids to resolve, or the
    /// error that ends the request.
    pub fn movie_tile_ids(&self, fetched: Result<Vec<SectionContents>, Error>) -> (r: Result<
        Vec<String>,
        Error,
    >)
        ensures
            match r {
                Ok(ids) => tile_request(fetched, self.movies_codename@) == Ok::<
                    Seq<Seq<char>>,
                    Error,
                >(ids@.map_values(|id: String| id@)),
                Err(e) => tile_request(fetched, self.movies_codename@) == Err::<
                    Seq<Seq<char>>,
                    Error,
                >(e),
            },
    {
        select_tile_ids(fetched, &self.movies_codename)
    }

    /// After fetching the series section: the tile ids to resolve, or the
    /// error that ends the request.
    pub fn tv_show_tile_ids(&self, fetched: Result<Vec<SectionContents>, Error>) -> (r: Result<
        Vec<String>,
        Error,
    >)
        ensures
            match r {
                Ok(ids) => tile_request(fetched, self.tv_shows_codename@) == Ok::<
                    Seq<Seq<char>>,
                    Error,
                >(ids@.map_values(|id: String| id@)),
                Err(e) => tile_request(fetched, self.tv_shows_codename@) == Err::<
                    Seq<Seq<char>>,
                    Error,
                >(e),
            },
    {
        select_tile_ids(fetched, &self.tv_shows_codename)
    }

    /// After resolving the movie tiles: the movies, in the order returned.
    pub fn get_movies(&self, fetched: Result<Vec<Tile>, Error>) -> (r: Result<Vec<ertflix::Movie>, Error>)
        ensures
            match fetched {
                Err(e) => r == Err::<Vec<ertflix::Movie>, Error>(e),
                Ok(tiles) => r matches Ok(movies) && movies@.len() == tiles@.len() && forall|i: int|
                    0 <= i < tiles@.len() ==> ertflix::Movie::converts(#[trigger] tiles@[i], movies@[i]),
            },
    {
        finish_resolve(fetched)
    }

    /// After resolving the series tiles: the shows, in the order returned.
    pub fn get_tv_shows(&self, fetched: Result<Vec<Tile>, Error>) -> (r: Result<Vec<ertflix::TVShow>, Error>)
        ensures
            match fetched {
                Err(e) => r == Err::<Vec<ertflix::TVShow>, Error>(e),
                Ok(tiles) => r matches Ok(shows) && shows@.len() == tiles@.len() && forall|i: int|
                    0 <= i < tiles@.len() ==> ertflix::TVShow::converts(#[trigger] tiles@[i], shows@[i]),
            },
    {
        finish_resolve(fetched)
    }

    /// After fetching the catalog page: one library entry per toplist
    /// section, in order, or the fetch's error unchanged.
    pub fn get_collections(&self, fetched: Result<ApiResponse, Error>) -> (r: Result<
        Vec<jellyfin::Collection>,
        Error,
    >)
        ensures
            match fetched {
                Err(e) => r == Err::<Vec<jellyfin::Collection>, Error>(e),
                Ok(page) => r matches Ok(items) && items@.len() == toplists(
                    page.section_contents@,
                ).len() && forall|i: int|
                    0 <= i < items@.len() ==> section_entry(
                        #[trigger] items@[i],
                        toplists(page.section_contents@)[i],
                        self.server_id@,
                    ) && user_data_with_key(items@[i].user_data, items@[i].user_data.key@),
            },
    {
        match fetched {
            Err(e) => Err(e),
            Ok(page) => {
                let sections = toplist_sections(page.section_contents);
                let mut items: Vec<jellyfin::Collection> = Vec::new();
                let mut i: usize = 0;
                while i < sections.len()
                    invariant
                        i <= sections@.len(),
                        items@.len() == i,
                        forall|j: int|
                            0 <= j < i ==> section_entry(#[trigger] items@[j], sections@[j], self.server_id@)
                                && user_data_with_key(items@[j].user_data, items@[j].user_data.key@),
                    decreases sections@.len() - i,
                {
                    let source = ertflix::Collection::from_section(&sections[i]);
                    items.push(jellyfin::Collection::from(source, &self.server_id));
                    i = i + 1;
                }
                Ok(items)
            },
        }
    }

    /// The downstream form of a movie.
    pub fn convert_to_jellyfin_movie(&self, movie: ertflix::Movie) -> (r: jellyfin::Movie)
        ensures
            movie_shown(r, movie),
    {
        let year = to_i32_saturating(movie.year as u64);
        jellyfin::Movie {
            id: movie.id,
            title: movie.title,
            year,
            genre: movie.genre,
            overview: movie.description,
            poster_url: String::new(),
        }
    }

    /// The downstream form of a series.
    pub fn convert_to_jellyfin_tv_show(&self, tv_show: ertflix::TVShow) -> (r: jellyfin::TVShow)
        ensures
            show_shown(r, tv_show),
    {
        let ghost src = tv_show;
        let mut seasons: Vec<jellyfin::Season> = Vec::new();
        for s in it: tv_show.seasons.into_iter()
            invariant
                it.seq() == src.seasons@,
                seasons@.len() == it.index(),
                forall|i: int| 0 <= i < seasons@.len() ==> season_shown(#[trigger] seasons@[i], src.seasons@[i]),
        {
            seasons.push(convert_season(s));
        }
        jellyfin::TVShow {
            id: tv_show.id,
            title: tv_show.title,
            seasons,
            overview: String::new(),
            poster_url: String::new(),
        }
    }
}

} // verus!

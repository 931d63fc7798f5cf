use ertflix_2_jellyfin::api::ertflix_client::{
    finish_resolve, resolve, Error, FromTile, SectionContents, Tile,
};
use ertflix_2_jellyfin::models::ertflix::{Movie, TVShow};
use ertflix_2_jellyfin::services::media_service::MediaService;

fn tile(id: &str, codename: &str, title: Option<&str>, year: Option<u32>, description: Option<&str>) -> Tile {
    Tile {
        origin_entity_id: 7,
        codename: codename.to_string(),
        id: id.to_string(),
        year,
        description: description.map(|d| d.to_string()),
        title: title.map(|t| t.to_string()),
    }
}

fn service(movies: &str) -> MediaService {
    MediaService {
        movies_codename: movies.to_string(),
        tv_shows_codename: "ert-seires-plereis".to_string(),
        server_id: "srv".to_string(),
    }
}

#[test]
fn movie_defaults_for_missing_title_and_year() {
    let m = Movie::from_tile(tile("1", "movieA", None, None, None));
    assert_eq!(m.id, "1");
    assert_eq!(m.title, "");
    assert_eq!(m.year, 1970);
    assert!(m.genre.is_empty());
    assert_eq!(m.description, "");
}

#[test]
fn movie_keeps_given_fields() {
    let m = Movie::from_tile(tile("2", "movieB", Some("Title"), Some(1999), Some("About")));
    assert_eq!(m.title, "Title");
    assert_eq!(m.year, 1999);
    assert_eq!(m.description, "About");
}

#[test]
fn show_title_falls_back_to_codename() {
    let s = TVShow::from_tile(tile("3", "show-c", None, Some(2001), None));
    assert_eq!(s.id, "3");
    assert_eq!(s.title, "show-c");
    assert!(s.seasons.is_empty());
    let s = TVShow::from_tile(tile("4", "show-d", Some("Show D"), None, None));
    assert_eq!(s.title, "Show D");
}

#[test]
fn resolve_keeps_upstream_order() {
    // Requested as ["a", "b"]; the lookup answered b first.
    let answered = vec![tile("b", "cb", Some("B"), None, None), tile("a", "ca", Some("A"), None, None)];
    let movies: Vec<Movie> = resolve(answered);
    let ids: Vec<&str> = movies.iter().map(|m| m.id.as_str()).collect();
    assert_eq!(ids, vec!["b", "a"]);
}

#[test]
fn finish_resolve_forwards_lookup_error() {
    let r: Result<Vec<Movie>, Error> = finish_resolve(Err(Error::Transport("reset".to_string())));
    assert!(matches!(r, Err(Error::Transport(m)) if m == "reset"));
}

#[test]
fn movies_end_to_end_from_canned_catalog() {
    let svc = service("ert-oles-oi-tainies");
    let catalog = vec![SectionContents {
        toplist_codename: Some("ert-oles-oi-tainies".to_string()),
        section_id: 10,
        tiles_ids: Some(vec![tile("1", "movieA", None, None, None)]),
    }];
    let ids = svc.movie_tile_ids(Ok(catalog)).unwrap();
    assert_eq!(ids, vec!["1".to_string()]);
    let answered = vec![tile("1", "movieA", Some("Movie A"), Some(2020), None)];
    let movies = svc.get_movies(Ok(answered)).unwrap();
    assert_eq!(movies.len(), 1);
    assert_eq!(movies[0].id, "1");
    assert_eq!(movies[0].title, "Movie A");
    assert_eq!(movies[0].year, 2020);
    assert!(movies[0].genre.is_empty());
    assert_eq!(movies[0].description, "");
}

#[test]
fn shows_end_to_end_from_canned_catalog() {
    let svc = service("movies");
    let catalog = vec![
        SectionContents {
            toplist_codename: Some("ert-seires-plereis".to_string()),
            section_id: 1,
            tiles_ids: Some(vec![tile("s1", "first", None, None, None)]),
        },
        SectionContents {
            toplist_codename: Some("ert-seires-plereis".to_string()),
            section_id: 2,
            tiles_ids: Some(vec![tile("s2", "second", None, None, None), tile("s3", "third", None, None, None)]),
        },
    ];
    let ids = svc.tv_show_tile_ids(Ok(catalog)).unwrap();
    assert_eq!(ids, vec!["s2".to_string(), "s3".to_string()]);
    let answered = vec![tile("s3", "third", None, None, None), tile("s2", "second", Some("Second"), None, None)];
    let shows = svc.get_tv_shows(Ok(answered)).unwrap();
    let titles: Vec<&str> = shows.iter().map(|s| s.title.as_str()).collect();
    assert_eq!(titles, vec!["third", "Second"]);
}

#[test]
fn movie_pipeline_reports_missing_section() {
    let svc = service("oles-oi-tainies-1");
    let catalog = vec![SectionContents {
        toplist_codename: Some("ert-oles-oi-tainies".to_string()),
        section_id: 10,
        tiles_ids: Some(vec![tile("1", "movieA", None, None, None)]),
    }];
    assert!(matches!(svc.movie_tile_ids(Ok(catalog)), Err(Error::SectionNotFound)));
    assert!(matches!(
        svc.get_movies(Err(Error::Decode("x".to_string()))),
        Err(Error::Decode(_))
    ));
}

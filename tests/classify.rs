use ertflix_2_jellyfin::api::ertflix_client::{
    classify, select_tile_ids, tile_ids, toplist_sections, Error, SectionContents, Tile,
};

fn tile_ref(id: &str) -> Tile {
    Tile {
        origin_entity_id: 0,
        codename: format!("tile-{}", id),
        id: id.to_string(),
        year: None,
        description: None,
        title: None,
    }
}

fn section(codename: Option<&str>, id: i32, tiles: Option<Vec<&str>>) -> SectionContents {
    SectionContents {
        toplist_codename: codename.map(|c| c.to_string()),
        section_id: id,
        tiles_ids: tiles.map(|t| t.into_iter().map(tile_ref).collect()),
    }
}

#[test]
fn classify_returns_last_match_not_first() {
    let sections = vec![
        section(Some("x"), 1, Some(vec!["a"])),
        section(Some("y"), 2, Some(vec!["b"])),
        section(Some("x"), 3, Some(vec!["c"])),
    ];
    let found = classify(&sections, &"x".to_string()).unwrap();
    assert_eq!(found.section_id, 3);
}

#[test]
fn classify_empty_catalog_is_not_found() {
    let sections: Vec<SectionContents> = vec![];
    assert!(matches!(classify(&sections, &"x".to_string()), Err(Error::SectionNotFound)));
}

#[test]
fn classify_without_matching_codename_is_not_found() {
    let sections = vec![
        section(Some("y"), 1, Some(vec!["a"])),
        section(None, 2, Some(vec!["b"])),
        section(Some("xx"), 3, Some(vec!["c"])),
    ];
    assert!(matches!(classify(&sections, &"x".to_string()), Err(Error::SectionNotFound)));
}

#[test]
fn classify_matched_section_without_tiles_is_empty() {
    let sections = vec![section(Some("x"), 1, None)];
    assert!(matches!(classify(&sections, &"x".to_string()), Err(Error::EmptySection)));
}

#[test]
fn classify_matched_section_with_empty_tiles_is_empty() {
    let sections = vec![section(Some("x"), 1, Some(vec![]))];
    assert!(matches!(classify(&sections, &"x".to_string()), Err(Error::EmptySection)));
}

#[test]
fn classify_empty_last_match_hides_earlier_one() {
    let sections = vec![section(Some("x"), 1, Some(vec!["a"])), section(Some("x"), 2, Some(vec![]))];
    assert!(matches!(classify(&sections, &"x".to_string()), Err(Error::EmptySection)));
}

#[test]
fn tile_ids_keep_section_order() {
    let s = section(Some("x"), 1, Some(vec!["c", "a", "b"]));
    assert_eq!(tile_ids(&s), vec!["c".to_string(), "a".to_string(), "b".to_string()]);
    assert!(tile_ids(&section(Some("x"), 1, None)).is_empty());
}

#[test]
fn select_tile_ids_of_last_match() {
    let sections = vec![
        section(Some("x"), 1, Some(vec!["a"])),
        section(Some("x"), 2, Some(vec!["b", "c"])),
    ];
    let ids = select_tile_ids(Ok(sections), &"x".to_string()).unwrap();
    assert_eq!(ids, vec!["b".to_string(), "c".to_string()]);
}

#[test]
fn select_tile_ids_forwards_fetch_error() {
    let r = select_tile_ids(Err(Error::Transport("timed out".to_string())), &"x".to_string());
    assert!(matches!(r, Err(Error::Transport(m)) if m == "timed out"));
    let r = select_tile_ids(Err(Error::Decode("bad".to_string())), &"x".to_string());
    assert!(matches!(r, Err(Error::Decode(m)) if m == "bad"));
}

#[test]
fn select_tile_ids_reports_classification_errors() {
    let r = select_tile_ids(Ok(vec![section(Some("y"), 1, Some(vec!["a"]))]), &"x".to_string());
    assert!(matches!(r, Err(Error::SectionNotFound)));
    let r = select_tile_ids(Ok(vec![section(Some("x"), 1, None)]), &"x".to_string());
    assert!(matches!(r, Err(Error::EmptySection)));
}

#[test]
fn toplist_sections_keep_named_ones_in_order() {
    let sections = vec![
        section(Some("b"), 1, None),
        section(None, 2, None),
        section(Some("a"), 3, None),
        section(None, 4, None),
    ];
    let kept = toplist_sections(sections);
    let ids: Vec<i32> = kept.iter().map(|s| s.section_id).collect();
    assert_eq!(ids, vec![1, 3]);
}

#[test]
fn error_messages_name_the_kind() {
    assert_eq!(Error::Transport("down".to_string()).message(), "Transport error: down");
    assert_eq!(Error::Decode("eof".to_string()).message(), "Decode error: eof");
    assert_eq!(Error::SectionNotFound.message(), "Section not found");
    assert_eq!(Error::EmptySection.message(), "Section has no tiles");
}

//! Records in the shape the downstream (Jellyfin) protocol expects.

use vstd::prelude::*;
use vstd::utf8::{encode_utf8, encode_utf8_decode_utf8};
use crate::clock::local_now_text;
use crate::ids::{name_based_uuid, random_uuid, url_uuid_v5};
use crate::models::ertflix;

verus! {

#[derive(Debug, Clone)]
pub struct Movie {
    pub id: String,
    pub title: String,
    pub year: i32,
    pub genre: Vec<String>,
    pub overview: String,
    pub poster_url: String,
}

#[derive(Debug, Clone)]
pub struct TVShow {
    pub id: String,
    pub title: String,
    pub seasons: Vec<Season>,
    pub overview: String,
    pub poster_url: String,
}

#[derive(Debug, Clone)]
pub struct Season {
    pub id: String,
    pub title: String,
    pub season_number: i32,
    pub episodes: Vec<Episode>,
}

#[derive(Debug, Clone)]
pub struct Episode {
    pub id: String,
    pub title: String,
    pub season_number: i32,
    pub episode_number: i32,
    pub overview: String,
    pub duration: i32,
}

/// A library (collection folder) entry. The protocol's primary image aspect
/// ratio is always zero here and is written where the record is serialised.
#[derive(Debug, Clone)]
pub struct Collection {
    pub name: String,
    pub server_id: String,
    pub id: String,
    pub etag: String,
    pub date_created: String,
    pub can_delete: bool,
    pub can_download: bool,
    pub sort_name: String,
    pub external_urls: Vec<String>,
    pub path: String,
    pub enable_media_source_display: bool,
    pub channel_id: Option<String>,
    pub taglines: Vec<String>,
    pub genres: Vec<String>,
    pub play_access: String,
    pub remote_trailers: Vec<String>,
    /// Provider name to provider id.
    pub provider_ids: Vec<(String, String)>,
    pub is_folder: bool,
    pub parent_id: String,
    pub item_type: String,
    pub people: Vec<String>,
    pub studios: Vec<String>,
    pub genre_items: Vec<String>,
    pub local_trailer_count: i32,
    pub user_data: UserData,
    pub child_count: i32,
    pub special_feature_count: i32,
    pub display_preferences_id: String,
    pub tags: Vec<String>,
    pub collection_type: String,
    pub image_tags: ImageTags,
    pub backdrop_image_tags: Vec<String>,
    pub image_blur_hashes: ImageBlurHashes,
    pub location_type: String,
    pub media_type: String,
    pub locked_fields: Vec<String>,
    pub lock_data: bool,
}

/// The body of the library listing.
#[derive(Debug, Clone)]
pub struct Collections {
    pub items: Vec<Collection>,
    pub total_record_count: usize,
    pub start_index: i32,
}

#[derive(Debug, Clone)]
pub struct UserData {
    pub playback_position_ticks: i64,
    pub play_count: i32,
    pub is_favorite: bool,
    pub played: bool,
    pub key: String,
    pub item_id: String,
}

#[derive(Debug, Clone)]
pub struct ImageTags {
    pub primary: String,
}

#[derive(Debug, Clone)]
pub struct ImageBlurHashes {
    /// Image tag to blur hash.
    pub primary: Vec<(String, String)>,
}

/// The cache tag of a collection: the name-based UUID of the UTF-8 bytes of
/// its id followed by those of its name.
pub open spec fn etag(id: Seq<char>, name: Seq<char>) -> Seq<char> {
    url_uuid_v5(encode_utf8(id) + encode_utf8(name))
}

/// The etag is a function of `(id, name)`: equal pairs give equal tags.
pub proof fn etag_depends_on_id_and_name(id1: Seq<char>, name1: Seq<char>, id2: Seq<char>, name2: Seq<char>)
    requires
        id1 == id2,
        name1 == name2,
    ensures
        etag(id1, name1) == etag(id2, name2),
{
}

/// With the id held fixed, two different names give two different inputs to
/// the name-based UUID behind the etag.
pub proof fn etag_input_differs_by_name(id: Seq<char>, name1: Seq<char>, name2: Seq<char>)
    requires
        name1 != name2,
    ensures
        encode_utf8(id) + encode_utf8(name1) != encode_utf8(id) + encode_utf8(name2),
{
    let p = encode_utf8(id);
    if p + encode_utf8(name1) == p + encode_utf8(name2) {
        assert(encode_utf8(name1) =~= (p + encode_utf8(name1)).skip(p.len() as int));
        assert(encode_utf8(name2) =~= (p + encode_utf8(name2)).skip(p.len() as int));
        encode_utf8_decode_utf8(name1);
        encode_utf8_decode_utf8(name2);
    }
}

/// Computes `etag(id@, name@)`.
pub fn collection_etag(id: &String, name: &String) -> (r: String)
    ensures
        r@ == etag(id@, name@),
        r@.len() == 36,
{
    let a = id.as_str().as_bytes();
    let b = name.as_str().as_bytes();
    let mut bytes: Vec<u8> = Vec::new();
    let mut i: usize = 0;
    while i < a.len()
        invariant
            i <= a@.len(),
            bytes@ == a@.take(i as int),
        decreases a@.len() - i,
    {
        bytes.push(a[i]);
        i = i + 1;
        assert(bytes@ =~= a@.take(i as int));
    }
    let mut j: usize = 0;
    while j < b.len()
        invariant
            i == a@.len(),
            j <= b@.len(),
            bytes@ == a@ + b@.take(j as int),
        decreases b@.len() - j,
    {
        bytes.push(b[j]);
        j = j + 1;
        assert(bytes@ =~= a@ + b@.take(j as int));
    }
    assert(a@.take(i as int) =~= a@);
    assert(b@.take(j as int) =~= b@);
    name_based_uuid(bytes.as_slice())
}

/// The fixed part of `UserData`: nothing played, not a favourite.
pub open spec fn user_data_with_key(u: UserData, key: Seq<char>) -> bool {
    &&& u.playback_position_ticks == 0
    &&& u.play_count == 0
    &&& !u.is_favorite
    &&& !u.played
    &&& u.key@ == key
    &&& u.item_id@ == "00000000000000000000000000000000"@
}

impl UserData {
    /// User data for an item that was never played, under `key`.
    pub fn with_key(key: String) -> (r: UserData)
        ensures
            user_data_with_key(r, key@),
    {
        UserData {
            playback_position_ticks: 0,
            play_count: 0,
            is_favorite: false,
            played: false,
            key,
            item_id: "00000000000000000000000000000000".to_owned(),
        }
    }
}

impl Default for UserData {
    /// User data under a fresh random key.
    fn default() -> (r: UserData)
        ensures
            user_data_with_key(r, r.key@),
            r.key@.len() == 36,
    {
        UserData::with_key(random_uuid())
    }
}

impl Default for ImageTags {
    fn default() -> (r: ImageTags)
        ensures
            r.primary@ == "00000000000000000000000000000000"@,
    {
        ImageTags { primary: "00000000000000000000000000000000".to_owned() }
    }
}

impl Default for ImageBlurHashes {
    fn default() -> (r: ImageBlurHashes)
        ensures
            r.primary@.len() == 1,
            r.primary@[0].0@ == "4183b69eb08fcd80b087bdf0cdd36c7c"@,
            r.primary@[0].1@ == "000"@,
    {
        let mut primary: Vec<(String, String)> = Vec::new();
        primary.push(("4183b69eb08fcd80b087bdf0cdd36c7c".to_owned(), "000".to_owned()));
        ImageBlurHashes { primary }
    }
}

/// Every field of a collection entry that the protocol requires and the
/// upstream does not provide, at its fixed value.
pub open spec fn collection_defaults(c: Collection) -> bool {
    &&& c.can_delete
    &&& c.can_download
    &&& c.sort_name@ == "movies"@
    &&& c.external_urls@.len() == 0
    &&& c.path@.len() == 0
    &&& !c.enable_media_source_display
    &&& c.channel_id is None
    &&& c.taglines@.len() == 0
    &&& c.genres@.len() == 0
    &&& c.play_access@ == "Full"@
    &&& c.remote_trailers@.len() == 0
    &&& c.provider_ids@.len() == 0
    &&& c.is_folder
    &&& c.parent_id@.len() == 0
    &&& c.item_type@ == "CollectionFolder"@
    &&& c.people@.len() == 0
    &&& c.studios@.len() == 0
    &&& c.genre_items@.len() == 0
    &&& c.local_trailer_count == 0
    &&& c.child_count == 0
    &&& c.special_feature_count == 0
    &&& c.display_preferences_id@.len() == 0
    &&& c.tags@.len() == 0
    &&& c.collection_type@.len() == 0
    &&& c.image_tags.primary@ == "00000000000000000000000000000000"@
    &&& c.backdrop_image_tags@.len() == 0
    &&& c.image_blur_hashes.primary@.len() == 1
    &&& c.image_blur_hashes.primary@[0].0@ == "4183b69eb08fcd80b087bdf0cdd36c7c"@
    &&& c.image_blur_hashes.primary@[0].1@ == "000"@
    &&& c.location_type@ == "FileSystem"@
    &&& c.media_type@ == "Unknown"@
    &&& c.locked_fields@.len() == 0
    &&& !c.lock_data
}

/// `c` is the entry of the collection `name` with id `id` on server
/// `server_id`: name and id from the upstream, the derived etag, and the
/// fixed defaults.
pub open spec fn collection_entry(c: Collection, name: Seq<char>, id: Seq<char>, server_id: Seq<char>) -> bool {
    &&& c.name@ == name
    &&& c.id@ == id
    &&& c.server_id@ == server_id
    &&& c.etag@ == etag(id, name)
    &&& collection_defaults(c)
}

impl Collection {
    /// The entry for `source`, created at `date_created`, whose user data
    /// has key `user_data_key`.
    pub fn build(
        source: ertflix::Collection,
        server_id: &String,
        date_created: String,
        user_data_key: String,
    ) -> (r: Collection)
        ensures
            collection_entry(r, source.name@, source.id@, server_id@),
            r.date_created@ == date_created@,
            user_data_with_key(r.user_data, user_data_key@),
    {
        let etag = collection_etag(&source.id, &source.name);
        Collection {
            name: source.name,
            server_id: server_id.clone(),
            id: source.id,
            etag,
            date_created,
            can_delete: true,
            can_download: true,
            sort_name: "movies".to_owned(),
            external_urls: Vec::new(),
            path: String::new(),
            enable_media_source_display: false,
            channel_id: None,
            taglines: Vec::new(),
            genres: Vec::new(),
            play_access: "Full".to_owned(),
            remote_trailers: Vec::new(),
            provider_ids: Vec::new(),
            is_folder: true,
            parent_id: String::new(),
            item_type: "CollectionFolder".to_owned(),
            people: Vec::new(),
            studios: Vec::new(),
            genre_items: Vec::new(),
            local_trailer_count: 0,
            user_data: UserData::with_key(user_data_key),
            child_count: 0,
            special_feature_count: 0,
            display_preferences_id: String::new(),
            tags: Vec::new(),
            collection_type: String::new(),
            image_tags: ImageTags::default(),
            backdrop_image_tags: Vec::new(),
            image_blur_hashes: ImageBlurHashes::default(),
            location_type: "FileSystem".to_owned(),
            media_type: "Unknown".to_owned(),
            locked_fields: Vec::new(),
            lock_data: false,
        }
    }

    /// The entry for `source`, stamped with the local time now and a fresh
    /// random user-data key.
    pub fn from(source: ertflix::Collection, server_id: &String) -> (r: Collection)
        ensures
            collection_entry(r, source.name@, source.id@, server_id@),
            user_data_with_key(r.user_data, r.user_data.key@),
            r.user_data.key@.len() == 36,
    {
        let date_created = local_now_text();
        let key = random_uuid();
        Collection::build(source, server_id, date_created, key)
    }
}

impl Collections {
    /// The listing of `items`, all of them on one page.
    pub fn new(items: Vec<Collection>) -> (r: Collections)
        ensures
            r.items@ == items@,
            r.total_record_count == items@.len(),
            r.start_index == 0,
    {
        let total_record_count = items.len();
        Collections { items, total_record_count, start_index: 0 }
    }
}

} // verus!

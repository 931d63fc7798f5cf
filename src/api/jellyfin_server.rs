//! The downstream server's fixed records and the client identification
//! header.

use vstd::prelude::*;
use crate::clock::{create_jellyfin_timestamp, jellyfin_timestamp, Timestamp};
use crate::config::ServerIdentity;
use crate::ids::random_uuid;
use crate::text::{
    chars_of, equals_literal, find_char, first_index, is_white_space, is_white_space_char,
    split_on, trim, trim_bounds,
};

verus! {

/// What a client says of itself in the `X-Emby-Authorization` header.
#[derive(Debug, Clone)]
pub struct EmbyAuthorizationHeader {
    pub version: String,
    pub device: String,
    pub device_id: String,
    pub client: String,
}

/// The four fields of the header, as text.
pub struct HeaderFields {
    pub version: Seq<char>,
    pub device: Seq<char>,
    pub device_id: Seq<char>,
    pub client: Seq<char>,
}

impl EmbyAuthorizationHeader {
    pub open spec fn fields(&self) -> HeaderFields {
        HeaderFields {
            version: self.version@,
            device: self.device@,
            device_id: self.device_id@,
            client: self.client@,
        }
    }
}

/// The key of a `key=value` pair: the trimmed text before the first `=`.
pub open spec fn pair_key(part: Seq<char>) -> Seq<char> {
    let p = trim(part, false);
    trim(p.take(first_index(p, '=') as int), false)
}

/// The value of a `key=value` pair: the text after the first `=`, trimmed,
/// then stripped of surrounding double quotes; empty where there is no `=`.
pub open spec fn pair_value(part: Seq<char>) -> Seq<char> {
    let p = trim(part, false);
    let k = first_index(p, '=') as int;
    if k < p.len() {
        trim(trim(p.skip(k + 1), false), true)
    } else {
        Seq::empty()
    }
}

/// The field that a key names: the header opens with the scheme word
/// `MediaBrowser`, which the first key carries in front of it.
pub open spec fn field_name(key: Seq<char>) -> Seq<char> {
    if key.len() > 12 && key.take(12) == "MediaBrowser"@ && is_white_space(key[12]) {
        trim(key.skip(12), false)
    } else {
        key
    }
}

/// `h` after reading one pair; a key that names none of the four fields
/// changes nothing.
pub open spec fn apply_pair(h: HeaderFields, part: Seq<char>) -> HeaderFields {
    let name = field_name(pair_key(part));
    let value = pair_value(part);
    if name == "Version"@ {
        HeaderFields { version: value, ..h }
    } else if name == "Device"@ {
        HeaderFields { device: value, ..h }
    } else if name == "DeviceId"@ {
        HeaderFields { device_id: value, ..h }
    } else if name == "Client"@ {
        HeaderFields { client: value, ..h }
    } else {
        h
    }
}

/// `h` after reading `parts` in order: a later pair overrides an earlier one.
pub open spec fn apply_pairs(h: HeaderFields, parts: Seq<Seq<char>>) -> HeaderFields
    decreases parts.len(),
{
    if parts.len() == 0 {
        h
    } else {
        apply_pair(apply_pairs(h, parts.drop_last()), parts.last())
    }
}

/// The fields read from a header value: its comma-separated pairs, applied
/// to four empty fields.
pub open spec fn parsed_header(s: Seq<char>) -> HeaderFields {
    apply_pairs(
        HeaderFields {
            version: Seq::empty(),
            device: Seq::empty(),
            device_id: Seq::empty(),
            client: Seq::empty(),
        },
        split_on(s, ','),
    )
}

impl EmbyAuthorizationHeader {
    /// Reads the pair in `chars[lo..hi]` into `self`.
    fn read_pair(&mut self, s: &str, chars: &Vec<char>, lo: usize, hi: usize)
        requires
            chars@ == s@,
            lo <= hi <= chars@.len(),
        ensures
            final(self).fields() == apply_pair(old(self).fields(), chars@.subrange(lo as int, hi as int)),
    {
        let ghost part = chars@.subrange(lo as int, hi as int);
        let (a, b) = trim_bounds(chars, lo, hi, false);
        let ghost p = chars@.subrange(a as int, b as int);
        let k = find_char(chars, a, b, '=');
        assert(p.take(k - a) =~= chars@.subrange(a as int, k as int));
        let (ka, kb) = trim_bounds(chars, a, k, false);
        let ghost key = chars@.subrange(ka as int, kb as int);
        assert(key == pair_key(part));
        let (na, nb) = if kb - ka > 12 && equals_literal(chars, ka, ka + 12, "MediaBrowser")
            && is_white_space_char(chars[ka + 12]) {
            assert(key.take(12) =~= chars@.subrange(ka as int, ka + 12));
            assert(key.skip(12) =~= chars@.subrange(ka + 12, kb as int));
            trim_bounds(chars, ka + 12, kb, false)
        } else {
            proof {
                if key.len() > 12 {
                    assert(key.take(12) =~= chars@.subrange(ka as int, ka + 12));
                    assert(key[12] == chars@[ka + 12]);
                }
            }
            (ka, kb)
        };
        assert(chars@.subrange(na as int, nb as int) == field_name(key));
        let (va, vb) = if k < b {
            assert(p.skip(k - a + 1) =~= chars@.subrange(k + 1, b as int));
            let (wa, wb) = trim_bounds(chars, k + 1, b, false);
            trim_bounds(chars, wa, wb, true)
        } else {
            (k, k)
        };
        assert(chars@.subrange(va as int, vb as int) =~= pair_value(part));
        let value = s.substring_char(va, vb).to_owned();
        if equals_literal(chars, na, nb, "Version") {
            self.version = value;
        } else if equals_literal(chars, na, nb, "Device") {
            self.device = value;
        } else if equals_literal(chars, na, nb, "DeviceId") {
            self.device_id = value;
        } else if equals_literal(chars, na, nb, "Client") {
            self.client = value;
        }
    }

    /// Reads a header value such as
    /// `MediaBrowser Client="Infuse", Device="AppleTV", DeviceId="xyz", Version="1.0"`.
    /// Missing fields stay empty and unknown keys are ignored; no input is
    /// rejected.
    pub fn parse(s: &str) -> (r: EmbyAuthorizationHeader)
        ensures
            r.fields() == parsed_header(s@),
    {
        let chars = chars_of(s);
        let mut h = EmbyAuthorizationHeader {
            version: String::new(),
            device: String::new(),
            device_id: String::new(),
            client: String::new(),
        };
        let ghost empty = h.fields();
        let mut start: usize = 0;
        let mut i: usize = 0;
        while i < chars.len()
            invariant
                chars@ == s@,
                start <= i <= chars@.len(),
                split_on(chars@.take(i as int), ',').len() >= 1,
                h.fields() == apply_pairs(empty, split_on(chars@.take(i as int), ',').drop_last()),
                split_on(chars@.take(i as int), ',').last() == chars@.subrange(start as int, i as int),
            decreases chars@.len() - i,
        {
            let ghost before = split_on(chars@.take(i as int), ',');
            assert(chars@.take(i + 1).drop_last() =~= chars@.take(i as int));
            if chars[i] == ',' {
                h.read_pair(s, &chars, start, i);
                start = i + 1;
                assert(split_on(chars@.take(i + 1), ',') == before.push(Seq::empty()));
                assert(before.push(Seq::empty()).drop_last() =~= before);
            } else {
                let ghost after = split_on(chars@.take(i + 1), ',');
                assert(after == before.update(before.len() - 1, before.last().push(chars@[i as int])));
                assert(after.drop_last() =~= before.drop_last());
                assert(chars@.subrange(start as int, i + 1) =~= chars@.subrange(start as int, i as int).push(chars@[i as int]));
            }
            i = i + 1;
        }
        h.read_pair(s, &chars, start, i);
        assert(chars@.take(i as int) =~= s@);
        h
    }
}

impl std::str::FromStr for EmbyAuthorizationHeader {
    type Err = ();

    /// Never fails; reads the header as `EmbyAuthorizationHeader::parse` does.
    fn from_str(s: &str) -> (r: Result<EmbyAuthorizationHeader, ()>)
        ensures
            r matches Ok(h) && h.fields() == parsed_header(s@),
    {
        Ok(EmbyAuthorizationHeader::parse(s))
    }
}


/// The answer to the public system-information probe.
#[derive(Debug, Clone)]
pub struct SystemInfo {
    pub local_address: String,
    pub server_name: String,
    pub version: String,
    pub product_name: String,
    pub operating_system: String,
    pub id: String,
    pub startup_wizard_completed: bool,
}

impl SystemInfo {
    /// The probe answer of server `server_id`.
    pub fn new(server_id: &String) -> (r: SystemInfo)
        ensures
            r.local_address@ == "http://localhost:25860"@,
            r.server_name@ == "Ertflix Adapter"@,
            r.version@ == "10.8.0"@,
            r.product_name@ == "Jellyfin Server"@,
            r.operating_system@ == "Linux"@,
            r.id@ == server_id@,
            r.startup_wizard_completed,
    {
        SystemInfo {
            local_address: "http://localhost:25860".to_owned(),
            server_name: "Ertflix Adapter".to_owned(),
            version: "10.8.0".to_owned(),
            product_name: "Jellyfin Server".to_owned(),
            operating_system: "Linux".to_owned(),
            id: server_id.clone(),
            startup_wizard_completed: true,
        }
    }
}

/// The user's display and playback preferences.
#[derive(Debug, Clone)]
pub struct Configuration {
    pub audio_language_preference: String,
    pub play_default_audio_track: bool,
    pub subtitle_language_preference: String,
    pub display_missing_episodes: bool,
    pub grouped_folders: Vec<String>,
    pub subtitle_mode: String,
    pub display_collections_view: bool,
    pub enable_local_password: bool,
    pub ordered_views: Vec<String>,
    pub latest_items_excludes: Vec<String>,
    pub my_media_excludes: Vec<String>,
    pub hide_played_in_latest: bool,
    pub remember_audio_selections: bool,
    pub remember_subtitle_selections: bool,
    pub enable_next_episode_auto_play: bool,
    pub cast_receiver_id: String,
}

/// English audio and subtitles, subtitles always on, and the rest at the
/// protocol's defaults.
pub open spec fn configuration_defaults(c: Configuration) -> bool {
    &&& c.audio_language_preference@ == "eng"@
    &&& c.play_default_audio_track
    &&& c.subtitle_language_preference@ == "eng"@
    &&& !c.display_missing_episodes
    &&& c.grouped_folders@.len() == 0
    &&& c.subtitle_mode@ == "Always"@
    &&& !c.display_collections_view
    &&& !c.enable_local_password
    &&& c.ordered_views@.len() == 0
    &&& c.latest_items_excludes@.len() == 0
    &&& c.my_media_excludes@.len() == 0
    &&& c.hide_played_in_latest
    &&& c.remember_audio_selections
    &&& c.remember_subtitle_selections
    &&& c.enable_next_episode_auto_play
    &&& c.cast_receiver_id@.len() == 0
}

impl Default for Configuration {
    fn default() -> (r: Configuration)
        ensures
            configuration_defaults(r),
    {
        Configuration {
            audio_language_preference: "eng".to_owned(),
            play_default_audio_track: true,
            subtitle_language_preference: "eng".to_owned(),
            display_missing_episodes: false,
            grouped_folders: Vec::new(),
            subtitle_mode: "Always".to_owned(),
            display_collections_view: false,
            enable_local_password: false,
            ordered_views: Vec::new(),
            latest_items_excludes: Vec::new(),
            my_media_excludes: Vec::new(),
            hide_played_in_latest: true,
            remember_audio_selections: true,
            remember_subtitle_selections: true,
            enable_next_episode_auto_play: true,
            cast_receiver_id: String::new(),
        }
    }
}

/// What the user may do.
#[derive(Debug, Clone)]
pub struct Policy {
    pub is_administrator: bool,
    pub is_hidden: bool,
    pub enable_collection_management: bool,
    pub enable_subtitle_management: bool,
    pub enable_lyric_management: bool,
    pub is_disabled: bool,
    pub blocked_tags: Vec<String>,
    pub allowed_tags: Vec<String>,
    pub enable_user_preference_access: bool,
    pub access_schedules: Vec<String>,
    pub block_unrated_items: Vec<String>,
    pub enable_remote_control_of_other_users: bool,
    pub enable_shared_device_control: bool,
    pub enable_remote_access: bool,
    pub enable_live_tv_management: bool,
    pub enable_live_tv_access: bool,
    pub enable_media_playback: bool,
    pub enable_audio_playback_transcoding: bool,
    pub enable_video_playback_transcoding: bool,
    pub enable_playback_remuxing: bool,
    pub force_remote_source_transcoding: bool,
    pub enable_content_deletion: bool,
    pub enable_content_deletion_from_folders: Vec<String>,
    pub enable_content_downloading: bool,
    pub enable_sync_transcoding: bool,
    pub enable_media_conversion: bool,
    pub enabled_devices: Vec<String>,
    pub enable_all_devices: bool,
    pub enabled_channels: Vec<String>,
    pub enable_all_channels: bool,
    pub enabled_folders: Vec<String>,
    pub enable_all_folders: bool,
    pub invalid_login_attempt_count: i32,
    pub login_attempts_before_lockout: i32,
    pub max_active_sessions: i32,
    pub enable_public_sharing: bool,
    pub blocked_media_folders: Vec<String>,
    pub blocked_channels: Vec<String>,
    pub remote_client_bitrate_limit: i32,
    pub authentication_provider_id: String,
    pub password_reset_provider_id: String,
    pub sync_play_access: String,
}

/// An administrator who may play, transcode, delete and download anything,
/// on any device, with no lockout.
pub open spec fn policy_defaults(p: Policy) -> bool {
    &&& p.is_administrator
    &&& !p.is_hidden
    &&& !p.enable_collection_management
    &&& !p.enable_subtitle_management
    &&& !p.enable_lyric_management
    &&& !p.is_disabled
    &&& p.blocked_tags@.len() == 0
    &&& p.allowed_tags@.len() == 0
    &&& p.enable_user_preference_access
    &&& p.access_schedules@.len() == 0
    &&& p.block_unrated_items@.len() == 0
    &&& p.enable_remote_control_of_other_users
    &&& p.enable_shared_device_control
    &&& p.enable_remote_access
    &&& p.enable_live_tv_management
    &&& p.enable_live_tv_access
    &&& p.enable_media_playback
    &&& p.enable_audio_playback_transcoding
    &&& p.enable_video_playback_transcoding
    &&& p.enable_playback_remuxing
    &&& !p.force_remote_source_transcoding
    &&& p.enable_content_deletion
    &&& p.enable_content_deletion_from_folders@.len() == 0
    &&& p.enable_content_downloading
    &&& p.enable_sync_transcoding
    &&& p.enable_media_conversion
    &&& p.enabled_devices@.len() == 0
    &&& p.enable_all_devices
    &&& p.enabled_channels@.len() == 0
    &&& p.enable_all_channels
    &&& p.enabled_folders@.len() == 0
    &&& p.enable_all_folders
    &&& p.invalid_login_attempt_count == 0
    &&& p.login_attempts_before_lockout == -1
    &&& p.max_active_sessions == 0
    &&& p.enable_public_sharing
    &&& p.blocked_media_folders@.len() == 0
    &&& p.blocked_channels@.len() == 0
    &&& p.remote_client_bitrate_limit == 0
    &&& p.authentication_provider_id@
        == "Jellyfin.Server.Implementations.Users.DefaultAuthenticationProvider"@
    &&& p.password_reset_provider_id@
        == "Jellyfin.Server.Implementations.Users.DefaultPasswordResetProvider"@
    &&& p.sync_play_access@ == "CreateAndJoinGroups"@
}

impl Default for Policy {
    fn default() -> (r: Policy)
        ensures
            policy_defaults(r),
    {
        Policy {
            is_administrator: true,
            is_hidden: false,
            enable_collection_management: false,
            enable_subtitle_management: false,
            enable_lyric_management: false,
            is_disabled: false,
            blocked_tags: Vec::new(),
            allowed_tags: Vec::new(),
            enable_user_preference_access: true,
            access_schedules: Vec::new(),
            block_unrated_items: Vec::new(),
            enable_remote_control_of_other_users: true,
            enable_shared_device_control: true,
            enable_remote_access: true,
            enable_live_tv_management: true,
            enable_live_tv_access: true,
            enable_media_playback: true,
            enable_audio_playback_transcoding: true,
            enable_video_playback_transcoding: true,
            enable_playback_remuxing: true,
            force_remote_source_transcoding: false,
            enable_content_deletion: true,
            enable_content_deletion_from_folders: Vec::new(),
            enable_content_downloading: true,
            enable_sync_transcoding: true,
            enable_media_conversion: true,
            enabled_devices: Vec::new(),
            enable_all_devices: true,
            enabled_channels: Vec::new(),
            enable_all_channels: true,
            enabled_folders: Vec::new(),
            enable_all_folders: true,
            invalid_login_attempt_count: 0,
            login_attempts_before_lockout: -1,
            max_active_sessions: 0,
            enable_public_sharing: true,
            blocked_media_folders: Vec::new(),
            blocked_channels: Vec::new(),
            remote_client_bitrate_limit: 0,
            authentication_provider_id:
                "Jellyfin.Server.Implementations.Users.DefaultAuthenticationProvider".to_owned(),
            password_reset_provider_id:
                "Jellyfin.Server.Implementations.Users.DefaultPasswordResetProvider".to_owned(),
            sync_play_access: "CreateAndJoinGroups".to_owned(),
        }
    }
}

/// The one user of this server.
#[derive(Debug, Clone)]
pub struct User {
    pub name: String,
    pub server_id: String,
    pub id: String,
    pub has_password: bool,
    pub has_configured_password: bool,
    pub has_configured_easy_password: bool,
    pub enable_auto_login: bool,
    pub last_login_date: String,
    pub last_activity_date: String,
    pub configuration: Configuration,
    pub policy: Policy,
}

/// `u` is the server's user under `id`, last seen at `timestamp`.
pub open spec fn user_record(u: User, identity: ServerIdentity, id: Seq<char>, timestamp: Seq<char>) -> bool {
    &&& u.name@ == identity.username@
    &&& u.server_id@ == identity.server_id@
    &&& u.id@ == id
    &&& u.has_password
    &&& u.has_configured_password
    &&& !u.has_configured_easy_password
    &&& !u.enable_auto_login
    &&& u.last_login_date@ == timestamp
    &&& u.last_activity_date@ == timestamp
    &&& configuration_defaults(u.configuration)
    &&& policy_defaults(u.policy)
}

impl User {
    /// The server's user under `id`, last seen at `timestamp`.
    pub fn new(identity: &ServerIdentity, id: String, timestamp: String) -> (r: User)
        ensures
            user_record(r, *identity, id@, timestamp@),
    {
        User {
            name: identity.username.clone(),
            server_id: identity.server_id.clone(),
            id,
            has_password: true,
            has_configured_password: true,
            has_configured_easy_password: false,
            enable_auto_login: false,
            last_login_date: timestamp.clone(),
            last_activity_date: timestamp,
            configuration: Configuration::default(),
            policy: Policy::default(),
        }
    }

    /// The server's user under a fresh random id, seen now.
    pub fn create(identity: &ServerIdentity) -> (r: User)
        ensures
            r.id@.len() == 36,
            exists|t: Timestamp| t.wf() && user_record(r, *identity, r.id@, jellyfin_timestamp(t)),
    {
        let id = random_uuid();
        let timestamp = create_jellyfin_timestamp();
        User::new(identity, id, timestamp)
    }
}

#[derive(Debug, Clone)]
pub struct PlayState {
    pub can_seek: bool,
    pub is_paused: bool,
    pub is_muted: bool,
    pub repeat_mode: String,
    pub playback_order: String,
}

impl Default for PlayState {
    /// Nothing playing.
    fn default() -> (r: PlayState)
        ensures
            !r.can_seek && !r.is_paused && !r.is_muted,
            r.repeat_mode@.len() == 0 && r.playback_order@.len() == 0,
    {
        PlayState {
            can_seek: false,
            is_paused: false,
            is_muted: false,
            repeat_mode: String::new(),
            playback_order: String::new(),
        }
    }
}

#[derive(Debug, Clone)]
pub struct Capabilities {
    pub playable_media_types: Vec<String>,
    pub supported_commands: Vec<String>,
    pub supports_media_control: bool,
    pub supports_persistent_identifier: bool,
}

impl Default for Capabilities {
    /// No capabilities announced.
    fn default() -> (r: Capabilities)
        ensures
            r.playable_media_types@.len() == 0 && r.supported_commands@.len() == 0,
            !r.supports_media_control && !r.supports_persistent_identifier,
    {
        Capabilities {
            playable_media_types: Vec::new(),
            supported_commands: Vec::new(),
            supports_media_control: false,
            supports_persistent_identifier: false,
        }
    }
}

/// A client's session.
#[derive(Debug, Clone)]
pub struct SessionInfo {
    pub play_state: PlayState,
    pub additional_users: Vec<String>,
    pub capabilities: Capabilities,
    pub remote_end_point: String,
    pub playable_media_types: Vec<String>,
    pub id: String,
    pub user_id: String,
    pub user_name: String,
    pub client: String,
    pub last_activity_date: String,
    pub last_playback_check_in: String,
    pub device_name: String,
    pub device_id: String,
    pub application_version: String,
    pub is_active: bool,
    pub supports_media_control: bool,
    pub supports_remote_control: bool,
    pub now_playing_queue: Vec<String>,
    pub now_playing_queue_full_items: Vec<String>,
    pub has_custom_device_name: bool,
    pub server_id: String,
    pub supported_commands: Vec<String>,
}

/// `s` is session `id` of the client described by `header`, seen at
/// `timestamp`: device and client from the header, user and server from the
/// identity, nothing playing.
pub open spec fn session_record(
    s: SessionInfo,
    header: HeaderFields,
    identity: ServerIdentity,
    id: Seq<char>,
    timestamp: Seq<char>,
) -> bool {
    &&& !s.play_state.can_seek && !s.play_state.is_paused && !s.play_state.is_muted
    &&& s.play_state.repeat_mode@.len() == 0 && s.play_state.playback_order@.len() == 0
    &&& s.additional_users@.len() == 0
    &&& s.capabilities.playable_media_types@.len() == 0
    &&& s.capabilities.supported_commands@.len() == 0
    &&& !s.capabilities.supports_media_control && !s.capabilities.supports_persistent_identifier
    &&& s.remote_end_point@.len() == 0
    &&& s.playable_media_types@.len() == 0
    &&& s.id@ == id
    &&& s.user_id@ == identity.user_id@
    &&& s.user_name@ == identity.username@
    &&& s.client@ == header.client
    &&& s.last_activity_date@ == timestamp
    &&& s.last_playback_check_in@ == timestamp
    &&& s.device_name@ == header.device
    &&& s.device_id@ == header.device_id
    &&& s.application_version@ == header.version
    &&& !s.is_active && !s.supports_media_control && !s.supports_remote_control
    &&& s.now_playing_queue@.len() == 0 && s.now_playing_queue_full_items@.len() == 0
    &&& !s.has_custom_device_name
    &&& s.server_id@ == identity.server_id@
    &&& s.supported_commands@.len() == 0
}

impl SessionInfo {
    /// Session `id` of the client described by `header`, seen at `timestamp`.
    pub fn new(header: EmbyAuthorizationHeader, identity: &ServerIdentity, id: String, timestamp: String) -> (r: SessionInfo)
        ensures
            session_record(r, header.fields(), *identity, id@, timestamp@),
    {
        SessionInfo {
            play_state: PlayState::default(),
            additional_users: Vec::new(),
            capabilities: Capabilities::default(),
            remote_end_point: String::new(),
            playable_media_types: Vec::new(),
            id,
            user_id: identity.user_id.clone(),
            user_name: identity.username.clone(),
            client: header.client,
            last_activity_date: timestamp.clone(),
            last_playback_check_in: timestamp,
            device_name: header.device,
            device_id: header.device_id,
            application_version: header.version,
            is_active: false,
            supports_media_control: false,
            supports_remote_control: false,
            now_playing_queue: Vec::new(),
            now_playing_queue_full_items: Vec::new(),
            has_custom_device_name: false,
            server_id: identity.server_id.clone(),
            supported_commands: Vec::new(),
        }
    }

    /// A new session, under a fresh random id and seen now, of the client
    /// described by `header`.
    pub fn from(header: EmbyAuthorizationHeader, identity: &ServerIdentity) -> (r: SessionInfo)
        ensures
            r.id@.len() == 36,
            exists|t: Timestamp|
                t.wf() && session_record(r, header.fields(), *identity, r.id@, jellyfin_timestamp(t)),
    {
        let id = random_uuid();
        let timestamp = create_jellyfin_timestamp();
        SessionInfo::new(header, identity, id, timestamp)
    }
}

/// The answer to a sign-in: the user, a session token and the session.
#[derive(Debug, Clone)]
pub struct AuthenticationResponse {
    pub user: User,
    pub server_id: String,
    pub access_token: String,
    pub session_info: SessionInfo,
}

impl AuthenticationResponse {
    /// Grants access to the client described by `header`, under a fresh
    /// random token; every sign-in succeeds.
    pub fn default(header: EmbyAuthorizationHeader, identity: &ServerIdentity) -> (r: AuthenticationResponse)
        ensures
            r.server_id@ == identity.server_id@,
            r.access_token@.len() == 36,
            r.user.id@.len() == 36,
            exists|t: Timestamp|
                t.wf() && user_record(r.user, *identity, r.user.id@, jellyfin_timestamp(t)),
            r.session_info.id@.len() == 36,
            exists|t: Timestamp|
                t.wf() && session_record(
                    r.session_info,
                    header.fields(),
                    *identity,
                    r.session_info.id@,
                    jellyfin_timestamp(t),
                ),
    {
        let user = User::create(identity);
        let access_token = random_uuid();
        let session_info = SessionInfo::from(header, identity);
        AuthenticationResponse {
            user,
            server_id: identity.server_id.clone(),
            access_token,
            session_info,
        }
    }
}

} // verus!

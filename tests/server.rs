use std::str::FromStr;

use ertflix_2_jellyfin::api::jellyfin_server::{
    AuthenticationResponse, Configuration, EmbyAuthorizationHeader, Policy, SessionInfo, SystemInfo, User,
};
use ertflix_2_jellyfin::clock::{create_jellyfin_timestamp, format_jellyfin_timestamp, Timestamp};
use ertflix_2_jellyfin::config::{Config, ServerIdentity};
use ertflix_2_jellyfin::models::ertflix;
use ertflix_2_jellyfin::services::media_service::MediaService;

fn identity() -> ServerIdentity {
    ServerIdentity {
        server_id: "srv".to_string(),
        user_id: "uid".to_string(),
        username: "someone".to_string(),
    }
}

#[test]
fn parse_infuse_header() {
    let h = EmbyAuthorizationHeader::parse(
        "MediaBrowser Client=\"Infuse\", Device=\"AppleTV\", DeviceId=\"xyz\", Version=\"1.0\"",
    );
    assert_eq!(h.client, "Infuse");
    assert_eq!(h.device, "AppleTV");
    assert_eq!(h.device_id, "xyz");
    assert_eq!(h.version, "1.0");
}

#[test]
fn parse_unknown_keys_leave_fields_empty() {
    let h = EmbyAuthorizationHeader::parse("Token=\"abc\", Foo=bar, Clients=\"x\"");
    assert_eq!(h.client, "");
    assert_eq!(h.device, "");
    assert_eq!(h.device_id, "");
    assert_eq!(h.version, "");
}

#[test]
fn parse_accepts_scheme_before_version_and_bare_values() {
    let h = EmbyAuthorizationHeader::parse("MediaBrowser Version=10.8 ,  Device = Mac Mini ,DeviceId=\"\"\"q\"\"");
    assert_eq!(h.version, "10.8");
    assert_eq!(h.device, "Mac Mini");
    assert_eq!(h.device_id, "q");
}

#[test]
fn parse_later_pair_overrides_earlier() {
    let h = EmbyAuthorizationHeader::parse("Client=a, Client=\"b\"");
    assert_eq!(h.client, "b");
}

#[test]
fn parse_value_keeps_text_after_first_equals() {
    let h = EmbyAuthorizationHeader::parse("DeviceId=\"a=b\"");
    assert_eq!(h.device_id, "a=b");
}

#[test]
fn parse_malformed_input_gives_empty_fields() {
    for input in ["", ",,,", "Client", "=Infuse", "\u{3000}Device\u{a0}=\u{2003}TV\t"] {
        let h = EmbyAuthorizationHeader::parse(input);
        assert_eq!(h.client, "", "{}", input);
        assert_eq!(h.version, "", "{}", input);
    }
    let h = EmbyAuthorizationHeader::parse("\u{3000}Device\u{a0}=\u{2003}TV\t");
    assert_eq!(h.device, "TV");
    let h = EmbyAuthorizationHeader::parse("Client");
    assert_eq!(h.client, "");
}

#[test]
fn from_str_never_fails() {
    let h = EmbyAuthorizationHeader::from_str("Device=\"Phone\"").unwrap();
    assert_eq!(h.device, "Phone");
    assert!(EmbyAuthorizationHeader::from_str("garbage").is_ok());
}

#[test]
fn timestamp_text_is_zero_padded() {
    let t = Timestamp { year: 2024, month: 3, day: 5, hour: 7, minute: 8, second: 9, nanosecond: 123_456_789 };
    assert_eq!(format_jellyfin_timestamp(&t), "2024-03-05T07:08:09.1234567Z");
    let t = Timestamp { year: 987, month: 12, day: 31, hour: 23, minute: 59, second: 59, nanosecond: 0 };
    assert_eq!(format_jellyfin_timestamp(&t), "0987-12-31T23:59:59.0000000Z");
    let t = Timestamp { year: -5, month: 1, day: 1, hour: 0, minute: 0, second: 0, nanosecond: 1_500_000_000 };
    assert_eq!(format_jellyfin_timestamp(&t), "-005-01-01T00:00:00.15000000Z");
}

#[test]
fn current_timestamp_has_protocol_shape() {
    let s = create_jellyfin_timestamp();
    assert_eq!(s.len(), 28);
    assert_eq!(&s[4..5], "-");
    assert_eq!(&s[10..11], "T");
    assert!(s.ends_with('Z'));
}

#[test]
fn system_info_names_the_server() {
    let info = SystemInfo::new(&"srv".to_string());
    assert_eq!(info.id, "srv");
    assert_eq!(info.product_name, "Jellyfin Server");
    assert_eq!(info.version, "10.8.0");
    assert_eq!(info.local_address, "http://localhost:25860");
    assert!(info.startup_wizard_completed);
}

#[test]
fn user_record_uses_identity() {
    let u = User::new(&identity(), "id-1".to_string(), "ts".to_string());
    assert_eq!(u.name, "someone");
    assert_eq!(u.server_id, "srv");
    assert_eq!(u.id, "id-1");
    assert_eq!(u.last_login_date, "ts");
    assert!(u.policy.is_administrator);
    assert_eq!(u.policy.login_attempts_before_lockout, -1);
    assert_eq!(u.configuration.subtitle_mode, "Always");
    let fresh = User::create(&identity());
    assert_eq!(fresh.id.len(), 36);
    assert_eq!(fresh.last_login_date, fresh.last_activity_date);
}

#[test]
fn default_configuration_and_policy() {
    let c = Configuration::default();
    assert_eq!(c.audio_language_preference, "eng");
    assert!(c.enable_next_episode_auto_play);
    let p = Policy::default();
    assert_eq!(p.sync_play_access, "CreateAndJoinGroups");
    assert_eq!(
        p.authentication_provider_id,
        "Jellyfin.Server.Implementations.Users.DefaultAuthenticationProvider"
    );
    assert!(!p.force_remote_source_transcoding);
}

#[test]
fn session_echoes_client_header() {
    let h = EmbyAuthorizationHeader::parse("MediaBrowser Client=\"Infuse\", Device=\"AppleTV\", DeviceId=\"xyz\", Version=\"1.0\"");
    let s = SessionInfo::new(h, &identity(), "sid".to_string(), "ts".to_string());
    assert_eq!(s.client, "Infuse");
    assert_eq!(s.device_name, "AppleTV");
    assert_eq!(s.device_id, "xyz");
    assert_eq!(s.application_version, "1.0");
    assert_eq!(s.id, "sid");
    assert_eq!(s.user_id, "uid");
    assert_eq!(s.server_id, "srv");
}

#[test]
fn authentication_grants_access() {
    let h = EmbyAuthorizationHeader::parse("Client=\"web\", Device=\"Mac\"");
    let r = AuthenticationResponse::default(h, &identity());
    assert_eq!(r.server_id, "srv");
    assert_eq!(r.access_token.len(), 36);
    assert_ne!(r.access_token, r.session_info.id);
    assert_eq!(r.session_info.device_name, "Mac");
    assert_eq!(r.user.name, "someone");
}

#[test]
fn default_config_values() {
    let c = Config::default();
    assert_eq!(c.ertflix.base_url, "https://api.ertflix.gr");
    assert_eq!(c.ertflix.movies_codename, "oles-oi-tainies-1");
    assert_eq!(c.ertflix.tv_shows_codename, "ert-seires-plereis");
    assert_eq!(c.ertflix.timeout_seconds, 30);
    assert_eq!(c.cache.movies_ttl_seconds, 7200);
    assert_eq!(c.cache.collections_ttl_seconds, 1800);
    assert_eq!(c.redis.connection_pool_size, 10);
    assert_eq!(c.server.server_id, "optiplex-adapter");
    let svc = MediaService::new(&c);
    assert_eq!(svc.movies_codename, "oles-oi-tainies-1");
    assert_eq!(svc.server_id, "optiplex-adapter");
}

#[test]
fn movie_converts_to_downstream_shape() {
    let svc = MediaService::new(&Config::default());
    let m = ertflix::Movie {
        id: "1".to_string(),
        title: "T".to_string(),
        year: 4_000_000_000,
        genre: vec!["drama".to_string()],
        description: "D".to_string(),
    };
    let j = svc.convert_to_jellyfin_movie(m);
    assert_eq!(j.id, "1");
    assert_eq!(j.year, i32::MAX);
    assert_eq!(j.genre, vec!["drama".to_string()]);
    assert_eq!(j.overview, "D");
    assert_eq!(j.poster_url, "");
}

#[test]
fn show_converts_season_by_season() {
    let svc = MediaService::new(&Config::default());
    let show = ertflix::TVShow {
        id: "s".to_string(),
        title: "Show".to_string(),
        seasons: vec![ertflix::Season {
            season_number: 2,
            episodes: vec![
                ertflix::Episode { id: "e1".to_string(), title: "One".to_string(), duration: 60 },
                ertflix::Episode { id: "e2".to_string(), title: "Two".to_string(), duration: 90 },
            ],
        }],
    };
    let j = svc.convert_to_jellyfin_tv_show(show);
    assert_eq!(j.title, "Show");
    assert_eq!(j.seasons.len(), 1);
    assert_eq!(j.seasons[0].season_number, 2);
    assert_eq!(j.seasons[0].episodes[1].episode_number, 2);
    assert_eq!(j.seasons[0].episodes[1].season_number, 2);
    assert_eq!(j.seasons[0].episodes[1].duration, 90);
    assert_eq!(j.seasons[0].episodes[0].title, "One");
}

#[test]
fn from_str_reads_infuse_header() {
    let h = EmbyAuthorizationHeader::from_str(
        "MediaBrowser Client=\"Infuse\", Device=\"AppleTV\", DeviceId=\"xyz\", Version=\"1.0\"",
    )
    .unwrap();
    assert_eq!(h.client, "Infuse");
    assert_eq!(h.device, "AppleTV");
    assert_eq!(h.device_id, "xyz");
    assert_eq!(h.version, "1.0");
}

#[test]
fn from_str_ignores_unknown_keys() {
    let h = EmbyAuthorizationHeader::from_str("Device=\"TV\", Foo=\"bar\", Token=\"abc\"").unwrap();
    assert_eq!(h.device, "TV");
    assert_eq!(h.device_id, "");
    assert_eq!(h.client, "");
    assert_eq!(h.version, "");
}

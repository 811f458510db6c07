use googleplay_protobuf::{AndroidBuildProto, AndroidCheckinProto, DeviceConfigurationProto};
use prost::Message;

use sniff::api::{available_channels_header, channel_param, download_outcome, lookup_outcome, version_code_param, ApiOutcome};
use sniff::channel::Channel;
use sniff::client::{channel_error, GooglePlayClient};
use sniff::device::EncodedDeviceProperties;
use sniff::download::DownloadInfo;
use sniff::merge::{merge_download_infos, push_unique};
use sniff::registry::{
    check_available, combine_details, combine_download_results, credential_var_names, download_targets,
    is_fresh, missing_env_message, optional_channels, ClientKey, ClientLookup, ClientRegistry, SESSION_TTL_MS,
};
use sniff::strmap::StrMap;

fn s(x: &str) -> Option<String> {
    Some(x.to_string())
}

fn devices() -> Vec<(String, EncodedDeviceProperties)> {
    let checkin = AndroidCheckinProto {
        build: Some(AndroidBuildProto { device: s("lynx"), ..Default::default() }),
        ..Default::default()
    };
    let config = DeviceConfigurationProto {
        native_platform: vec!["arm64-v8a".to_string()],
        ..Default::default()
    };
    vec![(
        "px_7a".to_string(),
        EncodedDeviceProperties::new(config.encode_to_vec(), checkin.encode_to_vec(), StrMap::new()),
    )]
}

#[test]
fn channel_names_parse_back_ignoring_case() {
    for c in [Channel::Stable, Channel::Beta, Channel::Alpha] {
        assert_eq!(Channel::from_str(&c.to_string()), Ok(c));
    }
    assert_eq!(Channel::from_str("BeTa"), Ok(Channel::Beta));
    assert_eq!(Channel::from_str("ALPHA"), Ok(Channel::Alpha));
    assert_eq!(Channel::from_str("snapshot"), Err("Invalid Channel: snapshot".to_string()));
    assert_eq!(Channel::Stable.to_string(), "stable");
}

#[test]
fn beta_and_alpha_only_for_listed_packages() {
    assert!(Channel::Stable.is_available_for_package("com.example"));
    assert!(Channel::Beta.is_available_for_package("com.discord"));
    assert!(Channel::Alpha.is_available_for_package("com.discord"));
    assert!(!Channel::Beta.is_available_for_package("com.example"));
    assert_eq!(check_available(Channel::Stable, "com.example"), Ok(()));
    assert_eq!(
        check_available(Channel::Alpha, "com.example"),
        Err("Channel 'alpha' is not available for package 'com.example'".to_string())
    );
    assert_eq!(optional_channels("com.discord"), vec![Channel::Beta, Channel::Alpha]);
    assert_eq!(optional_channels("com.example"), vec![]);
}

#[test]
fn credential_variables_of_each_channel() {
    assert_eq!(credential_var_names(Channel::Stable), ("STABLE_EMAIL".to_string(), "STABLE_AAS_TOKEN".to_string()));
    assert_eq!(credential_var_names(Channel::Beta), ("BETA_EMAIL".to_string(), "BETA_AAS_TOKEN".to_string()));
}

#[test]
fn download_targets_cover_four_abis() {
    assert_eq!(
        download_targets(),
        vec![
            ("px_9a", "arm64-v8a"),
            ("sm_a13_5g", "armeabi-v7a"),
            ("google_kiwi_x86_64", "x86"),
            ("google_kiwi_x86_64", "x86_64"),
        ]
    );
}

#[test]
fn sessions_expire_after_their_lifetime() {
    assert!(!is_fresh(None, 10));
    assert!(is_fresh(Some(1000), 1000));
    assert!(is_fresh(Some(1000), 1000 + SESSION_TTL_MS - 1));
    assert!(!is_fresh(Some(1000), 1000 + SESSION_TTL_MS));
    assert!(is_fresh(Some(5000), 10));
}

fn info(main: Option<String>, splits: &[(&str, &str)], dex: Option<String>) -> DownloadInfo {
    (main, splits.iter().map(|(n, u)| (s(n), s(u))).collect(), vec![], dex)
}

#[test]
fn merge_lists_every_split_once_first_wins() {
    let a = info(None, &[("config.arm64_v8a", "u1"), ("config.en", "u2")], None);
    let b = info(s("main-b"), &[("config.en", "other"), ("config.armeabi_v7a", "u3")], s("dex-b"));
    let c = info(s("main-c"), &[("config.xhdpi", "u4")], s("dex-c"));
    let (main, splits, additional, dex) = merge_download_infos(vec![a, b, c]);
    assert_eq!(main, s("main-b"));
    assert_eq!(dex, s("dex-b"));
    assert_eq!(
        splits,
        vec![
            (s("config.arm64_v8a"), s("u1")),
            (s("config.en"), s("u2")),
            (s("config.armeabi_v7a"), s("u3")),
            (s("config.xhdpi"), s("u4")),
        ]
    );
    assert!(additional.is_empty());
    assert_eq!(merge_download_infos(vec![]), (None, vec![], vec![], None));
}

#[test]
fn unnamed_splits_are_told_apart_by_url() {
    let mut target = Vec::new();
    let mut seen = Vec::new();
    push_unique(&mut target, &mut seen, (None, s("u")));
    push_unique(&mut target, &mut seen, (s("u"), None));
    push_unique(&mut target, &mut seen, (None, None));
    push_unique(&mut target, &mut seen, (s(""), s("x")));
    assert_eq!(target, vec![(None, s("u")), (None, None)]);
    assert_eq!(seen, vec!["u".to_string(), String::new()]);
}

#[test]
fn partial_download_merge_succeeds() {
    let ok = info(s("m"), &[("config.en", "u")], None);
    let results = vec![
        ("arm64-v8a".to_string(), Ok(ok)),
        ("x86".to_string(), Err("API error for stable channel: no build".to_string())),
    ];
    match combine_download_results(Channel::Beta, results) {
        Ok(Some((c, (main, splits, _, _)))) => {
            assert_eq!(c, Channel::Beta);
            assert_eq!(main, s("m"));
            assert_eq!(splits.len(), 1);
        }
        _ => panic!(),
    }
    let results: Vec<(String, Result<DownloadInfo, String>)> =
        vec![("x86".to_string(), Err("e1".to_string())), ("x86_64".to_string(), Err("e2".to_string()))];
    assert_eq!(combine_download_results(Channel::Stable, results), Err("x86: e1; x86_64: e2".to_string()));
}

#[test]
fn multi_channel_details_follow_the_stable_answer() {
    let optional = || vec![(Channel::Beta, Ok(Some(2))), (Channel::Alpha, Err("no credentials".to_string()))];
    assert_eq!(combine_details(Ok(Some(1)), optional()), Ok(Some(vec![(Channel::Stable, 1), (Channel::Beta, 2)])));
    assert_eq!(combine_details(Ok(None), optional()), Ok(None));
    assert_eq!(combine_details(Err("down".to_string()), optional()), Err("down".to_string()));
    assert_eq!(
        combine_details(Ok(Some(1)), vec![(Channel::Beta, Ok(None)), (Channel::Alpha, Ok(Some(3)))]),
        Ok(Some(vec![(Channel::Stable, 1), (Channel::Alpha, 3)]))
    );
}

#[test]
fn client_registry_reuses_and_refreshes_clients() {
    let mut registry = ClientRegistry::new();
    let abis = vec!["x86".to_string()];
    assert_eq!(registry.find(Channel::Stable, "px_7a", &abis), None);
    let client =
        GooglePlayClient::new_for_abis("px_7a", &abis, "me@example.com", "aas", Channel::Stable, devices()).unwrap();
    assert_eq!(client.session().device_properties().native_platform, abis);
    let key = ClientKey { channel: Channel::Stable, device_name: "px_7a".to_string(), abis: abis.clone() };
    let i = registry.insert(key, client);
    assert_eq!(registry.find(Channel::Stable, "px_7a", &abis), Some(i));
    assert_eq!(registry.find(Channel::Beta, "px_7a", &abis), None);
    assert_eq!(registry.find(Channel::Stable, "px_7a", &vec![]), None);
    assert!(registry.needs_login(i, 50));
    registry.mark_logged_in(i, 50);
    assert!(!registry.needs_login(i, 51));
    assert!(registry.needs_login(i, 50 + SESSION_TTL_MS));
    assert_eq!(registry.client(i).channel(), Channel::Stable);
    registry.client_mut(i).session_mut().set_aas_token("other");
    assert_eq!(registry.client(i).session().get_aas_token(), Some("other"));
}

#[test]
fn client_creation_errors_name_the_cause() {
    let err = GooglePlayClient::new_for_abis("nope", &vec![], "me@example.com", "aas", Channel::Stable, devices())
        .err()
        .unwrap();
    assert_eq!(err, "failed to create client: invalid device codename: nope");
    let client =
        GooglePlayClient::new_for_abis("px_7a", &vec![], "me@example.com", "aas", Channel::Alpha, devices()).unwrap();
    assert_eq!(client.session().device_properties().native_platform, vec!["arm64-v8a".to_string()]);
    assert_eq!(client.session().get_aas_token(), Some("aas"));
    assert_eq!(channel_error("Login error", Channel::Beta, "x"), "Login error for beta channel: x");
}

#[test]
fn api_outcomes() {
    match lookup_outcome("com.discord", Ok::<Option<u8>, String>(None)) {
        ApiOutcome::Failure { status, message } => {
            assert_eq!(status, 404);
            assert_eq!(message, "App 'com.discord' not found");
        }
        _ => panic!(),
    }
    match lookup_outcome::<u8>("com.discord", Err("boom".to_string())) {
        ApiOutcome::Failure { status, message } => assert_eq!((status, message.as_str()), (500, "boom")),
        _ => panic!(),
    }
    assert!(matches!(lookup_outcome("p", Ok(Some(7u8))), ApiOutcome::Success(7)));
    match channel_param::<u8>("snapshot") {
        Err(ApiOutcome::Failure { status, message }) => {
            assert_eq!(status, 400);
            assert_eq!(message, "Invalid Channel: snapshot");
        }
        _ => panic!(),
    }
    assert!(matches!(channel_param::<u8>("Stable"), Ok(Channel::Stable)));
    assert_eq!(available_channels_header(&vec![Channel::Stable, Channel::Beta]), "stable,beta");
    assert_eq!(available_channels_header(&vec![]), "");
    assert_eq!(version_code_param(Some("345009")), 345009);
    assert_eq!(version_code_param(Some("latest")), 0);
    assert_eq!(version_code_param(None), 0);
}

#[test]
fn lookup_says_whether_a_client_must_be_made_or_log_in() {
    let mut registry = ClientRegistry::new();
    let abis = vec!["x86".to_string()];
    assert!(matches!(registry.lookup(Channel::Stable, "px_7a", &abis, 10), ClientLookup::Missing));
    let client =
        GooglePlayClient::new_for_abis("px_7a", &abis, "me@example.com", "aas", Channel::Stable, devices()).unwrap();
    let key = ClientKey { channel: Channel::Stable, device_name: "px_7a".to_string(), abis: abis.clone() };
    let i = registry.insert(key, client);
    assert!(matches!(registry.lookup(Channel::Stable, "px_7a", &abis, 10), ClientLookup::NeedsLogin(j) if j == i));
    registry.mark_logged_in(i, 10);
    assert!(matches!(registry.lookup(Channel::Stable, "px_7a", &abis, 11), ClientLookup::Ready(j) if j == i));
    assert!(matches!(
        registry.lookup(Channel::Stable, "px_7a", &abis, 10 + SESSION_TTL_MS),
        ClientLookup::NeedsLogin(_)
    ));
    assert_eq!(missing_env_message("BETA_EMAIL", "unset"), "missing BETA_EMAIL env: unset");
}

#[test]
fn merging_a_merge_again_changes_nothing() {
    let a = info(s("m1"), &[("config.en", "u1"), ("config.x86", "u2")], None);
    let b = info(s("m2"), &[("config.en", "u3"), ("config.de", "u4")], s("dm"));
    let once = merge_download_infos(vec![a.clone(), b.clone()]);
    assert_eq!(merge_download_infos(vec![once.clone()]), once);
    assert_eq!(merge_download_infos(vec![a.clone(), b.clone(), a, b]), once);
}

#[test]
fn every_target_not_knowing_the_app_is_not_found() {
    let failed: Result<Option<u8>, String> = Err("arm64-v8a: API error for stable channel: Invalid app response".to_string());
    match download_outcome("com.x", failed.clone(), true) {
        ApiOutcome::Failure { status, message } => {
            assert_eq!(status, 404);
            assert_eq!(message, "App 'com.x' not found");
        }
        _ => panic!(),
    }
    match download_outcome("com.x", failed, false) {
        ApiOutcome::Failure { status, message } => {
            assert_eq!(status, 500);
            assert!(message.starts_with("arm64-v8a: "));
        }
        _ => panic!(),
    }
    assert!(matches!(download_outcome("com.x", Ok(Some(3u8)), true), ApiOutcome::Success(3)));
}

#[test]
fn clients_keep_the_device_abis_unless_given_others() {
    let client =
        GooglePlayClient::new_for_abis("px_7a", &vec![], "me@example.com", "aas", Channel::Alpha, devices()).unwrap();
    assert_eq!(client.session().device_properties().native_platform, vec!["arm64-v8a".to_string()]);
    let broken = vec![(
        "px_7a".to_string(),
        EncodedDeviceProperties::new(vec![0xff, 0xff], vec![], StrMap::new()),
    )];
    let err = GooglePlayClient::new_for_abis("px_7a", &vec![], "me@example.com", "aas", Channel::Stable, broken)
        .err()
        .unwrap();
    assert!(err.starts_with("failed to create client: failed to decode device properties: "));
}

#[test]
fn the_last_device_of_a_name_wins() {
    let mut list = devices();
    let config = DeviceConfigurationProto { native_platform: vec!["x86".to_string()], ..Default::default() };
    list.push((
        "px_7a".to_string(),
        EncodedDeviceProperties::new(config.encode_to_vec(), AndroidCheckinProto::default().encode_to_vec(), StrMap::new()),
    ));
    let client = GooglePlayClient::new_for_abis("px_7a", &vec![], "me@example.com", "aas", Channel::Stable, list).unwrap();
    assert_eq!(client.session().device_properties().native_platform, vec!["x86".to_string()]);
}

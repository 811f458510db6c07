use std::collections::HashMap;

use googleplay_protobuf::{
    AcceptTosResponse, AndroidAppDeliveryData, AndroidBuildProto, AndroidCheckinProto, AndroidCheckinRequest,
    AndroidCheckinResponse, AppDetails, AppFileMetadata, BulkDetailsRequest, BuyResponse, DeliveryResponse,
    DetailsResponse, DeviceConfigurationProto, DexMetadata, DocumentDetails, Item, Payload, ResponseWrapper,
    SplitDeliveryData, TocResponse, UploadDeviceConfigRequest, UploadDeviceConfigResponse,
};
use prost::Message;

use sniff::build_config::BuildConfiguration;
use sniff::device::{device_database, AndroidBuild, EncodedDeviceProperties};
use sniff::download::{AdditionalFile, AppDeliveryData, DownloadEvent, DownloadFlow, DownloadStep, SplitDelivery};
use sniff::error::{Error, ErrorKind};
use sniff::form::{form_post, parse_form_reply, AuthRequest};
use sniff::gpapi::{cast_signed, parse_reply_bytes, Gpapi};
use sniff::login::{LoginEvent, LoginFlow, LoginStep, TocReply};
use sniff::reply::{
    accept_tos_event, bulk_details_reply, checkin_event, delivery_event, details_reply, latest_version_event,
    purchase_event, toc_event, upload_event,
};
use sniff::strmap::StrMap;
use sniff::text::{i64_to_hex, i64_to_string, parse_i64, replace_char, to_ascii_lowercase};

fn map_of(m: &StrMap) -> HashMap<String, String> {
    m.entries().iter().cloned().collect()
}

fn extra_info() -> StrMap {
    let mut extra = StrMap::new();
    extra.insert("Build.ID", "TQ3A".to_string());
    extra.insert("Vending.versionString", "41.2.21".to_string());
    extra.insert("Vending.version", "84122100".to_string());
    extra.insert("Build.VERSION.RELEASE", "13".to_string());
    extra.insert("SimOperator", "310260".to_string());
    extra
}

fn encoded_device(abis: &[&str]) -> EncodedDeviceProperties {
    let checkin = AndroidCheckinProto {
        build: Some(AndroidBuildProto {
            device: Some("bluejay".to_string()),
            product: Some("bluejay_hw".to_string()),
            build_product: Some("bluejay_prod".to_string()),
            model: Some("Pixel 6a".to_string()),
            sdk_version: Some(33),
            google_services: Some(240913000),
            ..Default::default()
        }),
        ..Default::default()
    };
    let config = DeviceConfigurationProto {
        native_platform: abis.iter().map(|s| s.to_string()).collect(),
        ..Default::default()
    };
    EncodedDeviceProperties::new(config.encode_to_vec(), checkin.encode_to_vec(), extra_info())
}

fn devices() -> Vec<(String, EncodedDeviceProperties)> {
    vec![("px_6a".to_string(), encoded_device(&["arm64-v8a", "armeabi-v7a"]))]
}

fn session() -> Gpapi {
    Gpapi::new("px_6a", "someone@example.com", devices()).unwrap()
}

fn is_kind(e: &Error, k: &str) -> bool {
    format!("{:?}", e.kind()) == k
}

#[test]
fn parse_form() {
    let form_reply = "FOO=BAR\nbaz=qux";
    let mut expected_reply = HashMap::new();
    expected_reply.insert("baz".to_string(), "qux".to_string());
    expected_reply.insert("foo".to_string(), "BAR".to_string());
    let parsed_form_reply = map_of(&parse_form_reply(form_reply));
    assert_eq!(expected_reply, parsed_form_reply);
}

#[test]
fn test_protobuf() {
    let _bdr = BulkDetailsRequest {
        doc_id: vec!["test".to_string()],
        include_child_docs: Some(true),
        ..Default::default()
    };
}

#[test]
fn form_reply_later_lines_win_and_keep_first_position() {
    let parsed = parse_form_reply("Auth=one\nerror=x\nAUTH=two\n");
    assert_eq!(
        parsed.entries().clone(),
        vec![("auth".to_string(), "two".to_string()), ("error".to_string(), "x".to_string())]
    );
}

#[test]
fn form_reply_lines_without_equals_and_values_with_equals() {
    let parsed = parse_form_reply("Flag\nToken=a=b\n\n");
    assert_eq!(parsed.get("flag"), Some(&String::new()));
    assert_eq!(parsed.get("token"), Some(&"a=b".to_string()));
    assert_eq!(parsed.get(""), Some(&String::new()));
    assert_eq!(parsed.len(), 3);
}

#[test]
fn form_reply_of_empty_text_is_empty() {
    assert_eq!(parse_form_reply("").len(), 0);
}

#[test]
fn form_post_writes_fields_in_insertion_order() {
    let mut params = StrMap::new();
    params.insert("b", "2".to_string());
    params.insert("a", "1".to_string());
    params.insert("b", "3".to_string());
    assert_eq!(form_post(&params), "b=3&a=1");
    assert_eq!(form_post(&StrMap::new()), "");
}

#[test]
fn auth_request_fills_email_and_token() {
    let req = AuthRequest::new("me@example.com", "oauth2_4/abc");
    let m = map_of(&req.params);
    assert_eq!(m.len(), 12);
    assert_eq!(m["Email"], "me@example.com");
    assert_eq!(m["Token"], "oauth2_4/abc");
    assert_eq!(m["service"], "ac2dm");
    assert_eq!(m["callerPkg"], "com.android.vending");
    assert_eq!(m["add_account"], "1");
    let default = AuthRequest::default();
    assert_eq!(map_of(&default.params)["Email"], "");
}

#[test]
fn user_agent_lists_every_fact() {
    let b = BuildConfiguration::new("41.2", "841", "33", "bluejay", "hw", "prod", "13", "Pixel", "TQ3A", "arm64-v8a;x86");
    assert_eq!(
        b.user_agent(),
        "Android-Finsky/41.2 (api=3,versionCode=841,sdk=33,device=bluejay,hardware=hw,product=prod,platformVersionRelease=13,model=Pixel,buildId=TQ3A,isWideScreen=0,supportedAbis=arm64-v8a;x86)"
    );
}

#[test]
fn decimal_and_hex_texts() {
    assert_eq!(i64_to_string(0), "0");
    assert_eq!(i64_to_string(345009), "345009");
    assert_eq!(i64_to_string(-42), "-42");
    assert_eq!(i64_to_string(i64::MIN), "-9223372036854775808");
    assert_eq!(i64_to_hex(255), "ff");
    assert_eq!(i64_to_hex(0), "0");
    assert_eq!(i64_to_hex(-1), "ffffffffffffffff");
    assert_eq!(i64_to_hex(0x3a5f_0c2b), "3a5f0c2b");
}

#[test]
fn i64_parsing_follows_str_parse() {
    for s in ["0", "345009", "+12", "-0", "-9223372036854775808", "9223372036854775807", "", "-", "+", "9223372036854775808", "12a", " 1", "--1"] {
        assert_eq!(parse_i64(s), s.parse::<i64>().ok(), "{s}");
    }
}

#[test]
fn character_replacement_and_ascii_lower() {
    assert_eq!(replace_char("en_US", '_', "-"), "en-US");
    assert_eq!(replace_char("a_b_c", '_', "--"), "a--b--c");
    assert_eq!(to_ascii_lowercase("US-Ü"), "us-Ü");
}

#[test]
fn cast_signed_keeps_the_bits() {
    assert_eq!(cast_signed(5), 5);
    assert_eq!(cast_signed(u64::MAX), -1);
    assert_eq!(cast_signed(1 << 63), i64::MIN);
}

#[test]
fn error_messages_of_each_kind() {
    assert_eq!(Error::new(ErrorKind::InvalidApp).message(), "Invalid app response");
    assert_eq!(
        Error::new(ErrorKind::Authentication).message(),
        "Could not authenticate with Google. Please provide a new oAuth token."
    );
    assert_eq!(
        Error::new(ErrorKind::TermsOfService).message(),
        "Must accept Google Play Terms of Service before proceeding."
    );
    assert_eq!(Error::new(ErrorKind::InvalidResponse).message(), "Invalid response from the remote host");
    assert_eq!(Error::new(ErrorKind::LoginRequired).message(), "Logging in is required for this action");
    assert_eq!(Error::new(ErrorKind::IO("disk".to_string())).message(), "disk");
    assert_eq!(Error::from("boom".to_string()).message(), "boom");
    assert_eq!(Error::new(ErrorKind::Other("other".to_string())).message(), "other");
    assert!(matches!(Error::new(ErrorKind::LoginRequired).kind(), ErrorKind::LoginRequired));
}

#[test]
fn device_profile_decodes_its_messages() {
    let decoded = encoded_device(&["x86_64"]).into_decoded().unwrap();
    assert_eq!(decoded.native_platform, vec!["x86_64".to_string()]);
    assert_eq!(
        decoded.build,
        Some(AndroidBuild {
            device: Some("bluejay".to_string()),
            product: Some("bluejay_hw".to_string()),
            build_product: Some("bluejay_prod".to_string()),
            model: Some("Pixel 6a".to_string()),
            sdk_version: Some(33),
            google_services: Some(240913000),
        })
    );
    assert_eq!(decoded.extra_info.get("Build.ID"), Some(&"TQ3A".to_string()));
    let broken = EncodedDeviceProperties::new(vec![0xff, 0xff, 0xff], vec![], StrMap::new());
    assert!(broken.into_decoded().is_err());
}

#[test]
fn unknown_device_is_refused() {
    let err = Gpapi::new("nope", "someone@example.com", devices()).err().unwrap();
    assert_eq!(err.message(), "invalid device codename: nope");
    let broken = vec![("bad".to_string(), EncodedDeviceProperties::new(vec![0xff], vec![], StrMap::new()))];
    let err = Gpapi::new("bad", "someone@example.com", broken).err().unwrap();
    assert!(err.message().starts_with("failed to decode device properties: "));
}

#[test]
fn fresh_session_defaults() {
    let mut g = session();
    assert_eq!(g.locale(), "en_US");
    assert_eq!(g.timezone(), "UTC");
    assert_eq!(g.get_aas_token(), None);
    assert!(!g.is_logged_in());
    g.set_aas_token("aas");
    assert_eq!(g.get_aas_token(), Some("aas"));
    g.set_locale("de_DE");
    g.set_timezone("Europe/Berlin");
    assert_eq!(g.locale(), "de_DE");
    assert_eq!(g.timezone(), "Europe/Berlin");
}

#[test]
fn default_headers_carry_device_and_session() {
    let mut g = session();
    let h = map_of(&g.get_default_headers().unwrap());
    assert!(!h.contains_key("Authorization"));
    assert!(!h.contains_key("X-DFE-Device-Id"));
    assert_eq!(h["accept-language"], "en-US");
    assert_eq!(h["X-DFE-UserLanguages"], "en_US");
    assert_eq!(h["X-DFE-MCCMCN"], "310260");
    assert_eq!(h["X-DFE-Network-Type"], "4");
    assert_eq!(h["X-DFE-Request-Params"], "timeoutMs=4000");
    assert_eq!(
        h["user-agent"],
        "Android-Finsky/41.2.21 (api=3,versionCode=84122100,sdk=33,device=bluejay,hardware=bluejay_hw,product=bluejay_prod,platformVersionRelease=13,model=Pixel 6a,buildId=TQ3A,isWideScreen=0,supportedAbis=arm64-v8a;armeabi-v7a)"
    );
    g.apply_checkin(Some("consistency".to_string()), Some(0xabc));
    g.set_supported_abis(vec!["x86".to_string()]);
    let h = map_of(&g.get_default_headers().unwrap());
    assert_eq!(h["X-DFE-Device-Id"], "abc");
    assert_eq!(h["X-DFE-Device-Checkin-Consistency-Token"], "consistency");
    assert!(h["user-agent"].ends_with("supportedAbis=x86)"));
}

#[test]
fn missing_device_fact_is_an_invalid_response() {
    let mut extra = StrMap::new();
    extra.insert("Build.ID", "TQ3A".to_string());
    let config = DeviceConfigurationProto::default();
    let checkin = AndroidCheckinProto::default();
    let devices = vec![(
        "bare".to_string(),
        EncodedDeviceProperties::new(config.encode_to_vec(), checkin.encode_to_vec(), extra),
    )];
    let g = Gpapi::new("bare", "someone@example.com", devices).unwrap();
    let mut h = StrMap::new();
    let err = g.append_default_headers(&mut h).err().unwrap();
    assert!(is_kind(&err, "InvalidResponse"));
    assert_eq!(h.len(), 0);
    assert!(is_kind(&g.auth_token_request().err().unwrap(), "InvalidResponse"));
    assert!(is_kind(&g.checkin_request().err().unwrap(), "InvalidResponse"));
}

#[test]
fn auth_token_request_needs_the_aas_token() {
    let mut g = session();
    let err = g.auth_token_request().err().unwrap();
    assert!(is_kind(&err, "Authentication"));
    g.set_aas_token("aas");
    g.apply_checkin(None, Some(16));
    let req = g.auth_token_request().unwrap();
    assert_eq!(req.endpoint, "auth");
    assert!(!req.fdfe);
    assert_eq!(req.url(), "https://android.clients.google.com/auth");
    let q = map_of(req.query.as_ref().unwrap());
    assert_eq!(q["Token"], "aas");
    assert_eq!(q["androidId"], "10");
    assert_eq!(q["sdk_version"], "33");
    assert_eq!(q["google_play_services_version"], "240913000");
    assert_eq!(q["device_country"], "us");
    assert_eq!(q["lang"], "en_us");
    assert_eq!(q["service"], "oauth2:https://www.googleapis.com/auth/googleplay");
    let h = map_of(&req.headers);
    assert_eq!(h["User-Agent"], "GoogleAuth/1.4 (bluejay TQ3A)");
    assert_eq!(h["device"], "10");
    assert_eq!(h["content-length"], "0");
    assert_eq!(req.body, Some(vec![]));
}

#[test]
fn auth_token_reply_sets_the_token_or_reports_google_error() {
    let mut g = session();
    let err = g.receive_auth_token(&parse_form_reply("Error=BadAuthentication")).err().unwrap();
    assert_eq!(err.message(), "authentication failed: BadAuthentication");
    let err = g.receive_auth_token(&parse_form_reply("")).err().unwrap();
    assert_eq!(err.message(), "authentication failed: ");
    assert!(!g.is_logged_in());
    g.receive_auth_token(&parse_form_reply("Auth=tok\nExpiry=1")).unwrap();
    assert!(g.is_logged_in());
    let h = map_of(&g.get_default_headers().unwrap());
    assert_eq!(h["Authorization"], "Bearer tok");
}

#[test]
fn aas_token_exchange() {
    let mut g = session();
    let req = g.aas_token_request("oauth2_4/xyz");
    assert_eq!(req.endpoint, "auth");
    assert!(req.query.is_none());
    let body = String::from_utf8(req.body.unwrap()).unwrap();
    let fields: HashMap<&str, &str> = body.split('&').map(|f| f.split_once('=').unwrap()).collect();
    assert_eq!(fields["Email"], "someone@example.com");
    assert_eq!(fields["Token"], "oauth2_4/xyz");
    assert_eq!(map_of(&req.headers)["app"], "com.google.android.gms");
    let err = g.receive_aas_token(&parse_form_reply("Error=NeedsBrowser")).err().unwrap();
    assert!(is_kind(&err, "Authentication"));
    g.receive_aas_token(&parse_form_reply("Token=aas_et/123")).unwrap();
    assert_eq!(g.get_aas_token(), Some("aas_et/123"));
}

#[test]
fn reply_bytes_must_be_utf8() {
    let err = parse_reply_bytes(&[0x66, 0xff]).err().unwrap();
    assert!(is_kind(&err, "Other(\"invalid utf-8 sequence of 1 bytes from index 1\")"));
    assert_eq!(parse_reply_bytes(b"Auth=x").unwrap().get("auth"), Some(&"x".to_string()));
}

#[test]
fn accept_tos_needs_a_tos_token() {
    let mut g = session();
    let err = g.accept_tos_request().err().unwrap();
    assert_eq!(err.message(), "ToS token must be set by `toc` call first.");
    g.set_tos_token(Some("T1".to_string()));
    let req = g.accept_tos_request().unwrap();
    assert_eq!(req.url(), "https://android.clients.google.com/fdfe/acceptTos");
    assert_eq!(req.body, Some(b"tost=T1&toscme=false".to_vec()));
    assert_eq!(map_of(&req.headers)["content-type"], "application/x-www-form-urlencoded");
}

#[test]
fn store_requests_need_a_login() {
    let mut g = session();
    assert!(is_kind(&g.details_request("com.discord").err().unwrap(), "LoginRequired"));
    assert!(is_kind(&g.bulk_details_request(&vec!["a".to_string()]).err().unwrap(), "LoginRequired"));
    g.receive_auth_token(&parse_form_reply("Auth=tok")).unwrap();
    let req = g.details_request("com.discord").unwrap();
    assert_eq!(map_of(req.query.as_ref().unwrap())["doc"], "com.discord");
    let ids = vec!["a".to_string(), "b".to_string()];
    let req = g.bulk_details_request(&ids).unwrap();
    let expected = BulkDetailsRequest { doc_id: ids.clone(), include_child_docs: Some(false), ..Default::default() };
    assert_eq!(req.body, Some(expected.encode_to_vec()));
    let req = g.purchase_request("com.discord", 345009).unwrap();
    let q = map_of(req.query.as_ref().unwrap());
    assert_eq!((q["ot"].as_str(), q["doc"].as_str(), q["vc"].as_str()), ("1", "com.discord", "345009"));
    let req = g.delivery_request("com.discord", 7, "dtok").unwrap();
    assert_eq!(map_of(req.query.as_ref().unwrap())["dtok"], "dtok");
    assert_eq!(req.url(), "https://android.clients.google.com/fdfe/delivery");
}

#[test]
fn checkin_request_headers() {
    let g = session();
    let req = g.checkin_request().unwrap();
    let h = map_of(&req.headers);
    assert_eq!(h["content-type"], "application/x-protobuf");
    assert_eq!(h["host"], "android.clients.google.com");
    assert_eq!(h["app"], "com.android.vending");
    assert!(!h.contains_key("device"));
    let sent = AndroidCheckinRequest::decode(req.body.unwrap().as_slice()).unwrap();
    assert_eq!(sent.id, Some(0));
    assert_eq!(sent.version, Some(3));
    assert_eq!(sent.locale.as_deref(), Some("en_US"));
    assert_eq!(sent.time_zone.as_deref(), Some("UTC"));
    assert_eq!(sent.checkin.unwrap().build.unwrap().device.as_deref(), Some("bluejay"));
    assert_eq!(sent.device_configuration.unwrap().native_platform, vec!["arm64-v8a", "armeabi-v7a"]);
}

#[test]
fn device_config_upload_advertises_the_chosen_abis() {
    let mut g = session();
    g.set_supported_abis(vec!["x86_64".to_string()]);
    let req = g.upload_device_config_request().unwrap();
    assert_eq!(req.url(), "https://android.clients.google.com/fdfe/uploadDeviceConfig");
    let sent = UploadDeviceConfigRequest::decode(req.body.unwrap().as_slice()).unwrap();
    assert_eq!(sent.device_configuration.unwrap().native_platform, vec!["x86_64"]);
    let sent = AndroidCheckinRequest::decode(g.checkin_request().unwrap().body.unwrap().as_slice()).unwrap();
    assert_eq!(sent.device_configuration.unwrap().native_platform, vec!["x86_64"]);
}

fn store_reply(payload: Option<Payload>) -> Vec<u8> {
    ResponseWrapper { payload, ..Default::default() }.encode_to_vec()
}

#[test]
fn replies_become_login_events() {
    let bytes = AndroidCheckinResponse {
        android_id: Some(0xff),
        device_checkin_consistency_token: Some("ct".to_string()),
        ..Default::default()
    }
    .encode_to_vec();
    match checkin_event(&bytes) {
        LoginEvent::Checkin { consistency_token, android_id } => {
            assert_eq!(consistency_token.as_deref(), Some("ct"));
            assert_eq!(android_id, Some(0xff));
        }
        _ => panic!("expected a check-in"),
    }
    assert!(matches!(checkin_event(&[0xff, 0xff]), LoginEvent::Failed(_)));
    let upload = store_reply(Some(Payload {
        upload_device_config_response: Some(UploadDeviceConfigResponse {
            upload_device_config_token: Some("cfg".to_string()),
        }),
        ..Default::default()
    }));
    match upload_event(&upload) {
        LoginEvent::UploadDeviceConfig(Some(Some(t))) => assert_eq!(t, "cfg"),
        _ => panic!("expected the upload token"),
    }
    assert!(matches!(upload_event(&store_reply(None)), LoginEvent::UploadDeviceConfig(None)));
    let toc = store_reply(Some(Payload {
        toc_response: Some(TocResponse {
            tos_content: Some("terms".to_string()),
            cookie: Some("cookie".to_string()),
            ..Default::default()
        }),
        ..Default::default()
    }));
    match toc_event(&toc) {
        LoginEvent::Toc(TocReply::Toc { tos_token, has_tos_content, cookie }) => {
            assert_eq!(tos_token, None);
            assert!(has_tos_content);
            assert_eq!(cookie.as_deref(), Some("cookie"));
        }
        _ => panic!("expected a toc answer"),
    }
    assert!(matches!(toc_event(&store_reply(None)), LoginEvent::Toc(TocReply::NoPayload)));
    assert!(matches!(
        toc_event(&store_reply(Some(Payload::default()))),
        LoginEvent::Toc(TocReply::NoTocResponse)
    ));
    let accepted = store_reply(Some(Payload { accept_tos_response: Some(AcceptTosResponse {}), ..Default::default() }));
    assert!(matches!(accept_tos_event(&accepted), LoginEvent::AcceptTos { acknowledged: true }));
    assert!(matches!(accept_tos_event(&store_reply(None)), LoginEvent::AcceptTos { acknowledged: false }));
}

#[test]
fn replies_become_download_events() {
    let buy = store_reply(Some(Payload {
        buy_response: Some(BuyResponse { encoded_delivery_token: Some("dtok".to_string()), ..Default::default() }),
        ..Default::default()
    }));
    match purchase_event(&buy) {
        DownloadEvent::Purchase(Some(t)) => assert_eq!(t, "dtok"),
        _ => panic!("expected a delivery token"),
    }
    let delivery = store_reply(Some(Payload {
        delivery_response: Some(DeliveryResponse {
            app_delivery_data: Some(AndroidAppDeliveryData {
                download_url: Some("https://a/base".to_string()),
                split_delivery_data: vec![SplitDeliveryData {
                    name: Some("config.en".to_string()),
                    download_url: Some("https://a/en".to_string()),
                    ..Default::default()
                }],
                additional_file: vec![AppFileMetadata {
                    file_type: Some(1),
                    version_code: Some(9),
                    download_url: Some("https://a/obb".to_string()),
                    ..Default::default()
                }],
                dex_metadata: Some(DexMetadata { download_url: Some("https://a/dm".to_string()), ..Default::default() }),
                ..Default::default()
            }),
            ..Default::default()
        }),
        ..Default::default()
    }));
    match delivery_event(&delivery) {
        DownloadEvent::Delivery(Some(d)) => {
            assert_eq!(d.download_url.as_deref(), Some("https://a/base"));
            assert_eq!(d.splits.len(), 1);
            assert_eq!(d.splits[0].name.as_deref(), Some("config.en"));
            assert_eq!(d.additional_files[0].file_type, Some(1));
            assert_eq!(d.additional_files[0].version_code, Some(9));
            assert_eq!(d.dex_metadata_url.as_deref(), Some("https://a/dm"));
        }
        _ => panic!("expected delivery data"),
    }
    let details = store_reply(Some(Payload {
        details_response: Some(DetailsResponse {
            item: Some(Item {
                details: Some(DocumentDetails {
                    app_details: Some(AppDetails { version_code: Some(289020), ..Default::default() }),
                    ..Default::default()
                }),
                ..Default::default()
            }),
            ..Default::default()
        }),
        ..Default::default()
    }));
    assert!(matches!(latest_version_event(&details), DownloadEvent::Details(Some(289020))));
    assert!(details_reply(&details).unwrap().is_some());
    assert!(details_reply(&store_reply(None)).unwrap().is_none());
    assert!(matches!(latest_version_event(&store_reply(None)), DownloadEvent::Details(None)));
    assert!(matches!(delivery_event(&store_reply(None)), DownloadEvent::Delivery(None)));
    assert!(details_reply(&[0xff, 0xff]).is_err());
    assert!(bulk_details_reply(&store_reply(None)).unwrap().is_none());
}

fn login_until_toc(g: &mut Gpapi) -> LoginFlow {
    let (mut flow, step) = LoginFlow::start();
    assert!(matches!(step, LoginStep::SendCheckin));
    let step = flow.step(g, LoginEvent::Checkin { consistency_token: Some("c".to_string()), android_id: Some(1) });
    assert!(matches!(step, LoginStep::SendUploadDeviceConfig));
    let step = flow.step(g, LoginEvent::UploadDeviceConfig(Some(Some("cfg".to_string()))));
    assert!(matches!(step, LoginStep::SendAuthToken));
    let step = flow.step(g, LoginEvent::AuthToken(b"Auth=tok".to_vec()));
    assert!(matches!(step, LoginStep::SendToc));
    flow
}

#[test]
fn login_without_terms_takes_the_cookie() {
    let mut g = session();
    g.set_aas_token("aas");
    let mut flow = login_until_toc(&mut g);
    let step = flow.step(
        &mut g,
        LoginEvent::Toc(TocReply::Toc { tos_token: None, has_tos_content: false, cookie: Some("ck".to_string()) }),
    );
    assert!(matches!(step, LoginStep::Done));
    assert!(flow.is_finished());
    let h = map_of(&g.get_default_headers().unwrap());
    assert_eq!(h["X-DFE-Cookie"], "ck");
    assert_eq!(h["X-DFE-Device-Config-Token"], "cfg");
    assert_eq!(h["X-DFE-Device-Id"], "1");
}

#[test]
fn login_accepts_presented_terms_and_retries_once() {
    let mut g = session();
    let mut flow = login_until_toc(&mut g);
    let terms = || TocReply::Toc { tos_token: Some("T".to_string()), has_tos_content: true, cookie: None };
    assert!(matches!(flow.step(&mut g, LoginEvent::Toc(terms())), LoginStep::SendAcceptTos));
    assert!(g.accept_tos_request().is_ok());
    // acknowledged, but no cookie yet: the terms still stand; check again
    assert!(matches!(flow.step(&mut g, LoginEvent::AcceptTos { acknowledged: true }), LoginStep::SendToc));
    assert!(matches!(flow.step(&mut g, LoginEvent::Toc(terms())), LoginStep::SendAcceptTos));
    match flow.step(&mut g, LoginEvent::AcceptTos { acknowledged: true }) {
        LoginStep::Failed(e) => assert!(is_kind(&e, "TermsOfService")),
        _ => panic!("a second refusal ends the login"),
    }
}

#[test]
fn login_failures() {
    let mut g = session();
    let (mut flow, _) = LoginFlow::start();
    flow.step(&mut g, LoginEvent::Checkin { consistency_token: None, android_id: None });
    match flow.step(&mut g, LoginEvent::UploadDeviceConfig(None)) {
        LoginStep::Failed(e) => assert_eq!(e.message(), "No device config token"),
        _ => panic!(),
    }
    let (mut flow, _) = LoginFlow::start();
    flow.step(&mut g, LoginEvent::Checkin { consistency_token: None, android_id: None });
    match flow.step(&mut g, LoginEvent::UploadDeviceConfig(Some(None))) {
        LoginStep::Failed(e) => assert!(is_kind(&e, "InvalidResponse")),
        _ => panic!(),
    }
    let mut flow = login_until_toc(&mut g);
    match flow.step(&mut g, LoginEvent::AcceptTos { acknowledged: true }) {
        LoginStep::Failed(e) => assert!(is_kind(&e, "InvalidResponse")),
        _ => panic!(),
    }
    let mut flow = login_until_toc(&mut g);
    match flow.step(&mut g, LoginEvent::Toc(TocReply::NoPayload)) {
        LoginStep::Failed(e) => assert_eq!(e.message(), "Invalid payload."),
        _ => panic!(),
    }
    let mut flow = login_until_toc(&mut g);
    match flow.step(&mut g, LoginEvent::Toc(TocReply::Toc { tos_token: None, has_tos_content: false, cookie: None })) {
        LoginStep::Failed(e) => assert_eq!(e.message(), "No DFE cookie found."),
        _ => panic!(),
    }
    let mut flow = login_until_toc(&mut g);
    match flow.step(&mut g, LoginEvent::Toc(TocReply::Toc { tos_token: None, has_tos_content: true, cookie: Some("c".to_string()) })) {
        LoginStep::Failed(e) => assert_eq!(e.message(), "ToS token must be set by `toc` call first."),
        _ => panic!(),
    }
    let mut flow = login_until_toc(&mut g);
    flow.step(&mut g, LoginEvent::Toc(TocReply::Toc { tos_token: Some("T".to_string()), has_tos_content: false, cookie: Some("c".to_string()) }));
    match flow.step(&mut g, LoginEvent::AcceptTos { acknowledged: false }) {
        LoginStep::Failed(e) => assert_eq!(e.message(), "Play Store acceptTos was not acknowledged by the server"),
        _ => panic!(),
    }
}

#[test]
fn delivery_is_read_into_download_info() {
    let data = AppDeliveryData {
        download_url: Some("https://main".to_string()),
        splits: vec![SplitDelivery { name: Some("config.en".to_string()), download_url: Some("https://en".to_string()) }],
        additional_files: vec![
            AdditionalFile { file_type: Some(0), version_code: Some(12), download_url: Some("https://obb0".to_string()) },
            AdditionalFile { file_type: Some(1), version_code: Some(13), download_url: None },
            AdditionalFile { file_type: None, version_code: Some(14), download_url: Some("https://skip".to_string()) },
        ],
        dex_metadata_url: Some("https://dm".to_string()),
    };
    let g = {
        let mut g = session();
        g.receive_auth_token(&parse_form_reply("Auth=tok")).unwrap();
        g
    };
    let (mut flow, step) = DownloadFlow::start(&g, "com.example", None);
    assert!(matches!(step, DownloadStep::SendDetails));
    assert!(matches!(flow.step(DownloadEvent::Details(Some(12))), DownloadStep::SendPurchase { version_code: 12 }));
    match flow.step(DownloadEvent::Purchase(Some("dt".to_string()))) {
        DownloadStep::SendDelivery { version_code, delivery_token } => {
            assert_eq!(version_code, 12);
            assert_eq!(delivery_token, "dt");
        }
        _ => panic!(),
    }
    match flow.step(DownloadEvent::Delivery(Some(data))) {
        DownloadStep::Done((main, splits, additional, dex)) => {
            assert_eq!(main.as_deref(), Some("https://main"));
            assert_eq!(splits, vec![(Some("config.en".to_string()), Some("https://en".to_string()))]);
            assert_eq!(
                additional,
                vec![
                    (Some("main.12.com.example.obb".to_string()), Some("https://obb0".to_string())),
                    (Some("patch.13.com.example.obb".to_string()), None),
                ]
            );
            assert_eq!(dex.as_deref(), Some("https://dm"));
        }
        _ => panic!(),
    }
}

#[test]
fn download_lookup_failures() {
    let g = session();
    match DownloadFlow::start(&g, "com.example", Some(1)).1 {
        DownloadStep::Failed(e) => assert!(is_kind(&e, "LoginRequired")),
        _ => panic!(),
    }
    let mut g = session();
    g.receive_auth_token(&parse_form_reply("Auth=tok")).unwrap();
    let (mut flow, _) = DownloadFlow::start(&g, "com.example", None);
    match flow.step(DownloadEvent::Details(None)) {
        DownloadStep::Failed(e) => assert!(is_kind(&e, "InvalidApp")),
        _ => panic!(),
    }
    let (mut flow, _) = DownloadFlow::start(&g, "com.example", Some(3));
    match flow.step(DownloadEvent::Purchase(None)) {
        DownloadStep::Failed(e) => assert!(is_kind(&e, "InvalidApp")),
        _ => panic!(),
    }
    let (mut flow, _) = DownloadFlow::start(&g, "com.example", Some(3));
    flow.step(DownloadEvent::Purchase(Some("t".to_string())));
    match flow.step(DownloadEvent::Delivery(None)) {
        DownloadStep::Failed(e) => assert!(is_kind(&e, "InvalidApp")),
        _ => panic!(),
    }
}

#[test]
fn device_database_lists_the_stored_profiles() {
    let mut extra = HashMap::new();
    extra.insert("Build.ID".to_string(), "TQ3A".to_string());
    let mut db: HashMap<String, (Vec<u8>, Vec<u8>, HashMap<String, String>)> = HashMap::new();
    db.insert("px_6a".to_string(), (vec![1, 2], vec![3], extra));
    let bytes = bincode::encode_to_vec(&db, bincode::config::standard()).unwrap();
    let devices = device_database(&bytes).unwrap();
    assert_eq!(devices.len(), 1);
    assert_eq!(devices[0].0, "px_6a");
    assert_eq!(devices[0].1.device_configuration, vec![1, 2]);
    assert_eq!(devices[0].1.android_checkin, vec![3]);
    assert_eq!(map_of(&devices[0].1.extra_info)["Build.ID"], "TQ3A");
    let e = device_database(&[5]).err().unwrap();
    assert!(e.message().starts_with("failed to decode device database: "));
}

#[test]
fn delivery_needs_a_login() {
    let g = session();
    assert!(is_kind(&g.delivery_request("com.discord", 7, "dtok").err().unwrap(), "LoginRequired"));
}

#[test]
fn failed_default_headers_keep_only_the_bearer_token() {
    let mut extra = StrMap::new();
    extra.insert("Build.ID", "TQ3A".to_string());
    let checkin = AndroidCheckinProto::default();
    let config = DeviceConfigurationProto::default();
    let devices = vec![(
        "bare".to_string(),
        EncodedDeviceProperties::new(config.encode_to_vec(), checkin.encode_to_vec(), extra),
    )];
    let mut g = Gpapi::new("bare", "someone@example.com", devices).unwrap();
    g.receive_auth_token(&parse_form_reply("Auth=tok")).unwrap();
    let mut headers = StrMap::new();
    assert!(g.append_default_headers(&mut headers).is_err());
    let h = map_of(&headers);
    assert_eq!(h.len(), 1);
    assert_eq!(h["Authorization"], "Bearer tok");
}

#[test]
fn form_body_reads_back_as_a_reply() {
    let mut params = StrMap::new();
    params.insert("email", "me@example.com".to_string());
    params.insert("token", "oauth2_4/abc".to_string());
    params.insert("lang", "en_us".to_string());
    let body = form_post(&params).replace('&', "\n");
    assert_eq!(map_of(&parse_form_reply(&body)), map_of(&params));
}

#[test]
fn failed_auth_params_keep_what_came_before() {
    let mut extra = StrMap::new();
    extra.insert("Build.ID", "TQ3A".to_string());
    let checkin = AndroidCheckinProto {
        build: Some(AndroidBuildProto { sdk_version: Some(33), ..Default::default() }),
        ..Default::default()
    };
    let devices = vec![(
        "nogms".to_string(),
        EncodedDeviceProperties::new(DeviceConfigurationProto::default().encode_to_vec(), checkin.encode_to_vec(), extra),
    )];
    let mut g = Gpapi::new("nogms", "someone@example.com", devices).unwrap();
    g.apply_checkin(None, Some(0x2a));
    let mut params = StrMap::new();
    assert!(g.append_default_auth_params(&mut params).is_err());
    let p = map_of(&params);
    assert_eq!(p.len(), 3);
    assert_eq!(p["androidId"], "2a");
    assert_eq!(p["sdk_version"], "33");
    assert_eq!(p["Email"], "someone@example.com");
    let mut params = StrMap::new();
    assert!(g.append_auth_params(&mut params).is_err());
    assert_eq!(map_of(&params).len(), 3);
}

//! A Google Play session: its state, the requests it makes and what it
//! learns from the replies.
//!
//! The session does no I/O. Each request is described by a [`Request`] that
//! the caller sends; each reply is handed back to a method that updates the
//! session.
use vstd::prelude::*;

use prost::Message;

use crate::build_config::{user_agent_text, BuildConfiguration};
use crate::consts::{
    DEFAULT_ANDROID_VENDING, DEFAULT_AUTH_USER_AGENT, DEFAULT_BASE_URL, DEFAULT_CALLER_SIG,
    DEFAULT_CLIENT_SIG, DEFAULT_COUNTRY_CODE, DEFAULT_DFE_PHENOTYPE, DEFAULT_DFE_TARGETS,
    DEFAULT_LANGUAGE,
};
use crate::device::{decode_error_message, AndroidBuild, DeviceProperties, EncodedDeviceProperties};
use crate::error::{kind_message, Error, ErrorKind};
use crate::form::{form_body, form_post, parse_form_reply, reply_map, split_lines, AuthRequest, default_auth_request_map};
use crate::strmap::StrMap;
use crate::text::{
    ascii_lower, concat2, dec_int, hex_i64, i64_to_hex, i64_to_string, join, push_str,
    replace_char, replace_char_spec, seq_join, str_eq, strings_view, to_ascii_lowercase,
};

verus! {

broadcast use vstd::string::group_string_axioms;

/// The character view of an optional string.
pub open spec fn opt_view(o: Option<String>) -> Option<Seq<char>> {
    match o {
        Some(s) => Some(s@),
        None => None,
    }
}

/// A copy of an optional string.
pub fn clone_opt(o: &Option<String>) -> (r: Option<String>)
    ensures
        opt_view(r) == opt_view(*o),
{
    match o {
        Some(s) => Some(s.clone()),
        None => None,
    }
}

/// What a [`Gpapi`] session holds, as mathematical values.
pub struct Session {
    pub locale: Seq<char>,
    pub timezone: Seq<char>,
    pub email: Seq<char>,
    pub aas_token: Option<Seq<char>>,
    pub auth_token: Option<Seq<char>>,
    pub device_config_token: Option<Seq<char>>,
    pub device_checkin_consistency_token: Option<Seq<char>>,
    pub tos_token: Option<Seq<char>>,
    pub dfe_cookie: Option<Seq<char>>,
    pub gsf_id: Option<i64>,
    pub build: Option<AndroidBuild>,
    pub native_platform: Seq<Seq<char>>,
    pub extra_info: Map<Seq<char>, Seq<char>>,
    /// The device's configuration message, encoded.
    pub device_configuration: Seq<u8>,
    /// The device's check-in message, encoded.
    pub android_checkin: Seq<u8>,
}

/// A session with Google Play's store API.
pub struct Gpapi {
    locale: String,
    timezone: String,
    device_properties: DeviceProperties,
    email: String,
    aas_token: Option<String>,
    auth_token: Option<String>,
    device_config_token: Option<String>,
    device_checkin_consistency_token: Option<String>,
    tos_token: Option<String>,
    dfe_cookie: Option<String>,
    gsf_id: Option<i64>,
}

impl View for Gpapi {
    type V = Session;

    closed spec fn view(&self) -> Session {
        Session {
            locale: self.locale@,
            timezone: self.timezone@,
            email: self.email@,
            aas_token: opt_view(self.aas_token),
            auth_token: opt_view(self.auth_token),
            device_config_token: opt_view(self.device_config_token),
            device_checkin_consistency_token: opt_view(self.device_checkin_consistency_token),
            tos_token: opt_view(self.tos_token),
            dfe_cookie: opt_view(self.dfe_cookie),
            gsf_id: self.gsf_id,
            build: self.device_properties.build,
            native_platform: strings_view(self.device_properties.native_platform@),
            extra_info: self.device_properties.extra_info@,
            device_configuration: self.device_properties.device_configuration@,
            android_checkin: self.device_properties.android_checkin@,
        }
    }
}

impl Gpapi {
    /// The device's two messages decode: the session was made from them.
    #[verifier::type_invariant]
    spec fn messages_decode(&self) -> bool {
        &&& crate::device::decoded_native_platform(self.device_properties.device_configuration@) is Some
        &&& crate::device::decoded_checkin_build(self.device_properties.android_checkin@) is Some
    }
}

/// A request to send: to `DEFAULT_BASE_URL`, under `/fdfe/` for store
/// endpoints, with the query parameters (form-encoded by the sender), the
/// headers, and a body for a POST (no body means a GET).
pub struct Request {
    pub endpoint: String,
    pub fdfe: bool,
    pub query: Option<StrMap>,
    pub headers: StrMap,
    pub body: Option<Vec<u8>>,
}

/// The URL of an endpoint, without its query.
pub open spec fn endpoint_url(endpoint: Seq<char>, fdfe: bool) -> Seq<char> {
    if fdfe {
        DEFAULT_BASE_URL@ + "/fdfe/"@ + endpoint
    } else {
        DEFAULT_BASE_URL@ + "/"@ + endpoint
    }
}

impl Request {
    /// The URL of this request, without its query.
    pub fn url(&self) -> (r: String)
        ensures
            r@ == endpoint_url(self.endpoint@, self.fdfe),
    {
        let mut r = DEFAULT_BASE_URL.to_owned();
        if self.fdfe {
            push_str(&mut r, "/fdfe/");
        } else {
            push_str(&mut r, "/");
        }
        push_str(&mut r, self.endpoint.as_str());
        r
    }
}

/// A failure to read bytes as UTF-8 text.
#[verifier::external_type_specification]
#[verifier::external_body]
pub struct ExUtf8Error(core::str::Utf8Error);

/// std's `str::from_utf8`: succeeds exactly on valid UTF-8, with the text it encodes.
#[verifier::external_body]
fn str_from_utf8(bytes: &[u8]) -> (r: Result<&str, core::str::Utf8Error>)
    ensures
        r is Ok <==> vstd::utf8::valid_utf8(bytes@),
        r matches Ok(s) ==> s@ == vstd::utf8::decode_utf8(bytes@),
{
    core::str::from_utf8(bytes)
}

/// The text that a `Utf8Error` displays (its `to_string`).
#[verifier::external_body]
fn utf8_error_message(e: &core::str::Utf8Error) -> String {
    e.to_string()
}

/// Reads a reply of Google's auth endpoint from its bytes.
pub fn parse_reply_bytes(bytes: &[u8]) -> (r: Result<StrMap, Error>)
    ensures
        r is Ok <==> vstd::utf8::valid_utf8(bytes@),
        r matches Ok(m) ==> m@ == reply_map(split_lines(vstd::utf8::decode_utf8(bytes@))),
        r matches Err(e) ==> e.kind_spec() is Other,
{
    match str_from_utf8(bytes) {
        Ok(s) => Ok(parse_form_reply(s)),
        Err(e) => Err(Error::new(ErrorKind::Other(utf8_error_message(&e)))),
    }
}

/// The UTF-8 bytes of a string.
fn string_bytes(s: &String) -> (r: Vec<u8>)
    ensures
        r@ == vstd::utf8::encode_utf8(s@),
{
    vstd::slice::slice_to_vec(s.as_str().as_bytes())
}

/// Whether the session knows every device fact that the store headers need.
pub open spec fn store_headers_ready(s: Session) -> bool {
    &&& s.build is Some
    &&& s.extra_info.contains_key("Vending.versionString"@)
    &&& s.extra_info.contains_key("Vending.version"@)
    &&& s.build->0.sdk_version is Some
    &&& s.build->0.device is Some
    &&& s.build->0.product is Some
    &&& s.build->0.build_product is Some
    &&& s.extra_info.contains_key("Build.VERSION.RELEASE"@)
    &&& s.build->0.model is Some
    &&& s.extra_info.contains_key("Build.ID"@)
}

/// The store user agent of a session.
pub open spec fn store_user_agent(s: Session) -> Seq<char> {
    let b = s.build->0;
    user_agent_text(
        crate::consts::DEFAULT_FINSKY_AGENT@,
        s.extra_info["Vending.versionString"@],
        crate::consts::DEFAULT_API@,
        s.extra_info["Vending.version"@],
        dec_int(b.sdk_version->0 as int),
        b.device->0@,
        b.product->0@,
        b.build_product->0@,
        s.extra_info["Build.VERSION.RELEASE"@],
        b.model->0@,
        s.extra_info["Build.ID"@],
        crate::consts::DEFAULT_IS_WIDE_SCREEN@,
        seq_join(s.native_platform, ";"@),
    )
}

/// `m` with `k` set to `v` when `v` is present.
pub open spec fn insert_opt(
    m: Map<Seq<char>, Seq<char>>,
    k: Seq<char>,
    v: Option<Seq<char>>,
) -> Map<Seq<char>, Seq<char>> {
    match v {
        Some(v) => m.insert(k, v),
        None => m,
    }
}

/// `m` with the session's bearer token, when it has one.
pub open spec fn with_authorization(s: Session, m: Map<Seq<char>, Seq<char>>) -> Map<Seq<char>, Seq<char>> {
    match s.auth_token {
        Some(t) => m.insert("Authorization"@, "Bearer "@ + t),
        None => m,
    }
}

/// The headers that every store request of a session carries, added to `m`.
pub open spec fn store_headers(s: Session, m: Map<Seq<char>, Seq<char>>) -> Map<Seq<char>, Seq<char>> {
    let m1 = with_authorization(s, m);
    let m2 = m1.insert("user-agent"@, store_user_agent(s));
    let m3 = match s.gsf_id {
        Some(g) => m2.insert("X-DFE-Device-Id"@, hex_i64(g)),
        None => m2,
    };
    let m4 = m3.insert("accept-language"@, replace_char_spec(s.locale, '_', "-"@)).insert(
        "X-DFE-Encoded-Targets"@,
        DEFAULT_DFE_TARGETS@,
    ).insert("X-DFE-Phenotype"@, DEFAULT_DFE_PHENOTYPE@).insert(
        "X-DFE-Client-Id"@,
        "am-android-google"@,
    ).insert("X-DFE-Network-Type"@, "4"@).insert("X-DFE-Content-Filters"@, Seq::empty()).insert(
        "X-Limit-Ad-Tracking-Enabled"@,
        "false"@,
    ).insert("X-Ad-Id"@, Seq::empty()).insert("X-DFE-UserLanguages"@, s.locale).insert(
        "X-DFE-Request-Params"@,
        "timeoutMs=4000"@,
    );
    let m5 = insert_opt(
        m4,
        "X-DFE-Device-Checkin-Consistency-Token"@,
        s.device_checkin_consistency_token,
    );
    let m6 = insert_opt(m5, "X-DFE-Device-Config-Token"@, s.device_config_token);
    let m7 = insert_opt(m6, "X-DFE-Cookie"@, s.dfe_cookie);
    if s.extra_info.contains_key("SimOperator"@) {
        m7.insert("X-DFE-MCCMCN"@, s.extra_info["SimOperator"@])
    } else {
        m7
    }
}

/// The headers of a check-in or token request, added to `m`.
pub open spec fn auth_headers(
    s: Session,
    m: Map<Seq<char>, Seq<char>>,
    build_device: Seq<char>,
    build_id: Seq<char>,
) -> Map<Seq<char>, Seq<char>> {
    let m1 = m.insert("app"@, DEFAULT_ANDROID_VENDING@).insert(
        "User-Agent"@,
        "GoogleAuth/1.4 ("@ + build_device + " "@ + build_id + ")"@,
    );
    match s.gsf_id {
        Some(g) => m1.insert("device"@, hex_i64(g)),
        None => m1,
    }
}

/// Whether the session knows the build facts that token requests send.
pub open spec fn auth_params_ready(s: Session) -> bool {
    &&& s.build is Some
    &&& s.build->0.sdk_version is Some
    &&& s.build->0.google_services is Some
}

/// `m` with the session's Android id, when it has one.
pub open spec fn with_android_id(s: Session, m: Map<Seq<char>, Seq<char>>) -> Map<Seq<char>, Seq<char>> {
    match s.gsf_id {
        Some(g) => m.insert("androidId"@, hex_i64(g)),
        None => m,
    }
}

/// The device parameters of a token request, added to `m`.
pub open spec fn default_auth_params(s: Session, m: Map<Seq<char>, Seq<char>>) -> Map<Seq<char>, Seq<char>> {
    let m1 = with_android_id(s, m);
    m1.insert("sdk_version"@, dec_int(s.build->0.sdk_version->0 as int)).insert(
        "Email"@,
        s.email,
    ).insert(
        "google_play_services_version"@,
        dec_int(s.build->0.google_services->0 as int),
    ).insert("device_country"@, ascii_lower(DEFAULT_COUNTRY_CODE@)).insert(
        "lang"@,
        ascii_lower(DEFAULT_LANGUAGE@),
    ).insert("callerSig"@, DEFAULT_CALLER_SIG@)
}

/// The account parameters of a token request, added to `m`.
pub open spec fn auth_params(s: Session, m: Map<Seq<char>, Seq<char>>) -> Map<Seq<char>, Seq<char>> {
    m.insert("app"@, "com.android.vending"@).insert("client_sig"@, DEFAULT_CLIENT_SIG@).insert(
        "callerPkg"@,
        DEFAULT_ANDROID_VENDING@,
    ).insert("Token"@, s.aas_token->0).insert("oauth2_foreground"@, "1"@).insert(
        "token_request_options"@,
        "CAA4AVAB"@,
    ).insert("check_email"@, "1"@).insert("system_partition"@, "1"@)
}

/// The error with which a token request cannot be made, if any, in the order
/// in which its parts are gathered.
pub open spec fn auth_token_request_error(s: Session) -> Option<ErrorKind> {
    if !auth_params_ready(s) {
        Some(ErrorKind::InvalidResponse)
    } else if s.aas_token is None {
        Some(ErrorKind::Authentication)
    } else if s.build->0.device is None || !s.extra_info.contains_key("Build.ID"@) {
        Some(ErrorKind::InvalidResponse)
    } else {
        None
    }
}

/// Whether `e` is an error of kind `k`, for kinds without a message.
pub open spec fn is_kind(e: Error, k: ErrorKind) -> bool {
    e.kind_spec() == k
}

/// The message text of error `e`.
pub open spec fn error_text(e: Error) -> Seq<char> {
    kind_message(e.kind_spec())
}

/// Everything of a session but its tokens and cookie is the same.
pub open spec fn same_device(a: Session, b: Session) -> bool {
    &&& a.locale == b.locale
    &&& a.timezone == b.timezone
    &&& a.email == b.email
    &&& a.build == b.build
    &&& a.native_platform == b.native_platform
    &&& a.extra_info == b.extra_info
    &&& a.device_configuration == b.device_configuration
    &&& a.android_checkin == b.android_checkin
}

/// Whether `i` is the position of the last device named `name` in `devices`:
/// the one that a lookup by name finds, later entries replacing earlier ones.
pub open spec fn is_last_named(devices: Seq<(String, EncodedDeviceProperties)>, name: Seq<char>, i: int) -> bool {
    &&& 0 <= i < devices.len()
    &&& devices[i].0@ == name
    &&& forall|j: int| i < j < devices.len() ==> devices[j].0@ != name
}

/// Whether both messages of a stored profile decode.
pub open spec fn device_decodes(d: EncodedDeviceProperties) -> bool {
    &&& crate::device::decoded_native_platform(d.device_configuration@) is Some
    &&& crate::device::decoded_checkin_build(d.android_checkin@) is Some
}

/// Whether the device facts of session `s` are those of the profile `d`.
pub open spec fn posed_as(s: Session, d: EncodedDeviceProperties) -> bool {
    &&& s.extra_info == d.extra_info@
    &&& s.device_configuration == d.device_configuration@
    &&& s.android_checkin == d.android_checkin@
    &&& Some(s.build) == crate::device::decoded_checkin_build(d.android_checkin@)
}

/// The position of the last device named `name`.
fn find_device(devices: &Vec<(String, EncodedDeviceProperties)>, name: &str) -> (r: Option<usize>)
    ensures
        r is None ==> forall|i: int| 0 <= i < devices@.len() ==> devices@[i].0@ != name@,
        r matches Some(i) ==> is_last_named(devices@, name@, i as int),
{
    let mut i: usize = devices.len();
    while i > 0
        invariant
            i <= devices@.len(),
            forall|j: int| i <= j < devices@.len() ==> devices@[j].0@ != name@,
        decreases i,
    {
        if str_eq(devices[i - 1].0.as_str(), name) {
            return Some(i - 1);
        }
        i = i - 1;
    }
    None
}

impl Gpapi {
    /// A fresh session posing as the device `device_codename` of `devices`
    /// (the last one of that name), for the account `email`, with the `en_US`
    /// locale and the `UTC` time zone. Fails when no device of that name is
    /// listed, or when its profile does not decode.
    pub fn new(
        device_codename: &str,
        email: &str,
        devices: Vec<(String, EncodedDeviceProperties)>,
    ) -> (r: Result<Self, Error>)
        ensures
            (forall|i: int| 0 <= i < devices@.len() ==> devices@[i].0@ != device_codename@)
                ==> (r matches Err(e) && e.kind_spec() is Str && error_text(e)
                == "invalid device codename: "@ + device_codename@),
            r matches Ok(g) ==> {
                &&& g@.locale == "en_US"@
                &&& g@.timezone == "UTC"@
                &&& g@.email == email@
                &&& g@.aas_token is None
                &&& g@.auth_token is None
                &&& g@.device_config_token is None
                &&& g@.device_checkin_consistency_token is None
                &&& g@.tos_token is None
                &&& g@.dfe_cookie is None
                &&& g@.gsf_id is None
            },
            r matches Err(e) ==> e.kind_spec() is Str,
            // the last device of that name decides: the session is made
            // exactly when its profile decodes, and poses as it
            forall|i: int|
                #[trigger] is_last_named(devices@, device_codename@, i) ==> {
                    &&& (r is Ok <==> device_decodes(devices@[i].1))
                    &&& r matches Ok(g) ==> posed_as(g@, devices@[i].1) && Some(g@.native_platform)
                        == crate::device::decoded_native_platform(devices@[i].1.device_configuration@)
                    &&& r matches Err(e) ==> error_text(e).len() >= 36 && error_text(e).take(36)
                        == "failed to decode device properties: "@
                },
    {
        let i = match find_device(&devices, device_codename) {
            Some(i) => i,
            None => return Err(Error::with_detail("invalid device codename: ", device_codename)),
        };
        let ghost before = devices@;
        let mut devices = devices;
        let (_, encoded) = devices.remove(i);
        assert(before[i as int].1 == encoded);
        proof {
            assert forall|k: int| #[trigger] is_last_named(before, device_codename@, k) implies k == i by {
                if k < i {
                    assert(before[i as int].0@ == device_codename@);
                } else if k > i {
                }
            }
            reveal_strlit("failed to decode device properties: ");
        }
        match encoded.into_decoded() {
            Ok(device_properties) => Ok(Self {
                locale: "en_US".to_owned(),
                timezone: "UTC".to_owned(),
                device_properties,
                email: email.to_owned(),
                aas_token: None,
                auth_token: None,
                device_config_token: None,
                device_checkin_consistency_token: None,
                tos_token: None,
                dfe_cookie: None,
                gsf_id: None,
            }),
            Err(e) => {
                let detail = decode_error_message(&e);
                let err = Error::with_detail("failed to decode device properties: ", detail.as_str());
                assert(error_text(err).take(36) =~= "failed to decode device properties: "@);
                Err(err)
            },
        }
    }

    /// Sets the locale.
    pub fn set_locale(&mut self, locale: &str)
        ensures
            final(self)@ == (Session { locale: locale@, ..old(self)@ }),
    {
        proof {
            use_type_invariant(&*self);
        }
        self.locale = locale.to_owned();
    }

    /// Sets the time zone.
    pub fn set_timezone(&mut self, timezone: &str)
        ensures
            final(self)@ == (Session { timezone: timezone@, ..old(self)@ }),
    {
        proof {
            use_type_invariant(&*self);
        }
        self.timezone = timezone.to_owned();
    }

    /// Overrides the ABIs that the device advertises. Takes effect on the
    /// requests made afterwards, so it belongs before `login`.
    pub fn set_supported_abis(&mut self, supported_abis: Vec<String>)
        ensures
            final(self)@ == (Session { native_platform: strings_view(supported_abis@), ..old(self)@ }),
    {
        proof {
            use_type_invariant(&*self);
        }
        self.device_properties.native_platform = supported_abis;
    }

    /// Sets the AAS token, which most other actions need.
    pub fn set_aas_token(&mut self, aas_token: &str)
        ensures
            final(self)@ == (Session { aas_token: Some(aas_token@), ..old(self)@ }),
    {
        proof {
            use_type_invariant(&*self);
        }
        self.aas_token = Some(aas_token.to_owned());
    }

    /// The AAS token set by `set_aas_token` or obtained by a token exchange.
    pub fn get_aas_token(&self) -> (r: Option<&str>)
        ensures
            match r {
                Some(t) => self@.aas_token == Some(t@),
                None => self@.aas_token is None,
            },
    {
        match &self.aas_token {
            Some(t) => Some(t.as_str()),
            None => None,
        }
    }

    /// The device profile the session poses as.
    pub fn device_properties(&self) -> (r: &DeviceProperties)
        ensures
            r.build == self@.build,
            strings_view(r.native_platform@) == self@.native_platform,
            r.extra_info@ == self@.extra_info,
    {
        &self.device_properties
    }

    /// The locale.
    pub fn locale(&self) -> (r: &str)
        ensures
            r@ == self@.locale,
    {
        self.locale.as_str()
    }

    /// The time zone.
    pub fn timezone(&self) -> (r: &str)
        ensures
            r@ == self@.timezone,
    {
        self.timezone.as_str()
    }

    /// Whether the session holds an auth token, which store requests need.
    pub fn is_logged_in(&self) -> (r: bool)
        ensures
            r == (self@.auth_token is Some),
    {
        self.auth_token.is_some()
    }

    /// Adds the headers that every store request carries to `headers`.
    /// The bearer token goes in first; when a device fact that the others
    /// need is missing, it fails with only that added.
    pub fn append_default_headers(&self, headers: &mut StrMap) -> (r: Result<(), Error>)
        ensures
            r is Ok <==> store_headers_ready(self@),
            r matches Err(e) ==> is_kind(e, ErrorKind::InvalidResponse) && final(headers)@
                == with_authorization(self@, old(headers)@),
            r is Ok ==> final(headers)@ == store_headers(self@, old(headers)@),
    {
        if let Some(auth_token) = &self.auth_token {
            headers.insert("Authorization", concat2("Bearer ", auth_token.as_str()));
        }
        let invalid = ErrorKind::InvalidResponse;
        let build = match &self.device_properties.build {
            Some(b) => b,
            None => return Err(Error::new(invalid)),
        };
        let extra = &self.device_properties.extra_info;
        let vending_version_string = match extra.get("Vending.versionString") {
            Some(v) => v,
            None => return Err(Error::new(invalid)),
        };
        let vending_version = match extra.get("Vending.version") {
            Some(v) => v,
            None => return Err(Error::new(invalid)),
        };
        let sdk_version = match build.sdk_version {
            Some(v) => i64_to_string(v as i64),
            None => return Err(Error::new(invalid)),
        };
        let device = match &build.device {
            Some(v) => v,
            None => return Err(Error::new(invalid)),
        };
        let product = match &build.product {
            Some(v) => v,
            None => return Err(Error::new(invalid)),
        };
        let build_product = match &build.build_product {
            Some(v) => v,
            None => return Err(Error::new(invalid)),
        };
        let release = match extra.get("Build.VERSION.RELEASE") {
            Some(v) => v,
            None => return Err(Error::new(invalid)),
        };
        let model = match &build.model {
            Some(v) => v,
            None => return Err(Error::new(invalid)),
        };
        let build_id = match extra.get("Build.ID") {
            Some(v) => v,
            None => return Err(Error::new(invalid)),
        };
        let abis = join(&self.device_properties.native_platform, ";");
        let build_configuration = BuildConfiguration::new(
            vending_version_string.as_str(),
            vending_version.as_str(),
            sdk_version.as_str(),
            device.as_str(),
            product.as_str(),
            build_product.as_str(),
            release.as_str(),
            model.as_str(),
            build_id.as_str(),
            abis.as_str(),
        );
        headers.insert("user-agent", build_configuration.user_agent());
        if let Some(gsf_id) = self.gsf_id {
            headers.insert("X-DFE-Device-Id", i64_to_hex(gsf_id));
        }
        headers.insert("accept-language", replace_char(self.locale.as_str(), '_', "-"));
        headers.insert("X-DFE-Encoded-Targets", DEFAULT_DFE_TARGETS.to_owned());
        headers.insert("X-DFE-Phenotype", DEFAULT_DFE_PHENOTYPE.to_owned());
        headers.insert("X-DFE-Client-Id", "am-android-google".to_owned());
        headers.insert("X-DFE-Network-Type", "4".to_owned());
        headers.insert("X-DFE-Content-Filters", String::new());
        headers.insert("X-Limit-Ad-Tracking-Enabled", "false".to_owned());
        headers.insert("X-Ad-Id", String::new());
        headers.insert("X-DFE-UserLanguages", self.locale.clone());
        headers.insert("X-DFE-Request-Params", "timeoutMs=4000".to_owned());
        if let Some(token) = &self.device_checkin_consistency_token {
            headers.insert("X-DFE-Device-Checkin-Consistency-Token", token.clone());
        }
        if let Some(token) = &self.device_config_token {
            headers.insert("X-DFE-Device-Config-Token", token.clone());
        }
        if let Some(cookie) = &self.dfe_cookie {
            headers.insert("X-DFE-Cookie", cookie.clone());
        }
        if let Some(mcc_mcn) = extra.get("SimOperator") {
            headers.insert("X-DFE-MCCMCN", mcc_mcn.clone());
        }
        Ok(())
    }

    /// The headers that every store request carries.
    pub fn get_default_headers(&self) -> (r: Result<StrMap, Error>)
        ensures
            r is Ok <==> store_headers_ready(self@),
            r matches Err(e) ==> is_kind(e, ErrorKind::InvalidResponse),
            r matches Ok(h) ==> h@ == store_headers(self@, Map::empty()),
    {
        let mut headers = StrMap::new();
        self.append_default_headers(&mut headers)?;
        Ok(headers)
    }

    /// Adds the headers of a check-in or token request to `headers`.
    pub fn append_auth_headers(&self, headers: &mut StrMap, build_device: &str, build_id: &str)
        ensures
            final(headers)@ == auth_headers(self@, old(headers)@, build_device@, build_id@),
    {
        headers.insert("app", DEFAULT_ANDROID_VENDING.to_owned());
        let mut agent = DEFAULT_AUTH_USER_AGENT.to_owned();
        push_str(&mut agent, " (");
        push_str(&mut agent, build_device);
        push_str(&mut agent, " ");
        push_str(&mut agent, build_id);
        push_str(&mut agent, ")");
        proof {
            reveal_strlit("GoogleAuth/1.4");
            reveal_strlit("GoogleAuth/1.4 (");
            reveal_strlit(" (");
            assert(DEFAULT_AUTH_USER_AGENT@ + " ("@ == "GoogleAuth/1.4 ("@);
        }
        headers.insert("User-Agent", agent);
        if let Some(gsf_id) = self.gsf_id {
            headers.insert("device", i64_to_hex(gsf_id));
        }
    }

    /// Adds the device parameters of a token request to `params`, in order.
    /// When a build fact that one of them needs is missing, it fails with the
    /// parameters added before that one.
    pub fn append_default_auth_params(&self, params: &mut StrMap) -> (r: Result<(), Error>)
        ensures
            r is Ok <==> auth_params_ready(self@),
            r matches Err(e) ==> is_kind(e, ErrorKind::InvalidResponse) && final(params)@ == if self@.build
                is Some && self@.build->0.sdk_version is Some {
                with_android_id(self@, old(params)@).insert(
                    "sdk_version"@,
                    dec_int(self@.build->0.sdk_version->0 as int),
                ).insert("Email"@, self@.email)
            } else {
                with_android_id(self@, old(params)@)
            },
            r is Ok ==> final(params)@ == default_auth_params(self@, old(params)@),
    {
        if let Some(gsf_id) = self.gsf_id {
            params.insert("androidId", i64_to_hex(gsf_id));
        }
        let build = match &self.device_properties.build {
            Some(b) => b,
            None => return Err(Error::new(ErrorKind::InvalidResponse)),
        };
        let sdk_version = match build.sdk_version {
            Some(v) => i64_to_string(v as i64),
            None => return Err(Error::new(ErrorKind::InvalidResponse)),
        };
        params.insert("sdk_version", sdk_version);
        params.insert("Email", self.email.clone());
        let google_services = match build.google_services {
            Some(v) => i64_to_string(v as i64),
            None => return Err(Error::new(ErrorKind::InvalidResponse)),
        };
        params.insert("google_play_services_version", google_services);
        params.insert("device_country", to_ascii_lowercase(DEFAULT_COUNTRY_CODE));
        params.insert("lang", to_ascii_lowercase(DEFAULT_LANGUAGE));
        params.insert("callerSig", DEFAULT_CALLER_SIG.to_owned());
        Ok(())
    }

    /// Adds the account parameters of a token request to `params`. When no
    /// AAS token is set, it fails with the three parameters before the token
    /// added.
    pub fn append_auth_params(&self, params: &mut StrMap) -> (r: Result<(), Error>)
        ensures
            r is Ok <==> self@.aas_token is Some,
            r matches Err(e) ==> is_kind(e, ErrorKind::Authentication) && final(params)@
                == old(params)@.insert("app"@, "com.android.vending"@).insert("client_sig"@, DEFAULT_CLIENT_SIG@).insert(
                "callerPkg"@,
                DEFAULT_ANDROID_VENDING@,
            ),
            r is Ok ==> final(params)@ == auth_params(self@, old(params)@),
    {
        params.insert("app", "com.android.vending".to_owned());
        params.insert("client_sig", DEFAULT_CLIENT_SIG.to_owned());
        params.insert("callerPkg", DEFAULT_ANDROID_VENDING.to_owned());
        let token = match &self.aas_token {
            Some(t) => t.clone(),
            None => return Err(Error::new(ErrorKind::Authentication)),
        };
        params.insert("Token", token);
        params.insert("oauth2_foreground", "1".to_owned());
        params.insert("token_request_options", "CAA4AVAB".to_owned());
        params.insert("check_email", "1".to_owned());
        params.insert("system_partition", "1".to_owned());
        Ok(())
    }

    /// The build device and build id that token and check-in requests name.
    fn build_device_and_id(&self) -> (r: Result<(String, String), Error>)
        ensures
            r is Ok <==> (self@.build is Some && self@.build->0.device is Some
                && self@.extra_info.contains_key("Build.ID"@)),
            r matches Err(e) ==> is_kind(e, ErrorKind::InvalidResponse),
            r matches Ok((d, i)) ==> d@ == self@.build->0.device->0@ && i@
                == self@.extra_info["Build.ID"@],
    {
        let device = match &self.device_properties.build {
            Some(b) => match &b.device {
                Some(d) => d.clone(),
                None => return Err(Error::new(ErrorKind::InvalidResponse)),
            },
            None => return Err(Error::new(ErrorKind::InvalidResponse)),
        };
        let build_id = match self.device_properties.extra_info.get("Build.ID") {
            Some(i) => i.clone(),
            None => return Err(Error::new(ErrorKind::InvalidResponse)),
        };
        Ok((device, build_id))
    }

    /// The request that trades the AAS token for an auth token.
    pub fn auth_token_request(&self) -> (r: Result<Request, Error>)
        ensures
            r is Err <==> auth_token_request_error(self@) is Some,
            r matches Err(e) ==> Some(e.kind_spec()) == auth_token_request_error(self@),
            r matches Ok(req) ==> {
                &&& req.endpoint@ == "auth"@
                &&& !req.fdfe
                &&& req.query matches Some(q) && q@ == auth_params(
                    self@,
                    default_auth_params(self@, Map::empty()),
                ).insert("service"@, "oauth2:https://www.googleapis.com/auth/googleplay"@)
                &&& req.body matches Some(b) && b@.len() == 0
                &&& req.headers@ == auth_headers(
                    self@,
                    Map::empty(),
                    self@.build->0.device->0@,
                    self@.extra_info["Build.ID"@],
                ).insert("content-length"@, "0"@)
            },
    {
        let mut params = StrMap::new();
        self.append_default_auth_params(&mut params)?;
        self.append_auth_params(&mut params)?;
        params.insert("service", "oauth2:https://www.googleapis.com/auth/googleplay".to_owned());
        let (build_device, build_id) = self.build_device_and_id()?;
        let mut headers = StrMap::new();
        self.append_auth_headers(&mut headers, build_device.as_str(), build_id.as_str());
        headers.insert("content-length", "0".to_owned());
        Ok(Request {
            endpoint: "auth".to_owned(),
            fdfe: false,
            query: Some(params),
            headers,
            body: Some(Vec::new()),
        })
    }

    /// Takes the auth token from the reply to `auth_token_request`. Fails,
    /// with Google's `error` entry in the message, when the reply has no `auth`
    /// entry; the session is then unchanged.
    pub fn receive_auth_token(&mut self, reply: &StrMap) -> (r: Result<(), Error>)
        ensures
            r is Ok <==> reply@.contains_key("auth"@),
            r is Ok ==> final(self)@ == (Session {
                auth_token: Some(reply@["auth"@]),
                ..old(self)@
            }),
            r matches Err(e) ==> final(self)@ == old(self)@ && e.kind_spec() is Str && error_text(e)
                == "authentication failed: "@ + (if reply@.contains_key("error"@) {
                reply@["error"@]
            } else {
                Seq::empty()
            }),
    {
        match reply.get("auth") {
            Some(token) => {
                proof {
                    use_type_invariant(&*self);
                }
                self.auth_token = Some(token.clone());
                Ok(())
            },
            None => {
                let google_error = match reply.get("error") {
                    Some(e) => e.clone(),
                    None => String::new(),
                };
                Err(Error::with_detail("authentication failed: ", google_error.as_str()))
            },
        }
    }

    /// The request that trades a one-time OAuth token for an AAS token.
    pub fn aas_token_request(&self, oauth_token: &str) -> (r: Request)
        ensures
            r.endpoint@ == "auth"@,
            !r.fdfe,
            r.query is None,
            r.body matches Some(b) && exists|params: crate::strmap::Pairs|
                crate::strmap::keys_unique(params) && crate::strmap::pairs_to_map(params) == default_auth_request_map().insert(
                    "Email"@,
                    self@.email,
                ).insert("Token"@, oauth_token@) && b@ == vstd::utf8::encode_utf8(
                    form_body(params),
                ),
            r.headers@ == Map::<Seq<char>, Seq<char>>::empty().insert(
                "user-agent"@,
                DEFAULT_AUTH_USER_AGENT@,
            ).insert("content-type"@, "application/x-www-form-urlencoded"@).insert(
                "app"@,
                "com.google.android.gms"@,
            ),
    {
        let auth_req = AuthRequest::new(self.email.as_str(), oauth_token);
        let form = form_post(&auth_req.params);
        let body = string_bytes(&form);
        let mut headers = StrMap::new();
        headers.insert("user-agent", DEFAULT_AUTH_USER_AGENT.to_owned());
        headers.insert("content-type", "application/x-www-form-urlencoded".to_owned());
        headers.insert("app", "com.google.android.gms".to_owned());
        Request { endpoint: "auth".to_owned(), fdfe: false, query: None, headers, body: Some(body) }
    }

    /// Takes the AAS token from the reply to `aas_token_request`. Fails with
    /// `Authentication`, leaving the session unchanged, when the reply has no
    /// `token` entry.
    pub fn receive_aas_token(&mut self, reply: &StrMap) -> (r: Result<(), Error>)
        ensures
            r is Ok <==> reply@.contains_key("token"@),
            r is Ok ==> final(self)@ == (Session {
                aas_token: Some(reply@["token"@]),
                ..old(self)@
            }),
            r matches Err(e) ==> final(self)@ == old(self)@ && is_kind(e, ErrorKind::Authentication),
    {
        match reply.get("token") {
            Some(token) => {
                proof {
                    use_type_invariant(&*self);
                }
                self.aas_token = Some(token.clone());
                Ok(())
            },
            None => Err(Error::new(ErrorKind::Authentication)),
        }
    }
}


/// The encoding of a bulk-details request for `doc_ids`, asking for child
/// documents or not.
pub uninterp spec fn bulk_details_request_bytes(doc_ids: Seq<Seq<char>>, include_child_docs: bool) -> Seq<u8>;

/// `Message::encode_to_vec` (prost) on a `BulkDetailsRequest` of `doc_ids`
/// and `include_child_docs`. The bytes are named as a function of the two.
#[verifier::external_body]
fn encode_bulk_details_request(doc_ids: &Vec<String>, include_child_docs: bool) -> (r: Vec<u8>)
    ensures
        r@ == bulk_details_request_bytes(strings_view(doc_ids@), include_child_docs),
{
    googleplay_protobuf::BulkDetailsRequest {
        doc_id: doc_ids.clone(),
        include_child_docs: Some(include_child_docs),
        ..Default::default()
    }.encode_to_vec()
}

/// The encoding of a check-in request with `id`, `version` and `fragment`,
/// the check-in message encoded as `checkin`, `locale`, `timezone`, and the
/// device configuration encoded as `config` advertising `native_platform` as
/// its ABIs.
pub uninterp spec fn checkin_request_bytes(
    checkin: Seq<u8>,
    config: Seq<u8>,
    native_platform: Seq<Seq<char>>,
    locale: Seq<char>,
    timezone: Seq<char>,
    id: i64,
    version: i32,
    fragment: i32,
) -> Seq<u8>;

/// `Message::encode_to_vec` (prost) on an `AndroidCheckinRequest` made of
/// the given fields, the two device messages decoded from their bytes (which
/// decode, as required) and the configuration's `native_platform` field set
/// to the given ABIs. The bytes are named as a function of the arguments.
#[verifier::external_body]
fn encode_checkin_request(
    checkin: &[u8],
    config: &[u8],
    native_platform: &Vec<String>,
    locale: &str,
    timezone: &str,
    id: i64,
    version: i32,
    fragment: i32,
) -> (r: Vec<u8>)
    requires
        crate::device::decoded_checkin_build(checkin@) is Some,
        crate::device::decoded_native_platform(config@) is Some,
    ensures
        r@ == checkin_request_bytes(
            checkin@,
            config@,
            strings_view(native_platform@),
            locale@,
            timezone@,
            id,
            version,
            fragment,
        ),
{
    let config = googleplay_protobuf::DeviceConfigurationProto::decode(config).unwrap_or_default();
    googleplay_protobuf::AndroidCheckinRequest {
        id: Some(id),
        checkin: Some(googleplay_protobuf::AndroidCheckinProto::decode(checkin).unwrap_or_default()),
        locale: Some(locale.to_owned()),
        time_zone: Some(timezone.to_owned()),
        version: Some(version),
        device_configuration: Some(googleplay_protobuf::DeviceConfigurationProto { native_platform: native_platform.clone(), ..config }),
        fragment: Some(fragment),
        ..Default::default()
    }.encode_to_vec()
}

/// The encoding of a device-config upload request: the device configuration
/// encoded as `config`, advertising `native_platform` as its ABIs.
pub uninterp spec fn upload_device_config_request_bytes(config: Seq<u8>, native_platform: Seq<Seq<char>>) -> Seq<u8>;

/// `Message::encode_to_vec` (prost) on an `UploadDeviceConfigRequest` whose
/// configuration is decoded from `config` (which decodes, as required) with
/// its `native_platform` field set to the given ABIs. The bytes are named as
/// a function of the arguments.
#[verifier::external_body]
fn encode_upload_device_config_request(config: &[u8], native_platform: &Vec<String>) -> (r: Vec<u8>)
    requires
        crate::device::decoded_native_platform(config@) is Some,
    ensures
        r@ == upload_device_config_request_bytes(config@, strings_view(native_platform@)),
{
    let config = googleplay_protobuf::DeviceConfigurationProto::decode(config).unwrap_or_default();
    googleplay_protobuf::UploadDeviceConfigRequest {
        device_configuration: Some(googleplay_protobuf::DeviceConfigurationProto { native_platform: native_platform.clone(), ..config }),
        ..Default::default()
    }.encode_to_vec()
}

/// `v` as a signed number, as `u64::cast_signed` reads its bits.
pub open spec fn cast_signed_spec(v: u64) -> i64 {
    if v < 0x8000_0000_0000_0000 {
        v as i64
    } else {
        (v - 0x1_0000_0000_0000_0000) as i64
    }
}

/// `v` as a signed number, its bits unchanged.
pub fn cast_signed(v: u64) -> (r: i64)
    ensures
        r == cast_signed_spec(v),
{
    if v < 0x8000_0000_0000_0000 {
        v as i64
    } else {
        let low = (v - 0x8000_0000_0000_0000) as i64;
        low - 0x7fff_ffff_ffff_ffff - 1
    }
}

impl Gpapi {
    /// A store request to `endpoint` with the default headers.
    fn store_request(&self, endpoint: &str, query: Option<StrMap>, body: Option<Vec<u8>>) -> (r: Result<Request, Error>)
        ensures
            r is Ok <==> store_headers_ready(self@),
            r matches Err(e) ==> is_kind(e, ErrorKind::InvalidResponse),
            r matches Ok(req) ==> req.endpoint@ == endpoint@ && req.fdfe && req.headers@
                == store_headers(self@, Map::empty()) && req.body == body && match (req.query, query) {
                (Some(a), Some(b)) => a@ == b@ && a.pairs() == b.pairs(),
                (None, None) => true,
                _ => false,
            },
    {
        let headers = self.get_default_headers()?;
        Ok(Request { endpoint: endpoint.to_owned(), fdfe: true, query, headers, body })
    }

    /// The check-in request: the device's check-in message with the
    /// session's locale and time zone, encoded. Fails with `InvalidResponse`
    /// when the device has no build device or build id.
    pub fn checkin_request(&self) -> (r: Result<Request, Error>)
        ensures
            r is Ok <==> (self@.build is Some && self@.build->0.device is Some
                && self@.extra_info.contains_key("Build.ID"@)),
            r matches Err(e) ==> is_kind(e, ErrorKind::InvalidResponse),
            r matches Ok(req) ==> {
                &&& req.endpoint@ == "checkin"@
                &&& !req.fdfe
                &&& req.query is None
                &&& req.body matches Some(b) && b@ == checkin_request_bytes(
                    self@.android_checkin,
                    self@.device_configuration,
                    self@.native_platform,
                    self@.locale,
                    self@.timezone,
                    0,
                    3,
                    0,
                )
                &&& req.headers@ == auth_headers(
                    self@,
                    Map::empty(),
                    self@.build->0.device->0@,
                    self@.extra_info["Build.ID"@],
                ).insert("content-type"@, "application/x-protobuf"@).insert(
                    "host"@,
                    "android.clients.google.com"@,
                )
            },
    {
        let (build_device, build_id) = self.build_device_and_id()?;
        proof {
            use_type_invariant(self);
        }
        let body = encode_checkin_request(
            self.device_properties.android_checkin.as_slice(),
            self.device_properties.device_configuration.as_slice(),
            &self.device_properties.native_platform,
            self.locale.as_str(),
            self.timezone.as_str(),
            0,
            3,
            0,
        );
        let mut headers = StrMap::new();
        self.append_auth_headers(&mut headers, build_device.as_str(), build_id.as_str());
        headers.insert("content-type", "application/x-protobuf".to_owned());
        headers.insert("host", "android.clients.google.com".to_owned());
        Ok(Request { endpoint: "checkin".to_owned(), fdfe: false, query: None, headers, body: Some(body) })
    }

    /// Takes what a check-in reply assigns: the consistency token and the
    /// Android id, read as a signed number.
    pub fn apply_checkin(&mut self, consistency_token: Option<String>, android_id: Option<u64>)
        ensures
            final(self)@ == (Session {
                device_checkin_consistency_token: opt_view(consistency_token),
                gsf_id: match android_id {
                    Some(v) => Some(cast_signed_spec(v)),
                    None => None,
                },
                ..old(self)@
            }),
    {
        proof {
            use_type_invariant(&*self);
        }
        self.device_checkin_consistency_token = consistency_token;
        self.gsf_id = match android_id {
            Some(v) => Some(cast_signed(v)),
            None => None,
        };
    }

    /// The request that uploads the device configuration, encoded.
    pub fn upload_device_config_request(&self) -> (r: Result<Request, Error>)
        ensures
            r is Ok <==> store_headers_ready(self@),
            r matches Err(e) ==> is_kind(e, ErrorKind::InvalidResponse),
            r matches Ok(req) ==> req.endpoint@ == "uploadDeviceConfig"@ && req.fdfe && req.query is None
                && (req.body matches Some(b) && b@ == upload_device_config_request_bytes(
                self@.device_configuration,
                self@.native_platform,
            )) && req.headers@ == store_headers(self@, Map::empty()).insert(
                "content-type"@,
                "application/x-protobuf"@,
            ),
    {
        proof {
            use_type_invariant(self);
        }
        let body = encode_upload_device_config_request(
            self.device_properties.device_configuration.as_slice(),
            &self.device_properties.native_platform,
        );
        let mut req = self.store_request("uploadDeviceConfig", None, Some(body))?;
        req.headers.insert("content-type", "application/x-protobuf".to_owned());
        Ok(req)
    }

    /// Records the device-config token that the upload returned.
    pub fn set_device_config_token(&mut self, token: String)
        ensures
            final(self)@ == (Session { device_config_token: Some(token@), ..old(self)@ }),
    {
        proof {
            use_type_invariant(&*self);
        }
        self.device_config_token = Some(token);
    }

    /// Records the terms-of-service token of a `toc` reply.
    pub fn set_tos_token(&mut self, token: Option<String>)
        ensures
            final(self)@ == (Session { tos_token: opt_view(token), ..old(self)@ }),
    {
        proof {
            use_type_invariant(&*self);
        }
        self.tos_token = token;
    }

    /// Records the store cookie of a `toc` reply.
    pub fn set_dfe_cookie(&mut self, cookie: String)
        ensures
            final(self)@ == (Session { dfe_cookie: Some(cookie@), ..old(self)@ }),
    {
        proof {
            use_type_invariant(&*self);
        }
        self.dfe_cookie = Some(cookie);
    }

    /// The request that fetches the terms-of-service state.
    pub fn toc_request(&self) -> (r: Result<Request, Error>)
        ensures
            r is Ok <==> store_headers_ready(self@),
            r matches Err(e) ==> is_kind(e, ErrorKind::InvalidResponse),
            r matches Ok(req) ==> req.endpoint@ == "toc"@ && req.fdfe && req.query is None
                && req.body is None && req.headers@ == store_headers(self@, Map::empty()),
    {
        self.store_request("toc", None, None)
    }

    /// The request that accepts the terms of service named by the stored ToS
    /// token. Fails when no token was stored by a `toc` reply.
    pub fn accept_tos_request(&self) -> (r: Result<Request, Error>)
        ensures
            self@.tos_token is None ==> (r matches Err(e) && e.kind_spec() is Str && error_text(e)
                == "ToS token must be set by `toc` call first."@),
            self@.tos_token is Some ==> (r is Ok <==> store_headers_ready(self@)),
            self@.tos_token is Some && r is Err ==> (r matches Err(e) && is_kind(e, ErrorKind::InvalidResponse)),
            r matches Ok(req) ==> {
                &&& req.endpoint@ == "acceptTos"@
                &&& req.fdfe
                &&& req.query is None
                &&& req.headers@ == store_headers(self@, Map::empty()).insert(
                    "content-type"@,
                    "application/x-www-form-urlencoded"@,
                )
                &&& req.body matches Some(b) && b@ == vstd::utf8::encode_utf8(
                    "tost="@ + self@.tos_token->0 + "&toscme=false"@,
                )
            },
    {
        let tos_token = match &self.tos_token {
            Some(t) => t,
            None => return Err(Error::from_message("ToS token must be set by `toc` call first.")),
        };
        let mut params = StrMap::new();
        params.insert("tost", tos_token.clone());
        params.insert("toscme", "false".to_owned());
        let form = form_post(&params);
        proof {
            reveal_strlit("tost");
            reveal_strlit("toscme");
            reveal_strlit("false");
            reveal_strlit("&toscme=false");
            assert(!crate::strmap::has_key(seq![("tost"@, tos_token@)], "toscme"@)) by {
                assert("tost"@ != "toscme"@) by {
                    assert("tost"@.len() != "toscme"@.len());
                }
            }
            let p = seq![("tost"@, tos_token@), ("toscme"@, "false"@)];
            assert(params.pairs() == p);
            let fields = p.map_values(|q: (Seq<char>, Seq<char>)| crate::form::form_field(q));
            assert(fields.drop_last() =~= seq![fields[0]]);
            assert(seq_join(seq![fields[0]], seq!['&']) == fields[0]);
            assert(seq_join(fields, seq!['&']) == fields[0] + seq!['&'] + fields[1]);
            reveal_strlit("tost=");
            assert(fields[0] == "tost"@ + seq!['='] + tos_token@);
            assert(fields[1] == "toscme"@ + seq!['='] + "false"@);
            assert("tost"@ + seq!['='] =~= "tost="@);
            assert(seq!['&'] + ("toscme"@ + seq!['='] + "false"@) =~= "&toscme=false"@);
            assert(form@ =~= "tost="@ + tos_token@ + "&toscme=false"@);
        }
        let body = string_bytes(&form);
        let mut req = self.store_request("acceptTos", None, Some(body))?;
        req.headers.insert("content-type", "application/x-www-form-urlencoded".to_owned());
        Ok(req)
    }

    /// The details request for the app `pkg_name`. Needs a logged-in session.
    pub fn details_request(&self, pkg_name: &str) -> (r: Result<Request, Error>)
        ensures
            self@.auth_token is None ==> (r matches Err(e) && is_kind(e, ErrorKind::LoginRequired)),
            self@.auth_token is Some ==> (r is Ok <==> store_headers_ready(self@)),
            self@.auth_token is Some && r is Err ==> (r matches Err(e) && is_kind(e, ErrorKind::InvalidResponse)),
            r matches Ok(req) ==> {
                &&& req.endpoint@ == "details"@
                &&& req.fdfe
                &&& req.body is None
                &&& req.headers@ == store_headers(self@, Map::empty())
                &&& req.query matches Some(q) && q@ == Map::<Seq<char>, Seq<char>>::empty().insert(
                    "doc"@,
                    pkg_name@,
                )
            },
    {
        if self.auth_token.is_none() {
            return Err(Error::new(ErrorKind::LoginRequired));
        }
        let mut query = StrMap::new();
        query.insert("doc", pkg_name.to_owned());
        self.store_request("details", Some(query), None)
    }

    /// The bulk-details request for the apps `pkg_names`. Needs a logged-in session.
    pub fn bulk_details_request(&self, pkg_names: &Vec<String>) -> (r: Result<Request, Error>)
        ensures
            self@.auth_token is None ==> (r matches Err(e) && is_kind(e, ErrorKind::LoginRequired)),
            self@.auth_token is Some ==> (r is Ok <==> store_headers_ready(self@)),
            self@.auth_token is Some && r is Err ==> (r matches Err(e) && is_kind(e, ErrorKind::InvalidResponse)),
            r matches Ok(req) ==> {
                &&& req.endpoint@ == "bulkDetails"@
                &&& req.fdfe
                &&& req.query is None
                &&& req.headers@ == store_headers(self@, Map::empty())
                &&& req.body matches Some(b) && b@ == bulk_details_request_bytes(strings_view(pkg_names@), false)
            },
    {
        if self.auth_token.is_none() {
            return Err(Error::new(ErrorKind::LoginRequired));
        }
        let bytes = encode_bulk_details_request(pkg_names, false);
        self.store_request("bulkDetails", None, Some(bytes))
    }

    /// The purchase request for version `version_code` of `pkg_name`.
    pub fn purchase_request(&self, pkg_name: &str, version_code: i64) -> (r: Result<Request, Error>)
        ensures
            r is Ok <==> store_headers_ready(self@),
            r matches Err(e) ==> is_kind(e, ErrorKind::InvalidResponse),
            r matches Ok(req) ==> {
                &&& req.endpoint@ == "purchase"@
                &&& req.fdfe
                &&& req.body matches Some(b) && b@.len() == 0
                &&& req.headers@ == store_headers(self@, Map::empty()).insert("content-length"@, "0"@)
                &&& req.query matches Some(q) && q@ == Map::<Seq<char>, Seq<char>>::empty().insert(
                    "ot"@,
                    "1"@,
                ).insert("doc"@, pkg_name@).insert("vc"@, dec_int(version_code as int))
            },
    {
        let mut query = StrMap::new();
        query.insert("ot", "1".to_owned());
        query.insert("doc", pkg_name.to_owned());
        query.insert("vc", i64_to_string(version_code));
        let mut req = self.store_request("purchase", Some(query), Some(Vec::new()))?;
        req.headers.insert("content-length", "0".to_owned());
        Ok(req)
    }

    /// The delivery request for version `version_code` of `pkg_name`, with
    /// the delivery token that the purchase returned. Needs a logged-in session.
    pub fn delivery_request(&self, pkg_name: &str, version_code: i64, delivery_token: &str) -> (r: Result<Request, Error>)
        ensures
            self@.auth_token is None ==> (r matches Err(e) && is_kind(e, ErrorKind::LoginRequired)),
            self@.auth_token is Some ==> (r is Ok <==> store_headers_ready(self@)),
            self@.auth_token is Some && r is Err ==> (r matches Err(e) && is_kind(e, ErrorKind::InvalidResponse)),
            r matches Ok(req) ==> {
                &&& req.endpoint@ == "delivery"@
                &&& req.fdfe
                &&& req.body is None
                &&& req.headers@ == store_headers(self@, Map::empty())
                &&& req.query matches Some(q) && q@ == Map::<Seq<char>, Seq<char>>::empty().insert(
                    "ot"@,
                    "1"@,
                ).insert("doc"@, pkg_name@).insert("vc"@, dec_int(version_code as int)).insert(
                    "dtok"@,
                    delivery_token@,
                )
            },
    {
        if self.auth_token.is_none() {
            return Err(Error::new(ErrorKind::LoginRequired));
        }
        let mut query = StrMap::new();
        query.insert("ot", "1".to_owned());
        query.insert("doc", pkg_name.to_owned());
        query.insert("vc", i64_to_string(version_code));
        query.insert("dtok", delivery_token.to_owned());
        self.store_request("delivery", Some(query), None)
    }
}

/// Overriding the advertised ABIs with `abis`, as `set_supported_abis` does,
/// keeps every other fact of the session, and what is sent afterwards carries
/// exactly `abis`: the check-in and device-config bodies encode them as the
/// configuration's ABIs, and the store user agent ends with `supportedAbis=`
/// and them joined by `;`.
pub proof fn lemma_abi_override(s: Session, abis: Seq<Seq<char>>)
    ensures
        ({
            let t = Session { native_platform: abis, ..s };
            &&& t.locale == s.locale && t.timezone == s.timezone && t.email == s.email
            &&& t.aas_token == s.aas_token && t.auth_token == s.auth_token && t.dfe_cookie == s.dfe_cookie
            &&& t.build == s.build && t.extra_info == s.extra_info
            &&& checkin_request_bytes(t.android_checkin, t.device_configuration, t.native_platform, t.locale, t.timezone, 0, 3, 0)
                == checkin_request_bytes(s.android_checkin, s.device_configuration, abis, s.locale, s.timezone, 0, 3, 0)
            &&& upload_device_config_request_bytes(t.device_configuration, t.native_platform)
                == upload_device_config_request_bytes(s.device_configuration, abis)
            &&& exists|head: Seq<char>| store_user_agent(t) == head + ",supportedAbis="@ + seq_join(abis, ";"@) + ")"@
        }),
{
    let t = Session { native_platform: abis, ..s };
    let b = t.build->0;
    let head = crate::build_config::user_agent_head(
        crate::consts::DEFAULT_FINSKY_AGENT@,
        t.extra_info["Vending.versionString"@],
        crate::consts::DEFAULT_API@,
        t.extra_info["Vending.version"@],
        dec_int(b.sdk_version->0 as int),
        b.device->0@,
        b.product->0@,
        b.build_product->0@,
        t.extra_info["Build.VERSION.RELEASE"@],
        b.model->0@,
        t.extra_info["Build.ID"@],
        crate::consts::DEFAULT_IS_WIDE_SCREEN@,
    );
    assert(store_user_agent(t) == head + ",supportedAbis="@ + seq_join(abis, ";"@) + ")"@);
}

} // verus!

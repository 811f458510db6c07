//! The user agent of the Play Store app that store requests carry.
use vstd::prelude::*;

use crate::consts::{DEFAULT_API, DEFAULT_FINSKY_AGENT, DEFAULT_IS_WIDE_SCREEN};
use crate::text::push_str;

verus! {

/// The facts that the store user agent is made of.
#[derive(Debug, Clone)]
pub struct BuildConfiguration {
    pub finsky_agent: String,
    pub finsky_version: String,
    pub api: String,
    pub version_code: String,
    pub sdk: String,
    pub device: String,
    pub hardware: String,
    pub product: String,
    pub platform_version_release: String,
    pub model: String,
    pub build_id: String,
    pub is_wide_screen: String,
    pub supported_abis: String,
}

/// The store user agent made of its parts:
/// `agent/version (api=..,versionCode=..,sdk=..,device=..,hardware=..,product=..,platformVersionRelease=..,model=..,buildId=..,isWideScreen=..,supportedAbis=..)`.
pub open spec fn user_agent_text(
    finsky_agent: Seq<char>,
    finsky_version: Seq<char>,
    api: Seq<char>,
    version_code: Seq<char>,
    sdk: Seq<char>,
    device: Seq<char>,
    hardware: Seq<char>,
    product: Seq<char>,
    platform_version_release: Seq<char>,
    model: Seq<char>,
    build_id: Seq<char>,
    is_wide_screen: Seq<char>,
    supported_abis: Seq<char>,
) -> Seq<char> {
    user_agent_head(
        finsky_agent,
        finsky_version,
        api,
        version_code,
        sdk,
        device,
        hardware,
        product,
        platform_version_release,
        model,
        build_id,
        is_wide_screen,
    ) + ",supportedAbis="@ + supported_abis + ")"@
}

/// The user agent up to the ABIs that it names last.
pub open spec fn user_agent_head(
    finsky_agent: Seq<char>,
    finsky_version: Seq<char>,
    api: Seq<char>,
    version_code: Seq<char>,
    sdk: Seq<char>,
    device: Seq<char>,
    hardware: Seq<char>,
    product: Seq<char>,
    platform_version_release: Seq<char>,
    model: Seq<char>,
    build_id: Seq<char>,
    is_wide_screen: Seq<char>,
) -> Seq<char> {
    finsky_agent + "/"@ + finsky_version + " (api="@ + api + ",versionCode="@ + version_code
        + ",sdk="@ + sdk + ",device="@ + device + ",hardware="@ + hardware + ",product="@ + product
        + ",platformVersionRelease="@ + platform_version_release + ",model="@ + model
        + ",buildId="@ + build_id + ",isWideScreen="@ + is_wide_screen
}

impl BuildConfiguration {
    /// The user agent that this configuration describes.
    pub fn user_agent(&self) -> (r: String)
        ensures
            r@ == user_agent_text(
                self.finsky_agent@,
                self.finsky_version@,
                self.api@,
                self.version_code@,
                self.sdk@,
                self.device@,
                self.hardware@,
                self.product@,
                self.platform_version_release@,
                self.model@,
                self.build_id@,
                self.is_wide_screen@,
                self.supported_abis@,
            ),
    {
        let mut r = self.finsky_agent.clone();
        push_str(&mut r, "/");
        push_str(&mut r, self.finsky_version.as_str());
        push_str(&mut r, " (api=");
        push_str(&mut r, self.api.as_str());
        push_str(&mut r, ",versionCode=");
        push_str(&mut r, self.version_code.as_str());
        push_str(&mut r, ",sdk=");
        push_str(&mut r, self.sdk.as_str());
        push_str(&mut r, ",device=");
        push_str(&mut r, self.device.as_str());
        push_str(&mut r, ",hardware=");
        push_str(&mut r, self.hardware.as_str());
        push_str(&mut r, ",product=");
        push_str(&mut r, self.product.as_str());
        push_str(&mut r, ",platformVersionRelease=");
        push_str(&mut r, self.platform_version_release.as_str());
        push_str(&mut r, ",model=");
        push_str(&mut r, self.model.as_str());
        push_str(&mut r, ",buildId=");
        push_str(&mut r, self.build_id.as_str());
        push_str(&mut r, ",isWideScreen=");
        push_str(&mut r, self.is_wide_screen.as_str());
        push_str(&mut r, ",supportedAbis=");
        push_str(&mut r, self.supported_abis.as_str());
        push_str(&mut r, ")");
        r
    }

    /// A configuration with the given facts and the default agent, API level
    /// and screen kind.
    pub fn new(
        finsky_version: &str,
        version_code: &str,
        sdk: &str,
        device: &str,
        hardware: &str,
        product: &str,
        platform_version_release: &str,
        model: &str,
        build_id: &str,
        supported_abis: &str,
    ) -> (r: Self)
        ensures
            r.finsky_agent@ == DEFAULT_FINSKY_AGENT@,
            r.finsky_version@ == finsky_version@,
            r.api@ == DEFAULT_API@,
            r.version_code@ == version_code@,
            r.sdk@ == sdk@,
            r.device@ == device@,
            r.hardware@ == hardware@,
            r.product@ == product@,
            r.platform_version_release@ == platform_version_release@,
            r.model@ == model@,
            r.build_id@ == build_id@,
            r.is_wide_screen@ == DEFAULT_IS_WIDE_SCREEN@,
            r.supported_abis@ == supported_abis@,
    {
        Self {
            finsky_agent: DEFAULT_FINSKY_AGENT.to_owned(),
            finsky_version: finsky_version.to_owned(),
            api: DEFAULT_API.to_owned(),
            version_code: version_code.to_owned(),
            sdk: sdk.to_owned(),
            device: device.to_owned(),
            hardware: hardware.to_owned(),
            product: product.to_owned(),
            platform_version_release: platform_version_release.to_owned(),
            model: model.to_owned(),
            build_id: build_id.to_owned(),
            is_wide_screen: DEFAULT_IS_WIDE_SCREEN.to_owned(),
            supported_abis: supported_abis.to_owned(),
        }
    }
}

} // verus!

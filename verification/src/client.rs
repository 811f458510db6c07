//! A Google Play session bound to one release channel.
use vstd::prelude::*;

use crate::channel::{channel_name, Channel};
use crate::device::EncodedDeviceProperties;
use crate::gpapi::{device_decodes, is_last_named, posed_as, Gpapi, Session};
use crate::text::{concat2, push_str, strings_view};

verus! {

/// A session that serves one channel: logged in with that channel's account.
pub struct GooglePlayClient {
    client: Gpapi,
    channel: Channel,
}

/// The message of a failure of a channel's session: `<what> for <channel> channel: <detail>`.
pub open spec fn channel_error_text(what: Seq<char>, channel: Channel, detail: Seq<char>) -> Seq<char> {
    what + " for "@ + channel_name(channel) + " channel: "@ + detail
}

/// Says which channel's session failed at what: `<what> for <channel> channel: <detail>`,
/// as `Login error for beta channel: ...` or `API error for stable channel: ...`.
pub fn channel_error(what: &str, channel: Channel, detail: &str) -> (r: String)
    ensures
        r@ == channel_error_text(what@, channel, detail@),
{
    let mut r = what.to_owned();
    push_str(&mut r, " for ");
    push_str(&mut r, channel.to_string().as_str());
    push_str(&mut r, " channel: ");
    push_str(&mut r, detail);
    r
}

impl GooglePlayClient {
    /// The channel this client serves.
    pub closed spec fn channel_spec(&self) -> Channel {
        self.channel
    }

    /// The session of this client.
    pub closed spec fn session_spec(&self) -> Session {
        self.client@
    }

    /// A client of `channel` posing as device `device_name` of `devices`, for
    /// the account `email` with its AAS token; advertising `supported_abis`
    /// when some are given, else the device's own. Fails when the session
    /// cannot be made, with `failed to create client: <error>`.
    pub fn new_for_abis(
        device_name: &str,
        supported_abis: &Vec<String>,
        email: &str,
        aas_token: &str,
        channel: Channel,
        devices: Vec<(String, EncodedDeviceProperties)>,
    ) -> (r: Result<Self, String>)
        ensures
            r matches Ok(c) ==> {
                &&& c.channel_spec() == channel
                &&& c.session_spec().locale == "en_US"@
                &&& c.session_spec().timezone == "UTC"@
                &&& c.session_spec().email == email@
                &&& c.session_spec().aas_token == Some(aas_token@)
                &&& c.session_spec().auth_token is None
                &&& c.session_spec().device_config_token is None
                &&& c.session_spec().device_checkin_consistency_token is None
                &&& c.session_spec().tos_token is None
                &&& c.session_spec().dfe_cookie is None
                &&& c.session_spec().gsf_id is None
            },
            (forall|i: int| 0 <= i < devices@.len() ==> devices@[i].0@ != device_name@) ==> (r matches Err(
                m,
            ) && m@ == "failed to create client: "@ + "invalid device codename: "@ + device_name@),
            // the last device of that name decides: the client is made exactly
            // when its profile decodes, poses as it, and advertises the given
            // ABIs, or the device's own when none are given
            forall|i: int|
                #[trigger] is_last_named(devices@, device_name@, i) ==> {
                    &&& (r is Ok <==> device_decodes(devices@[i].1))
                    &&& r matches Ok(c) ==> posed_as(c.session_spec(), devices@[i].1) && if supported_abis@.len()
                        > 0 {
                        c.session_spec().native_platform == strings_view(supported_abis@)
                    } else {
                        Some(c.session_spec().native_platform) == crate::device::decoded_native_platform(
                            devices@[i].1.device_configuration@,
                        )
                    }
                    &&& r matches Err(m) ==> m@.len() >= 61 && m@.take(61)
                        == "failed to create client: "@ + "failed to decode device properties: "@
                },
    {
        let ghost all = devices@;
        let mut client = match Gpapi::new(device_name, email, devices) {
            Ok(c) => c,
            Err(e) => {
                let m = concat2("failed to create client: ", e.message().as_str());
                proof {
                    reveal_strlit("failed to create client: ");
                    reveal_strlit("failed to decode device properties: ");
                    assert forall|i: int| #[trigger] is_last_named(all, device_name@, i) implies m@.len() >= 61
                        && m@.take(61) == "failed to create client: "@ + "failed to decode device properties: "@ by {
                        let t = crate::gpapi::error_text(e);
                        assert(m@ == "failed to create client: "@ + t);
                        assert(t.take(36) =~= "failed to decode device properties: "@);
                        assert(m@.take(61) =~= "failed to create client: "@ + t.take(36));
                    }
                }
                return Err(m);
            },
        };
        if supported_abis.len() != 0 {
            let abis = supported_abis.clone();
            proof {
                assert forall|i: int| 0 <= i < abis@.len() implies abis@[i] == supported_abis@[i] by {
                    assert(cloned::<String>(supported_abis@[i], abis@[i]));
                }
                assert(strings_view(abis@) =~= strings_view(supported_abis@));
            }
            client.set_supported_abis(abis);
        }
        client.set_aas_token(aas_token);
        Ok(Self { client, channel })
    }

    /// The channel this client serves.
    pub fn channel(&self) -> (r: Channel)
        ensures
            r == self.channel_spec(),
    {
        self.channel
    }

    /// The session of this client.
    pub fn session(&self) -> (r: &Gpapi)
        ensures
            r@ == self.session_spec(),
    {
        &self.client
    }

    /// The session of this client, to log in or record replies.
    pub fn session_mut(&mut self) -> (r: &mut Gpapi)
        ensures
            r@ == old(self).session_spec(),
            final(self).session_spec() == final(r)@,
            final(self).channel_spec() == old(self).channel_spec(),
    {
        &mut self.client
    }
}

} // verus!

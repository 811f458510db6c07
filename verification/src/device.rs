//! The profiles of the devices that the client can pose as.
use vstd::prelude::*;

use googleplay_protobuf::{AndroidCheckinProto, DeviceConfigurationProto};
use prost::Message;

use crate::error::Error;
use crate::strmap::StrMap;
use crate::text::strings_view;

verus! {

/// A decoding failure of `prost`.
#[verifier::external_type_specification]
#[verifier::external_body]
pub struct ExDecodeError(prost::DecodeError);

/// The build facts of a device that requests advertise.
#[derive(Debug, Clone, PartialEq, Eq)]
pub struct AndroidBuild {
    pub device: Option<String>,
    pub product: Option<String>,
    pub build_product: Option<String>,
    pub model: Option<String>,
    pub sdk_version: Option<i32>,
    pub google_services: Option<i32>,
}

/// What decoding `bytes` as a device configuration gives: `None` when they
/// are no such message, else the ABIs (native platforms) it lists.
pub uninterp spec fn decoded_native_platform(bytes: Seq<u8>) -> Option<Seq<Seq<char>>>;

/// What decoding `bytes` as a check-in message gives: `None` when they are no
/// such message, else its build facts (`None` when it carries no build).
pub uninterp spec fn decoded_checkin_build(bytes: Seq<u8>) -> Option<Option<AndroidBuild>>;

/// `DeviceConfigurationProto::decode` (prost), keeping the ABIs (native
/// platforms) it lists. Decoding succeeds exactly where the name is `Some`,
/// and the ABIs are its value.
#[verifier::external_body]
fn decode_device_configuration(bytes: &[u8]) -> (r: Result<Vec<String>, prost::DecodeError>)
    ensures
        r is Ok <==> decoded_native_platform(bytes@) is Some,
        r matches Ok(np) ==> Some(strings_view(np@)) == decoded_native_platform(bytes@),
{
    Ok(DeviceConfigurationProto::decode(bytes)?.native_platform)
}

/// `AndroidCheckinProto::decode` (prost), keeping the build facts. Decoding
/// succeeds exactly where the name is `Some`, and the build facts are its value.
#[verifier::external_body]
fn decode_android_checkin(bytes: &[u8]) -> (r: Result<Option<AndroidBuild>, prost::DecodeError>)
    ensures
        r is Ok <==> decoded_checkin_build(bytes@) is Some,
        r matches Ok(b) ==> Some(b) == decoded_checkin_build(bytes@),
{
    let checkin = AndroidCheckinProto::decode(bytes)?;
    Ok(checkin.build.map(|b| AndroidBuild {
        device: b.device,
        product: b.product,
        build_product: b.build_product,
        model: b.model,
        sdk_version: b.sdk_version,
        google_services: b.google_services,
    }))
}

/// The text that a `prost::DecodeError` displays (its `to_string`).
#[verifier::external_body]
pub(crate) fn decode_error_message(e: &prost::DecodeError) -> String {
    e.to_string()
}

/// A device profile as stored: its two messages still encoded.
pub struct EncodedDeviceProperties {
    pub device_configuration: Vec<u8>,
    pub android_checkin: Vec<u8>,
    pub extra_info: StrMap,
}

/// A device profile whose two messages are known to decode, with the facts
/// read from them.
///
/// `native_platform` is the list of ABIs that requests advertise; it starts as
/// the one of `device_configuration` and may be overridden afterwards, and it
/// is the list that requests carry.
pub struct DeviceProperties {
    pub device_configuration: Vec<u8>,
    pub android_checkin: Vec<u8>,
    pub extra_info: StrMap,
    pub build: Option<AndroidBuild>,
    pub native_platform: Vec<String>,
}

impl EncodedDeviceProperties {
    /// A stored profile made of its parts.
    pub fn new(
        device_configuration: Vec<u8>,
        android_checkin: Vec<u8>,
        extra_info: StrMap,
    ) -> (r: Self)
        ensures
            r.device_configuration@ == device_configuration@,
            r.android_checkin@ == android_checkin@,
            r.extra_info@ == extra_info@,
            r.extra_info.pairs() == extra_info.pairs(),
    {
        Self { device_configuration, android_checkin, extra_info }
    }

    /// Decodes both messages. Succeeds exactly when both decode; the device
    /// configuration is decoded first, and its error is the one returned when
    /// both fail.
    pub fn into_decoded(self) -> (r: Result<DeviceProperties, prost::DecodeError>)
        ensures
            r is Ok <==> (decoded_native_platform(self.device_configuration@) is Some
                && decoded_checkin_build(self.android_checkin@) is Some),
            r matches Ok(p) ==> {
                &&& p.device_configuration@ == self.device_configuration@
                &&& p.android_checkin@ == self.android_checkin@
                &&& Some(strings_view(p.native_platform@)) == decoded_native_platform(
                    self.device_configuration@,
                )
                &&& Some(p.build) == decoded_checkin_build(self.android_checkin@)
                &&& p.extra_info@ == self.extra_info@
                &&& p.extra_info.pairs() == self.extra_info.pairs()
            },
    {
        let native_platform = decode_device_configuration(self.device_configuration.as_slice())?;
        let build = decode_android_checkin(self.android_checkin.as_slice())?;
        Ok(DeviceProperties {
            device_configuration: self.device_configuration,
            android_checkin: self.android_checkin,
            extra_info: self.extra_info,
            build,
            native_platform,
        })
    }
}

/// A decoding failure of `bincode`.
#[verifier::external_type_specification]
#[verifier::external_body]
pub struct ExBincodeDecodeError(bincode::error::DecodeError);

/// One stored profile of the device database: codename, encoded device
/// configuration, encoded check-in message, and extra facts as pairs.
pub type StoredDevice = (String, (Vec<u8>, Vec<u8>, Vec<(String, String)>));

/// The mathematical value of a [`StoredDevice`].
pub open spec fn stored_device_view(d: StoredDevice) -> (Seq<char>, Seq<u8>, Seq<u8>, Seq<(Seq<char>, Seq<char>)>) {
    (d.0@, d.1.0@, d.1.1@, crate::strmap::entries_view(d.1.2@))
}

/// What decoding `bytes` as a device database gives (bincode, standard
/// configuration): `None` when they are no such database, else its profiles
/// in stored order.
pub uninterp spec fn decoded_device_database(bytes: Seq<u8>) -> Option<
    Seq<(Seq<char>, Seq<u8>, Seq<u8>, Seq<(Seq<char>, Seq<char>)>)>,
>;

/// `bincode::decode_from_slice` with the standard configuration, reading the
/// database (a map from codename to profile) as the list of its entries in
/// stored order. Decoding succeeds exactly where the name is `Some`, and the
/// entries are its value.
#[verifier::external_body]
fn decode_device_entries(bytes: &[u8]) -> (r: Result<Vec<StoredDevice>, bincode::error::DecodeError>)
    ensures
        r is Ok <==> decoded_device_database(bytes@) is Some,
        r matches Ok(v) ==> decoded_device_database(bytes@) == Some(v@.map_values(|d: StoredDevice| stored_device_view(d))),
{
    Ok(bincode::decode_from_slice(bytes, bincode::config::standard())?.0)
}

/// The text that a `bincode` decoding failure displays (its `to_string`).
#[verifier::external_body]
fn database_error_message(e: &bincode::error::DecodeError) -> String {
    e.to_string()
}

/// `m` with the pairs `p` inserted in order: a later pair of a key wins.
pub open spec fn insert_pairs(m: Map<Seq<char>, Seq<char>>, p: Seq<(Seq<char>, Seq<char>)>) -> Map<Seq<char>, Seq<char>>
    decreases p.len(),
{
    if p.len() == 0 {
        m
    } else {
        insert_pairs(m, p.drop_last()).insert(p.last().0, p.last().1)
    }
}

/// The map of extra facts made of stored pairs.
fn extra_info_of(pairs: Vec<(String, String)>) -> (r: StrMap)
    ensures
        r@ == insert_pairs(Map::empty(), crate::strmap::entries_view(pairs@)),
{
    let ghost all = pairs@;
    let mut m = StrMap::new();
    for kv in it: pairs
        invariant
            it.seq() == all,
            m@ == insert_pairs(Map::empty(), crate::strmap::entries_view(all.take(it.index() as int))),
    {
        let ghost k = it.index() as int;
        assert(crate::strmap::entries_view(all.take(k + 1)).drop_last() =~= crate::strmap::entries_view(all.take(k)));
        let (key, value) = kv;
        m.insert(key.as_str(), value);
    }
    assert(all.take(all.len() as int) == all);
    m
}

/// The profiles of a device database, by codename, in stored order. Fails
/// when the bytes are no such database, with a message that says so.
pub fn device_database(bytes: &[u8]) -> (r: Result<Vec<(String, EncodedDeviceProperties)>, Error>)
    ensures
        r is Ok <==> decoded_device_database(bytes@) is Some,
        r matches Ok(v) ==> decoded_device_database(bytes@) matches Some(entries) && v@.len() == entries.len()
            && forall|i: int|
            0 <= i < entries.len() ==> {
                &&& #[trigger] v@[i].0@ == entries[i].0
                &&& v@[i].1.device_configuration@ == entries[i].1
                &&& v@[i].1.android_checkin@ == entries[i].2
                &&& v@[i].1.extra_info@ == insert_pairs(Map::empty(), entries[i].3)
            },
        r matches Err(e) ==> e.kind_spec() is Str && crate::error::kind_message(e.kind_spec()).take(34)
            == "failed to decode device database: "@,
{
    let entries = match decode_device_entries(bytes) {
        Ok(entries) => entries,
        Err(e) => {
            let err = Error::with_detail("failed to decode device database: ", database_error_message(&e).as_str());
            proof {
                reveal_strlit("failed to decode device database: ");
            }
            assert(crate::error::kind_message(err.kind_spec()).take(34) =~= "failed to decode device database: "@);
            return Err(err);
        },
    };
    let ghost all = entries@;
    let mut devices: Vec<(String, EncodedDeviceProperties)> = Vec::new();
    for d in it: entries
        invariant
            it.seq() == all,
            devices@.len() == it.index(),
            forall|i: int|
                0 <= i < it.index() ==> {
                    &&& #[trigger] devices@[i].0@ == stored_device_view(all[i]).0
                    &&& devices@[i].1.device_configuration@ == stored_device_view(all[i]).1
                    &&& devices@[i].1.android_checkin@ == stored_device_view(all[i]).2
                    &&& devices@[i].1.extra_info@ == insert_pairs(Map::empty(), stored_device_view(all[i]).3)
                },
    {
        let (name, (device_configuration, android_checkin, extra)) = d;
        let extra_info = extra_info_of(extra);
        devices.push((name, EncodedDeviceProperties::new(device_configuration, android_checkin, extra_info)));
    }
    Ok(devices)
}

} // verus!

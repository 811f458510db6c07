//! Reading the store's replies: the bytes that come back from a request,
//! decoded with `prost` and turned into the events that a login or a
//! download goes on with.
use vstd::prelude::*;

use googleplay_protobuf::{AndroidCheckinResponse, BulkDetailsResponse, DetailsResponse, ResponseWrapper};
use prost::Message;

use crate::device::decode_error_message;
use crate::download::{AdditionalFile, AppDeliveryData, DownloadEvent, SplitDelivery};
use crate::error::{Error, ErrorKind};
use crate::gpapi::opt_view;
use crate::login::{LoginEvent, TocReply};

verus! {

/// The details of an app, as the store sends them.
#[verifier::external_type_specification]
#[verifier::external_body]
pub struct ExDetailsResponse(DetailsResponse);

/// The details of several apps, as the store sends them.
#[verifier::external_type_specification]
#[verifier::external_body]
pub struct ExBulkDetailsResponse(BulkDetailsResponse);

/// The files of a delivery: the APK's URL, the splits as (name, URL), the
/// additional files as (type, version code, URL), and the dex metadata URL.
pub type DeliveryParts = (
    Option<String>,
    Vec<(Option<String>, Option<String>)>,
    Vec<(Option<i32>, Option<i32>, Option<String>)>,
    Option<String>,
);

/// The mathematical value of [`DeliveryParts`].
pub type DeliveryPartsView = (
    Option<Seq<char>>,
    Seq<(Option<Seq<char>>, Option<Seq<char>>)>,
    Seq<(Option<i32>, Option<i32>, Option<Seq<char>>)>,
    Option<Seq<char>>,
);

/// The value of some delivery parts.
pub open spec fn delivery_parts_view(d: DeliveryParts) -> DeliveryPartsView {
    (
        opt_view(d.0),
        d.1@.map_values(|s: (Option<String>, Option<String>)| (opt_view(s.0), opt_view(s.1))),
        d.2@.map_values(|f: (Option<i32>, Option<i32>, Option<String>)| (f.0, f.1, opt_view(f.2))),
        opt_view(d.3),
    )
}

/// The value of some delivery data, in the shape of [`DeliveryPartsView`].
pub open spec fn app_delivery_view(d: AppDeliveryData) -> DeliveryPartsView {
    (
        opt_view(d.download_url),
        d.splits@.map_values(|s: SplitDelivery| (opt_view(s.name), opt_view(s.download_url))),
        d.additional_files@.map_values(|f: AdditionalFile| (f.file_type, f.version_code, opt_view(f.download_url))),
        opt_view(d.dex_metadata_url),
    )
}

/// What the payload of a store reply carries that the library reads.
pub struct StoreReply {
    /// The device-config answer, if any, and its token.
    pub upload_device_config: Option<Option<String>>,
    /// The terms-of-service answer, if any: its terms token, terms text and cookie.
    pub toc: Option<(Option<String>, Option<String>, Option<String>)>,
    /// Whether it answers the acceptance of the terms.
    pub accept_tos: bool,
    /// The delivery token of the purchase answer, if both are there.
    pub delivery_token: Option<String>,
    /// The delivery data of the delivery answer, if both are there.
    pub delivery: Option<DeliveryParts>,
}

/// What the payload of a store reply carries of app details.
pub struct DetailsReply {
    /// The version code that the details name, if they are there and name one.
    pub version_code: Option<i64>,
    /// The details answer, if any.
    pub details: Option<DetailsResponse>,
    /// The bulk details answer, if any.
    pub bulk_details: Option<BulkDetailsResponse>,
}

/// The mathematical value of a [`StoreReply`]; of the two details answers,
/// whether they are there.
pub struct StoreReplyView {
    pub upload_device_config: Option<Option<Seq<char>>>,
    pub toc: Option<(Option<Seq<char>>, Option<Seq<char>>, Option<Seq<char>>)>,
    pub accept_tos: bool,
    pub delivery_token: Option<Seq<char>>,
    pub delivery: Option<DeliveryPartsView>,
    pub details_version_code: Option<i64>,
    pub has_details: bool,
    pub has_bulk_details: bool,
}

/// The value of an optional optional string.
pub open spec fn opt_opt_view(o: Option<Option<String>>) -> Option<Option<Seq<char>>> {
    match o {
        Some(t) => Some(opt_view(t)),
        None => None,
    }
}

/// Whether the decoded payload `o` agrees with the payload value `v` in what
/// a login or a download reads.
pub open spec fn store_reply_agrees(o: Option<StoreReply>, v: Option<StoreReplyView>) -> bool {
    match (o, v) {
        (Some(r), Some(w)) => {
            &&& w.upload_device_config == opt_opt_view(r.upload_device_config)
            &&& w.toc == match r.toc {
                Some((t, c, k)) => Some((opt_view(t), opt_view(c), opt_view(k))),
                None => None,
            }
            &&& w.accept_tos == r.accept_tos
            &&& w.delivery_token == opt_view(r.delivery_token)
            &&& w.delivery == match r.delivery {
                Some(d) => Some(delivery_parts_view(d)),
                None => None,
            }
        },
        (None, None) => true,
        _ => false,
    }
}

/// Whether the decoded payload `o` agrees with the payload value `v` in what
/// it carries of app details.
pub open spec fn details_reply_agrees(o: Option<DetailsReply>, v: Option<StoreReplyView>) -> bool {
    match (o, v) {
        (Some(r), Some(w)) => {
            &&& w.details_version_code == r.version_code
            &&& w.has_details == r.details is Some
            &&& w.has_bulk_details == r.bulk_details is Some
        },
        (None, None) => true,
        _ => false,
    }
}

/// What decoding `bytes` as a check-in reply gives: `None` when they are no
/// such message, else its consistency token and Android id.
pub uninterp spec fn decoded_checkin_reply(bytes: Seq<u8>) -> Option<(Option<Seq<char>>, Option<u64>)>;

/// What decoding `bytes` as a store reply gives: `None` when they are no such
/// message, else its payload's value (`None` when it has no payload).
pub uninterp spec fn decoded_store_reply(bytes: Seq<u8>) -> Option<Option<StoreReplyView>>;

/// `AndroidCheckinResponse::decode` (prost), keeping the consistency token
/// and the Android id. Decoding succeeds exactly where the name is `Some`,
/// and the two fields are its value.
#[verifier::external_body]
fn decode_checkin_reply(bytes: &[u8]) -> (r: Result<(Option<String>, Option<u64>), prost::DecodeError>)
    ensures
        r is Ok <==> decoded_checkin_reply(bytes@) is Some,
        r matches Ok(v) ==> decoded_checkin_reply(bytes@) == Some((opt_view(v.0), v.1)),
{
    let reply = AndroidCheckinResponse::decode(bytes)?;
    Ok((reply.device_checkin_consistency_token, reply.android_id))
}

/// `ResponseWrapper::decode` (prost), keeping of the payload the answers that
/// a login or a download reads. Decoding succeeds exactly where the name is
/// `Some`, and what is kept agrees with the name's value.
#[verifier::external_body]
fn decode_store_reply(bytes: &[u8]) -> (r: Result<Option<StoreReply>, prost::DecodeError>)
    ensures
        r is Ok <==> decoded_store_reply(bytes@) is Some,
        r matches Ok(o) ==> decoded_store_reply(bytes@) matches Some(v) && store_reply_agrees(o, v),
{
    Ok(ResponseWrapper::decode(bytes)?.payload.map(|p| StoreReply {
        upload_device_config: p.upload_device_config_response.map(|u| u.upload_device_config_token),
        toc: p.toc_response.map(|t| (t.tos_token, t.tos_content, t.cookie)),
        accept_tos: p.accept_tos_response.is_some(),
        delivery_token: p.buy_response.and_then(|b| b.encoded_delivery_token),
        delivery: p.delivery_response.and_then(|d| d.app_delivery_data).map(|a| (a.download_url,
            a.split_delivery_data.into_iter().map(|s| (s.name, s.download_url)).collect(),
            a.additional_file.into_iter().map(|f| (f.file_type, f.version_code, f.download_url)).collect(),
            a.dex_metadata.and_then(|m| m.download_url))),
    }))
}

/// `ResponseWrapper::decode` (prost), keeping of the payload its details
/// answers and the version code they name. Decoding succeeds exactly where
/// the name is `Some`, and what is kept agrees with the name's value.
#[verifier::external_body]
fn decode_details_reply(bytes: &[u8]) -> (r: Result<Option<DetailsReply>, prost::DecodeError>)
    ensures
        r is Ok <==> decoded_store_reply(bytes@) is Some,
        r matches Ok(o) ==> decoded_store_reply(bytes@) matches Some(v) && details_reply_agrees(o, v),
{
    Ok(ResponseWrapper::decode(bytes)?.payload.map(|p| DetailsReply {
        version_code: p.details_response.as_ref().and_then(
            |d| d.item.as_ref()?.details.as_ref()?.app_details.as_ref()?.version_code,
        ),
        details: p.details_response,
        bulk_details: p.bulk_details_response,
    }))
}

/// The error for bytes that do not decode.
fn undecodable(e: prost::DecodeError) -> (r: Error)
    ensures
        r.kind_spec() is Other,
{
    Error::new(ErrorKind::Other(decode_error_message(&e)))
}

/// The event that the reply to a check-in gives: its consistency token and
/// Android id, or a failure when the bytes are no check-in reply.
pub fn checkin_event(bytes: &[u8]) -> (r: LoginEvent)
    ensures
        match decoded_checkin_reply(bytes@) {
            Some((token, id)) => r matches LoginEvent::Checkin { consistency_token, android_id } && opt_view(
                consistency_token,
            ) == token && android_id == id,
            None => r matches LoginEvent::Failed(e) && e.kind_spec() is Other,
        },
{
    match decode_checkin_reply(bytes) {
        Ok((consistency_token, android_id)) => LoginEvent::Checkin { consistency_token, android_id },
        Err(e) => LoginEvent::Failed(undecodable(e)),
    }
}

/// The event that the reply to a device-config upload gives: its answer (if
/// any) and that answer's token, or a failure when the bytes are no store reply.
pub fn upload_event(bytes: &[u8]) -> (r: LoginEvent)
    ensures
        match decoded_store_reply(bytes@) {
            Some(Some(v)) => r matches LoginEvent::UploadDeviceConfig(u) && opt_opt_view(u) == v.upload_device_config,
            Some(None) => r matches LoginEvent::UploadDeviceConfig(None),
            None => r matches LoginEvent::Failed(e) && e.kind_spec() is Other,
        },
{
    match decode_store_reply(bytes) {
        Ok(Some(p)) => LoginEvent::UploadDeviceConfig(p.upload_device_config),
        Ok(None) => LoginEvent::UploadDeviceConfig(None),
        Err(e) => LoginEvent::Failed(undecodable(e)),
    }
}

/// The event that the reply to a terms-of-service check gives: whether it has
/// a payload and an answer, and the answer's terms token, whether it has terms
/// text, and its cookie; or a failure when the bytes are no store reply.
pub fn toc_event(bytes: &[u8]) -> (r: LoginEvent)
    ensures
        match decoded_store_reply(bytes@) {
            Some(Some(v)) => match v.toc {
                Some((t, c, k)) => r matches LoginEvent::Toc(TocReply::Toc { tos_token, has_tos_content, cookie })
                    && opt_view(tos_token) == t && has_tos_content == (c is Some) && opt_view(cookie) == k,
                None => r matches LoginEvent::Toc(TocReply::NoTocResponse),
            },
            Some(None) => r matches LoginEvent::Toc(TocReply::NoPayload),
            None => r matches LoginEvent::Failed(e) && e.kind_spec() is Other,
        },
{
    match decode_store_reply(bytes) {
        Ok(Some(p)) => match p.toc {
            Some((tos_token, tos_content, cookie)) => LoginEvent::Toc(
                TocReply::Toc { tos_token, has_tos_content: tos_content.is_some(), cookie },
            ),
            None => LoginEvent::Toc(TocReply::NoTocResponse),
        },
        Ok(None) => LoginEvent::Toc(TocReply::NoPayload),
        Err(e) => LoginEvent::Failed(undecodable(e)),
    }
}

/// The event that the reply to accepting the terms gives: whether the store
/// acknowledged it, or a failure when the bytes are no store reply.
pub fn accept_tos_event(bytes: &[u8]) -> (r: LoginEvent)
    ensures
        match decoded_store_reply(bytes@) {
            Some(Some(v)) => r == LoginEvent::AcceptTos { acknowledged: v.accept_tos },
            Some(None) => r == LoginEvent::AcceptTos { acknowledged: false },
            None => r matches LoginEvent::Failed(e) && e.kind_spec() is Other,
        },
{
    match decode_store_reply(bytes) {
        Ok(Some(p)) => LoginEvent::AcceptTos { acknowledged: p.accept_tos },
        Ok(None) => LoginEvent::AcceptTos { acknowledged: false },
        Err(e) => LoginEvent::Failed(undecodable(e)),
    }
}

/// The details that the reply to a details request carries, if any; a
/// failure when the bytes are no store reply.
pub fn details_reply(bytes: &[u8]) -> (r: Result<Option<DetailsResponse>, Error>)
    ensures
        r is Ok <==> decoded_store_reply(bytes@) is Some,
        r matches Ok(o) ==> (o is Some <==> (decoded_store_reply(bytes@) matches Some(Some(v)) && v.has_details)),
        r matches Err(e) ==> e.kind_spec() is Other,
{
    match decode_details_reply(bytes) {
        Ok(Some(p)) => Ok(p.details),
        Ok(None) => Ok(None),
        Err(e) => Err(undecodable(e)),
    }
}

/// The event that the reply to a details request gives to a download: the
/// version code the details name, if any; a failure when the bytes are no
/// store reply.
pub fn latest_version_event(bytes: &[u8]) -> (r: DownloadEvent)
    ensures
        match decoded_store_reply(bytes@) {
            Some(Some(v)) => r == DownloadEvent::Details(v.details_version_code),
            Some(None) => r == DownloadEvent::Details(None),
            None => r matches DownloadEvent::Failed(e) && e.kind_spec() is Other,
        },
{
    match decode_details_reply(bytes) {
        Ok(Some(p)) => DownloadEvent::Details(p.version_code),
        Ok(None) => DownloadEvent::Details(None),
        Err(e) => DownloadEvent::Failed(undecodable(e)),
    }
}

/// The event that the reply to a purchase gives: the delivery token, if the
/// reply has one; a failure when the bytes are no store reply.
pub fn purchase_event(bytes: &[u8]) -> (r: DownloadEvent)
    ensures
        match decoded_store_reply(bytes@) {
            Some(Some(v)) => r matches DownloadEvent::Purchase(t) && opt_view(t) == v.delivery_token,
            Some(None) => r matches DownloadEvent::Purchase(None),
            None => r matches DownloadEvent::Failed(e) && e.kind_spec() is Other,
        },
{
    match decode_store_reply(bytes) {
        Ok(Some(p)) => DownloadEvent::Purchase(p.delivery_token),
        Ok(None) => DownloadEvent::Purchase(None),
        Err(e) => DownloadEvent::Failed(undecodable(e)),
    }
}

/// The delivery data made of its parts: the APK's URL, the splits as
/// (name, URL), the additional files as (type, version code, URL), and the
/// dex metadata URL.
pub fn delivery_data(
    download_url: Option<String>,
    splits: Vec<(Option<String>, Option<String>)>,
    files: Vec<(Option<i32>, Option<i32>, Option<String>)>,
    dex_metadata_url: Option<String>,
) -> (r: AppDeliveryData)
    ensures
        r.download_url == download_url,
        r.dex_metadata_url == dex_metadata_url,
        r.splits@.len() == splits@.len(),
        forall|i: int|
            0 <= i < splits@.len() ==> r.splits@[i].name == splits@[i].0 && r.splits@[i].download_url
                == splits@[i].1,
        r.additional_files@.len() == files@.len(),
        forall|i: int|
            0 <= i < files@.len() ==> r.additional_files@[i].file_type == files@[i].0
                && r.additional_files@[i].version_code == files@[i].1
                && r.additional_files@[i].download_url == files@[i].2,
{
    let ghost all_splits = splits@;
    let mut split_data: Vec<SplitDelivery> = Vec::new();
    for s in it: splits
        invariant
            it.seq() == all_splits,
            split_data@.len() == it.index(),
            forall|i: int|
                0 <= i < it.index() ==> split_data@[i].name == all_splits[i].0
                    && split_data@[i].download_url == all_splits[i].1,
    {
        let (name, download_url) = s;
        split_data.push(SplitDelivery { name, download_url });
    }
    let ghost all_files = files@;
    let mut file_data: Vec<AdditionalFile> = Vec::new();
    for f in it: files
        invariant
            it.seq() == all_files,
            file_data@.len() == it.index(),
            forall|i: int|
                0 <= i < it.index() ==> file_data@[i].file_type == all_files[i].0
                    && file_data@[i].version_code == all_files[i].1
                    && file_data@[i].download_url == all_files[i].2,
    {
        let (file_type, version_code, download_url) = f;
        file_data.push(AdditionalFile { file_type, version_code, download_url });
    }
    AppDeliveryData { download_url, splits: split_data, additional_files: file_data, dex_metadata_url }
}

/// The event that the reply to a delivery request gives: its delivery data,
/// if it has some; a failure when the bytes are no store reply.
pub fn delivery_event(bytes: &[u8]) -> (r: DownloadEvent)
    ensures
        match decoded_store_reply(bytes@) {
            Some(Some(v)) => match v.delivery {
                Some(parts) => r matches DownloadEvent::Delivery(Some(d)) && app_delivery_view(d) == parts,
                None => r matches DownloadEvent::Delivery(None),
            },
            Some(None) => r matches DownloadEvent::Delivery(None),
            None => r matches DownloadEvent::Failed(e) && e.kind_spec() is Other,
        },
{
    match decode_store_reply(bytes) {
        Ok(Some(p)) => match p.delivery {
            Some((download_url, splits, files, dex_metadata_url)) => {
                let ghost parts = (download_url, splits, files, dex_metadata_url);
                let d = delivery_data(download_url, splits, files, dex_metadata_url);
                assert(app_delivery_view(d).1 =~= delivery_parts_view(parts).1);
                assert(app_delivery_view(d).2 =~= delivery_parts_view(parts).2);
                DownloadEvent::Delivery(Some(d))
            },
            None => DownloadEvent::Delivery(None),
        },
        Ok(None) => DownloadEvent::Delivery(None),
        Err(e) => DownloadEvent::Failed(undecodable(e)),
    }
}

/// The bulk details that the reply to a bulk details request carries, if
/// any; a failure when the bytes are no store reply.
pub fn bulk_details_reply(bytes: &[u8]) -> (r: Result<Option<BulkDetailsResponse>, Error>)
    ensures
        r is Ok <==> decoded_store_reply(bytes@) is Some,
        r matches Ok(o) ==> (o is Some <==> (decoded_store_reply(bytes@) matches Some(Some(v))
            && v.has_bulk_details)),
        r matches Err(e) ==> e.kind_spec() is Other,
{
    match decode_details_reply(bytes) {
        Ok(Some(p)) => Ok(p.bulk_details),
        Ok(None) => Ok(None),
        Err(e) => Err(undecodable(e)),
    }
}

} // verus!

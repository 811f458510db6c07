//! The clients that serve requests: which to use, when to log in again, and
//! how the answers of several channels and devices are combined.
use vstd::prelude::*;

use crate::channel::{beta_alpha_packages, channel_name, Channel};
use crate::client::GooglePlayClient;
use crate::download::DownloadInfo;
use crate::merge::{all_additional_files, all_splits, merge_download_infos};
use crate::text::{join, push_str, seq_join, str_eq, strings_view};

verus! {

/// How long a logged-in client is reused before it logs in again, in
/// milliseconds: Google-side sessions expire.
pub const SESSION_TTL_MS: u64 = 1_800_000;

/// The devices and ABIs whose downloads are merged, as (device, ABI).
pub open spec fn download_targets_spec() -> Seq<(Seq<char>, Seq<char>)> {
    seq![
        ("px_9a"@, "arm64-v8a"@),
        ("sm_a13_5g"@, "armeabi-v7a"@),
        ("google_kiwi_x86_64"@, "x86"@),
        ("google_kiwi_x86_64"@, "x86_64"@),
    ]
}

/// The devices and ABIs whose downloads are merged, as (device, ABI).
pub fn download_targets() -> (r: Vec<(&'static str, &'static str)>)
    ensures
        r@.map_values(|t: (&'static str, &'static str)| (t.0@, t.1@)) == download_targets_spec(),
{
    let r = vec![
        ("px_9a", "arm64-v8a"),
        ("sm_a13_5g", "armeabi-v7a"),
        ("google_kiwi_x86_64", "x86"),
        ("google_kiwi_x86_64", "x86_64"),
    ];
    assert(r@.map_values(|t: (&'static str, &'static str)| (t.0@, t.1@)) =~= download_targets_spec());
    r
}

/// Whether a client that logged in at `logged_in_at_ms` may still be used at
/// `now_ms`: it logged in, less than the session lifetime ago (a clock that
/// went back counts as no time passed).
pub open spec fn is_fresh_spec(logged_in_at_ms: Option<u64>, now_ms: u64) -> bool {
    match logged_in_at_ms {
        Some(t) => (if now_ms >= t {
            now_ms - t
        } else {
            0
        }) < SESSION_TTL_MS,
        None => false,
    }
}

/// Whether a client that logged in at `logged_in_at_ms` may still be used at `now_ms`.
pub fn is_fresh(logged_in_at_ms: Option<u64>, now_ms: u64) -> (r: bool)
    ensures
        r == is_fresh_spec(logged_in_at_ms, now_ms),
{
    match logged_in_at_ms {
        Some(t) => now_ms.saturating_sub(t) < SESSION_TTL_MS,
        None => false,
    }
}

/// A client that never logged in must log in; one that logged in at `t` is
/// reused at `now` exactly while less than the session lifetime has passed
/// (a clock that went back counts as no time passed); and a client that has
/// just logged in is reused.
pub proof fn lemma_session_freshness(t: u64, now: u64)
    ensures
        !is_fresh_spec(None, now),
        is_fresh_spec(Some(t), now) <==> (now < t || now - t < SESSION_TTL_MS),
        is_fresh_spec(Some(now), now),
{
}

/// The message with which a channel that `package_name` lacks is refused.
pub open spec fn unavailable_text(channel: Channel, package_name: Seq<char>) -> Seq<char> {
    "Channel '"@ + channel_name(channel) + "' is not available for package '"@ + package_name + "'"@
}

/// Refuses a channel that `package_name` does not have.
pub fn check_available(channel: Channel, package_name: &str) -> (r: Result<(), String>)
    ensures
        r is Ok <==> (channel == Channel::Stable || beta_alpha_packages().contains(package_name@)),
        r matches Err(m) ==> m@ == unavailable_text(channel, package_name@),
{
    if channel.is_available_for_package(package_name) {
        Ok(())
    } else {
        let mut m = "Channel '".to_owned();
        push_str(&mut m, channel.to_string().as_str());
        push_str(&mut m, "' is not available for package '");
        push_str(&mut m, package_name);
        push_str(&mut m, "'");
        Err(m)
    }
}

/// The names of the environment variables that hold a channel's account:
/// `<CHANNEL>_EMAIL` and `<CHANNEL>_AAS_TOKEN`, the channel in upper case.
pub open spec fn credential_names(channel: Channel) -> (Seq<char>, Seq<char>) {
    let prefix = crate::text::ascii_upper(channel_name(channel));
    (prefix + "_EMAIL"@, prefix + "_AAS_TOKEN"@)
}

/// The names of the environment variables that hold a channel's account.
pub fn credential_var_names(channel: Channel) -> (r: (String, String))
    ensures
        (r.0@, r.1@) == credential_names(channel),
{
    let name = channel.to_string();
    let prefix = crate::text::to_ascii_uppercase(name.as_str());
    let mut email = prefix.clone();
    push_str(&mut email, "_EMAIL");
    let mut token = prefix;
    push_str(&mut token, "_AAS_TOKEN");
    (email, token)
}

/// The optional channels to ask besides the stable one: beta, then alpha,
/// those that `package_name` has.
pub fn optional_channels(package_name: &str) -> (r: Vec<Channel>)
    ensures
        beta_alpha_packages().contains(package_name@) ==> r@ == seq![Channel::Beta, Channel::Alpha],
        !beta_alpha_packages().contains(package_name@) ==> r@.len() == 0,
{
    let mut r = Vec::new();
    if Channel::Beta.is_available_for_package(package_name) {
        r.push(Channel::Beta);
    }
    if Channel::Alpha.is_available_for_package(package_name) {
        r.push(Channel::Alpha);
    }
    r
}

/// The answers of the optional channels that found the app, in order.
pub open spec fn found_optional<D>(optional: Seq<(Channel, Result<Option<D>, String>)>) -> Seq<(Channel, D)>
    decreases optional.len(),
{
    if optional.len() == 0 {
        Seq::empty()
    } else {
        let rest = found_optional(optional.drop_last());
        match optional.last().1 {
            Ok(Some(d)) => rest.push((optional.last().0, d)),
            _ => rest,
        }
    }
}

/// Whether an optional channel's lookup found the app.
pub open spec fn found_the_app<D>(x: (Channel, Result<Option<D>, String>)) -> bool {
    x.1 matches Ok(Some(_))
}

/// The channel and the details of a lookup that found the app.
pub open spec fn found_entry<D>(x: (Channel, Result<Option<D>, String>)) -> (Channel, D) {
    match x.1 {
        Ok(Some(d)) => (x.0, d),
        _ => (x.0, arbitrary()),
    }
}

/// The optional channels listed are exactly those whose lookup found the
/// app, each with the details it found, in the order they were asked: the
/// lookups filtered by success.
pub proof fn lemma_found_optional<D>(optional: Seq<(Channel, Result<Option<D>, String>)>)
    ensures
        found_optional(optional) == optional.filter(|x: (Channel, Result<Option<D>, String>)| found_the_app(x)).map_values(
            |x: (Channel, Result<Option<D>, String>)| found_entry(x),
        ),
    decreases optional.len(),
{
    reveal(Seq::filter);
    let pred = |x: (Channel, Result<Option<D>, String>)| found_the_app(x);
    let f = |x: (Channel, Result<Option<D>, String>)| found_entry(x);
    if optional.len() == 0 {
        assert(optional.filter(pred) =~= Seq::<(Channel, Result<Option<D>, String>)>::empty());
        assert(optional.filter(pred).map_values(f) =~= Seq::<(Channel, D)>::empty());
    } else {
        lemma_found_optional(optional.drop_last());
        let sub = optional.drop_last().filter(pred);
        if pred(optional.last()) {
            assert(optional.filter(pred) == sub.push(optional.last()));
            assert(sub.push(optional.last()).map_values(f) =~= sub.map_values(f).push(f(optional.last())));
        } else {
            assert(optional.filter(pred) == sub);
        }
    }
}

/// Every optional channel whose lookup found details `d` is listed with them,
/// and the list holds nothing else: one entry per such channel.
pub proof fn lemma_found_optional_complete<D>(optional: Seq<(Channel, Result<Option<D>, String>)>)
    ensures
        forall|i: int|
            0 <= i < optional.len() && found_the_app(#[trigger] optional[i]) ==> found_optional(optional).contains(
                found_entry(optional[i]),
            ),
        found_optional(optional).len() == optional.filter(|x: (Channel, Result<Option<D>, String>)| found_the_app(x)).len(),
{
    lemma_found_optional(optional);
    let pred = |x: (Channel, Result<Option<D>, String>)| found_the_app(x);
    let f = |x: (Channel, Result<Option<D>, String>)| found_entry(x);
    assert forall|i: int| 0 <= i < optional.len() && found_the_app(#[trigger] optional[i]) implies found_optional(
        optional,
    ).contains(found_entry(optional[i])) by {
        optional.lemma_filter_contains(pred, i);
        let j = choose|j: int| 0 <= j < optional.filter(pred).len() && optional.filter(pred)[j] == optional[i];
        assert(optional.filter(pred).map_values(f)[j] == found_entry(optional[i]));
    }
}

/// Combines the details of the stable channel with those of the optional
/// channels. The stable answer decides: its failure is the failure, and an
/// app it does not know is not found. Optional channels that fail or do not
/// know the app are left out.
pub fn combine_details<D>(
    stable: Result<Option<D>, String>,
    optional: Vec<(Channel, Result<Option<D>, String>)>,
) -> (r: Result<Option<Vec<(Channel, D)>>, String>)
    ensures
        match stable {
            Err(e) => r == Err::<Option<Vec<(Channel, D)>>, String>(e),
            Ok(None) => r matches Ok(None),
            Ok(Some(d)) => r matches Ok(Some(v)) && v@ == seq![(Channel::Stable, d)] + found_optional(
                optional@,
            ),
        },
        // the stable details come first, then one entry per optional channel
        // that found the app, with what it found, in the order asked
        r matches Ok(Some(v)) ==> v@.drop_first() == optional@.filter(
            |x: (Channel, Result<Option<D>, String>)| found_the_app(x),
        ).map_values(|x: (Channel, Result<Option<D>, String>)| found_entry(x)),
        r matches Ok(Some(v)) ==> forall|i: int|
            0 <= i < optional@.len() && found_the_app(#[trigger] optional@[i]) ==> v@.contains(found_entry(optional@[i])),
{
    proof {
        lemma_found_optional(optional@);
        lemma_found_optional_complete(optional@);
    }
    let d = match stable {
        Err(e) => return Err(e),
        Ok(None) => return Ok(None),
        Ok(Some(d)) => d,
    };
    let mut results: Vec<(Channel, D)> = Vec::new();
    results.push((Channel::Stable, d));
    let ghost first = results@;
    let ghost all = optional@;
    for item in it: optional
        invariant
            it.seq() == all,
            results@ == first + found_optional(all.take(it.index() as int)),
    {
        let ghost k = it.index() as int;
        assert(all.take(k + 1).drop_last() == all.take(k));
        assert(all.take(k + 1).last() == item);
        let (channel, result) = item;
        if let Ok(Some(found)) = result {
            results.push((channel, found));
        }
    }
    assert(all.take(all.len() as int) == all);
    Ok(Some(results))
}

/// The download infos of the devices that answered, in order.
pub open spec fn answered_infos(results: Seq<(String, Result<DownloadInfo, String>)>) -> Seq<DownloadInfo>
    decreases results.len(),
{
    if results.len() == 0 {
        Seq::empty()
    } else {
        let rest = answered_infos(results.drop_last());
        match results.last().1 {
            Ok(info) => rest.push(info),
            Err(_) => rest,
        }
    }
}

/// The failures of the devices that did not answer, as `<abi>: <error>`, in order.
pub open spec fn failure_texts(results: Seq<(String, Result<DownloadInfo, String>)>) -> Seq<Seq<char>>
    decreases results.len(),
{
    if results.len() == 0 {
        Seq::empty()
    } else {
        let rest = failure_texts(results.drop_last());
        match results.last().1 {
            Ok(_) => rest,
            Err(e) => rest.push(results.last().0@ + ": "@ + e@),
        }
    }
}

/// Whether a device's download lookup answered.
pub open spec fn answered(x: (String, Result<DownloadInfo, String>)) -> bool {
    x.1 is Ok
}

/// The download info of a device's lookup that answered.
pub open spec fn answer_of(x: (String, Result<DownloadInfo, String>)) -> DownloadInfo {
    match x.1 {
        Ok(info) => info,
        Err(_) => arbitrary(),
    }
}

/// The download infos merged are exactly those of the devices that answered,
/// each once, in the order the devices were asked: the lookups filtered by
/// success.
pub proof fn lemma_answered_infos(results: Seq<(String, Result<DownloadInfo, String>)>)
    ensures
        answered_infos(results) == results.filter(|x: (String, Result<DownloadInfo, String>)| answered(x)).map_values(
            |x: (String, Result<DownloadInfo, String>)| answer_of(x),
        ),
    decreases results.len(),
{
    reveal(Seq::filter);
    let pred = |x: (String, Result<DownloadInfo, String>)| answered(x);
    let f = |x: (String, Result<DownloadInfo, String>)| answer_of(x);
    if results.len() == 0 {
        assert(results.filter(pred) =~= Seq::<(String, Result<DownloadInfo, String>)>::empty());
        assert(results.filter(pred).map_values(f) =~= Seq::<DownloadInfo>::empty());
    } else {
        lemma_answered_infos(results.drop_last());
        let sub = results.drop_last().filter(pred);
        if pred(results.last()) {
            assert(results.filter(pred) == sub.push(results.last()));
            assert(sub.push(results.last()).map_values(f) =~= sub.map_values(f).push(f(results.last())));
        } else {
            assert(results.filter(pred) == sub);
        }
    }
}

/// Every answer of every device is among the infos merged, and there is one
/// merged info per device that answered.
pub proof fn lemma_every_answer_merged(results: Seq<(String, Result<DownloadInfo, String>)>)
    ensures
        forall|i: int|
            0 <= i < results.len() && answered(#[trigger] results[i]) ==> answered_infos(results).contains(
                answer_of(results[i]),
            ),
        answered_infos(results).len() == results.filter(|x: (String, Result<DownloadInfo, String>)| answered(x)).len(),
{
    lemma_answered_infos(results);
    let pred = |x: (String, Result<DownloadInfo, String>)| answered(x);
    let f = |x: (String, Result<DownloadInfo, String>)| answer_of(x);
    assert forall|i: int| 0 <= i < results.len() && answered(#[trigger] results[i]) implies answered_infos(
        results,
    ).contains(answer_of(results[i])) by {
        results.lemma_filter_contains(pred, i);
        let j = choose|j: int| 0 <= j < results.filter(pred).len() && results.filter(pred)[j] == results[i];
        assert(results.filter(pred).map_values(f)[j] == answer_of(results[i]));
    }
}

/// The text of a device's failed lookup: `<abi>: <error>`.
pub open spec fn failure_of(x: (String, Result<DownloadInfo, String>)) -> Seq<char> {
    match x.1 {
        Err(e) => x.0@ + ": "@ + e@,
        Ok(_) => Seq::empty(),
    }
}

/// The failures reported are exactly those of the devices that did not
/// answer, each as `<abi>: <error>`, in the order the devices were asked.
pub proof fn lemma_failure_texts(results: Seq<(String, Result<DownloadInfo, String>)>)
    ensures
        failure_texts(results) == results.filter(|x: (String, Result<DownloadInfo, String>)| !answered(x)).map_values(
            |x: (String, Result<DownloadInfo, String>)| failure_of(x),
        ),
    decreases results.len(),
{
    reveal(Seq::filter);
    let pred = |x: (String, Result<DownloadInfo, String>)| !answered(x);
    let f = |x: (String, Result<DownloadInfo, String>)| failure_of(x);
    if results.len() == 0 {
        assert(results.filter(pred) =~= Seq::<(String, Result<DownloadInfo, String>)>::empty());
        assert(results.filter(pred).map_values(f) =~= Seq::<Seq<char>>::empty());
    } else {
        lemma_failure_texts(results.drop_last());
        let sub = results.drop_last().filter(pred);
        if pred(results.last()) {
            assert(results.filter(pred) == sub.push(results.last()));
            assert(sub.push(results.last()).map_values(f) =~= sub.map_values(f).push(f(results.last())));
        } else {
            assert(results.filter(pred) == sub);
        }
    }
}

/// Combines the per-ABI download lookups of `channel`: the merge of those
/// that succeeded, or, when none did, all the failures joined by `; `.
pub fn combine_download_results(
    channel: Channel,
    results: Vec<(String, Result<DownloadInfo, String>)>,
) -> (r: Result<Option<(Channel, DownloadInfo)>, String>)
    ensures
        answered_infos(results@).len() == 0 ==> (r matches Err(m) && m@ == seq_join(
            failure_texts(results@),
            "; "@,
        )),
        answered_infos(results@).len() > 0 ==> (r matches Ok(Some((c, info))) && c == channel && {
            let infos = answered_infos(results@);
            &&& crate::gpapi::opt_view(info.0) == crate::merge::first_main_url(infos)
            &&& crate::download::pairs_view(info.1@) == crate::merge::dedup(all_splits(infos))
            &&& crate::download::pairs_view(info.2@) == crate::merge::dedup(all_additional_files(infos))
            &&& crate::gpapi::opt_view(info.3) == crate::merge::first_dex_metadata_url(infos)
        }),
        // it succeeds exactly when some device answered, and then merges the
        // answer of every device that answered, in the order asked
        r is Ok <==> exists|i: int| 0 <= i < results@.len() && answered(#[trigger] results@[i]),
        r matches Ok(Some((_, info))) ==> crate::merge::info_view(info) == crate::merge::merged_view(
            results@.filter(|x: (String, Result<DownloadInfo, String>)| answered(x)).map_values(
                |x: (String, Result<DownloadInfo, String>)| answer_of(x),
            ),
        ),
        r matches Err(m) ==> m@ == seq_join(
            results@.filter(|x: (String, Result<DownloadInfo, String>)| !answered(x)).map_values(
                |x: (String, Result<DownloadInfo, String>)| failure_of(x),
            ),
            "; "@,
        ),
{
    proof {
        lemma_answered_infos(results@);
        lemma_every_answer_merged(results@);
        lemma_failure_texts(results@);
        let pred = |x: (String, Result<DownloadInfo, String>)| answered(x);
        if answered_infos(results@).len() > 0 {
            let first = results@.filter(pred)[0];
            results@.lemma_filter_pred(pred, 0);
            assert(results@.filter(pred).contains(first));
            results@.lemma_filter_contains_rev(pred, first);
            let i = choose|i: int| 0 <= i < results@.len() && results@[i] == first;
            assert(answered(results@[i]));
        }
    }
    let ghost all = results@;
    let mut download_infos: Vec<DownloadInfo> = Vec::new();
    let mut errors: Vec<String> = Vec::new();
    for item in it: results
        invariant
            it.seq() == all,
            download_infos@ == answered_infos(all.take(it.index() as int)),
            strings_view(errors@) == failure_texts(all.take(it.index() as int)),
    {
        let ghost k = it.index() as int;
        assert(all.take(k + 1).drop_last() == all.take(k));
        assert(all.take(k + 1).last() == item);
        let ghost before = errors@;
        let (abi, result) = item;
        match result {
            Ok(info) => download_infos.push(info),
            Err(error) => {
                let mut m = abi;
                push_str(&mut m, ": ");
                push_str(&mut m, error.as_str());
                errors.push(m);
                assert(strings_view(errors@) =~= strings_view(before).push(errors@.last()@));
            },
        }
    }
    assert(all.take(all.len() as int) == all);
    if download_infos.len() == 0 {
        Err(join(&errors, "; "))
    } else {
        Ok(Some((channel, merge_download_infos(download_infos))))
    }
}

/// What tells clients apart: their channel, device and advertised ABIs.
pub struct ClientKey {
    pub channel: Channel,
    pub device_name: String,
    pub abis: Vec<String>,
}

/// The mathematical value of a client key.
pub open spec fn key_view(k: ClientKey) -> (Channel, Seq<char>, Seq<Seq<char>>) {
    (k.channel, k.device_name@, strings_view(k.abis@))
}

/// A client and when it last logged in.
pub struct ClientEntry {
    pub client: GooglePlayClient,
    pub logged_in_at_ms: Option<u64>,
}

/// Where the client for a key stands.
pub enum ClientLookup {
    /// No client has the key: one must be made (and log in).
    Missing,
    /// The client at this position must log in before it serves a request.
    NeedsLogin(usize),
    /// The client at this position is logged in and fresh.
    Ready(usize),
}

/// The message for an environment variable that could not be read.
pub fn missing_env_message(name: &str, detail: &str) -> (r: String)
    ensures
        r@ == "missing "@ + name@ + " env: "@ + detail@,
{
    let mut r = "missing ".to_owned();
    push_str(&mut r, name);
    push_str(&mut r, " env: ");
    push_str(&mut r, detail);
    r
}

/// The clients made so far, one per key, reused across requests.
pub struct ClientRegistry {
    pub clients: Vec<(ClientKey, ClientEntry)>,
}

/// Whether two lists of strings are equal.
fn strings_eq(a: &Vec<String>, b: &Vec<String>) -> (r: bool)
    ensures
        r == (strings_view(a@) == strings_view(b@)),
{
    if a.len() != b.len() {
        assert(strings_view(a@).len() != strings_view(b@).len());
        return false;
    }
    let mut i: usize = 0;
    while i < a.len()
        invariant
            a@.len() == b@.len(),
            i <= a@.len(),
            forall|j: int| 0 <= j < i ==> a@[j]@ == b@[j]@,
        decreases a@.len() - i,
    {
        if !str_eq(a[i].as_str(), b[i].as_str()) {
            assert(strings_view(a@)[i as int] != strings_view(b@)[i as int]);
            return false;
        }
        i = i + 1;
    }
    assert(strings_view(a@) =~= strings_view(b@));
    true
}

impl ClientRegistry {
    /// The keys of the clients, in order.
    pub open spec fn keys(&self) -> Seq<(Channel, Seq<char>, Seq<Seq<char>>)> {
        self.clients@.map_values(|e: (ClientKey, ClientEntry)| key_view(e.0))
    }

    /// No key occurs twice.
    pub open spec fn wf(&self) -> bool {
        forall|i: int, j: int| 0 <= i < j < self.keys().len() ==> self.keys()[i] != self.keys()[j]
    }

    /// A registry without clients.
    pub fn new() -> (r: Self)
        ensures
            r.clients@.len() == 0,
            r.wf(),
    {
        ClientRegistry { clients: Vec::new() }
    }

    /// The position of the client with key (`channel`, `device_name`, `abis`).
    pub fn find(&self, channel: Channel, device_name: &str, abis: &Vec<String>) -> (r: Option<usize>)
        ensures
            r is None ==> !self.keys().contains((channel, device_name@, strings_view(abis@))),
            r matches Some(i) ==> i < self.clients@.len() && self.keys()[i as int] == (
                channel,
                device_name@,
                strings_view(abis@),
            ),
    {
        let mut i: usize = 0;
        while i < self.clients.len()
            invariant
                i <= self.clients@.len(),
                forall|j: int| 0 <= j < i ==> self.keys()[j] != (channel, device_name@, strings_view(abis@)),
            decreases self.clients@.len() - i,
        {
            let key = &self.clients[i].0;
            if key.channel == channel && str_eq(key.device_name.as_str(), device_name) && strings_eq(
                &key.abis,
                abis,
            ) {
                return Some(i);
            }
            i = i + 1;
        }
        None
    }

    /// Adds a client that has not logged in yet, under a key that has none.
    pub fn insert(&mut self, key: ClientKey, client: GooglePlayClient) -> (r: usize)
        requires
            old(self).wf(),
            !old(self).keys().contains(key_view(key)),
        ensures
            final(self).wf(),
            r == old(self).clients@.len(),
            final(self).keys() == old(self).keys().push(key_view(key)),
            final(self).clients@[r as int].1.client == client,
            final(self).clients@[r as int].1.logged_in_at_ms is None,
            forall|i: int| 0 <= i < old(self).clients@.len() ==> final(self).clients@[i] == old(self).clients@[i],
    {
        let ghost keys0 = self.keys();
        let ghost k = key_view(key);
        self.clients.push((key, ClientEntry { client, logged_in_at_ms: None }));
        assert(self.keys() =~= keys0.push(k));
        assert forall|i: int, j: int| 0 <= i < j < self.keys().len() implies self.keys()[i] != self.keys()[j] by {
            if j == keys0.len() {
                assert(keys0[i] != k);
            }
        }
        self.clients.len() - 1
    }

    /// Where the client for (`channel`, `device_name`, `abis`) stands at
    /// `now_ms`: not made yet, made but due to log in, or ready.
    pub fn lookup(&self, channel: Channel, device_name: &str, abis: &Vec<String>, now_ms: u64) -> (r: ClientLookup)
        ensures
            r is Missing <==> !self.keys().contains((channel, device_name@, strings_view(abis@))),
            r matches ClientLookup::NeedsLogin(i) ==> i < self.clients@.len() && self.keys()[i as int] == (
                channel,
                device_name@,
                strings_view(abis@),
            ) && !is_fresh_spec(self.clients@[i as int].1.logged_in_at_ms, now_ms),
            r matches ClientLookup::Ready(i) ==> i < self.clients@.len() && self.keys()[i as int] == (
                channel,
                device_name@,
                strings_view(abis@),
            ) && is_fresh_spec(self.clients@[i as int].1.logged_in_at_ms, now_ms),
    {
        match self.find(channel, device_name, abis) {
            None => ClientLookup::Missing,
            Some(i) => if self.needs_login(i, now_ms) {
                ClientLookup::NeedsLogin(i)
            } else {
                ClientLookup::Ready(i)
            },
        }
    }

    /// Whether the client at `i` must log in before it serves a request at `now_ms`.
    pub fn needs_login(&self, i: usize, now_ms: u64) -> (r: bool)
        requires
            i < self.clients@.len(),
        ensures
            r == !is_fresh_spec(self.clients@[i as int].1.logged_in_at_ms, now_ms),
    {
        !is_fresh(self.clients[i].1.logged_in_at_ms, now_ms)
    }

    /// Records that the client at `i` logged in at `now_ms`.
    pub fn mark_logged_in(&mut self, i: usize, now_ms: u64)
        requires
            i < old(self).clients@.len(),
        ensures
            final(self).clients@.len() == old(self).clients@.len(),
            final(self).keys() == old(self).keys(),
            final(self).clients@[i as int].1.logged_in_at_ms == Some(now_ms),
            final(self).clients@[i as int].1.client == old(self).clients@[i as int].1.client,
            forall|j: int| 0 <= j < old(self).clients@.len() && j != i ==> final(self).clients@[j] == old(self).clients@[j],
    {
        let entry = &mut self.clients[i].1;
        entry.logged_in_at_ms = Some(now_ms);
        assert(self.keys() =~= old(self).keys());
    }

    /// The client at `i`.
    pub fn client(&self, i: usize) -> (r: &GooglePlayClient)
        requires
            i < self.clients@.len(),
        ensures
            *r == self.clients@[i as int].1.client,
    {
        &self.clients[i].1.client
    }

    /// The client at `i`, to log in.
    pub fn client_mut(&mut self, i: usize) -> (r: &mut GooglePlayClient)
        requires
            i < old(self).clients@.len(),
        ensures
            *r == old(self).clients@[i as int].1.client,
            final(self).clients@ == old(self).clients@.update(
                i as int,
                (old(self).clients@[i as int].0, ClientEntry {
                    client: *final(r),
                    logged_in_at_ms: old(self).clients@[i as int].1.logged_in_at_ms,
                }),
            ),
    {
        &mut self.clients[i].1.client
    }
}

} // verus!

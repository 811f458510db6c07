//! Merging the download information of several devices into one.
//!
//! An app ships different splits to different devices (one per ABI, screen
//! density, locale). Asking with several devices and merging the answers
//! lists every split once.
use vstd::prelude::*;

use crate::download::{pair_view, pairs_view, DownloadInfo};
use crate::gpapi::{clone_opt, opt_view};
use crate::text::{str_eq, strings_view};

verus! {

/// The character views of a name-URL pair.
pub type PairView = (Option<Seq<char>>, Option<Seq<char>>);

/// The key by which pairs are told apart: the name, else the URL, else empty.
pub open spec fn pair_key(p: PairView) -> Seq<char> {
    match p.0 {
        Some(n) => n,
        None => match p.1 {
            Some(u) => u,
            None => Seq::empty(),
        },
    }
}

/// The keys of a list of pairs.
pub open spec fn keys_of(s: Seq<PairView>) -> Seq<Seq<char>> {
    s.map_values(|p: PairView| pair_key(p))
}

/// The pairs of `s` without those whose key came earlier, in order.
pub open spec fn dedup(s: Seq<PairView>) -> Seq<PairView>
    decreases s.len(),
{
    if s.len() == 0 {
        Seq::empty()
    } else {
        let d = dedup(s.drop_last());
        if keys_of(d).contains(pair_key(s.last())) {
            d
        } else {
            d.push(s.last())
        }
    }
}

/// The splits of all the download infos, device after device.
pub open spec fn all_splits(infos: Seq<DownloadInfo>) -> Seq<PairView>
    decreases infos.len(),
{
    if infos.len() == 0 {
        Seq::empty()
    } else {
        all_splits(infos.drop_last()) + pairs_view(infos.last().1@)
    }
}

/// The expansion files of all the download infos, device after device.
pub open spec fn all_additional_files(infos: Seq<DownloadInfo>) -> Seq<PairView>
    decreases infos.len(),
{
    if infos.len() == 0 {
        Seq::empty()
    } else {
        all_additional_files(infos.drop_last()) + pairs_view(infos.last().2@)
    }
}

/// The first main APK URL that the download infos have.
pub open spec fn first_main_url(infos: Seq<DownloadInfo>) -> Option<Seq<char>>
    decreases infos.len(),
{
    if infos.len() == 0 {
        None
    } else {
        match first_main_url(infos.drop_last()) {
            Some(u) => Some(u),
            None => opt_view(infos.last().0),
        }
    }
}

/// The first dex metadata URL that the download infos have.
pub open spec fn first_dex_metadata_url(infos: Seq<DownloadInfo>) -> Option<Seq<char>>
    decreases infos.len(),
{
    if infos.len() == 0 {
        None
    } else {
        match first_dex_metadata_url(infos.drop_last()) {
            Some(u) => Some(u),
            None => opt_view(infos.last().3),
        }
    }
}

/// The key of a pair.
fn key_of(item: &(Option<String>, Option<String>)) -> (r: String)
    ensures
        r@ == pair_key(pair_view(*item)),
{
    match &item.0 {
        Some(n) => n.clone(),
        None => match &item.1 {
            Some(u) => u.clone(),
            None => String::new(),
        },
    }
}

/// Whether `key` is among `seen`.
fn contains_key(seen: &Vec<String>, key: &str) -> (r: bool)
    ensures
        r == strings_view(seen@).contains(key@),
{
    let mut i: usize = 0;
    while i < seen.len()
        invariant
            i <= seen@.len(),
            forall|j: int| 0 <= j < i ==> seen@[j]@ != key@,
        decreases seen@.len() - i,
    {
        if str_eq(seen[i].as_str(), key) {
            assert(strings_view(seen@)[i as int] == key@);
            return true;
        }
        i = i + 1;
    }
    assert forall|j: int| 0 <= j < strings_view(seen@).len() implies strings_view(seen@)[j] != key@ by {
        assert(seen@[j]@ != key@);
    }
    false
}

/// Adds `item` to `target` unless its key is among `seen`; records its key when added.
pub fn push_unique(
    target: &mut Vec<(Option<String>, Option<String>)>,
    seen: &mut Vec<String>,
    item: (Option<String>, Option<String>),
)
    ensures
        strings_view(old(seen)@).contains(pair_key(pair_view(item))) ==> final(target)@ == old(target)@
            && final(seen)@ == old(seen)@,
        !strings_view(old(seen)@).contains(pair_key(pair_view(item))) ==> final(target)@ == old(
            target,
        )@.push(item) && strings_view(final(seen)@) == strings_view(old(seen)@).push(
            pair_key(pair_view(item)),
        ),
{
    let key = key_of(&item);
    if !contains_key(seen, key.as_str()) {
        let ghost before = seen@;
        seen.push(key);
        assert(strings_view(seen@) =~= strings_view(before).push(pair_key(pair_view(item))));
        target.push(item);
    }
}

/// A copy of a name-URL pair.
fn clone_pair(p: &(Option<String>, Option<String>)) -> (r: (Option<String>, Option<String>))
    ensures
        pair_view(r) == pair_view(*p),
{
    (clone_opt(&p.0), clone_opt(&p.1))
}

proof fn lemma_push_view(v: Seq<(Option<String>, Option<String>)>, x: (Option<String>, Option<String>))
    ensures
        pairs_view(v.push(x)) == pairs_view(v).push(pair_view(x)),
{
    assert(pairs_view(v.push(x)) =~= pairs_view(v).push(pair_view(x)));
}

/// Adds the pairs of `items` to `target`, skipping those whose key is in
/// `seen` or came earlier, as `dedup` does.
fn push_all_unique(
    target: &mut Vec<(Option<String>, Option<String>)>,
    seen: &mut Vec<String>,
    items: &Vec<(Option<String>, Option<String>)>,
    Ghost(base): Ghost<Seq<PairView>>,
)
    requires
        pairs_view(old(target)@) == dedup(base),
        strings_view(old(seen)@) == keys_of(pairs_view(old(target)@)),
    ensures
        pairs_view(final(target)@) == dedup(base + pairs_view(items@)),
        strings_view(final(seen)@) == keys_of(pairs_view(final(target)@)),
{
    for j in 0..items.len()
        invariant
            pairs_view(target@) == dedup(base + pairs_view(items@).take(j as int)),
            strings_view(seen@) == keys_of(pairs_view(target@)),
    {
        let ghost prev = base + pairs_view(items@).take(j as int);
        let ghost before = target@;
        let ghost x = pair_view(items@[j as int]);
        assert((base + pairs_view(items@).take(j + 1)).drop_last() == prev);
        assert((base + pairs_view(items@).take(j + 1)).last() == x);
        push_unique(target, seen, clone_pair(&items[j]));
        proof {
            if target@ != before {
                lemma_push_view(before, target@.last());
                assert(target@ == before.push(target@.last()));
                assert(keys_of(pairs_view(target@)) =~= keys_of(pairs_view(before)).push(pair_key(x)));
            }
        }
    }
    assert(pairs_view(items@).take(items.len() as int) == pairs_view(items@));
}

/// Merges the download infos of several devices: the first main APK URL and
/// the first dex metadata URL found, and every split and expansion file,
/// each key once, the first one met kept, in the order met.
pub fn merge_download_infos(download_infos: Vec<DownloadInfo>) -> (r: DownloadInfo)
    ensures
        opt_view(r.0) == first_main_url(download_infos@),
        pairs_view(r.1@) == dedup(all_splits(download_infos@)),
        pairs_view(r.2@) == dedup(all_additional_files(download_infos@)),
        opt_view(r.3) == first_dex_metadata_url(download_infos@),
{
    let mut main_apk_url: Option<String> = None;
    let mut splits: Vec<(Option<String>, Option<String>)> = Vec::new();
    let mut additional_files: Vec<(Option<String>, Option<String>)> = Vec::new();
    let mut dex_metadata_url: Option<String> = None;
    let mut split_names: Vec<String> = Vec::new();
    let mut additional_filenames: Vec<String> = Vec::new();
    proof {
        assert(pairs_view(splits@) =~= dedup(Seq::empty()));
        assert(keys_of(pairs_view(splits@)) =~= strings_view(split_names@));
        assert(keys_of(pairs_view(additional_files@)) =~= strings_view(additional_filenames@));
    }
    for i in 0..download_infos.len()
        invariant
            opt_view(main_apk_url) == first_main_url(download_infos@.take(i as int)),
            opt_view(dex_metadata_url) == first_dex_metadata_url(download_infos@.take(i as int)),
            pairs_view(splits@) == dedup(all_splits(download_infos@.take(i as int))),
            strings_view(split_names@) == keys_of(pairs_view(splits@)),
            pairs_view(additional_files@) == dedup(all_additional_files(download_infos@.take(i as int))),
            strings_view(additional_filenames@) == keys_of(pairs_view(additional_files@)),
    {
        let info = &download_infos[i];
        let ghost prefix = download_infos@.take(i as int);
        assert(download_infos@.take(i + 1).drop_last() == prefix);
        assert(download_infos@.take(i + 1).last() == *info);
        if main_apk_url.is_none() {
            main_apk_url = clone_opt(&info.0);
        }
        if dex_metadata_url.is_none() {
            dex_metadata_url = clone_opt(&info.3);
        }
        push_all_unique(&mut splits, &mut split_names, &info.1, Ghost(all_splits(prefix)));
        push_all_unique(
            &mut additional_files,
            &mut additional_filenames,
            &info.2,
            Ghost(all_additional_files(prefix)),
        );
    }
    assert(download_infos@.take(download_infos.len() as int) == download_infos@);
    (main_apk_url, splits, additional_files, dex_metadata_url)
}

/// No two pairs that `dedup` keeps share a key.
pub proof fn lemma_dedup_keys_unique(s: Seq<PairView>)
    ensures
        forall|i: int, j: int|
            0 <= i < j < dedup(s).len() ==> pair_key(dedup(s)[i]) != pair_key(dedup(s)[j]),
    decreases s.len(),
{
    if s.len() > 0 {
        lemma_dedup_keys_unique(s.drop_last());
        let d = dedup(s.drop_last());
        if !keys_of(d).contains(pair_key(s.last())) {
            assert forall|i: int| 0 <= i < d.len() implies pair_key(d[i]) != pair_key(s.last()) by {
                if pair_key(d[i]) == pair_key(s.last()) {
                    assert(keys_of(d)[i] == pair_key(s.last()));
                }
            }
        }
    }
}

/// Every key of `s` is the key of a pair that `dedup` keeps.
pub proof fn lemma_dedup_covers(s: Seq<PairView>)
    ensures
        forall|i: int| 0 <= i < s.len() ==> keys_of(dedup(s)).contains(pair_key(s[i])),
    decreases s.len(),
{
    if s.len() > 0 {
        lemma_dedup_covers(s.drop_last());
        let d = dedup(s.drop_last());
        assert forall|i: int| 0 <= i < s.len() implies keys_of(dedup(s)).contains(pair_key(s[i])) by {
            if i < s.len() - 1 {
                assert(s[i] == s.drop_last()[i]);
                let k = choose|k: int| 0 <= k < keys_of(d).len() && keys_of(d)[k] == pair_key(s[i]);
                if !keys_of(d).contains(pair_key(s.last())) {
                    assert(keys_of(dedup(s))[k] == keys_of(d)[k]);
                }
            } else {
                if !keys_of(d).contains(pair_key(s.last())) {
                    assert(keys_of(dedup(s))[d.len() as int] == pair_key(s.last()));
                }
            }
        }
    }
}

/// Every pair that `dedup` keeps is a pair of `s`.
pub proof fn lemma_dedup_subset(s: Seq<PairView>)
    ensures
        forall|i: int| 0 <= i < dedup(s).len() ==> s.contains(dedup(s)[i]),
    decreases s.len(),
{
    if s.len() > 0 {
        let t = s.drop_last();
        lemma_dedup_subset(t);
        let d = dedup(t);
        assert forall|i: int| 0 <= i < dedup(s).len() implies s.contains(dedup(s)[i]) by {
            if i < d.len() {
                let k = choose|k: int| 0 <= k < t.len() && t[k] == d[i];
                assert(s[k] == t[k]);
            } else {
                assert(s[s.len() - 1] == dedup(s)[i]);
            }
        }
    }
}

/// The pair at `j`, when no earlier pair has its key, is kept by `dedup`.
proof fn lemma_dedup_keeps_first_at(s: Seq<PairView>, j: int)
    requires
        0 <= j < s.len(),
        forall|k: int| 0 <= k < j ==> pair_key(s[k]) != pair_key(s[j]),
    ensures
        dedup(s).contains(s[j]),
    decreases s.len(),
{
    let t = s.drop_last();
    let d = dedup(t);
    if j < s.len() - 1 {
        assert forall|k: int| 0 <= k < j implies pair_key(t[k]) != pair_key(t[j]) by {
            assert(t[k] == s[k]);
        }
        lemma_dedup_keeps_first_at(t, j);
        let m = choose|m: int| 0 <= m < d.len() && d[m] == t[j];
        if !keys_of(d).contains(pair_key(s.last())) {
            assert(dedup(s)[m] == d[m]);
        }
    } else {
        if keys_of(d).contains(pair_key(s.last())) {
            lemma_dedup_subset(t);
            let m = choose|m: int| 0 <= m < keys_of(d).len() && keys_of(d)[m] == pair_key(s.last());
            assert(t.contains(d[m]));
            let w = choose|w: int| 0 <= w < t.len() && t[w] == d[m];
            assert(s[w] == t[w]);
            assert(pair_key(s[w]) == pair_key(s[j]));
        } else {
            assert(dedup(s)[d.len() as int] == s[j]);
        }
    }
}

/// The first pair of each key of `s` is kept by `dedup`.
pub proof fn lemma_dedup_keeps_first(s: Seq<PairView>)
    ensures
        forall|j: int|
            0 <= j < s.len() && (forall|k: int| 0 <= k < j ==> pair_key(s[k]) != pair_key(s[j]))
                ==> dedup(s).contains(s[j]),
{
    assert forall|j: int|
        0 <= j < s.len() && (forall|k: int| 0 <= k < j ==> pair_key(s[k]) != pair_key(s[j]))
            implies dedup(s).contains(s[j]) by {
        lemma_dedup_keeps_first_at(s, j);
    }
}

/// The merge lists each split key once, and lists every split key of every
/// device's download info.
pub proof fn lemma_merge_lists_every_split_once(download_infos: Seq<DownloadInfo>)
    ensures
        forall|i: int, j: int|
            0 <= i < j < dedup(all_splits(download_infos)).len() ==> pair_key(
                dedup(all_splits(download_infos))[i],
            ) != pair_key(dedup(all_splits(download_infos))[j]),
        forall|n: int, k: int|
            0 <= n < download_infos.len() && 0 <= k < download_infos[n].1@.len() ==> keys_of(
                dedup(all_splits(download_infos)),
            ).contains(pair_key(pair_view(download_infos[n].1@[k]))),
{
    lemma_dedup_keys_unique(all_splits(download_infos));
    lemma_dedup_covers(all_splits(download_infos));
    assert forall|n: int, k: int|
        0 <= n < download_infos.len() && 0 <= k < download_infos[n].1@.len() implies keys_of(
            dedup(all_splits(download_infos)),
        ).contains(pair_key(pair_view(download_infos[n].1@[k]))) by {
        lemma_all_splits_contains(download_infos, n, k);
    }
}

/// The splits of every device are among all the splits.
proof fn lemma_all_splits_contains(download_infos: Seq<DownloadInfo>, n: int, k: int)
    requires
        0 <= n < download_infos.len(),
        0 <= k < download_infos[n].1@.len(),
    ensures
        all_splits(download_infos).contains(pair_view(download_infos[n].1@[k])),
    decreases download_infos.len(),
{
    let t = download_infos.drop_last();
    let a = all_splits(t);
    let b = pairs_view(download_infos.last().1@);
    if n == download_infos.len() - 1 {
        assert((a + b)[a.len() + k] == b[k]);
    } else {
        assert(t[n] == download_infos[n]);
        lemma_all_splits_contains(t, n, k);
        let m = choose|m: int| 0 <= m < a.len() && a[m] == pair_view(download_infos[n].1@[k]);
        assert((a + b)[m] == a[m]);
    }
}

/// What a download info says, as mathematical values.
pub open spec fn info_view(i: DownloadInfo) -> (Option<Seq<char>>, Seq<PairView>, Seq<PairView>, Option<Seq<char>>) {
    (opt_view(i.0), pairs_view(i.1@), pairs_view(i.2@), opt_view(i.3))
}

/// What merging `infos` gives, as mathematical values.
pub open spec fn merged_view(infos: Seq<DownloadInfo>) -> (Option<Seq<char>>, Seq<PairView>, Seq<PairView>, Option<Seq<char>>) {
    (first_main_url(infos), dedup(all_splits(infos)), dedup(all_additional_files(infos)), first_dex_metadata_url(infos))
}

/// Pairs whose keys are all different are kept as they are.
proof fn lemma_dedup_of_unique(u: Seq<PairView>)
    requires
        forall|i: int, j: int| 0 <= i < j < u.len() ==> pair_key(u[i]) != pair_key(u[j]),
    ensures
        dedup(u) == u,
    decreases u.len(),
{
    if u.len() > 0 {
        let t = u.drop_last();
        lemma_dedup_of_unique(t);
        if keys_of(t).contains(pair_key(u.last())) {
            let k = choose|k: int| 0 <= k < keys_of(t).len() && keys_of(t)[k] == pair_key(u.last());
            assert(pair_key(u[k]) == pair_key(u[u.len() - 1]));
        }
        assert(t.push(u.last()) =~= u);
    }
}

/// Appending pairs whose keys already occur changes nothing that `dedup` keeps.
proof fn lemma_dedup_absorbs(s: Seq<PairView>, t: Seq<PairView>)
    requires
        forall|i: int| 0 <= i < t.len() ==> keys_of(s).contains(pair_key(t[i])),
    ensures
        dedup(s + t) == dedup(s),
    decreases t.len(),
{
    if t.len() == 0 {
        assert(s + t =~= s);
    } else {
        lemma_dedup_absorbs(s, t.drop_last());
        assert((s + t).drop_last() =~= s + t.drop_last());
        assert((s + t).last() == t[t.len() - 1]);
        let k = choose|k: int| 0 <= k < keys_of(s).len() && keys_of(s)[k] == pair_key(t[t.len() - 1]);
        lemma_dedup_covers(s);
        assert(keys_of(dedup(s)).contains(pair_key(s[k])));
    }
}

/// The splits of two lists of infos are those of the first, then those of the second.
proof fn lemma_all_splits_append(a: Seq<DownloadInfo>, b: Seq<DownloadInfo>)
    ensures
        all_splits(a + b) == all_splits(a) + all_splits(b),
        all_additional_files(a + b) == all_additional_files(a) + all_additional_files(b),
    decreases b.len(),
{
    if b.len() == 0 {
        assert(a + b =~= a);
    } else {
        lemma_all_splits_append(a, b.drop_last());
        assert((a + b).drop_last() =~= a + b.drop_last());
        assert((a + b).last() == b.last());
    }
}

/// The first URLs of two lists of infos are those of the first list, if it has them.
proof fn lemma_first_urls_append(a: Seq<DownloadInfo>, b: Seq<DownloadInfo>)
    ensures
        first_main_url(a + b) == (match first_main_url(a) {
            Some(u) => Some(u),
            None => first_main_url(b),
        }),
        first_dex_metadata_url(a + b) == (match first_dex_metadata_url(a) {
            Some(u) => Some(u),
            None => first_dex_metadata_url(b),
        }),
    decreases b.len(),
{
    if b.len() == 0 {
        assert(a + b =~= a);
    } else {
        lemma_first_urls_append(a, b.drop_last());
        assert((a + b).drop_last() =~= a + b.drop_last());
        assert((a + b).last() == b.last());
    }
}

/// Every key of `s` occurs among the keys of `s`.
proof fn lemma_own_keys(s: Seq<PairView>)
    ensures
        forall|i: int| 0 <= i < s.len() ==> keys_of(s).contains(pair_key(s[i])),
{
    assert forall|i: int| 0 <= i < s.len() implies keys_of(s).contains(pair_key(s[i])) by {
        assert(keys_of(s)[i] == pair_key(s[i]));
    }
}

/// Merging is idempotent: merging the result of a merge again, alone, gives
/// the same, and merging a list of download infos twice over gives what
/// merging it once gives.
pub proof fn lemma_merge_idempotent(infos: Seq<DownloadInfo>, merged: DownloadInfo)
    requires
        info_view(merged) == merged_view(infos),
    ensures
        merged_view(seq![merged]) == merged_view(infos),
        merged_view(infos + infos) == merged_view(infos),
{
    let one = seq![merged];
    assert(one.drop_last() =~= Seq::<DownloadInfo>::empty());
    assert(one.last() == merged);
    assert(all_splits(one.drop_last()) =~= Seq::<PairView>::empty());
    assert(all_additional_files(one.drop_last()) =~= Seq::<PairView>::empty());
    assert(first_main_url(one.drop_last()) is None);
    assert(first_dex_metadata_url(one.drop_last()) is None);
    assert(first_main_url(one) == opt_view(merged.0));
    assert(first_dex_metadata_url(one) == opt_view(merged.3));
    assert(all_splits(one) =~= pairs_view(merged.1@));
    assert(all_additional_files(one) =~= pairs_view(merged.2@));
    lemma_dedup_keys_unique(all_splits(infos));
    lemma_dedup_keys_unique(all_additional_files(infos));
    lemma_dedup_of_unique(dedup(all_splits(infos)));
    lemma_dedup_of_unique(dedup(all_additional_files(infos)));
    lemma_all_splits_append(infos, infos);
    lemma_first_urls_append(infos, infos);
    lemma_own_keys(all_splits(infos));
    lemma_own_keys(all_additional_files(infos));
    lemma_dedup_absorbs(all_splits(infos), all_splits(infos));
    lemma_dedup_absorbs(all_additional_files(infos), all_additional_files(infos));
}

/// The main APK URL of a merge is that of the first download info that has
/// one; there is none only when no info has one.
pub proof fn lemma_first_main_url(infos: Seq<DownloadInfo>)
    ensures
        match first_main_url(infos) {
            Some(u) => exists|i: int|
                0 <= i < infos.len() && opt_view(#[trigger] infos[i].0) == Some(u) && forall|j: int|
                    0 <= j < i ==> infos[j].0 is None,
            None => forall|i: int| 0 <= i < infos.len() ==> infos[i].0 is None,
        },
    decreases infos.len(),
{
    if infos.len() > 0 {
        let init = infos.drop_last();
        lemma_first_main_url(init);
        match first_main_url(init) {
            Some(u) => {
                let i = choose|i: int|
                    0 <= i < init.len() && opt_view(#[trigger] init[i].0) == Some(u) && forall|j: int|
                        0 <= j < i ==> init[j].0 is None;
                assert(infos[i] == init[i]);
                assert forall|j: int| 0 <= j < i implies infos[j].0 is None by {
                    assert(infos[j] == init[j]);
                }
            },
            None => {
                assert forall|j: int| 0 <= j < infos.len() - 1 implies infos[j].0 is None by {
                    assert(infos[j] == init[j]);
                }
                if infos.last().0 is Some {
                    assert(opt_view(infos[infos.len() - 1].0) == first_main_url(infos));
                }
            },
        }
    }
}

/// The dex metadata URL of a merge is that of the first download info that
/// has one; there is none only when no info has one.
pub proof fn lemma_first_dex_metadata_url(infos: Seq<DownloadInfo>)
    ensures
        match first_dex_metadata_url(infos) {
            Some(u) => exists|i: int|
                0 <= i < infos.len() && opt_view(#[trigger] infos[i].3) == Some(u) && forall|j: int|
                    0 <= j < i ==> infos[j].3 is None,
            None => forall|i: int| 0 <= i < infos.len() ==> infos[i].3 is None,
        },
    decreases infos.len(),
{
    if infos.len() > 0 {
        let init = infos.drop_last();
        lemma_first_dex_metadata_url(init);
        match first_dex_metadata_url(init) {
            Some(u) => {
                let i = choose|i: int|
                    0 <= i < init.len() && opt_view(#[trigger] init[i].3) == Some(u) && forall|j: int|
                        0 <= j < i ==> init[j].3 is None;
                assert(infos[i] == init[i]);
                assert forall|j: int| 0 <= j < i implies infos[j].3 is None by {
                    assert(infos[j] == init[j]);
                }
            },
            None => {
                assert forall|j: int| 0 <= j < infos.len() - 1 implies infos[j].3 is None by {
                    assert(infos[j] == init[j]);
                }
                if infos.last().3 is Some {
                    assert(opt_view(infos[infos.len() - 1].3) == first_dex_metadata_url(infos));
                }
            },
        }
    }
}

/// Whether `i` is the first position in `s` of a pair with key `k`.
pub open spec fn first_of_key(s: Seq<PairView>, k: Seq<char>, i: int) -> bool {
    &&& 0 <= i < s.len()
    &&& pair_key(s[i]) == k
    &&& forall|j: int| 0 <= j < i ==> pair_key(s[j]) != k
}

/// Whether `p` is the first pair of its key in `s`.
pub open spec fn first_of_its_key(s: Seq<PairView>, p: PairView) -> bool {
    exists|i: int| #[trigger] first_of_key(s, pair_key(p), i) && s[i] == p
}

/// A key's first position in `s`, seen from `s` with one more pair.
proof fn lemma_first_of_key_push(s: Seq<PairView>, x: PairView, k: Seq<char>, i: int)
    requires
        i < s.len(),
    ensures
        first_of_key(s.push(x), k, i) <==> first_of_key(s, k, i),
{
    let t = s.push(x);
    if 0 <= i {
        assert(t[i] == s[i]);
        assert forall|j: int| 0 <= j < i implies t[j] == s[j] by {}
    }
}

/// The pairs that `dedup` keeps are, each, the first pair of its key in `s`,
/// and they come in the order in which their keys first occur in `s`.
pub proof fn lemma_dedup_in_order(s: Seq<PairView>)
    ensures
        forall|a: int| 0 <= a < dedup(s).len() ==> first_of_its_key(s, #[trigger] dedup(s)[a]),
        forall|a: int, b: int, i: int, j: int|
            0 <= a < b < dedup(s).len() && #[trigger] first_of_key(s, pair_key(dedup(s)[a]), i) && #[trigger] first_of_key(
                s,
                pair_key(dedup(s)[b]),
                j,
            ) ==> i < j,
    decreases s.len(),
{
    if s.len() == 0 {
        assert(dedup(s).len() == 0);
    } else {
        let t = s.drop_last();
        let x = s.last();
        let n = t.len() as int;
        assert(t.push(x) =~= s);
        lemma_dedup_in_order(t);
        let d = dedup(t);
        // a key first seen in `t` has the same first position in `s`
        assert forall|a: int, i: int| 0 <= a < d.len() && #[trigger] first_of_key(s, pair_key(d[a]), i) implies i < n
            && first_of_key(t, pair_key(d[a]), i) by {
            let i0 = choose|i0: int| #[trigger] first_of_key(t, pair_key(d[a]), i0) && t[i0] == d[a];
            lemma_first_of_key_push(t, x, pair_key(d[a]), i0);
            if i != i0 {
                if i < i0 {
                } else {
                    assert(pair_key(s[i0]) == pair_key(d[a]));
                }
            }
        }
        assert forall|a: int| 0 <= a < d.len() implies first_of_its_key(s, #[trigger] d[a]) by {
            let i0 = choose|i0: int| #[trigger] first_of_key(t, pair_key(d[a]), i0) && t[i0] == d[a];
            lemma_first_of_key_push(t, x, pair_key(d[a]), i0);
            assert(s[i0] == t[i0]);
        }
        if keys_of(d).contains(pair_key(x)) {
            assert(dedup(s) == d);
            assert forall|a: int| 0 <= a < dedup(s).len() implies first_of_its_key(s, #[trigger] dedup(s)[a]) by {
                assert(dedup(s)[a] == d[a]);
            }
        } else {
            assert(dedup(s) == d.push(x));
            lemma_dedup_covers(t);
            assert forall|j: int| 0 <= j < n implies pair_key(s[j]) != pair_key(x) by {
                assert(s[j] == t[j]);
                if pair_key(t[j]) == pair_key(x) {
                    assert(keys_of(d).contains(pair_key(t[j])));
                }
            }
            assert(first_of_key(s, pair_key(x), n));
            assert(dedup(s)[d.len() as int] == x);
            assert forall|a: int| 0 <= a < dedup(s).len() implies first_of_its_key(s, #[trigger] dedup(s)[a]) by {
                if a < d.len() {
                    assert(dedup(s)[a] == d[a]);
                } else {
                    assert(s[n] == x);
                    assert(first_of_key(s, pair_key(dedup(s)[a]), n));
                }
            }
            assert forall|a: int, b: int, i: int, j: int|
                0 <= a < b < dedup(s).len() && #[trigger] first_of_key(s, pair_key(dedup(s)[a]), i)
                    && #[trigger] first_of_key(s, pair_key(dedup(s)[b]), j) implies i < j by {
                assert(dedup(s)[a] == d[a]);
                if b < d.len() {
                    assert(dedup(s)[b] == d[b]);
                } else {
                    if j != n {
                        if j < n {
                            assert(pair_key(s[j]) == pair_key(x));
                        } else {
                            assert(pair_key(s[n]) == pair_key(x));
                        }
                    }
                }
            }
        }
    }
}

/// The expansion files of every device are among all the files.
proof fn lemma_all_files_contains(download_infos: Seq<DownloadInfo>, n: int, k: int)
    requires
        0 <= n < download_infos.len(),
        0 <= k < download_infos[n].2@.len(),
    ensures
        all_additional_files(download_infos).contains(pair_view(download_infos[n].2@[k])),
    decreases download_infos.len(),
{
    let t = download_infos.drop_last();
    let a = all_additional_files(t);
    let b = pairs_view(download_infos.last().2@);
    if n == download_infos.len() - 1 {
        assert((a + b)[a.len() + k] == b[k]);
    } else {
        assert(t[n] == download_infos[n]);
        lemma_all_files_contains(t, n, k);
        let m = choose|m: int| 0 <= m < a.len() && a[m] == pair_view(download_infos[n].2@[k]);
        assert((a + b)[m] == a[m]);
    }
}

/// Whether `p` is a split of some device's download info.
pub open spec fn some_device_split(download_infos: Seq<DownloadInfo>, p: PairView) -> bool {
    exists|n: int, k: int|
        0 <= n < download_infos.len() && 0 <= k < download_infos[n].1@.len() && p == pair_view(
            #[trigger] download_infos[n].1@[k],
        )
}

/// Whether `p` is an expansion file of some device's download info.
pub open spec fn some_device_file(download_infos: Seq<DownloadInfo>, p: PairView) -> bool {
    exists|n: int, k: int|
        0 <= n < download_infos.len() && 0 <= k < download_infos[n].2@.len() && p == pair_view(
            #[trigger] download_infos[n].2@[k],
        )
}

/// Every pair among all the splits (files) is a split (file) of some device.
proof fn lemma_all_from_devices(download_infos: Seq<DownloadInfo>)
    ensures
        forall|m: int|
            0 <= m < all_splits(download_infos).len() ==> some_device_split(
                download_infos,
                #[trigger] all_splits(download_infos)[m],
            ),
        forall|m: int|
            0 <= m < all_additional_files(download_infos).len() ==> some_device_file(
                download_infos,
                #[trigger] all_additional_files(download_infos)[m],
            ),
    decreases download_infos.len(),
{
    if download_infos.len() > 0 {
        let t = download_infos.drop_last();
        let last = download_infos.len() - 1;
        lemma_all_from_devices(t);
        assert forall|m: int| 0 <= m < all_splits(download_infos).len() implies some_device_split(
            download_infos,
            #[trigger] all_splits(download_infos)[m],
        ) by {
            let a = all_splits(t);
            if m < a.len() {
                assert(all_splits(download_infos)[m] == a[m]);
                assert(some_device_split(t, a[m]));
                let (n, k) = choose|n: int, k: int|
                    0 <= n < t.len() && 0 <= k < t[n].1@.len() && a[m] == pair_view(#[trigger] t[n].1@[k]);
                assert(t[n] == download_infos[n]);
            } else {
                let k = m - a.len();
                assert(all_splits(download_infos)[m] == pair_view(download_infos[last].1@[k]));
            }
        }
        assert forall|m: int| 0 <= m < all_additional_files(download_infos).len() implies some_device_file(
            download_infos,
            #[trigger] all_additional_files(download_infos)[m],
        ) by {
            let a = all_additional_files(t);
            if m < a.len() {
                assert(all_additional_files(download_infos)[m] == a[m]);
                assert(some_device_file(t, a[m]));
                let (n, k) = choose|n: int, k: int|
                    0 <= n < t.len() && 0 <= k < t[n].2@.len() && a[m] == pair_view(#[trigger] t[n].2@[k]);
                assert(t[n] == download_infos[n]);
            } else {
                let k = m - a.len();
                assert(all_additional_files(download_infos)[m] == pair_view(download_infos[last].2@[k]));
            }
        }
    }
}

/// The merge lists each expansion file name once, lists the name of every
/// file of every device, and lists only files that some device has; the same
/// holds of splits, which list only splits that some device has.
pub proof fn lemma_merge_lists_every_file_once(download_infos: Seq<DownloadInfo>)
    ensures
        forall|i: int, j: int|
            0 <= i < j < dedup(all_additional_files(download_infos)).len() ==> pair_key(
                dedup(all_additional_files(download_infos))[i],
            ) != pair_key(dedup(all_additional_files(download_infos))[j]),
        forall|n: int, k: int|
            0 <= n < download_infos.len() && 0 <= k < download_infos[n].2@.len() ==> keys_of(
                dedup(all_additional_files(download_infos)),
            ).contains(pair_key(pair_view(download_infos[n].2@[k]))),
        forall|m: int|
            0 <= m < dedup(all_additional_files(download_infos)).len() ==> some_device_file(
                download_infos,
                #[trigger] dedup(all_additional_files(download_infos))[m],
            ),
        forall|m: int|
            0 <= m < dedup(all_splits(download_infos)).len() ==> some_device_split(
                download_infos,
                #[trigger] dedup(all_splits(download_infos))[m],
            ),
{
    let files = all_additional_files(download_infos);
    let splits = all_splits(download_infos);
    lemma_dedup_keys_unique(files);
    lemma_dedup_covers(files);
    lemma_dedup_subset(files);
    lemma_dedup_subset(splits);
    lemma_all_from_devices(download_infos);
    assert forall|n: int, k: int|
        0 <= n < download_infos.len() && 0 <= k < download_infos[n].2@.len() implies keys_of(dedup(files)).contains(
        pair_key(pair_view(download_infos[n].2@[k])),
    ) by {
        lemma_all_files_contains(download_infos, n, k);
        let m = choose|m: int| 0 <= m < files.len() && files[m] == pair_view(download_infos[n].2@[k]);
        assert(keys_of(dedup(files)).contains(pair_key(files[m])));
    }
    assert forall|m: int| 0 <= m < dedup(files).len() implies some_device_file(
        download_infos,
        #[trigger] dedup(files)[m],
    ) by {
        assert(files.contains(dedup(files)[m]));
        let w = choose|w: int| 0 <= w < files.len() && files[w] == dedup(files)[m];
        assert(some_device_file(download_infos, files[w]));
    }
    assert forall|m: int| 0 <= m < dedup(splits).len() implies some_device_split(
        download_infos,
        #[trigger] dedup(splits)[m],
    ) by {
        assert(splits.contains(dedup(splits)[m]));
        let w = choose|w: int| 0 <= w < splits.len() && splits[w] == dedup(splits)[m];
        assert(some_device_split(download_infos, splits[w]));
    }
}

} // verus!

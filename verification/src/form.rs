//! URL-form bodies: the replies of Google's auth endpoint and the bodies posted to it.
use vstd::prelude::*;

use crate::consts::{
    DEFAULT_ANDROID_VENDING, DEFAULT_CALLER_SIG, DEFAULT_COUNTRY_CODE,
    DEFAULT_GOOGLE_PLAY_SERVICES_VERSION, DEFAULT_LANGUAGE, DEFAULT_SDK, DEFAULT_SERVICE,
};
use crate::strmap::{entries_view, pairs_insert, Pairs, StrMap};
use crate::text::{all_ascii, ascii_lower, push_char, push_str, replace_char_spec, seq_join, to_lowercase, unicode_lower};

verus! {

broadcast use vstd::string::group_string_axioms;

/// The pieces of `s` between newlines so far, and the piece still open.
pub open spec fn split_lines_acc(s: Seq<char>) -> (Seq<Seq<char>>, Seq<char>)
    decreases s.len(),
{
    if s.len() == 0 {
        (Seq::empty(), Seq::empty())
    } else {
        let (done, cur) = split_lines_acc(s.drop_last());
        if s.last() == '\n' {
            (done.push(cur), Seq::empty())
        } else {
            (done, cur.push(s.last()))
        }
    }
}

/// The lines of `s` as `str::split_terminator('\n')` yields them: split at
/// every newline, with an empty last piece left out.
pub open spec fn split_lines(s: Seq<char>) -> Seq<Seq<char>> {
    let (done, cur) = split_lines_acc(s);
    if cur.len() == 0 {
        done
    } else {
        done.push(cur)
    }
}

/// The part of `s` before its first `=`, and the part after it if there is one.
pub open spec fn split_eq_acc(s: Seq<char>) -> (Seq<char>, Option<Seq<char>>)
    decreases s.len(),
{
    if s.len() == 0 {
        (Seq::empty(), None)
    } else {
        let (k, v) = split_eq_acc(s.drop_last());
        match v {
            None => if s.last() == '=' {
                (k, Some(Seq::empty()))
            } else {
                (k.push(s.last()), None)
            },
            Some(v) => (k, Some(v.push(s.last()))),
        }
    }
}

/// A key lower-cased as `str::to_lowercase` does: ASCII text by its ASCII
/// lower-case form, other text by the Unicode mapping.
pub open spec fn lower_key(k: Seq<char>) -> Seq<char> {
    if all_ascii(k) {
        ascii_lower(k)
    } else {
        unicode_lower(k)
    }
}

/// The key and value that one reply line stands for: the lower-cased text
/// before the first `=` and the text after it, or the whole lower-cased line
/// and an empty value when it holds no `=`.
pub open spec fn line_entry(line: Seq<char>) -> (Seq<char>, Seq<char>) {
    let (k, v) = split_eq_acc(line);
    match v {
        Some(v) => (lower_key(k), v),
        None => (lower_key(k), Seq::empty()),
    }
}

/// The pairs that a sequence of reply lines gives, later lines winning.
pub open spec fn reply_pairs(lines: Seq<Seq<char>>) -> Pairs
    decreases lines.len(),
{
    if lines.len() == 0 {
        Seq::empty()
    } else {
        let (k, v) = line_entry(lines.last());
        pairs_insert(reply_pairs(lines.drop_last()), k, v)
    }
}

/// The map that a sequence of reply lines gives, later lines winning.
pub open spec fn reply_map(lines: Seq<Seq<char>>) -> Map<Seq<char>, Seq<char>>
    decreases lines.len(),
{
    if lines.len() == 0 {
        Map::empty()
    } else {
        let (k, v) = line_entry(lines.last());
        reply_map(lines.drop_last()).insert(k, v)
    }
}

/// Splits one line at its first `=`.
fn split_eq(line: &str) -> (r: (String, Option<String>))
    ensures
        (r.0@, match r.1 {
            Some(v) => Some(v@),
            None => None,
        }) == split_eq_acc(line@),
{
    let mut key = String::new();
    let mut value: Option<String> = None;
    for c in it: line.chars()
        invariant
            it.seq() == line@,
            (key@, match value {
                Some(v) => Some(v@),
                None => None,
            }) == split_eq_acc(line@.take(it.index() as int)),
    {
        let ghost k = it.index() as int;
        assert(line@.take(k + 1).drop_last() == line@.take(k));
        match value {
            None => {
                if c == '=' {
                    value = Some(String::new());
                } else {
                    push_char(&mut key, c);
                }
            },
            Some(mut v) => {
                push_char(&mut v, c);
                value = Some(v);
            },
        }
    }
    assert(line@.take(line@.len() as int) == line@);
    (key, value)
}

/// Adds the entry of one reply line to `map`.
fn insert_line(map: &mut StrMap, line: &str)
    ensures
        final(map).pairs() == pairs_insert(old(map).pairs(), line_entry(line@).0, line_entry(line@).1),
        final(map)@ == old(map)@.insert(line_entry(line@).0, line_entry(line@).1),
{
    let (k, v) = split_eq(line);
    let key = to_lowercase(k.as_str());
    match v {
        Some(v) => map.insert(key.as_str(), v),
        None => map.insert(key.as_str(), String::new()),
    }
}

/// Parses a reply of Google's auth endpoint: one `key=value` entry per line,
/// keys lower-cased, later lines replacing earlier ones with the same key.
pub fn parse_form_reply(data: &str) -> (r: StrMap)
    ensures
        r.pairs() == reply_pairs(split_lines(data@)),
        r@ == reply_map(split_lines(data@)),
{
    let mut map = StrMap::new();
    let mut cur = String::new();
    for c in it: data.chars()
        invariant
            it.seq() == data@,
            split_lines_acc(data@.take(it.index() as int)).1 == cur@,
            map.pairs() == reply_pairs(split_lines_acc(data@.take(it.index() as int)).0),
            map@ == reply_map(split_lines_acc(data@.take(it.index() as int)).0),
    {
        let ghost k = it.index() as int;
        let ghost done = split_lines_acc(data@.take(k)).0;
        assert(data@.take(k + 1).drop_last() == data@.take(k));
        if c == '\n' {
            insert_line(&mut map, cur.as_str());
            assert(done.push(cur@).drop_last() == done);
            cur = String::new();
        } else {
            push_char(&mut cur, c);
        }
    }
    assert(data@.take(data@.len() as int) == data@);
    let ghost done = split_lines_acc(data@).0;
    if !cur.as_str().is_empty() {
        insert_line(&mut map, cur.as_str());
        assert(done.push(cur@).drop_last() == done);
    }
    map
}

/// The `key=value` text of one pair.
pub open spec fn form_field(p: (Seq<char>, Seq<char>)) -> Seq<char> {
    p.0 + seq!['='] + p.1
}

/// The body that `form_post` writes for `pairs`.
pub open spec fn form_body(pairs: Pairs) -> Seq<char> {
    seq_join(pairs.map_values(|p: (Seq<char>, Seq<char>)| form_field(p)), seq!['&'])
}

/// Writes the pairs of `params` as `key=value` fields joined by `&`, in the
/// map's order, each key once. Keys and values are written as they are.
pub fn form_post(params: &StrMap) -> (r: String)
    ensures
        r@ == form_body(params.pairs()),
        crate::strmap::keys_unique(params.pairs()),
{
    let entries = params.entries();
    let ghost fields = params.pairs().map_values(|p: (Seq<char>, Seq<char>)| form_field(p));
    let mut r = String::new();
    for i in 0..entries.len()
        invariant
            entries_view(entries@) == params.pairs(),
            fields == params.pairs().map_values(|p: (Seq<char>, Seq<char>)| form_field(p)),
            r@ == seq_join(fields.take(i as int), seq!['&']),
    {
        assert(fields.take(i + 1).drop_last() == fields.take(i as int));
        if i != 0 {
            push_char(&mut r, '&');
        }
        push_str(&mut r, entries[i].0.as_str());
        push_char(&mut r, '=');
        push_str(&mut r, entries[i].1.as_str());
        assert(fields[i as int] == entries[i as int].0@ + seq!['='] + entries[i as int].1@);
    }
    assert(fields.take(entries.len() as int) == fields);
    r
}

/// The form parameters of a token-exchange request with their default values.
pub open spec fn default_auth_request_map() -> Map<Seq<char>, Seq<char>> {
    Map::empty().insert("lang"@, DEFAULT_LANGUAGE@).insert(
        "google_play_services_version"@,
        DEFAULT_GOOGLE_PLAY_SERVICES_VERSION@,
    ).insert("sdk_version"@, DEFAULT_SDK@).insert("device_country"@, DEFAULT_COUNTRY_CODE@).insert(
        "Email"@,
        Seq::empty(),
    ).insert("service"@, DEFAULT_SERVICE@).insert("get_accountid"@, "1"@).insert(
        "ACCESS_TOKEN"@,
        "1"@,
    ).insert("callerPkg"@, DEFAULT_ANDROID_VENDING@).insert("add_account"@, "1"@).insert(
        "Token"@,
        Seq::empty(),
    ).insert("callerSig"@, DEFAULT_CALLER_SIG@)
}

/// The form parameters of a request that exchanges an OAuth token for an AAS token.
pub struct AuthRequest {
    pub params: StrMap,
}

impl Default for AuthRequest {
    fn default() -> (r: Self)
        ensures
            r.params@ == default_auth_request_map(),
    {
        let mut params = StrMap::new();
        params.insert("lang", DEFAULT_LANGUAGE.to_owned());
        params.insert(
            "google_play_services_version",
            DEFAULT_GOOGLE_PLAY_SERVICES_VERSION.to_owned(),
        );
        params.insert("sdk_version", DEFAULT_SDK.to_owned());
        params.insert("device_country", DEFAULT_COUNTRY_CODE.to_owned());
        params.insert("Email", String::new());
        params.insert("service", DEFAULT_SERVICE.to_owned());
        params.insert("get_accountid", "1".to_owned());
        params.insert("ACCESS_TOKEN", "1".to_owned());
        params.insert("callerPkg", DEFAULT_ANDROID_VENDING.to_owned());
        params.insert("add_account", "1".to_owned());
        params.insert("Token", String::new());
        params.insert("callerSig", DEFAULT_CALLER_SIG.to_owned());
        Self { params }
    }
}

impl AuthRequest {
    /// The default request, with `email` and `oauth_token` filled in.
    pub fn new(email: &str, oauth_token: &str) -> (r: Self)
        ensures
            r.params@ == default_auth_request_map().insert("Email"@, email@).insert(
                "Token"@,
                oauth_token@,
            ),
    {
        let mut auth_request = Self::default();
        auth_request.params.insert("Email", email.to_owned());
        auth_request.params.insert("Token", oauth_token.to_owned());
        auth_request
    }
}

/// Replacing a character in two joined texts is replacing it in each.
proof fn lemma_replace_append(a: Seq<char>, b: Seq<char>, from: char, to: Seq<char>)
    ensures
        replace_char_spec(a + b, from, to) == replace_char_spec(a, from, to) + replace_char_spec(b, from, to),
    decreases b.len(),
{
    if b.len() == 0 {
        assert(a + b =~= a);
        assert(replace_char_spec(a, from, to) + replace_char_spec(b, from, to) =~= replace_char_spec(a, from, to));
    } else {
        lemma_replace_append(a, b.drop_last(), from, to);
        assert((a + b).drop_last() =~= a + b.drop_last());
        assert((a + b).last() == b.last());
        let last = if b.last() == from { to } else { seq![b.last()] };
        assert(replace_char_spec(a, from, to) + replace_char_spec(b.drop_last(), from, to) + last
            =~= replace_char_spec(a, from, to) + (replace_char_spec(b.drop_last(), from, to) + last));
    }
}

/// A text without the character is left as it is.
proof fn lemma_replace_absent(s: Seq<char>, from: char, to: Seq<char>)
    requires
        !s.contains(from),
    ensures
        replace_char_spec(s, from, to) == s,
    decreases s.len(),
{
    if s.len() > 0 {
        assert(!s.drop_last().contains(from)) by {
            if s.drop_last().contains(from) {
                let i = choose|i: int| 0 <= i < s.drop_last().len() && s.drop_last()[i] == from;
                assert(s[i] == from);
            }
        }
        lemma_replace_absent(s.drop_last(), from, to);
        assert(s[s.len() - 1] != from);
        assert(s.drop_last() + seq![s.last()] =~= s);
    }
}

/// Replacing the separator `&` of joined fields without `&` by a newline
/// joins them by newlines.
proof fn lemma_replace_join(fields: Seq<Seq<char>>)
    requires
        forall|i: int| 0 <= i < fields.len() ==> !fields[i].contains('&'),
    ensures
        replace_char_spec(seq_join(fields, seq!['&']), '&', seq!['\n']) == seq_join(fields, seq!['\n']),
    decreases fields.len(),
{
    if fields.len() == 1 {
        lemma_replace_absent(fields[0], '&', seq!['\n']);
    } else if fields.len() > 1 {
        let init = fields.drop_last();
        lemma_replace_join(init);
        lemma_replace_append(seq_join(init, seq!['&']) + seq!['&'], fields.last(), '&', seq!['\n']);
        lemma_replace_append(seq_join(init, seq!['&']), seq!['&'], '&', seq!['\n']);
        lemma_replace_absent(fields.last(), '&', seq!['\n']);
        assert(replace_char_spec(seq!['&'], '&', seq!['\n']) =~= seq!['\n']) by {
            assert(seq!['&'].drop_last() =~= Seq::<char>::empty());
            assert(seq!['&'].last() == '&');
            assert(replace_char_spec(Seq::<char>::empty(), '&', seq!['\n']) == Seq::<char>::empty());
            assert(Seq::<char>::empty() + seq!['\n'] =~= seq!['\n']);
        }
    }
}

/// Text without a newline continues the open piece of the lines.
proof fn lemma_split_lines_acc_append(x: Seq<char>, b: Seq<char>)
    requires
        !b.contains('\n'),
    ensures
        split_lines_acc(x + b) == (split_lines_acc(x).0, split_lines_acc(x).1 + b),
    decreases b.len(),
{
    if b.len() == 0 {
        assert(x + b =~= x);
        assert(split_lines_acc(x).1 + b =~= split_lines_acc(x).1);
    } else {
        assert(!b.drop_last().contains('\n')) by {
            if b.drop_last().contains('\n') {
                let i = choose|i: int| 0 <= i < b.drop_last().len() && b.drop_last()[i] == '\n';
                assert(b[i] == '\n');
            }
        }
        lemma_split_lines_acc_append(x, b.drop_last());
        assert((x + b).drop_last() =~= x + b.drop_last());
        assert((x + b).last() == b.last());
        assert(b[b.len() - 1] != '\n');
        assert((split_lines_acc(x).1 + b.drop_last()).push(b.last()) =~= split_lines_acc(x).1 + b);
    }
}

/// Newline-joined pieces without newlines split back into all but the last
/// piece, with the last piece open.
proof fn lemma_split_join(fields: Seq<Seq<char>>)
    requires
        fields.len() > 0,
        forall|i: int| 0 <= i < fields.len() ==> !fields[i].contains('\n'),
    ensures
        split_lines_acc(seq_join(fields, seq!['\n'])) == (fields.drop_last(), fields.last()),
    decreases fields.len(),
{
    if fields.len() == 1 {
        lemma_split_lines_acc_append(Seq::empty(), fields[0]);
        assert(Seq::<char>::empty() + fields[0] =~= fields[0]);
        assert(Seq::<char>::empty() + fields[0] =~= fields[0]);
        assert(fields.drop_last() =~= Seq::<Seq<char>>::empty());
    } else {
        let init = fields.drop_last();
        lemma_split_join(init);
        let x = seq_join(init, seq!['\n']) + seq!['\n'];
        assert(x.drop_last() =~= seq_join(init, seq!['\n']));
        assert(x.last() == '\n');
        lemma_split_lines_acc_append(x, fields.last());
        assert(Seq::<char>::empty() + fields.last() =~= fields.last());
        assert(init.drop_last().push(init.last()) =~= init);
    }
}

/// A text without `=` is all key.
proof fn lemma_split_eq_no_eq(k: Seq<char>)
    requires
        !k.contains('='),
    ensures
        split_eq_acc(k) == (k, None::<Seq<char>>),
    decreases k.len(),
{
    if k.len() > 0 {
        assert(!k.drop_last().contains('=')) by {
            if k.drop_last().contains('=') {
                let i = choose|i: int| 0 <= i < k.drop_last().len() && k.drop_last()[i] == '=';
                assert(k[i] == '=');
            }
        }
        lemma_split_eq_no_eq(k.drop_last());
        assert(k[k.len() - 1] != '=');
        assert(k.drop_last().push(k.last()) =~= k);
    }
}

/// After the first `=`, the rest of a line goes to the value.
proof fn lemma_split_eq_value(x: Seq<char>, v: Seq<char>)
    requires
        split_eq_acc(x).1 is Some,
    ensures
        split_eq_acc(x + v) == (split_eq_acc(x).0, Some(split_eq_acc(x).1->0 + v)),
    decreases v.len(),
{
    if v.len() == 0 {
        assert(x + v =~= x);
        assert(split_eq_acc(x).1->0 + v =~= split_eq_acc(x).1->0);
    } else {
        lemma_split_eq_value(x, v.drop_last());
        assert((x + v).drop_last() =~= x + v.drop_last());
        assert((x + v).last() == v.last());
        assert((split_eq_acc(x).1->0 + v.drop_last()).push(v.last()) =~= split_eq_acc(x).1->0 + v);
    }
}

/// The `key=value` text of a pair whose key has no `=` reads back as the pair,
/// its key lower-cased.
proof fn lemma_line_entry_field(k: Seq<char>, v: Seq<char>)
    requires
        !k.contains('='),
    ensures
        line_entry(form_field((k, v))) == (lower_key(k), v),
{
    lemma_split_eq_no_eq(k);
    let x = k + seq!['='];
    assert(x.drop_last() =~= k);
    assert(x.last() == '=');
    assert(split_eq_acc(x) == (k, Some(Seq::<char>::empty())));
    lemma_split_eq_value(x, v);
    assert(Seq::<char>::empty() + v =~= v);
}

/// The reply lines made of the fields of `p` give the map that `p` stands for.
proof fn lemma_reply_map_fields(p: Pairs)
    requires
        crate::strmap::keys_unique(p),
        forall|i: int| 0 <= i < p.len() ==> lower_key(#[trigger] p[i].0) == p[i].0 && !p[i].0.contains('='),
    ensures
        reply_map(p.map_values(|q: (Seq<char>, Seq<char>)| form_field(q))) == crate::strmap::pairs_to_map(p),
    decreases p.len(),
{
    let lines = p.map_values(|q: (Seq<char>, Seq<char>)| form_field(q));
    if p.len() == 0 {
        assert(crate::strmap::pairs_to_map(p) =~= Map::<Seq<char>, Seq<char>>::empty());
    } else {
        let init = p.drop_last();
        let (k, v) = p.last();
        assert(crate::strmap::keys_unique(init));
        lemma_reply_map_fields(init);
        assert(lines.drop_last() =~= init.map_values(|q: (Seq<char>, Seq<char>)| form_field(q)));
        assert(p[p.len() - 1] == (k, v));
        lemma_line_entry_field(k, v);
        assert(!crate::strmap::has_key(init, k)) by {
            if crate::strmap::has_key(init, k) {
                let i = choose|i: int| 0 <= i < init.len() && init[i].0 == k;
                assert(p[i].0 == init[i].0);
            }
        }
        assert(crate::strmap::pairs_insert(init, k, v) =~= p);
        crate::strmap::lemma_pairs_insert(init, k, v);
    }
}

/// The form body of pairs, its `&` separators turned into newlines, parses
/// back as a reply into the map of those pairs, when keys are unique, already
/// lower-case (as `str::to_lowercase` reads them) and free of `=`, `&` and newlines, and values are free of `&`
/// and newlines.
pub proof fn lemma_form_round_trip(p: Pairs)
    requires
        crate::strmap::keys_unique(p),
        forall|i: int|
            0 <= i < p.len() ==> {
                &&& lower_key(#[trigger] p[i].0) == p[i].0
                &&& !p[i].0.contains('=')
                &&& !p[i].0.contains('&')
                &&& !p[i].0.contains('\n')
                &&& !p[i].1.contains('&')
                &&& !p[i].1.contains('\n')
            },
    ensures
        reply_map(split_lines(replace_char_spec(form_body(p), '&', seq!['\n']))) == crate::strmap::pairs_to_map(p),
{
    let fields = p.map_values(|q: (Seq<char>, Seq<char>)| form_field(q));
    assert forall|i: int| 0 <= i < fields.len() implies !fields[i].contains('&') && !fields[i].contains('\n')
        && fields[i].len() > 0 by {
        let f = fields[i];
        assert(f == p[i].0 + seq!['='] + p[i].1);
        assert(f[p[i].0.len() as int] == '=');
        if f.contains('&') || f.contains('\n') {
            let j = choose|j: int| 0 <= j < f.len() && (f[j] == '&' || f[j] == '\n');
            if j < p[i].0.len() {
                assert(p[i].0[j] == f[j]);
            } else if j > p[i].0.len() {
                assert(p[i].1[j - p[i].0.len() - 1] == f[j]);
            }
        }
    }
    lemma_replace_join(fields);
    lemma_reply_map_fields(p);
    if fields.len() > 0 {
        lemma_split_join(fields);
        assert(fields.drop_last().push(fields.last()) =~= fields);
    } else {
        assert(seq_join(fields, seq!['\n']) =~= Seq::<char>::empty());
        assert(split_lines_acc(Seq::<char>::empty()) == (Seq::<Seq<char>>::empty(), Seq::<char>::empty()));
    }
}

} // verus!

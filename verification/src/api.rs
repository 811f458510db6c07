//! What the HTTP API answers: status codes and messages of its endpoints.
use vstd::prelude::*;

use crate::channel::{channel_name, Channel};
use crate::text::{parse_i64, parse_i64_spec, push_str, seq_join, strings_view};

verus! {

/// The answer of an endpoint: the data, or a status code with an error message.
pub enum ApiOutcome<T> {
    Success(T),
    Failure { status: u16, message: String },
}

/// The message of an app that is not found: `App '<package>' not found`.
pub open spec fn not_found_text(package_name: Seq<char>) -> Seq<char> {
    "App '"@ + package_name + "' not found"@
}

/// What an endpoint answers for a lookup of `package_name`: the data when
/// found, 404 when the app is not found, 500 with the error otherwise.
pub fn lookup_outcome<T>(package_name: &str, result: Result<Option<T>, String>) -> (r: ApiOutcome<T>)
    ensures
        match result {
            Ok(Some(x)) => r == ApiOutcome::Success(x),
            Ok(None) => r matches ApiOutcome::Failure { status, message } && status == 404 && message@
                == not_found_text(package_name@),
            Err(e) => r matches ApiOutcome::Failure { status, message } && status == 500 && message@ == e@,
        },
{
    match result {
        Ok(Some(x)) => ApiOutcome::Success(x),
        Ok(None) => {
            let mut message = "App '".to_owned();
            push_str(&mut message, package_name);
            push_str(&mut message, "' not found");
            ApiOutcome::Failure { status: 404, message }
        },
        Err(e) => ApiOutcome::Failure { status: 500, message: e },
    }
}

/// The outcome of a download lookup: that of [`lookup_outcome`], except that
/// when every device failed because none of them knows the app or version,
/// it is 404 with the not-found message.
pub fn download_outcome<T>(
    package_name: &str,
    result: Result<Option<T>, String>,
    every_target_not_found: bool,
) -> (r: ApiOutcome<T>)
    ensures
        match result {
            Ok(Some(x)) => r == ApiOutcome::Success(x),
            Ok(None) => r matches ApiOutcome::Failure { status, message } && status == 404 && message@
                == not_found_text(package_name@),
            Err(e) => if every_target_not_found {
                r matches ApiOutcome::Failure { status, message } && status == 404 && message@ == not_found_text(
                    package_name@,
                )
            } else {
                r matches ApiOutcome::Failure { status, message } && status == 500 && message@ == e@
            },
        },
{
    match result {
        Err(_) if every_target_not_found => lookup_outcome(package_name, Ok(None)),
        other => lookup_outcome(package_name, other),
    }
}

/// Reads the channel of a request path: a bad name is answered with 400
/// and the parse error.
pub fn channel_param<T>(channel: &str) -> (r: Result<Channel, ApiOutcome<T>>)
    ensures
        match crate::channel::parse_channel_spec(channel@) {
            Ok(c) => r == Ok::<Channel, ApiOutcome<T>>(c),
            Err(m) => r matches Err(ApiOutcome::Failure { status, message }) && status == 400 && message@
                == m,
        },
{
    match Channel::from_str(channel) {
        Ok(c) => Ok(c),
        Err(message) => Err(ApiOutcome::Failure { status: 400, message }),
    }
}

/// The `X-Available-Channels` header: the channel names joined by commas.
pub fn available_channels_header(channels: &Vec<Channel>) -> (r: String)
    ensures
        r@ == seq_join(channels@.map_values(|c: Channel| channel_name(c)), ","@),
{
    let mut names: Vec<String> = Vec::new();
    for i in 0..channels.len()
        invariant
            strings_view(names@) == channels@.take(i as int).map_values(|c: Channel| channel_name(c)),
    {
        let ghost before = names@;
        names.push(channels[i].to_string());
        assert(strings_view(names@) =~= strings_view(before).push(names@.last()@));
        assert(channels@.take(i + 1).map_values(|c: Channel| channel_name(c)) =~= channels@.take(
            i as int,
        ).map_values(|c: Channel| channel_name(c)).push(channel_name(channels@[i as int])));
    }
    assert(channels@.take(channels.len() as int) == channels@);
    crate::text::join(&names, ",")
}

/// The version code of a download path: its number, or 0 when it is
/// missing or not a number.
pub fn version_code_param(param: Option<&str>) -> (r: i64)
    ensures
        r == match param {
            Some(s) => match parse_i64_spec(s@) {
                Some(v) => v,
                None => 0,
            },
            None => 0,
        },
{
    match param {
        Some(s) => match parse_i64(s) {
            Some(v) => v,
            None => 0,
        },
        None => 0,
    }
}

} // verus!

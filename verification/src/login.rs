//! Logging in: the decisions between the requests of a login.
//!
//! A login checks the device in, uploads its configuration, trades the AAS
//! token for an auth token and fetches the terms-of-service state, accepting
//! presented terms inline. When the terms still stand in the way afterwards,
//! the terms-of-service check is made once more.
//!
//! [`LoginFlow`] holds where a login stands. The caller sends the request
//! that each [`LoginStep`] names (built by the session's request methods),
//! and hands the reply back as a [`LoginEvent`].
use vstd::prelude::*;

use crate::error::{Error, ErrorKind};
use crate::gpapi::{error_text, is_kind, opt_view, parse_reply_bytes, same_device, Gpapi, Session};

verus! {

/// What the store answered to a terms-of-service request.
pub enum TocReply {
    /// The answer carried no payload.
    NoPayload,
    /// The payload carried no terms-of-service part.
    NoTocResponse,
    /// The terms-of-service part: its ToS token, whether it carries terms
    /// text, and the store cookie.
    Toc { tos_token: Option<String>, has_tos_content: bool, cookie: Option<String> },
}

/// A reply to the outstanding request of a login, or its failure.
pub enum LoginEvent {
    /// The check-in reply: its consistency token and Android id.
    Checkin { consistency_token: Option<String>, android_id: Option<u64> },
    /// The configuration-upload reply: `None` when it carried no upload
    /// response, else the device-config token it held.
    UploadDeviceConfig(Option<Option<String>>),
    /// The raw body of the auth-token reply.
    AuthToken(Vec<u8>),
    /// The terms-of-service reply.
    Toc(TocReply),
    /// The accept-terms reply: whether the store acknowledged it.
    AcceptTos { acknowledged: bool },
    /// The outstanding request could not be made or answered.
    Failed(Error),
}

/// What a login does next.
pub enum LoginStep {
    SendCheckin,
    SendUploadDeviceConfig,
    SendAuthToken,
    SendToc,
    SendAcceptTos,
    /// The login succeeded.
    Done,
    /// The login failed with this error.
    Failed(Error),
}

/// Which reply a login waits for.
#[derive(PartialEq, Eq, Structural, Clone, Copy)]
pub enum LoginStage {
    AwaitCheckin,
    AwaitUpload,
    AwaitAuth,
    AwaitToc,
    AwaitAcceptTos,
    Finished,
}

/// Where a login stands.
pub struct LoginFlow {
    stage: LoginStage,
    toc_attempt: u8,
    pending_cookie: Option<String>,
}

/// What a terms-of-service reply leads to.
pub enum TocOutcome {
    /// The store cookie: the session may go on.
    Cookie(String),
    /// Terms are presented: record the ToS token, accept the terms, then use the cookie.
    AcceptTerms { tos_token: Option<String>, cookie: Option<String> },
    /// The reply is unusable.
    Failed(Error),
}

/// What a terms-of-service reply leads to: without payload or terms part it
/// is unusable; when it presents terms (a ToS token or terms text) they are
/// to be accepted; else its cookie is taken, and without one it is unusable.
pub fn toc_outcome(reply: TocReply) -> (r: TocOutcome)
    ensures
        reply is NoPayload ==> (r matches TocOutcome::Failed(e) && e.kind_spec() is Str && error_text(e) == "Invalid payload."@),
        reply is NoTocResponse ==> (r matches TocOutcome::Failed(e) && e.kind_spec() is Str && error_text(e)
            == "Invalid toc response."@),
        reply matches TocReply::Toc { tos_token, has_tos_content, cookie } ==> {
            if tos_token is Some || has_tos_content {
                r matches TocOutcome::AcceptTerms { tos_token: t, cookie: c } && opt_view(t) == opt_view(tos_token)
                    && opt_view(c) == opt_view(cookie)
            } else if cookie is Some {
                r matches TocOutcome::Cookie(c) && c@ == cookie->0@
            } else {
                r matches TocOutcome::Failed(e) && e.kind_spec() is Str && error_text(e) == "No DFE cookie found."@
            }
        },
{
    match reply {
        TocReply::NoPayload => TocOutcome::Failed(Error::from_message("Invalid payload.")),
        TocReply::NoTocResponse => TocOutcome::Failed(Error::from_message("Invalid toc response.")),
        TocReply::Toc { tos_token, has_tos_content, cookie } => {
            if tos_token.is_some() || has_tos_content {
                TocOutcome::AcceptTerms { tos_token, cookie }
            } else {
                match cookie {
                    Some(c) => TocOutcome::Cookie(c),
                    None => TocOutcome::Failed(Error::from_message("No DFE cookie found.")),
                }
            }
        },
    }
}

/// What an accept-terms reply leads to: unacknowledged it fails; else the
/// cookie of the terms-of-service reply, whose absence means the terms still
/// stand in the way.
pub fn accept_outcome(acknowledged: bool, cookie: Option<String>) -> (r: Result<String, Error>)
    ensures
        !acknowledged ==> (r matches Err(e) && e.kind_spec() is Str && error_text(e)
            == "Play Store acceptTos was not acknowledged by the server"@),
        acknowledged && cookie is Some ==> (r matches Ok(c) && c@ == cookie->0@),
        acknowledged && cookie is None ==> (r matches Err(e) && is_kind(e, ErrorKind::TermsOfService)),
{
    if !acknowledged {
        return Err(Error::from_message("Play Store acceptTos was not acknowledged by the server"));
    }
    match cookie {
        Some(c) => Ok(c),
        None => Err(Error::new(ErrorKind::TermsOfService)),
    }
}

/// Whether a failed terms-of-service check is made again: only the first,
/// and only when the terms stand in the way.
pub open spec fn retries_toc(attempt: nat, e: Error) -> bool {
    attempt == 1 && is_kind(e, ErrorKind::TermsOfService)
}

/// What a login guarantees of the session at each stage.
pub open spec fn stage_holds(stage: LoginStage, s: Session) -> bool {
    &&& (stage == LoginStage::AwaitAuth || stage == LoginStage::AwaitToc || stage
        == LoginStage::AwaitAcceptTos) ==> s.device_config_token is Some
    &&& (stage == LoginStage::AwaitToc || stage == LoginStage::AwaitAcceptTos) ==> s.auth_token is Some
    &&& stage == LoginStage::AwaitAcceptTos ==> s.tos_token is Some
}

impl LoginFlow {
    /// The reply the login waits for.
    pub closed spec fn stage(&self) -> LoginStage {
        self.stage
    }

    /// Which terms-of-service check this is (1 or 2).
    pub closed spec fn toc_attempt(&self) -> nat {
        self.toc_attempt as nat
    }

    /// The store cookie of a `toc` reply that presented terms, kept until
    /// the terms are accepted.
    pub closed spec fn pending_cookie(&self) -> Option<Seq<char>> {
        opt_view(self.pending_cookie)
    }

    /// What the flow promises of itself and of the session it drives.
    pub open spec fn holds(&self, s: Session) -> bool {
        &&& 1 <= self.toc_attempt() <= 2
        &&& stage_holds(self.stage(), s)
    }

    /// A login that starts by checking the device in.
    pub fn start() -> (r: (Self, LoginStep))
        ensures
            r.0.stage() == LoginStage::AwaitCheckin,
            r.0.toc_attempt() == 1,
            r.1 is SendCheckin,
    {
        (LoginFlow { stage: LoginStage::AwaitCheckin, toc_attempt: 1, pending_cookie: None }, LoginStep::SendCheckin)
    }

    /// Whether the login has ended.
    pub fn is_finished(&self) -> (r: bool)
        ensures
            r == (self.stage() == LoginStage::Finished),
    {
        self.stage == LoginStage::Finished
    }

    /// Ends the login with error `e`, or, when `e` ends a first
    /// terms-of-service check because the terms still stand in the way,
    /// makes that check again.
    fn toc_failed(&mut self, e: Error) -> (r: LoginStep)
        requires
            old(self).stage == LoginStage::AwaitToc || old(self).stage == LoginStage::AwaitAcceptTos,
            1 <= old(self).toc_attempt <= 2,
        ensures
            retries_toc(old(self).toc_attempt as nat, e) ==> r is SendToc && final(self).stage
                == LoginStage::AwaitToc && final(self).toc_attempt == 2,
            !retries_toc(old(self).toc_attempt as nat, e) ==> (r matches LoginStep::Failed(f) && f == e)
                && final(self).stage == LoginStage::Finished && final(self).toc_attempt
                == old(self).toc_attempt,
    {
        let retry = self.toc_attempt == 1 && match e.kind() {
            ErrorKind::TermsOfService => true,
            _ => false,
        };
        if retry {
            self.toc_attempt = 2;
            self.stage = LoginStage::AwaitToc;
            LoginStep::SendToc
        } else {
            self.stage = LoginStage::Finished;
            LoginStep::Failed(e)
        }
    }

    /// Takes the reply to the outstanding request and says what to do next.
    ///
    /// A reply that does not fit the stage, and any reply after the end, ends
    /// the login with `InvalidResponse`.
    pub fn step(&mut self, session: &mut Gpapi, event: LoginEvent) -> (r: LoginStep)
        requires
            old(self).holds(old(session)@),
        ensures
            final(self).holds(final(session)@),
            same_device(old(session)@, final(session)@),
            final(self).toc_attempt() >= old(self).toc_attempt(),
            // the session is logged in and has its cookie when the login succeeds
            r is Done ==> final(session)@.auth_token is Some && final(session)@.device_config_token
                is Some && final(session)@.dfe_cookie is Some,
            r is Done || r is Failed <==> final(self).stage() == LoginStage::Finished,
            r is SendCheckin ==> false,
            r is SendUploadDeviceConfig ==> final(self).stage() == LoginStage::AwaitUpload,
            r is SendAuthToken ==> final(self).stage() == LoginStage::AwaitAuth,
            r is SendToc ==> final(self).stage() == LoginStage::AwaitToc,
            r is SendAcceptTos ==> final(self).stage() == LoginStage::AwaitAcceptTos,
            // each reply leads where the protocol says
            old(self).stage() == LoginStage::AwaitCheckin ==> match event {
                LoginEvent::Checkin { consistency_token, android_id } => r is SendUploadDeviceConfig
                    && final(session)@ == (Session {
                    device_checkin_consistency_token: opt_view(consistency_token),
                    gsf_id: match android_id {
                        Some(v) => Some(crate::gpapi::cast_signed_spec(v)),
                        None => None,
                    },
                    ..old(session)@
                }),
                LoginEvent::Failed(e) => r == LoginStep::Failed(e) && final(session)@ == old(session)@,
                _ => r matches LoginStep::Failed(e) && is_kind(e, ErrorKind::InvalidResponse),
            },
            old(self).stage() == LoginStage::AwaitUpload ==> match event {
                LoginEvent::UploadDeviceConfig(Some(Some(t))) => r is SendAuthToken && final(session)@
                    == (Session { device_config_token: Some(t@), ..old(session)@ }),
                LoginEvent::UploadDeviceConfig(Some(None)) => r matches LoginStep::Failed(e) && is_kind(
                    e,
                    ErrorKind::InvalidResponse,
                ),
                LoginEvent::UploadDeviceConfig(None) => r matches LoginStep::Failed(e) && e.kind_spec() is Str
                    && error_text(e) == "No device config token"@,
                LoginEvent::Failed(e) => r == LoginStep::Failed(e),
                _ => r matches LoginStep::Failed(e) && is_kind(e, ErrorKind::InvalidResponse),
            },
            old(self).stage() == LoginStage::AwaitAuth ==> match event {
                LoginEvent::AuthToken(bytes) => (r is SendToc <==> (vstd::utf8::valid_utf8(bytes@)
                    && crate::form::reply_map(
                    crate::form::split_lines(vstd::utf8::decode_utf8(bytes@)),
                ).contains_key("auth"@))) && (r is SendToc ==> final(session)@ == (Session {
                    auth_token: Some(
                        crate::form::reply_map(
                            crate::form::split_lines(vstd::utf8::decode_utf8(bytes@)),
                        )["auth"@],
                    ),
                    ..old(session)@
                })) && (r is SendToc || r is Failed) && (!vstd::utf8::valid_utf8(bytes@) ==> (r matches LoginStep::Failed(e)
                    && e.kind_spec() is Other)) && (vstd::utf8::valid_utf8(bytes@) && r !is SendToc ==> {
                    let reply = crate::form::reply_map(crate::form::split_lines(vstd::utf8::decode_utf8(bytes@)));
                    r matches LoginStep::Failed(e) && e.kind_spec() is Str && error_text(e) == "authentication failed: "@
                        + (if reply.contains_key("error"@) {
                        reply["error"@]
                    } else {
                        Seq::empty()
                    })
                }),
                LoginEvent::Failed(e) => r == LoginStep::Failed(e),
                _ => r matches LoginStep::Failed(e) && is_kind(e, ErrorKind::InvalidResponse),
            },
            old(self).stage() == LoginStage::AwaitToc ==> match event {
                LoginEvent::Toc(TocReply::Toc { tos_token, has_tos_content, cookie }) => if tos_token is Some
                    || has_tos_content {
                    if tos_token is Some {
                        r is SendAcceptTos && final(session)@ == (Session {
                            tos_token: opt_view(tos_token),
                            ..old(session)@
                        }) && final(self).pending_cookie() == opt_view(cookie)
                    } else {
                        r matches LoginStep::Failed(e) && e.kind_spec() is Str && error_text(e)
                            == "ToS token must be set by `toc` call first."@ && final(session)@ == (Session {
                            tos_token: None,
                            ..old(session)@
                        })
                    }
                } else if cookie is Some {
                    r is Done && final(session)@ == (Session {
                        dfe_cookie: Some(cookie->0@),
                        ..old(session)@
                    })
                } else {
                    r matches LoginStep::Failed(e) && e.kind_spec() is Str && error_text(e)
                        == "No DFE cookie found."@
                },
                LoginEvent::Toc(TocReply::NoPayload) => r matches LoginStep::Failed(e) && e.kind_spec() is Str
                    && error_text(e) == "Invalid payload."@ && final(session)@ == old(session)@,
                LoginEvent::Toc(TocReply::NoTocResponse) => r matches LoginStep::Failed(e) && e.kind_spec() is Str
                    && error_text(e) == "Invalid toc response."@ && final(session)@ == old(session)@,
                LoginEvent::Failed(e) => if retries_toc(old(self).toc_attempt(), e) {
                    r is SendToc
                } else {
                    r == LoginStep::Failed(e)
                },
                _ => r matches LoginStep::Failed(e) && is_kind(e, ErrorKind::InvalidResponse),
            },
            old(self).stage() == LoginStage::AwaitAcceptTos ==> match event {
                LoginEvent::AcceptTos { acknowledged } => if !acknowledged {
                    r matches LoginStep::Failed(e) && e.kind_spec() is Str && error_text(e)
                        == "Play Store acceptTos was not acknowledged by the server"@
                } else {
                    match old(self).pending_cookie() {
                        Some(c) => r is Done && final(session)@ == (Session { dfe_cookie: Some(c), ..old(session)@ }),
                        None => if old(self).toc_attempt() == 1 {
                            r is SendToc && final(session)@ == old(session)@
                        } else {
                            r matches LoginStep::Failed(e) && is_kind(e, ErrorKind::TermsOfService)
                        },
                    }
                },
                LoginEvent::Failed(e) => if retries_toc(old(self).toc_attempt(), e) {
                    r is SendToc
                } else {
                    r == LoginStep::Failed(e)
                },
                _ => r matches LoginStep::Failed(e) && is_kind(e, ErrorKind::InvalidResponse),
            },
            old(self).stage() == LoginStage::Finished ==> (r matches LoginStep::Failed(e) && is_kind(
                e,
                ErrorKind::InvalidResponse,
            ) && final(session)@ == old(session)@),
            // a second terms-of-service check is the last one
            r is SendToc && old(self).stage() != LoginStage::AwaitAuth ==> final(self).toc_attempt() == 2,
    {
        match self.stage {
            LoginStage::AwaitCheckin => match event {
                LoginEvent::Checkin { consistency_token, android_id } => {
                    session.apply_checkin(consistency_token, android_id);
                    self.stage = LoginStage::AwaitUpload;
                    LoginStep::SendUploadDeviceConfig
                },
                LoginEvent::Failed(e) => {
                    self.stage = LoginStage::Finished;
                    LoginStep::Failed(e)
                },
                _ => self.unexpected(),
            },
            LoginStage::AwaitUpload => match event {
                LoginEvent::UploadDeviceConfig(Some(Some(token))) => {
                    session.set_device_config_token(token);
                    self.stage = LoginStage::AwaitAuth;
                    LoginStep::SendAuthToken
                },
                LoginEvent::UploadDeviceConfig(Some(None)) => {
                    self.stage = LoginStage::Finished;
                    LoginStep::Failed(Error::new(ErrorKind::InvalidResponse))
                },
                LoginEvent::UploadDeviceConfig(None) => {
                    self.stage = LoginStage::Finished;
                    LoginStep::Failed(Error::from_message("No device config token"))
                },
                LoginEvent::Failed(e) => {
                    self.stage = LoginStage::Finished;
                    LoginStep::Failed(e)
                },
                _ => self.unexpected(),
            },
            LoginStage::AwaitAuth => match event {
                LoginEvent::AuthToken(bytes) => {
                    let reply = match parse_reply_bytes(bytes.as_slice()) {
                        Ok(reply) => reply,
                        Err(e) => {
                            self.stage = LoginStage::Finished;
                            return LoginStep::Failed(e);
                        },
                    };
                    match session.receive_auth_token(&reply) {
                        Ok(()) => {
                            self.stage = LoginStage::AwaitToc;
                            LoginStep::SendToc
                        },
                        Err(e) => {
                            self.stage = LoginStage::Finished;
                            LoginStep::Failed(e)
                        },
                    }
                },
                LoginEvent::Failed(e) => {
                    self.stage = LoginStage::Finished;
                    LoginStep::Failed(e)
                },
                _ => self.unexpected(),
            },
            LoginStage::AwaitToc => match event {
                LoginEvent::Toc(reply) => match toc_outcome(reply) {
                    TocOutcome::Cookie(cookie) => {
                        session.set_dfe_cookie(cookie);
                        self.stage = LoginStage::Finished;
                        LoginStep::Done
                    },
                    TocOutcome::AcceptTerms { tos_token, cookie } => {
                        let has_token = tos_token.is_some();
                        session.set_tos_token(tos_token);
                        if has_token {
                            self.pending_cookie = cookie;
                            self.stage = LoginStage::AwaitAcceptTos;
                            LoginStep::SendAcceptTos
                        } else {
                            self.toc_failed(
                                Error::from_message("ToS token must be set by `toc` call first."),
                            )
                        }
                    },
                    TocOutcome::Failed(e) => self.toc_failed(e),
                },
                LoginEvent::Failed(e) => self.toc_failed(e),
                _ => self.unexpected(),
            },
            LoginStage::AwaitAcceptTos => match event {
                LoginEvent::AcceptTos { acknowledged } => {
                    let cookie = self.pending_cookie.take();
                    match accept_outcome(acknowledged, cookie) {
                        Ok(cookie) => {
                            session.set_dfe_cookie(cookie);
                            self.stage = LoginStage::Finished;
                            LoginStep::Done
                        },
                        Err(e) => self.toc_failed(e),
                    }
                },
                LoginEvent::Failed(e) => self.toc_failed(e),
                _ => self.unexpected(),
            },
            LoginStage::Finished => LoginStep::Failed(Error::new(ErrorKind::InvalidResponse)),
        }
    }

    /// Ends the login on a reply that does not fit its stage.
    fn unexpected(&mut self) -> (r: LoginStep)
        ensures
            r matches LoginStep::Failed(e) && is_kind(e, ErrorKind::InvalidResponse),
            final(self).stage == LoginStage::Finished,
            final(self).toc_attempt == old(self).toc_attempt,
    {
        self.stage = LoginStage::Finished;
        LoginStep::Failed(Error::new(ErrorKind::InvalidResponse))
    }
}

} // verus!

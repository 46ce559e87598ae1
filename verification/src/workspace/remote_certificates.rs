//! Who a remote desktop talks to.

use vstd::prelude::*;

use crate::text;
use crate::text::opt_view;
use crate::workspace::labels::{Label, LabelView};
use crate::workspace::remote_desktop::{
    requests_view, HelperRequest, RemoteDesktopCertificateChallengeState,
    RemoteDesktopHelperRequest, RemoteDesktopServerCertificate, RemoteDesktopServerIdentityKind,
    RemoteDesktopSessionEntity, RemoteDesktopVncSecurityPolicy,
};
use crate::workspace::saved_connections::{secret_view, SecretText};

verus! {

/// What came of the user's consent.
#[derive(Clone, Copy, PartialEq, Eq, Structural, Debug)]
pub enum RemoteDesktopCertificateAcceptance {
    Ignored,
    Accepted,
    StoreFailed,
}

/// A fingerprint, under the text that says whose it is.
pub struct FingerprintLine {
    pub label: &'static str,
    pub fingerprint: String,
}

/// Whether the answer is kept, under the text that asks so.
pub struct RememberLine {
    pub label: &'static str,
    pub checked: bool,
}

/// The question that the user is asked.
pub struct CertificateDialog {
    pub title: &'static str,
    pub description: &'static str,
    /// The host that is connected to.
    pub endpoint: Label,
    pub cancel: &'static str,
    pub confirm: &'static str,
    pub danger: bool,
    /// What the host shows, and what is stored of it, where the question is about a certificate.
    pub presented: Option<FingerprintLine>,
    pub saved: Option<FingerprintLine>,
    pub remember: Option<RememberLine>,
    pub method: Option<Label>,
}

/// A line that names one value.
pub open spec fn names(key: Seq<char>, name: Seq<char>, value: Seq<char>) -> LabelView {
    LabelView { key, values: seq![(name, value)] }
}

fn named(key: &str, name: &str, value: String) -> (res: Label)
    ensures
        res@ == names(key@, name@, value@),
{
    let res = Label::new(key).with(name, value);
    assert(res@.values =~= seq![(name@, value@)]);
    res
}

/// What every such question says: the host, and how to turn it down.
pub open spec fn names_host(dialog: CertificateDialog, authority: Seq<char>) -> bool {
    &&& dialog.endpoint@ == names("remote_desktop.certificate_endpoint"@, "endpoint"@, authority)
    &&& dialog.cancel@ == "common.actions.cancel"@
}

/// Whether a host lets anybody in.
pub open spec fn asks_no_password(method: Seq<char>) -> bool {
    method == "none"@ || method == "tls-none"@ || method == "x509-none"@
}

/// Whether a weak identity may be put to the user at all.
pub open spec fn may_be_weak(kind: RemoteDesktopServerIdentityKind, policy: RemoteDesktopVncSecurityPolicy) -> bool {
    match kind {
        RemoteDesktopServerIdentityKind::AnonymousTls => policy
            != RemoteDesktopVncSecurityPolicy::RequireVerifiedEncryption,
        RemoteDesktopServerIdentityKind::InsecureLegacy => policy
            == RemoteDesktopVncSecurityPolicy::AllowLegacy,
        RemoteDesktopServerIdentityKind::X509Certificate => true,
    }
}

fn weak_allowed(kind: RemoteDesktopServerIdentityKind, policy: RemoteDesktopVncSecurityPolicy) -> (res: bool)
    ensures
        res == may_be_weak(kind, policy),
{
    match kind {
        RemoteDesktopServerIdentityKind::AnonymousTls => policy
            != RemoteDesktopVncSecurityPolicy::RequireVerifiedEncryption,
        RemoteDesktopServerIdentityKind::InsecureLegacy => policy
            == RemoteDesktopVncSecurityPolicy::AllowLegacy,
        RemoteDesktopServerIdentityKind::X509Certificate => true,
    }
}

fn no_password_needed(method: &str) -> (res: bool)
    ensures
        res == asks_no_password(method@),
{
    text::same(method, "none") || text::same(method, "tls-none") || text::same(method, "x509-none")
}

/// What the host is told for its identity.
pub open spec fn authentication(session: RemoteDesktopSessionEntity, certificate: RemoteDesktopServerCertificate) -> HelperRequest {
    HelperRequest::Authenticate {
        challenge_id: certificate.challenge_id@,
        sha256_fingerprint: certificate.sha256_fingerprint@,
        username: opt_view(session.username),
        password: if asks_no_password(certificate.security_method@) {
            None
        } else {
            secret_view(session.password)
        },
        domain: opt_view(session.domain),
    }
}

impl RemoteDesktopSessionEntity {
    fn tell_worker(&mut self, request: RemoteDesktopHelperRequest)
        ensures
            final(self).asks(*old(self), seq![request@]),
    {
        if self.worker {
            let ghost before = self.sent@;
            self.sent.push(request);
            assert(requests_view(self.sent@) =~= requests_view(before) + seq![request@]);
        }
    }

    /// The session without the password, where the host does not ask for one.
    pub open spec fn spare_password(self, certificate: RemoteDesktopServerCertificate) -> RemoteDesktopSessionEntity {
        RemoteDesktopSessionEntity {
            password: if asks_no_password(certificate.security_method@) {
                None
            } else {
                self.password
            },
            ..self
        }
    }

    /// What the host is told for its identity. A password that it does not ask for is dropped.
    fn authenticate_request(&mut self, certificate: &RemoteDesktopServerCertificate) -> (res: RemoteDesktopHelperRequest)
        ensures
            res@ == authentication(*old(self), *certificate),
            *final(self) == old(self).spare_password(*certificate),
    {
        let password = if no_password_needed(certificate.security_method.as_str()) {
            self.password = None;
            None
        } else {
            match &self.password {
                Some(password) => Some(SecretText::new(password.expose_secret().to_owned())),
                None => None,
            }
        };
        RemoteDesktopHelperRequest::Authenticate {
            challenge_id: certificate.challenge_id.clone(),
            sha256_fingerprint: certificate.sha256_fingerprint.clone(),
            username: text::duplicate_option(&self.username),
            password,
            domain: text::duplicate_option(&self.domain),
        }
    }

    /// Whether a certificate is that of the host that this session is for.
    pub open spec fn is_for(self, certificate: RemoteDesktopServerCertificate) -> bool {
        certificate.endpoint@ == self.endpoint@ && certificate.protocol == self.protocol
    }

    /// Whether a certificate was trusted before: in this session, or for good.
    pub open spec fn trusts(self, certificate: RemoteDesktopServerCertificate, persisted: Option<String>) -> bool {
        ||| opt_view(self.session_trusted_certificate_fingerprint) == Some(
            certificate.sha256_fingerprint@,
        )
        ||| opt_view(persisted) == Some(certificate.sha256_fingerprint@)
    }

    /// The user is asked about a certificate.
    pub open spec fn challenged(self, before: RemoteDesktopSessionEntity, certificate: RemoteDesktopServerCertificate, expected: Option<String>) -> bool {
        self == (RemoteDesktopSessionEntity {
            certificate_challenge: Some(
                RemoteDesktopCertificateChallengeState {
                    certificate,
                    expected_fingerprint: expected,
                    remember: false,
                },
            ),
            ..before
        })
    }

    /// What a certificate that the host showed does.
    pub open spec fn certificate_handled(self, before: RemoteDesktopSessionEntity, certificate: RemoteDesktopServerCertificate, persisted: Option<String>) -> bool {
        if !before.is_for(certificate) {
            self.asks(before, seq![HelperRequest::Close])
        } else if certificate.identity_kind != RemoteDesktopServerIdentityKind::X509Certificate {
            if may_be_weak(certificate.identity_kind, before.security_policy) {
                self.challenged(before, certificate, None)
            } else {
                self.asks(before, seq![HelperRequest::Close])
            }
        } else if before.trusts(certificate, persisted) {
            if before.worker {
                self.asks(
                    before.spare_password(certificate),
                    seq![authentication(before, certificate)],
                )
            } else {
                self == before
            }
        } else {
            self.challenged(before, certificate, persisted)
        }
    }

    /// The host showed a certificate. `persisted` is the fingerprint that is stored for it.
    pub fn handle_certificate(&mut self, generation: u64, certificate: RemoteDesktopServerCertificate, persisted: Option<String>)
        ensures
            generation != old(self).worker_generation ==> *final(self) == *old(self),
            generation == old(self).worker_generation ==> final(self).certificate_handled(
                *old(self),
                certificate,
                persisted,
            ),
    {
        if self.worker_generation != generation {
            return;
        }
        if !self.is_own(&certificate) {
            self.tell_worker(RemoteDesktopHelperRequest::Close);
            return;
        }
        if certificate.identity_kind != RemoteDesktopServerIdentityKind::X509Certificate {
            if weak_allowed(certificate.identity_kind, self.security_policy) {
                self.challenge(certificate, None);
            } else {
                self.tell_worker(RemoteDesktopHelperRequest::Close);
            }
            return;
        }
        if self.knows(&certificate, &persisted) {
            if self.worker {
                let request = self.authenticate_request(&certificate);
                self.tell_worker(request);
            }
            return;
        }
        self.challenge(certificate, persisted);
    }

    fn is_own(&self, certificate: &RemoteDesktopServerCertificate) -> (res: bool)
        ensures
            res == self.is_for(*certificate),
    {
        certificate.endpoint.same(&self.endpoint) && certificate.protocol == self.protocol
    }

    fn knows(&self, certificate: &RemoteDesktopServerCertificate, persisted: &Option<String>) -> (res: bool)
        ensures
            res == self.trusts(*certificate, *persisted),
    {
        let presented = certificate.sha256_fingerprint.as_str();
        let in_session = match &self.session_trusted_certificate_fingerprint {
            Some(fingerprint) => text::same(fingerprint.as_str(), presented),
            None => false,
        };
        let for_good = match persisted {
            Some(fingerprint) => text::same(fingerprint.as_str(), presented),
            None => false,
        };
        in_session || for_good
    }

    fn challenge(&mut self, certificate: RemoteDesktopServerCertificate, expected: Option<String>)
        ensures
            final(self).challenged(*old(self), certificate, expected),
    {
        self.certificate_challenge = Some(
            RemoteDesktopCertificateChallengeState {
                certificate,
                expected_fingerprint: expected,
                remember: false,
            },
        );
    }

    /// Whether the user is asked this question.
    pub open spec fn is_asked(self, challenge_id: Seq<char>) -> bool {
        &&& self.certificate_challenge is Some
        &&& self.certificate_challenge->0.certificate.challenge_id@ == challenge_id
    }

    fn asks_about(&self, challenge_id: &str) -> (res: bool)
        ensures
            res == self.is_asked(challenge_id@),
    {
        match &self.certificate_challenge {
            Some(challenge) => text::same(challenge.certificate.challenge_id.as_str(), challenge_id),
            None => false,
        }
    }

    /// The user wants the answer to be remembered, or no longer.
    pub fn toggle_certificate_remember(&mut self, challenge_id: &str)
        ensures
            *final(self) == if old(self).is_asked(challenge_id@) {
                let challenge = old(self).certificate_challenge->0;
                RemoteDesktopSessionEntity {
                    certificate_challenge: Some(
                        RemoteDesktopCertificateChallengeState {
                            remember: !challenge.remember,
                            ..challenge
                        },
                    ),
                    ..*old(self)
                }
            } else {
                *old(self)
            },
    {
        if !self.asks_about(challenge_id) {
            return;
        }
        match &mut self.certificate_challenge {
            Some(challenge) => {
                challenge.remember = !challenge.remember;
            },
            None => {},
        }
    }

    /// Whether the user's consent is to the question that is asked now.
    pub open spec fn consents(self, generation: u64, challenge_id: Seq<char>, fingerprint: Seq<char>) -> bool {
        &&& self.worker_generation == generation
        &&& self.is_asked(challenge_id)
        &&& self.certificate_challenge->0.certificate.sha256_fingerprint@ == fingerprint
    }

    /// Whether the consent is stored for good: that to a certificate, where the user said so.
    pub open spec fn stores_consent(self) -> bool {
        let challenge = self.certificate_challenge->0;
        &&& self.certificate_challenge is Some
        &&& challenge.certificate.identity_kind == RemoteDesktopServerIdentityKind::X509Certificate
        &&& challenge.remember
    }

    /// Whether the host program has to store the consent before it is given.
    pub fn must_store(&self, generation: u64, challenge_id: &str, fingerprint: &str) -> (res: bool)
        ensures
            res == (self.consents(generation, challenge_id@, fingerprint@) && self.stores_consent()),
    {
        if self.worker_generation != generation {
            return false;
        }
        match &self.certificate_challenge {
            Some(challenge) => text::same(
                challenge.certificate.challenge_id.as_str(),
                challenge_id,
            ) && text::same(challenge.certificate.sha256_fingerprint.as_str(), fingerprint)
                && challenge.certificate.identity_kind
                == RemoteDesktopServerIdentityKind::X509Certificate && challenge.remember,
            None => false,
        }
    }

    /// The session once the user consented. A weak identity is trusted this once only.
    pub open spec fn consented(self, before: RemoteDesktopSessionEntity) -> bool {
        let challenge = before.certificate_challenge->0;
        let kind = challenge.certificate.identity_kind;
        let spared = before.spare_password(challenge.certificate);
        &&& self.asks(
            (RemoteDesktopSessionEntity {
                certificate_challenge: None,
                session_trusted_certificate_fingerprint: self.session_trusted_certificate_fingerprint,
                ..spared
            }),
            seq![authentication(before, challenge.certificate)],
        )
        &&& if kind == RemoteDesktopServerIdentityKind::X509Certificate && !challenge.remember {
            opt_view(self.session_trusted_certificate_fingerprint) == Some(
                challenge.certificate.sha256_fingerprint@,
            )
        } else {
            self.session_trusted_certificate_fingerprint
                == before.session_trusted_certificate_fingerprint
        }
    }

    /// The user consented. `stored` says whether storing the consent worked, where it had to be.
    pub fn accept_certificate(&mut self, generation: u64, challenge_id: &str, fingerprint: &str, stored: bool) -> (res: RemoteDesktopCertificateAcceptance)
        ensures
            if !old(self).consents(generation, challenge_id@, fingerprint@) {
                res == RemoteDesktopCertificateAcceptance::Ignored && *final(self) == *old(self)
            } else if old(self).stores_consent() && !stored {
                res == RemoteDesktopCertificateAcceptance::StoreFailed && *final(self) == *old(self)
            } else {
                res == RemoteDesktopCertificateAcceptance::Accepted && final(self).consented(*old(self))
            },
    {
        if self.worker_generation != generation || !self.asks_about(challenge_id) {
            return RemoteDesktopCertificateAcceptance::Ignored;
        }
        let must_store = match &self.certificate_challenge {
            Some(challenge) => {
                if !text::same(challenge.certificate.sha256_fingerprint.as_str(), fingerprint) {
                    return RemoteDesktopCertificateAcceptance::Ignored;
                }
                challenge.certificate.identity_kind
                    == RemoteDesktopServerIdentityKind::X509Certificate && challenge.remember
            },
            None => false,
        };
        if must_store && !stored {
            return RemoteDesktopCertificateAcceptance::StoreFailed;
        }
        let mut asked: Option<RemoteDesktopCertificateChallengeState> = None;
        std::mem::swap(&mut asked, &mut self.certificate_challenge);
        match asked {
            Some(challenge) => {
                let kind = challenge.certificate.identity_kind;
                if kind == RemoteDesktopServerIdentityKind::X509Certificate && !challenge.remember {
                    self.session_trusted_certificate_fingerprint = Some(
                        challenge.certificate.sha256_fingerprint.clone(),
                    );
                }
                let request = self.authenticate_request(&challenge.certificate);
                self.tell_worker(request);
            },
            None => {},
        }
        RemoteDesktopCertificateAcceptance::Accepted
    }

    /// The user refused.
    pub fn reject_certificate(&mut self, generation: u64, challenge_id: &str)
        ensures
            if old(self).worker_generation == generation && old(self).is_asked(challenge_id@) {
                final(self).asks(
                    (RemoteDesktopSessionEntity { certificate_challenge: None, ..*old(self) }),
                    seq![HelperRequest::Close],
                )
            } else {
                *final(self) == *old(self)
            },
    {
        if self.worker_generation != generation || !self.asks_about(challenge_id) {
            return;
        }
        self.certificate_challenge = None;
        self.tell_worker(RemoteDesktopHelperRequest::Close);
    }
}

/// The question about a certificate that is new, or other than the stored one.
pub open spec fn is_certificate_dialog(dialog: CertificateDialog, challenge: RemoteDesktopCertificateChallengeState) -> bool {
    let changed = challenge.expected_fingerprint is Some;
    &&& dialog.title@ == if changed {
        "remote_desktop.certificate_changed_title"@
    } else {
        "remote_desktop.certificate_unknown_title"@
    }
    &&& dialog.description@ == if changed {
        "remote_desktop.certificate_changed_description"@
    } else {
        "remote_desktop.certificate_unknown_description"@
    }
    &&& dialog.confirm@ == "remote_desktop.certificate_trust"@
    &&& dialog.danger == changed
    &&& dialog.presented is Some
    &&& dialog.presented->0.label@ == "remote_desktop.certificate_presented_fingerprint"@
    &&& dialog.presented->0.fingerprint@ == challenge.certificate.sha256_fingerprint@
    &&& match (dialog.saved, challenge.expected_fingerprint) {
        (Some(saved), Some(expected)) => {
            &&& saved.label@ == "remote_desktop.certificate_saved_fingerprint"@
            &&& saved.fingerprint@ == expected@
        },
        (None, None) => true,
        _ => false,
    }
    &&& dialog.remember is Some
    &&& dialog.remember->0.label@ == "remote_desktop.certificate_remember"@
    &&& dialog.remember->0.checked == challenge.remember
    &&& dialog.method is None
}

/// The question about a connection without a certificate.
pub open spec fn is_weak_dialog(dialog: CertificateDialog, challenge: RemoteDesktopCertificateChallengeState) -> bool {
    let anonymous = challenge.certificate.identity_kind
        == RemoteDesktopServerIdentityKind::AnonymousTls;
    &&& dialog.title@ == if anonymous {
        "remote_desktop.vnc_anonymous_tls_title"@
    } else {
        "remote_desktop.vnc_legacy_security_title"@
    }
    &&& dialog.description@ == if anonymous {
        "remote_desktop.vnc_anonymous_tls_description"@
    } else {
        "remote_desktop.vnc_legacy_security_description"@
    }
    &&& dialog.confirm@ == "remote_desktop.vnc_continue_anyway"@
    &&& dialog.danger
    &&& dialog.presented is None
    &&& dialog.saved is None
    &&& dialog.remember is None
    &&& dialog.method is Some
    &&& dialog.method->0@ == names(
        "remote_desktop.vnc_security_method"@,
        "method"@,
        challenge.certificate.security_method@,
    )
}

/// The question that the user is asked. Only the answer to one about a certificate can be
/// remembered. `authority` is how the host's address is written.
pub fn certificate_dialog(challenge: &RemoteDesktopCertificateChallengeState, authority: String) -> (res: CertificateDialog)
    ensures
        names_host(res, authority@),
        if challenge.certificate.identity_kind == RemoteDesktopServerIdentityKind::X509Certificate {
            is_certificate_dialog(res, *challenge)
        } else {
            is_weak_dialog(res, *challenge)
        },
{
    let endpoint = named("remote_desktop.certificate_endpoint", "endpoint", authority);
    if challenge.certificate.identity_kind != RemoteDesktopServerIdentityKind::X509Certificate {
        let anonymous = challenge.certificate.identity_kind
            == RemoteDesktopServerIdentityKind::AnonymousTls;
        return CertificateDialog {
            title: if anonymous {
                "remote_desktop.vnc_anonymous_tls_title"
            } else {
                "remote_desktop.vnc_legacy_security_title"
            },
            description: if anonymous {
                "remote_desktop.vnc_anonymous_tls_description"
            } else {
                "remote_desktop.vnc_legacy_security_description"
            },
            endpoint,
            cancel: "common.actions.cancel",
            confirm: "remote_desktop.vnc_continue_anyway",
            danger: true,
            presented: None,
            saved: None,
            remember: None,
            method: Some(
                named(
                    "remote_desktop.vnc_security_method",
                    "method",
                    challenge.certificate.security_method.clone(),
                ),
            ),
        };
    }
    let changed = challenge.expected_fingerprint.is_some();
    CertificateDialog {
        title: if changed {
            "remote_desktop.certificate_changed_title"
        } else {
            "remote_desktop.certificate_unknown_title"
        },
        description: if changed {
            "remote_desktop.certificate_changed_description"
        } else {
            "remote_desktop.certificate_unknown_description"
        },
        endpoint,
        cancel: "common.actions.cancel",
        confirm: "remote_desktop.certificate_trust",
        danger: changed,
        presented: Some(
            FingerprintLine {
                label: "remote_desktop.certificate_presented_fingerprint",
                fingerprint: challenge.certificate.sha256_fingerprint.clone(),
            },
        ),
        saved: match &challenge.expected_fingerprint {
            Some(expected) => Some(
                FingerprintLine {
                    label: "remote_desktop.certificate_saved_fingerprint",
                    fingerprint: expected.clone(),
                },
            ),
            None => None,
        },
        remember: Some(
            RememberLine {
                label: "remote_desktop.certificate_remember",
                checked: challenge.remember,
            },
        ),
        method: None,
    }
}

/// Nothing secret is sent on the ground of a certificate alone, unless it is that of the session's
/// host and was trusted before.
pub proof fn law_only_trusted_hosts_are_answered(
    before: RemoteDesktopSessionEntity,
    after: RemoteDesktopSessionEntity,
    certificate: RemoteDesktopServerCertificate,
    persisted: Option<String>,
    at: int,
)
    requires
        after.certificate_handled(before, certificate, persisted),
        before.asked().len() <= at < after.asked().len(),
        after.asked()[at] is Authenticate,
    ensures
        before.is_for(certificate),
        certificate.identity_kind == RemoteDesktopServerIdentityKind::X509Certificate,
        before.trusts(certificate, persisted),
{
}

/// Consent to a weak identity is not remembered: the session trusts what it trusted before.
pub proof fn law_weak_identities_are_not_remembered(before: RemoteDesktopSessionEntity, after: RemoteDesktopSessionEntity)
    requires
        before.certificate_challenge is Some,
        before.certificate_challenge->0.certificate.identity_kind
            != RemoteDesktopServerIdentityKind::X509Certificate,
        after.consented(before),
    ensures
        after.session_trusted_certificate_fingerprint
            == before.session_trusted_certificate_fingerprint,
        !before.stores_consent(),
{
}

} // verus!

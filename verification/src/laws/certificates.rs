//! What a remote host shows to be known by.

use vstd::prelude::*;

use crate::text::opt_view;
use crate::workspace::remote_certificates::{
    certificate_dialog, CertificateDialog, RemoteDesktopCertificateAcceptance,
};
use crate::workspace::remote_desktop::{
    HelperRequest, RemoteDesktopCertificateChallengeState, RemoteDesktopServerCertificate,
    RemoteDesktopServerIdentityKind, RemoteDesktopSessionEntity, RemoteDesktopVncSecurityPolicy,
};

verus! {

/// A certificate of another run of the session, whatever it says, changes nothing.
pub proof fn law_old_certificates_are_ignored(
    session: &mut RemoteDesktopSessionEntity,
    generation: u64,
    certificate: RemoteDesktopServerCertificate,
    persisted: Option<String>,
)
    requires
        call_ensures(
            RemoteDesktopSessionEntity::handle_certificate,
            (session, generation, certificate, persisted),
            (),
        ),
        generation != session.worker_generation,
    ensures
        *final(session) == *old(session),
{
}

/// A certificate of another host or protocol closes the session, and nobody is asked.
pub proof fn law_certificates_of_others_close_the_session(
    session: &mut RemoteDesktopSessionEntity,
    certificate: RemoteDesktopServerCertificate,
    persisted: Option<String>,
)
    requires
        call_ensures(
            RemoteDesktopSessionEntity::handle_certificate,
            (session, session.worker_generation, certificate, persisted),
            (),
        ),
        certificate.endpoint@ != session.endpoint@ || certificate.protocol != session.protocol,
        session.worker,
    ensures
        final(session).asked().len() == old(session).asked().len() + 1,
        final(session).asked().last() == HelperRequest::Close,
        final(session).certificate_challenge == old(session).certificate_challenge,
{
}

/// A certificate that is trusted, now or from before, is answered with the credentials; where the host
/// asks for no password none is sent.
pub proof fn law_trusted_certificates_are_answered(
    session: &mut RemoteDesktopSessionEntity,
    certificate: RemoteDesktopServerCertificate,
    persisted: Option<String>,
)
    requires
        call_ensures(
            RemoteDesktopSessionEntity::handle_certificate,
            (session, session.worker_generation, certificate, persisted),
            (),
        ),
        certificate.endpoint@ == session.endpoint@,
        certificate.protocol == session.protocol,
        certificate.identity_kind == RemoteDesktopServerIdentityKind::X509Certificate,
        session.worker,
    ensures
        ({
            let known = (persisted is Some && persisted->0@ == certificate.sha256_fingerprint@) || (
            old(session).session_trusted_certificate_fingerprint is Some && old(
                session).session_trusted_certificate_fingerprint->0@
                == certificate.sha256_fingerprint@);
            let answer = final(session).asked().last();
            let free = certificate.security_method@ == "none"@ || certificate.security_method@
                == "tls-none"@ || certificate.security_method@ == "x509-none"@;
            &&& known ==> {
                &&& final(session).asked().len() == old(session).asked().len() + 1
                &&& answer is Authenticate
                &&& answer->challenge_id == certificate.challenge_id@
                &&& answer->sha256_fingerprint == certificate.sha256_fingerprint@
                &&& answer->Authenticate_username == opt_view(old(session).username)
                &&& answer->domain == opt_view(old(session).domain)
                &&& free ==> answer->password is None
                &&& !free ==> (answer->password is Some <==> old(session).password is Some)
            }
            &&& !known ==> {
                &&& final(session).asked() == old(session).asked()
                &&& final(session).certificate_challenge is Some
                &&& final(session).certificate_challenge->0.certificate == certificate
                &&& final(session).certificate_challenge->0.expected_fingerprint == persisted
                &&& !final(session).certificate_challenge->0.remember
            }
        }),
{
}

/// A host that shows no certificate is put to the user where the policy lets it pass, and shut out
/// where it does not: without encryption only by the loosest policy, with anonymous encryption by all
/// but the strictest.
pub proof fn law_weak_hosts_go_by_the_policy(
    session: &mut RemoteDesktopSessionEntity,
    certificate: RemoteDesktopServerCertificate,
    persisted: Option<String>,
)
    requires
        call_ensures(
            RemoteDesktopSessionEntity::handle_certificate,
            (session, session.worker_generation, certificate, persisted),
            (),
        ),
        certificate.endpoint@ == session.endpoint@,
        certificate.protocol == session.protocol,
        session.worker,
    ensures
        ({
            let kind = certificate.identity_kind;
            let policy = old(session).security_policy;
            let shut_out = (kind == RemoteDesktopServerIdentityKind::AnonymousTls && policy
                == RemoteDesktopVncSecurityPolicy::RequireVerifiedEncryption) || (kind
                == RemoteDesktopServerIdentityKind::InsecureLegacy && policy
                != RemoteDesktopVncSecurityPolicy::AllowLegacy);
            let weak = kind == RemoteDesktopServerIdentityKind::AnonymousTls || kind
                == RemoteDesktopServerIdentityKind::InsecureLegacy;
            &&& shut_out ==> final(session).asked().last() == HelperRequest::Close && final(
                session).asked().len() == old(session).asked().len() + 1
            &&& weak && !shut_out ==> {
                &&& final(session).asked() == old(session).asked()
                &&& final(session).certificate_challenge is Some
                &&& final(session).certificate_challenge->0.certificate == certificate
                &&& final(session).certificate_challenge->0.expected_fingerprint is None
            }
        }),
{
}

/// Consent counts for the certificate it was given to: another run, question or fingerprint is
/// ignored. What is to be remembered counts only once it is stored; without that it counts for the
/// session.
pub proof fn law_consent_counts_for_its_certificate(
    session: &mut RemoteDesktopSessionEntity,
    generation: u64,
    challenge: &str,
    fingerprint: &str,
    stored: bool,
    res: RemoteDesktopCertificateAcceptance,
)
    requires
        call_ensures(
            RemoteDesktopSessionEntity::accept_certificate,
            (session, generation, challenge, fingerprint, stored),
            res,
        ),
        session.worker,
    ensures
        ({
            let asked = old(session).certificate_challenge;
            let meant = asked is Some && asked->0.certificate.challenge_id@ == challenge@
                && asked->0.certificate.sha256_fingerprint@ == fingerprint@ && old(
                session).worker_generation == generation;
            let certified = asked->0.certificate.identity_kind
                == RemoteDesktopServerIdentityKind::X509Certificate;
            let fails = meant && certified && asked->0.remember && !stored;
            &&& res == RemoteDesktopCertificateAcceptance::Ignored <==> !meant
            &&& res == RemoteDesktopCertificateAcceptance::StoreFailed <==> fails
            &&& !meant || fails ==> *final(session) == *old(session)
            &&& meant && !fails ==> {
                let answer = final(session).asked().last();
                &&& final(session).certificate_challenge is None
                &&& answer is Authenticate
                &&& answer->challenge_id == challenge@
                &&& answer->sha256_fingerprint == fingerprint@
                &&& certified && !asked->0.remember ==> opt_view(
                    final(session).session_trusted_certificate_fingerprint,
                ) == Some(fingerprint@)
                &&& !certified || asked->0.remember ==> final(
                    session).session_trusted_certificate_fingerprint == old(
                    session).session_trusted_certificate_fingerprint
            }
        }),
{
}

/// A consent is stored where it was given to a certificate, with the wish to remember it.
pub proof fn law_remembered_consent_is_stored(
    session: &RemoteDesktopSessionEntity,
    generation: u64,
    challenge: &str,
    fingerprint: &str,
    res: bool,
)
    requires
        call_ensures(
            RemoteDesktopSessionEntity::must_store,
            (session, generation, challenge, fingerprint),
            res,
        ),
    ensures
        res <==> {
            &&& session.worker_generation == generation
            &&& session.certificate_challenge is Some
            &&& session.certificate_challenge->0.remember
            &&& session.certificate_challenge->0.certificate.challenge_id@ == challenge@
            &&& session.certificate_challenge->0.certificate.sha256_fingerprint@ == fingerprint@
            &&& session.certificate_challenge->0.certificate.identity_kind
                == RemoteDesktopServerIdentityKind::X509Certificate
        },
{
}

/// Who says no closes the session, and who ticks the box twice has not ticked it.
pub proof fn law_questions_are_answered_once(
    session: &mut RemoteDesktopSessionEntity,
    challenge: &str,
    other: &mut RemoteDesktopSessionEntity,
)
    requires
        session.worker,
        session.certificate_challenge is Some,
        session.certificate_challenge->0.certificate.challenge_id@ == challenge@,
        call_ensures(
            RemoteDesktopSessionEntity::reject_certificate,
            (session, session.worker_generation, challenge),
            (),
        ),
        call_ensures(
            RemoteDesktopSessionEntity::toggle_certificate_remember,
            (other, challenge),
            (),
        ),
        other.certificate_challenge is Some,
    ensures
        final(session).certificate_challenge is None,
        final(session).asked().last() == HelperRequest::Close,
        final(session).asked().len() == old(session).asked().len() + 1,
        final(other).certificate_challenge is Some,
        final(other).certificate_challenge->0.certificate == old(
            other).certificate_challenge->0.certificate,
        final(other).certificate_challenge->0.remember == old(
            other).certificate_challenge->0.remember <==> old(
            other).certificate_challenge->0.certificate.challenge_id@ != challenge@,
        final(other).asked() == old(other).asked(),
{
}

/// The dialog warns where a saved fingerprint changed and of a host without a certificate, and shows
/// the fingerprints as they are.
pub proof fn law_dialogs_say_what_is_wrong(
    challenge: &RemoteDesktopCertificateChallengeState,
    authority: String,
    res: CertificateDialog,
)
    requires
        call_ensures(certificate_dialog, (challenge, authority), res),
    ensures
        ({
            let certified = challenge.certificate.identity_kind
                == RemoteDesktopServerIdentityKind::X509Certificate;
            let changed = challenge.expected_fingerprint is Some;
            &&& res.danger <==> !certified || changed
            &&& res.presented is Some <==> certified
            &&& certified ==> res.presented->0.fingerprint@ == challenge.certificate.sha256_fingerprint@
            &&& res.saved is Some <==> certified && changed
            &&& certified && changed ==> res.saved->0.fingerprint@ == challenge.expected_fingerprint->0@
            &&& res.remember is Some <==> certified
            &&& certified ==> res.remember->0.checked == challenge.remember
            &&& res.method is Some <==> !certified
            &&& certified && changed ==> res.title@ == "remote_desktop.certificate_changed_title"@
            &&& certified && !changed ==> res.title@ == "remote_desktop.certificate_unknown_title"@
            &&& challenge.certificate.identity_kind == RemoteDesktopServerIdentityKind::AnonymousTls
                ==> res.title@ == "remote_desktop.vnc_anonymous_tls_title"@
            &&& challenge.certificate.identity_kind
                == RemoteDesktopServerIdentityKind::InsecureLegacy ==> res.title@
                == "remote_desktop.vnc_legacy_security_title"@
        }),
{
}

} // verus!

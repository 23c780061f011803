//! Callback-listener logic: pairing a POSTed federated-login assertion with
//! the challenge credential captured in the probe phase, and deciding
//! whether the authenticated connector may launch.
//!
//! The HTTP plumbing lives outside; this module owns the credential slot
//! and every decision: a POST without the assertion field is rejected and
//! enqueues nothing; an assertion that arrives while no credential is held
//! is dropped, never forwarded with an empty credential; a held credential
//! is consumed by the first assertion that uses it.

use crate::config::{GatewayConfig, Ipv4};
use crate::state_manager::State;
use crate::text;
use vstd::prelude::*;

verus! {

/// An assertion paired with the challenge credential, as handed to the
/// authenticated connector.
pub struct Saml {
    /// The assertion blob as POSTed.
    pub data: Vec<u8>,
    /// The challenge credential it was paired with.
    pub pwd: Vec<u8>,
}

/// What a POST led to (ghost level).
pub enum PostOutcomeSpec {
    /// No assertion field: rejected, nothing enqueued.
    MissingField,
    /// An assertion without a usable credential: dropped.
    Dropped,
    /// The assertion, paired with the consumed credential, goes to the
    /// connector.
    Forward { data: Seq<u8>, pwd: Seq<u8> },
}

/// What a POST led to.
pub enum PostOutcome {
    MissingField,
    Dropped,
    Forward(Saml),
}

impl View for PostOutcome {
    type V = PostOutcomeSpec;

    open spec fn view(&self) -> PostOutcomeSpec {
        match self {
            PostOutcome::MissingField => PostOutcomeSpec::MissingField,
            PostOutcome::Dropped => PostOutcomeSpec::Dropped,
            PostOutcome::Forward(s) => PostOutcomeSpec::Forward { data: s.data@, pwd: s.pwd@ },
        }
    }
}

/// How one POST changes the credential slot and what it yields: a missing
/// or empty assertion field leaves the slot alone and rejects the request;
/// otherwise the slot is consumed, and the assertion is forwarded only when
/// the slot held a non-empty credential.
pub open spec fn spec_handle_post(slot: Option<Seq<u8>>, field: Option<Seq<u8>>) -> (Option<
    Seq<u8>,
>, PostOutcomeSpec) {
    match field {
        None => (slot, PostOutcomeSpec::MissingField),
        Some(data) => {
            if data.len() == 0 {
                (slot, PostOutcomeSpec::MissingField)
            } else {
                match slot {
                    None => (None, PostOutcomeSpec::Dropped),
                    Some(pwd) => {
                        if pwd.len() == 0 {
                            (None, PostOutcomeSpec::Dropped)
                        } else {
                            (None, PostOutcomeSpec::Forward { data, pwd })
                        }
                    },
                }
            }
        },
    }
}

/// The slot holding the challenge credential between the probe phase and
/// the assertion that consumes it.
pub struct SamlServer {
    saml_password: Option<Vec<u8>>,
}

impl SamlServer {
    /// The credential currently held.
    pub closed spec fn slot(&self) -> Option<Seq<u8>> {
        match self.saml_password {
            Some(ref v) => Some(v@),
            None => None,
        }
    }

    /// A fresh listener holds no credential.
    pub fn new() -> (r: SamlServer)
        ensures
            r.slot() is None,
    {
        SamlServer { saml_password: None }
    }

    /// Put the challenge credential of the current attempt into the slot.
    pub fn store_password(&mut self, pwd: Vec<u8>)
        ensures
            final(self).slot() == Some(pwd@),
    {
        self.saml_password = Some(pwd);
    }

    /// Whether a credential is currently held.
    pub fn has_password(&self) -> (r: bool)
        ensures
            r == (self.slot() is Some),
    {
        self.saml_password.is_some()
    }

    /// Apply one POSTed form's assertion field to the slot.
    pub fn handle_post(&mut self, field: Option<Vec<u8>>) -> (r: PostOutcome)
        ensures
            (final(self).slot(), r@) == spec_handle_post(
                old(self).slot(),
                match field {
                    Some(v) => Some(v@),
                    None => None,
                },
            ),
    {
        let data = match field {
            None => {
                return PostOutcome::MissingField;
            },
            Some(v) => v,
        };
        if data.len() == 0 {
            return PostOutcome::MissingField;
        }
        let pwd = match self.saml_password.take() {
            None => {
                return PostOutcome::Dropped;
            },
            Some(p) => p,
        };
        if pwd.len() == 0 {
            return PostOutcome::Dropped;
        }
        PostOutcome::Forward(Saml { data, pwd })
    }

    /// Apply one POSTed form body to the slot, taking the assertion field
    /// from the body itself.
    pub fn handle_post_body(&mut self, body: &Vec<u8>) -> (r: PostOutcome)
        ensures
            (final(self).slot(), r@) == spec_handle_post(
                old(self).slot(),
                crate::form::spec_form_value(body@, text::saml_field_key()),
            ),
    {
        let field = crate::form::extract_saml_response(body);
        self.handle_post(field)
    }
}

/// HTTP status answered for an outcome: 400 for a POST without the
/// assertion field, 200 otherwise.
pub fn response_status(r: &PostOutcome) -> (s: u16)
    ensures
        s == 400 <==> r@ == PostOutcomeSpec::MissingField,
        s == 400 || s == 200,
{
    match r {
        PostOutcome::MissingField => 400,
        _ => 200,
    }
}

/// Plain-text body answered for an outcome.
pub fn response_body(r: &PostOutcome) -> (b: Vec<u8>)
    ensures
        b@ == if r@ == PostOutcomeSpec::MissingField {
            text::msg_missing_saml()
        } else {
            text::msg_safe_close()
        },
{
    match r {
        PostOutcome::MissingField => text::msg_missing_saml_v(),
        _ => text::msg_safe_close_v(),
    }
}

/// No usable address is configured.
pub open spec fn no_address(cfg: &GatewayConfig) -> bool {
    match cfg.addresses {
        None => true,
        Some(ref v) => v@.len() == 0,
    }
}

/// Whether the authenticated connector may launch, checked in the order
/// address, profile, port; each refusal names the missing item.
pub enum LaunchCheck {
    NoAddress,
    NoConfig,
    NoPort,
    Launch { addr: Ipv4, port: u16, config: Vec<u8> },
}

/// Validate the configuration before launching the authenticated
/// connector: the first resolved address, the profile path and the remote
/// port must all be present.
pub fn launch_decision(cfg: &GatewayConfig) -> (r: LaunchCheck)
    ensures
        no_address(cfg) ==> r is NoAddress,
        !no_address(cfg) && cfg.config is None ==> r is NoConfig,
        !no_address(cfg) && cfg.config is Some && cfg.remote is None ==> r is NoPort,
        !no_address(cfg) && cfg.config is Some && cfg.remote is Some ==> (r matches
            LaunchCheck::Launch { addr, port, config } && addr
            == cfg.addresses.unwrap()@[0] && port == cfg.remote.unwrap().1 && config@
            == cfg.config.unwrap()@),
{
    let addr = match &cfg.addresses {
        None => {
            return LaunchCheck::NoAddress;
        },
        Some(v) => {
            if v.len() == 0 {
                return LaunchCheck::NoAddress;
            }
            v[0]
        },
    };
    let config = match &cfg.config {
        None => {
            return LaunchCheck::NoConfig;
        },
        Some(c) => crate::log::copy_bytes(c),
    };
    let port = match &cfg.remote {
        None => {
            return LaunchCheck::NoPort;
        },
        Some(r) => r.1,
    };
    LaunchCheck::Launch { addr, port, config }
}

/// The message logged for a refused launch.
pub fn launch_refusal_message(r: &LaunchCheck) -> (b: Vec<u8>)
    requires
        !(r is Launch),
    ensures
        r is NoAddress ==> b@ == text::msg_no_address(),
        r is NoConfig ==> b@ == text::msg_no_config(),
        r is NoPort ==> b@ == text::msg_no_port(),
{
    match r {
        LaunchCheck::NoAddress => text::msg_no_address_v(),
        LaunchCheck::NoConfig => text::msg_no_config_v(),
        LaunchCheck::NoPort => text::msg_no_port_v(),
        LaunchCheck::Launch { .. } => text::msg_no_address_v(),
    }
}

/// The state settled after the authenticated engine exits: exit code 0
/// means connected, any other code means disconnected.
pub fn state_after_exit(code: i32) -> (r: State)
    ensures
        r == if code == 0 {
            State::Connected
        } else {
            State::Disconnected
        },
{
    if code == 0 {
        State::Connected
    } else {
        State::Disconnected
    }
}

/// A populated credential slot is consumed at most once: once an assertion
/// uses it, a second assertion finds the slot empty and is dropped, not
/// forwarded — the credential is never replayed across attempts.
pub proof fn lemma_credential_consumed_once(
    slot: Option<Seq<u8>>,
    f1: Seq<u8>,
    f2: Seq<u8>,
)
    requires
        f1.len() > 0,
        f2.len() > 0,
    ensures
        spec_handle_post(slot, Some(f1)).0 is None,
        spec_handle_post(spec_handle_post(slot, Some(f1)).0, Some(f2)).1
            == PostOutcomeSpec::Dropped,
{
}

/// A POST without the assertion field is answered 400 and enqueues no
/// work: the outcome is a rejection, nothing is forwarded, and the
/// credential slot is left as it was.
pub proof fn lemma_missing_field_rejected(slot: Option<Seq<u8>>, field: Option<Seq<u8>>)
    requires
        match field {
            None => true,
            Some(f) => f.len() == 0,
        },
    ensures
        spec_handle_post(slot, field).1 == PostOutcomeSpec::MissingField,
        spec_handle_post(slot, field).0 == slot,
{
}

/// An assertion arriving before any credential was captured is dropped,
/// never forwarded to the connector.
pub proof fn lemma_early_assertion_dropped(field: Seq<u8>)
    requires
        field.len() > 0,
    ensures
        spec_handle_post(None, Some(field)).1 == PostOutcomeSpec::Dropped,
{
}

} // verus!

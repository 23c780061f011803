//! Probe-phase output parsing and tunnel-engine invocation building.
//!
//! The unauthenticated probe feeds engine output lines to a classifier that
//! looks for the vendor marker announcing a federated-login redirect and
//! extracts the challenge credential and the redirect URL. The authenticated
//! phase builds the one-time credential file content and the engine's
//! command line.

use crate::bytes::{
    contains_sub, dec_digits, ends_with, find_from, find_in, find_sub, find_sub_from, push_all,
    sub_vec, u32_dec,
};
use crate::text;
use vstd::prelude::*;

verus! {

/// Recorded process id of a spawned engine, if one is running.
pub struct ProcessInfo {
    pub pid: Option<u32>,
}

impl ProcessInfo {
    pub fn new() -> (r: ProcessInfo)
        ensures
            r.pid is None,
    {
        ProcessInfo { pid: None }
    }
}

/// Outcome of the probe phase: the federated-login redirect URL and the
/// challenge credential extracted from the engine's output.
pub struct AwsSaml {
    pub url: Vec<u8>,
    pub pwd: Vec<u8>,
}

/// What one line of probe output means (ghost level).
pub enum LineClassSpec {
    Matched { challenge: Seq<u8>, url: Seq<u8> },
    NoMatch,
    Malformed,
}

/// What one line of probe output means.
pub enum LineClass {
    Matched { challenge: Vec<u8>, url: Vec<u8> },
    NoMatch,
    Malformed,
}

impl View for LineClass {
    type V = LineClassSpec;

    open spec fn view(&self) -> LineClassSpec {
        match self {
            LineClass::Matched { challenge, url } => LineClassSpec::Matched {
                challenge: challenge@,
                url: url@,
            },
            LineClass::NoMatch => LineClassSpec::NoMatch,
            LineClass::Malformed => LineClassSpec::Malformed,
        }
    }
}

/// Meaning of one probe-output line.
///
/// A line without the vendor marker says nothing. On a marker line the URL
/// is the suffix from the first `https://`; the challenge is the second
/// `:`-separated field of the text between the marker and the URL. A marker
/// line from which either field cannot be taken is malformed.
pub open spec fn spec_classify(line: Seq<u8>) -> LineClassSpec {
    match find_sub(line, text::marker_crv1()) {
        None => LineClassSpec::NoMatch,
        Some(m) => match find_sub(line, text::https_prefix()) {
            None => LineClassSpec::Malformed,
            Some(f) => {
                let a = m + text::marker_crv1().len() + 1;
                if a < f {
                    let sub = line.subrange(a, f - 1);
                    match find_sub(sub, text::colon()) {
                        None => LineClassSpec::Malformed,
                        Some(c1) => {
                            let end = match find_from(sub, text::colon(), c1 + 1) {
                                Some(c2) => c2,
                                None => sub.len() as int,
                            };
                            LineClassSpec::Matched {
                                challenge: sub.subrange(c1 + 1, end),
                                url: line.subrange(f, line.len() as int),
                            }
                        },
                    }
                } else {
                    LineClassSpec::Malformed
                }
            },
        },
    }
}

/// Classify one line of probe output.
pub fn classify_line(line: &Vec<u8>) -> (r: LineClass)
    ensures
        r@ == spec_classify(line@),
{
    let marker = text::marker_crv1_v();
    let m = match find_in(line, &marker) {
        None => {
            return LineClass::NoMatch;
        },
        Some(m) => m,
    };
    let https = text::https_prefix_v();
    let f = match find_in(line, &https) {
        None => {
            return LineClass::Malformed;
        },
        Some(f) => f,
    };
    proof {
        crate::bytes::lemma_find_in_bounds(line@, marker@, m as int);
        crate::bytes::lemma_find_in_bounds(line@, https@, f as int);
    }
    let llen = line.len();
    let base = m + marker.len();
    if f > base && f - base >= 2 {
        let a = base + 1;
        assert(a < f);
        let sub = sub_vec(line, a, f - 1);
        let colon = text::colon_v();
        let c1 = match find_in(&sub, &colon) {
            None => {
                return LineClass::Malformed;
            },
            Some(c1) => c1,
        };
        proof {
            crate::bytes::lemma_find_in_bounds(sub@, colon@, c1 as int);
        }
        let end = match find_sub_from(&sub, &colon, c1 + 1) {
            Some(c2) => {
                proof {
                    crate::bytes::lemma_find_from_bounds(sub@, colon@, c1 + 1, c2 as int);
                }
                c2
            },
            None => sub.len(),
        };
        let challenge = sub_vec(&sub, c1 + 1, end);
        let url = sub_vec(line, f, line.len());
        LineClass::Matched { challenge, url }
    } else {
        LineClass::Malformed
    }
}

/// Result of scanning the probe output up to the first marker line:
/// `Some` of url and challenge when that line matched, `None` when it was
/// malformed or the stream ended without a marker.
pub open spec fn spec_scan_from(lines: Seq<Seq<u8>>, i: int) -> Option<(Seq<u8>, Seq<u8>)>
    decreases lines.len() - i,
{
    if i < 0 || i >= lines.len() {
        None
    } else {
        match spec_classify(lines[i]) {
            LineClassSpec::NoMatch => spec_scan_from(lines, i + 1),
            LineClassSpec::Matched { challenge, url } => Some((url, challenge)),
            LineClassSpec::Malformed => None,
        }
    }
}

/// See [`spec_scan_from`]: the scan of the whole stream.
pub open spec fn spec_scan(lines: Seq<Seq<u8>>) -> Option<(Seq<u8>, Seq<u8>)> {
    spec_scan_from(lines, 0)
}

/// Scan the probe output, line by line in order, for the federated-login
/// redirect. Returns the URL and challenge of the first marker line, or
/// `None` when the stream closed without yielding both fields.
pub fn probe_scan(lines: &Vec<Vec<u8>>) -> (r: Option<AwsSaml>)
    ensures
        match r {
            Some(a) => spec_scan(lines.deep_view()) == Some((a.url@, a.pwd@)),
            None => spec_scan(lines.deep_view()) is None,
        },
{
    let n = lines.len();
    let mut i: usize = 0;
    while i < n
        invariant
            i <= n,
            n == lines@.len(),
            lines.deep_view().len() == lines@.len(),
            spec_scan(lines.deep_view()) == spec_scan_from(lines.deep_view(), i as int),
        decreases n - i,
    {
        assert(lines.deep_view()[i as int] == lines@[i as int]@);
        match classify_line(&lines[i]) {
            LineClass::Matched { challenge, url } => {
                return Some(AwsSaml { url, pwd: challenge });
            },
            LineClass::Malformed => {
                return None;
            },
            LineClass::NoMatch => {},
        }
        i += 1;
    }
    None
}

/// A successful scan always hands back a redirect URL that begins with
/// `https://`: it is the suffix of the marker line from the first
/// occurrence of that prefix.
pub proof fn lemma_scan_url_is_https(lines: Seq<Seq<u8>>, i: int)
    ensures
        spec_scan_from(lines, i) matches Some(r) ==> r.0.len() >= 8 && r.0.subrange(0, 8)
            == text::https_prefix(),
    decreases lines.len() - i,
{
    if i < 0 || i >= lines.len() {
    } else {
        let line = lines[i];
        match find_sub(line, text::marker_crv1()) {
            None => {
                lemma_scan_url_is_https(lines, i + 1);
            },
            Some(m) => {
                match find_sub(line, text::https_prefix()) {
                    None => {},
                    Some(f) => {
                        crate::bytes::lemma_find_in_bounds(line, text::https_prefix(), f);
                        let url = line.subrange(f, line.len() as int);
                        assert(url.subrange(0, 8) =~= text::https_prefix()) by {
                            assert forall|j: int| 0 <= j < 8 implies url.subrange(0, 8)[j]
                                == text::https_prefix()[j] by {
                                assert(url[j] == line[f + j]);
                            }
                        }
                    },
                }
            },
        }
    }
}

/// The two-line one-time secret handed to the engine:
/// `SAML\nCRV1::` challenge `::` assertion `\n`.
pub open spec fn spec_credential(challenge: Seq<u8>, assertion: Seq<u8>) -> Seq<u8> {
    text::cred_head() + challenge + text::cred_sep() + assertion + text::newline()
}

/// Build the one-time credential file content for the authenticated phase.
pub fn credential_file_content(challenge: &Vec<u8>, assertion: &Vec<u8>) -> (r: Vec<u8>)
    ensures
        r@ == spec_credential(challenge@, assertion@),
{
    let mut r = text::cred_head_v();
    push_all(&mut r, challenge);
    let sep = text::cred_sep_v();
    push_all(&mut r, &sep);
    push_all(&mut r, assertion);
    let nl = text::newline_v();
    push_all(&mut r, &nl);
    assert(r@ =~= spec_credential(challenge@, assertion@));
    r
}

/// The post-connect hook that deletes the consumed credential file:
/// `/usr/bin/env rm ` path.
pub open spec fn spec_rm_file_command(path: Seq<u8>) -> Seq<u8> {
    text::rm_prefix() + path
}

/// Build the credential-file cleanup command.
pub fn rm_file_command(path: &Vec<u8>) -> (r: Vec<u8>)
    ensures
        r@ == spec_rm_file_command(path@),
{
    let mut r = text::rm_prefix_v();
    push_all(&mut r, path);
    r
}

/// Arguments of the unauthenticated probe invocation:
/// `--config` config `--verb 3 --proto udp --remote` addr port
/// `--auth-user-pass` pwd-file.
pub open spec fn spec_probe_args(
    config: Seq<u8>,
    addr: Seq<u8>,
    port: nat,
    pwd_file: Seq<u8>,
) -> Seq<Seq<u8>> {
    seq![
        text::arg_config(),
        config,
        text::arg_verb(),
        text::verb_level(),
        text::arg_proto(),
        text::proto_udp(),
        text::arg_remote(),
        addr,
        dec_digits(port),
        text::arg_auth_user_pass(),
        pwd_file,
    ]
}

/// Build the argument list of the unauthenticated probe invocation.
pub fn probe_args(config: &Vec<u8>, addr: &Vec<u8>, port: u16, pwd_file: &Vec<u8>) -> (r: Vec<
    Vec<u8>,
>)
    ensures
        r.deep_view() == spec_probe_args(config@, addr@, port as nat, pwd_file@),
{
    let mut r: Vec<Vec<u8>> = Vec::new();
    r.push(text::arg_config_v());
    r.push(crate::log::copy_bytes(config));
    r.push(text::arg_verb_v());
    r.push(text::verb_level_v());
    r.push(text::arg_proto_v());
    r.push(text::proto_udp_v());
    r.push(text::arg_remote_v());
    r.push(crate::log::copy_bytes(addr));
    r.push(u32_dec(port as u32));
    r.push(text::arg_auth_user_pass_v());
    r.push(crate::log::copy_bytes(pwd_file));
    assert(r.deep_view() =~~= spec_probe_args(config@, addr@, port as nat, pwd_file@));
    r
}

/// Arguments of the authenticated invocation, run under the privilege
/// helper: `--config` config `--verb 3 --auth-nocache --inactive 3600
/// --proto udp --remote` addr port `--script-security 2 --route-up`
/// cleanup-command `--auth-user-pass` credential-file.
pub open spec fn spec_connect_args(
    config: Seq<u8>,
    addr: Seq<u8>,
    port: nat,
    cred_file: Seq<u8>,
) -> Seq<Seq<u8>> {
    seq![
        text::arg_config(),
        config,
        text::arg_verb(),
        text::verb_level(),
        text::arg_auth_nocache(),
        text::arg_inactive(),
        text::inactive_secs(),
        text::arg_proto(),
        text::proto_udp(),
        text::arg_remote(),
        addr,
        dec_digits(port),
        text::arg_script_security(),
        text::script_security_level(),
        text::arg_route_up(),
        spec_rm_file_command(cred_file),
        text::arg_auth_user_pass(),
        cred_file,
    ]
}

/// Build the argument list of the authenticated invocation.
pub fn connect_args(config: &Vec<u8>, addr: &Vec<u8>, port: u16, cred_file: &Vec<u8>) -> (r: Vec<
    Vec<u8>,
>)
    ensures
        r.deep_view() == spec_connect_args(config@, addr@, port as nat, cred_file@),
{
    let mut r: Vec<Vec<u8>> = Vec::new();
    r.push(text::arg_config_v());
    r.push(crate::log::copy_bytes(config));
    r.push(text::arg_verb_v());
    r.push(text::verb_level_v());
    r.push(text::arg_auth_nocache_v());
    r.push(text::arg_inactive_v());
    r.push(text::inactive_secs_v());
    r.push(text::arg_proto_v());
    r.push(text::proto_udp_v());
    r.push(text::arg_remote_v());
    r.push(crate::log::copy_bytes(addr));
    r.push(u32_dec(port as u32));
    r.push(text::arg_script_security_v());
    r.push(text::script_security_level_v());
    r.push(text::arg_route_up_v());
    r.push(rm_file_command(cred_file));
    r.push(text::arg_auth_user_pass_v());
    r.push(crate::log::copy_bytes(cred_file));
    assert(r.deep_view() =~~= spec_connect_args(config@, addr@, port as nat, cred_file@));
    r
}

/// A recorded process id from an earlier run may be killed only when the
/// process's command line still looks like the engine started by this
/// program: an absolute path running `openvpn --config /`... with
/// `--auth-user-pass /`...`pwd.txt`; and never for pid 0 or 1.
pub open spec fn spec_kill_decision(pid: nat, ps_line: Option<Seq<u8>>) -> bool {
    &&& pid != 0
    &&& pid != 1
    &&& match ps_line {
        None => false,
        Some(line) => {
            &&& line.len() > 0
            &&& line[0] == 47u8
            &&& contains_sub(line, text::kill_pat_config())
            &&& contains_sub(line, text::kill_pat_auth())
            &&& ends_with(line, text::kill_pat_pwd())
        },
    }
}

/// Decide whether the recorded pid may be killed, from the last line that a
/// process listing printed for it.
pub fn kill_decision(pid: u32, ps_line: Option<&Vec<u8>>) -> (r: bool)
    ensures
        r == spec_kill_decision(
            pid as nat,
            match ps_line {
                Some(l) => Some(l@),
                None => None,
            },
        ),
{
    if pid == 0 || pid == 1 {
        return false;
    }
    let line = match ps_line {
        None => {
            return false;
        },
        Some(l) => l,
    };
    if line.len() == 0 {
        return false;
    }
    if line[0] != 47 {
        return false;
    }
    let pat_config = text::kill_pat_config_v();
    let pat_auth = text::kill_pat_auth_v();
    let pat_pwd = text::kill_pat_pwd_v();
    crate::bytes::contains_in(line, &pat_config) && crate::bytes::contains_in(line, &pat_auth)
        && crate::bytes::ends_with_in(line, &pat_pwd)
}

} // verus!

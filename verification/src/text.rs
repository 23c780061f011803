//! Fixed byte strings of the protocol: markers scanned for in engine
//! output, engine command-line words, and user-facing messages.

use vstd::prelude::*;

verus! {

/// Bytes of `AUTH_FAILED,CRV1`.
pub open spec fn marker_crv1() -> Seq<u8> {
    seq![65u8, 85u8, 84u8, 72u8, 95u8, 70u8, 65u8, 73u8, 76u8, 69u8, 68u8, 44u8, 67u8, 82u8, 86u8, 49u8]
}

/// Executable copy of [`marker_crv1`].
pub fn marker_crv1_v() -> (r: Vec<u8>)
    ensures
        r@ == marker_crv1(),
{
    let r: Vec<u8> = vec![65u8, 85u8, 84u8, 72u8, 95u8, 70u8, 65u8, 73u8, 76u8, 69u8, 68u8, 44u8, 67u8, 82u8, 86u8, 49u8];
    assert(r@ =~= marker_crv1());
    r
}

/// Bytes of `https://`.
pub open spec fn https_prefix() -> Seq<u8> {
    seq![104u8, 116u8, 116u8, 112u8, 115u8, 58u8, 47u8, 47u8]
}

/// Executable copy of [`https_prefix`].
pub fn https_prefix_v() -> (r: Vec<u8>)
    ensures
        r@ == https_prefix(),
{
    let r: Vec<u8> = vec![104u8, 116u8, 116u8, 112u8, 115u8, 58u8, 47u8, 47u8];
    assert(r@ =~= https_prefix());
    r
}

/// Bytes of `:`.
pub open spec fn colon() -> Seq<u8> {
    seq![58u8]
}

/// Executable copy of [`colon`].
pub fn colon_v() -> (r: Vec<u8>)
    ensures
        r@ == colon(),
{
    let r: Vec<u8> = vec![58u8];
    assert(r@ =~= colon());
    r
}

/// Bytes of `SAML\nCRV1::`.
pub open spec fn cred_head() -> Seq<u8> {
    seq![83u8, 65u8, 77u8, 76u8, 10u8, 67u8, 82u8, 86u8, 49u8, 58u8, 58u8]
}

/// Executable copy of [`cred_head`].
pub fn cred_head_v() -> (r: Vec<u8>)
    ensures
        r@ == cred_head(),
{
    let r: Vec<u8> = vec![83u8, 65u8, 77u8, 76u8, 10u8, 67u8, 82u8, 86u8, 49u8, 58u8, 58u8];
    assert(r@ =~= cred_head());
    r
}

/// Bytes of `::`.
pub open spec fn cred_sep() -> Seq<u8> {
    seq![58u8, 58u8]
}

/// Executable copy of [`cred_sep`].
pub fn cred_sep_v() -> (r: Vec<u8>)
    ensures
        r@ == cred_sep(),
{
    let r: Vec<u8> = vec![58u8, 58u8];
    assert(r@ =~= cred_sep());
    r
}

/// Bytes of `\n`.
pub open spec fn newline() -> Seq<u8> {
    seq![10u8]
}

/// Executable copy of [`newline`].
pub fn newline_v() -> (r: Vec<u8>)
    ensures
        r@ == newline(),
{
    let r: Vec<u8> = vec![10u8];
    assert(r@ =~= newline());
    r
}

/// Bytes of `--config`.
pub open spec fn arg_config() -> Seq<u8> {
    seq![45u8, 45u8, 99u8, 111u8, 110u8, 102u8, 105u8, 103u8]
}

/// Executable copy of [`arg_config`].
pub fn arg_config_v() -> (r: Vec<u8>)
    ensures
        r@ == arg_config(),
{
    let r: Vec<u8> = vec![45u8, 45u8, 99u8, 111u8, 110u8, 102u8, 105u8, 103u8];
    assert(r@ =~= arg_config());
    r
}

/// Bytes of `--verb`.
pub open spec fn arg_verb() -> Seq<u8> {
    seq![45u8, 45u8, 118u8, 101u8, 114u8, 98u8]
}

/// Executable copy of [`arg_verb`].
pub fn arg_verb_v() -> (r: Vec<u8>)
    ensures
        r@ == arg_verb(),
{
    let r: Vec<u8> = vec![45u8, 45u8, 118u8, 101u8, 114u8, 98u8];
    assert(r@ =~= arg_verb());
    r
}

/// Bytes of `3`.
pub open spec fn verb_level() -> Seq<u8> {
    seq![51u8]
}

/// Executable copy of [`verb_level`].
pub fn verb_level_v() -> (r: Vec<u8>)
    ensures
        r@ == verb_level(),
{
    let r: Vec<u8> = vec![51u8];
    assert(r@ =~= verb_level());
    r
}

/// Bytes of `--proto`.
pub open spec fn arg_proto() -> Seq<u8> {
    seq![45u8, 45u8, 112u8, 114u8, 111u8, 116u8, 111u8]
}

/// Executable copy of [`arg_proto`].
pub fn arg_proto_v() -> (r: Vec<u8>)
    ensures
        r@ == arg_proto(),
{
    let r: Vec<u8> = vec![45u8, 45u8, 112u8, 114u8, 111u8, 116u8, 111u8];
    assert(r@ =~= arg_proto());
    r
}

/// Bytes of `udp`.
pub open spec fn proto_udp() -> Seq<u8> {
    seq![117u8, 100u8, 112u8]
}

/// Executable copy of [`proto_udp`].
pub fn proto_udp_v() -> (r: Vec<u8>)
    ensures
        r@ == proto_udp(),
{
    let r: Vec<u8> = vec![117u8, 100u8, 112u8];
    assert(r@ =~= proto_udp());
    r
}

/// Bytes of `--remote`.
pub open spec fn arg_remote() -> Seq<u8> {
    seq![45u8, 45u8, 114u8, 101u8, 109u8, 111u8, 116u8, 101u8]
}

/// Executable copy of [`arg_remote`].
pub fn arg_remote_v() -> (r: Vec<u8>)
    ensures
        r@ == arg_remote(),
{
    let r: Vec<u8> = vec![45u8, 45u8, 114u8, 101u8, 109u8, 111u8, 116u8, 101u8];
    assert(r@ =~= arg_remote());
    r
}

/// Bytes of `--auth-user-pass`.
pub open spec fn arg_auth_user_pass() -> Seq<u8> {
    seq![45u8, 45u8, 97u8, 117u8, 116u8, 104u8, 45u8, 117u8, 115u8, 101u8, 114u8, 45u8, 112u8, 97u8, 115u8, 115u8]
}

/// Executable copy of [`arg_auth_user_pass`].
pub fn arg_auth_user_pass_v() -> (r: Vec<u8>)
    ensures
        r@ == arg_auth_user_pass(),
{
    let r: Vec<u8> = vec![45u8, 45u8, 97u8, 117u8, 116u8, 104u8, 45u8, 117u8, 115u8, 101u8, 114u8, 45u8, 112u8, 97u8, 115u8, 115u8];
    assert(r@ =~= arg_auth_user_pass());
    r
}

/// Bytes of `--auth-nocache`.
pub open spec fn arg_auth_nocache() -> Seq<u8> {
    seq![45u8, 45u8, 97u8, 117u8, 116u8, 104u8, 45u8, 110u8, 111u8, 99u8, 97u8, 99u8, 104u8, 101u8]
}

/// Executable copy of [`arg_auth_nocache`].
pub fn arg_auth_nocache_v() -> (r: Vec<u8>)
    ensures
        r@ == arg_auth_nocache(),
{
    let r: Vec<u8> = vec![45u8, 45u8, 97u8, 117u8, 116u8, 104u8, 45u8, 110u8, 111u8, 99u8, 97u8, 99u8, 104u8, 101u8];
    assert(r@ =~= arg_auth_nocache());
    r
}

/// Bytes of `--inactive`.
pub open spec fn arg_inactive() -> Seq<u8> {
    seq![45u8, 45u8, 105u8, 110u8, 97u8, 99u8, 116u8, 105u8, 118u8, 101u8]
}

/// Executable copy of [`arg_inactive`].
pub fn arg_inactive_v() -> (r: Vec<u8>)
    ensures
        r@ == arg_inactive(),
{
    let r: Vec<u8> = vec![45u8, 45u8, 105u8, 110u8, 97u8, 99u8, 116u8, 105u8, 118u8, 101u8];
    assert(r@ =~= arg_inactive());
    r
}

/// Bytes of `3600`.
pub open spec fn inactive_secs() -> Seq<u8> {
    seq![51u8, 54u8, 48u8, 48u8]
}

/// Executable copy of [`inactive_secs`].
pub fn inactive_secs_v() -> (r: Vec<u8>)
    ensures
        r@ == inactive_secs(),
{
    let r: Vec<u8> = vec![51u8, 54u8, 48u8, 48u8];
    assert(r@ =~= inactive_secs());
    r
}

/// Bytes of `--script-security`.
pub open spec fn arg_script_security() -> Seq<u8> {
    seq![45u8, 45u8, 115u8, 99u8, 114u8, 105u8, 112u8, 116u8, 45u8, 115u8, 101u8, 99u8, 117u8, 114u8, 105u8, 116u8, 121u8]
}

/// Executable copy of [`arg_script_security`].
pub fn arg_script_security_v() -> (r: Vec<u8>)
    ensures
        r@ == arg_script_security(),
{
    let r: Vec<u8> = vec![45u8, 45u8, 115u8, 99u8, 114u8, 105u8, 112u8, 116u8, 45u8, 115u8, 101u8, 99u8, 117u8, 114u8, 105u8, 116u8, 121u8];
    assert(r@ =~= arg_script_security());
    r
}

/// Bytes of `2`.
pub open spec fn script_security_level() -> Seq<u8> {
    seq![50u8]
}

/// Executable copy of [`script_security_level`].
pub fn script_security_level_v() -> (r: Vec<u8>)
    ensures
        r@ == script_security_level(),
{
    let r: Vec<u8> = vec![50u8];
    assert(r@ =~= script_security_level());
    r
}

/// Bytes of `--route-up`.
pub open spec fn arg_route_up() -> Seq<u8> {
    seq![45u8, 45u8, 114u8, 111u8, 117u8, 116u8, 101u8, 45u8, 117u8, 112u8]
}

/// Executable copy of [`arg_route_up`].
pub fn arg_route_up_v() -> (r: Vec<u8>)
    ensures
        r@ == arg_route_up(),
{
    let r: Vec<u8> = vec![45u8, 45u8, 114u8, 111u8, 117u8, 116u8, 101u8, 45u8, 117u8, 112u8];
    assert(r@ =~= arg_route_up());
    r
}

/// Bytes of `/usr/bin/env rm `.
pub open spec fn rm_prefix() -> Seq<u8> {
    seq![47u8, 117u8, 115u8, 114u8, 47u8, 98u8, 105u8, 110u8, 47u8, 101u8, 110u8, 118u8, 32u8, 114u8, 109u8, 32u8]
}

/// Executable copy of [`rm_prefix`].
pub fn rm_prefix_v() -> (r: Vec<u8>)
    ensures
        r@ == rm_prefix(),
{
    let r: Vec<u8> = vec![47u8, 117u8, 115u8, 114u8, 47u8, 98u8, 105u8, 110u8, 47u8, 101u8, 110u8, 118u8, 32u8, 114u8, 109u8, 32u8];
    assert(r@ =~= rm_prefix());
    r
}

/// Bytes of `openvpn --config /`.
pub open spec fn kill_pat_config() -> Seq<u8> {
    seq![111u8, 112u8, 101u8, 110u8, 118u8, 112u8, 110u8, 32u8, 45u8, 45u8, 99u8, 111u8, 110u8, 102u8, 105u8, 103u8, 32u8, 47u8]
}

/// Executable copy of [`kill_pat_config`].
pub fn kill_pat_config_v() -> (r: Vec<u8>)
    ensures
        r@ == kill_pat_config(),
{
    let r: Vec<u8> = vec![111u8, 112u8, 101u8, 110u8, 118u8, 112u8, 110u8, 32u8, 45u8, 45u8, 99u8, 111u8, 110u8, 102u8, 105u8, 103u8, 32u8, 47u8];
    assert(r@ =~= kill_pat_config());
    r
}

/// Bytes of `--auth-user-pass /`.
pub open spec fn kill_pat_auth() -> Seq<u8> {
    seq![45u8, 45u8, 97u8, 117u8, 116u8, 104u8, 45u8, 117u8, 115u8, 101u8, 114u8, 45u8, 112u8, 97u8, 115u8, 115u8, 32u8, 47u8]
}

/// Executable copy of [`kill_pat_auth`].
pub fn kill_pat_auth_v() -> (r: Vec<u8>)
    ensures
        r@ == kill_pat_auth(),
{
    let r: Vec<u8> = vec![45u8, 45u8, 97u8, 117u8, 116u8, 104u8, 45u8, 117u8, 115u8, 101u8, 114u8, 45u8, 112u8, 97u8, 115u8, 115u8, 32u8, 47u8];
    assert(r@ =~= kill_pat_auth());
    r
}

/// Bytes of `pwd.txt`.
pub open spec fn kill_pat_pwd() -> Seq<u8> {
    seq![112u8, 119u8, 100u8, 46u8, 116u8, 120u8, 116u8]
}

/// Executable copy of [`kill_pat_pwd`].
pub fn kill_pat_pwd_v() -> (r: Vec<u8>)
    ensures
        r@ == kill_pat_pwd(),
{
    let r: Vec<u8> = vec![112u8, 119u8, 100u8, 46u8, 116u8, 120u8, 116u8];
    assert(r@ =~= kill_pat_pwd());
    r
}

/// Bytes of `.`.
pub open spec fn dot() -> Seq<u8> {
    seq![46u8]
}

/// Executable copy of [`dot`].
pub fn dot_v() -> (r: Vec<u8>)
    ensures
        r@ == dot(),
{
    let r: Vec<u8> = vec![46u8];
    assert(r@ =~= dot());
    r
}

/// Bytes of `authentication info not found`.
pub open spec fn msg_auth_not_found() -> Seq<u8> {
    seq![97u8, 117u8, 116u8, 104u8, 101u8, 110u8, 116u8, 105u8, 99u8, 97u8, 116u8, 105u8, 111u8, 110u8, 32u8, 105u8, 110u8, 102u8, 111u8, 32u8, 110u8, 111u8, 116u8, 32u8, 102u8, 111u8, 117u8, 110u8, 100u8]
}

/// Executable copy of [`msg_auth_not_found`].
pub fn msg_auth_not_found_v() -> (r: Vec<u8>)
    ensures
        r@ == msg_auth_not_found(),
{
    let r: Vec<u8> = vec![97u8, 117u8, 116u8, 104u8, 101u8, 110u8, 116u8, 105u8, 99u8, 97u8, 116u8, 105u8, 111u8, 110u8, 32u8, 105u8, 110u8, 102u8, 111u8, 32u8, 110u8, 111u8, 116u8, 32u8, 102u8, 111u8, 117u8, 110u8, 100u8];
    assert(r@ =~= msg_auth_not_found());
    r
}

/// Bytes of `Error: Missing SAMLResponse field`.
pub open spec fn msg_missing_saml() -> Seq<u8> {
    seq![69u8, 114u8, 114u8, 111u8, 114u8, 58u8, 32u8, 77u8, 105u8, 115u8, 115u8, 105u8, 110u8, 103u8, 32u8, 83u8, 65u8, 77u8, 76u8, 82u8, 101u8, 115u8, 112u8, 111u8, 110u8, 115u8, 101u8, 32u8, 102u8, 105u8, 101u8, 108u8, 100u8]
}

/// Executable copy of [`msg_missing_saml`].
pub fn msg_missing_saml_v() -> (r: Vec<u8>)
    ensures
        r@ == msg_missing_saml(),
{
    let r: Vec<u8> = vec![69u8, 114u8, 114u8, 111u8, 114u8, 58u8, 32u8, 77u8, 105u8, 115u8, 115u8, 105u8, 110u8, 103u8, 32u8, 83u8, 65u8, 77u8, 76u8, 82u8, 101u8, 115u8, 112u8, 111u8, 110u8, 115u8, 101u8, 32u8, 102u8, 105u8, 101u8, 108u8, 100u8];
    assert(r@ =~= msg_missing_saml());
    r
}

/// Bytes of `Got SAMLResponse field, it is now safe to close this window`.
pub open spec fn msg_safe_close() -> Seq<u8> {
    seq![71u8, 111u8, 116u8, 32u8, 83u8, 65u8, 77u8, 76u8, 82u8, 101u8, 115u8, 112u8, 111u8, 110u8, 115u8, 101u8, 32u8, 102u8, 105u8, 101u8, 108u8, 100u8, 44u8, 32u8, 105u8, 116u8, 32u8, 105u8, 115u8, 32u8, 110u8, 111u8, 119u8, 32u8, 115u8, 97u8, 102u8, 101u8, 32u8, 116u8, 111u8, 32u8, 99u8, 108u8, 111u8, 115u8, 101u8, 32u8, 116u8, 104u8, 105u8, 115u8, 32u8, 119u8, 105u8, 110u8, 100u8, 111u8, 119u8]
}

/// Executable copy of [`msg_safe_close`].
pub fn msg_safe_close_v() -> (r: Vec<u8>)
    ensures
        r@ == msg_safe_close(),
{
    let r: Vec<u8> = vec![71u8, 111u8, 116u8, 32u8, 83u8, 65u8, 77u8, 76u8, 82u8, 101u8, 115u8, 112u8, 111u8, 110u8, 115u8, 101u8, 32u8, 102u8, 105u8, 101u8, 108u8, 100u8, 44u8, 32u8, 105u8, 116u8, 32u8, 105u8, 115u8, 32u8, 110u8, 111u8, 119u8, 32u8, 115u8, 97u8, 102u8, 101u8, 32u8, 116u8, 111u8, 32u8, 99u8, 108u8, 111u8, 115u8, 101u8, 32u8, 116u8, 104u8, 105u8, 115u8, 32u8, 119u8, 105u8, 110u8, 100u8, 111u8, 119u8];
    assert(r@ =~= msg_safe_close());
    r
}

/// Bytes of `Error: DNS resolution failed for VPN endpoint`.
pub open spec fn msg_dns_failed() -> Seq<u8> {
    seq![69u8, 114u8, 114u8, 111u8, 114u8, 58u8, 32u8, 68u8, 78u8, 83u8, 32u8, 114u8, 101u8, 115u8, 111u8, 108u8, 117u8, 116u8, 105u8, 111u8, 110u8, 32u8, 102u8, 97u8, 105u8, 108u8, 101u8, 100u8, 32u8, 102u8, 111u8, 114u8, 32u8, 86u8, 80u8, 78u8, 32u8, 101u8, 110u8, 100u8, 112u8, 111u8, 105u8, 110u8, 116u8]
}

/// Executable copy of [`msg_dns_failed`].
pub fn msg_dns_failed_v() -> (r: Vec<u8>)
    ensures
        r@ == msg_dns_failed(),
{
    let r: Vec<u8> = vec![69u8, 114u8, 114u8, 111u8, 114u8, 58u8, 32u8, 68u8, 78u8, 83u8, 32u8, 114u8, 101u8, 115u8, 111u8, 108u8, 117u8, 116u8, 105u8, 111u8, 110u8, 32u8, 102u8, 97u8, 105u8, 108u8, 101u8, 100u8, 32u8, 102u8, 111u8, 114u8, 32u8, 86u8, 80u8, 78u8, 32u8, 101u8, 110u8, 100u8, 112u8, 111u8, 105u8, 110u8, 116u8];
    assert(r@ =~= msg_dns_failed());
    r
}

/// Bytes of `Error: Remote configuration missing`.
pub open spec fn msg_remote_missing() -> Seq<u8> {
    seq![69u8, 114u8, 114u8, 111u8, 114u8, 58u8, 32u8, 82u8, 101u8, 109u8, 111u8, 116u8, 101u8, 32u8, 99u8, 111u8, 110u8, 102u8, 105u8, 103u8, 117u8, 114u8, 97u8, 116u8, 105u8, 111u8, 110u8, 32u8, 109u8, 105u8, 115u8, 115u8, 105u8, 110u8, 103u8]
}

/// Executable copy of [`msg_remote_missing`].
pub fn msg_remote_missing_v() -> (r: Vec<u8>)
    ensures
        r@ == msg_remote_missing(),
{
    let r: Vec<u8> = vec![69u8, 114u8, 114u8, 111u8, 114u8, 58u8, 32u8, 82u8, 101u8, 109u8, 111u8, 116u8, 101u8, 32u8, 99u8, 111u8, 110u8, 102u8, 105u8, 103u8, 117u8, 114u8, 97u8, 116u8, 105u8, 111u8, 110u8, 32u8, 109u8, 105u8, 115u8, 115u8, 105u8, 110u8, 103u8];
    assert(r@ =~= msg_remote_missing());
    r
}

/// Bytes of `Error: No VPN configuration file selected`.
pub open spec fn msg_config_missing() -> Seq<u8> {
    seq![69u8, 114u8, 114u8, 111u8, 114u8, 58u8, 32u8, 78u8, 111u8, 32u8, 86u8, 80u8, 78u8, 32u8, 99u8, 111u8, 110u8, 102u8, 105u8, 103u8, 117u8, 114u8, 97u8, 116u8, 105u8, 111u8, 110u8, 32u8, 102u8, 105u8, 108u8, 101u8, 32u8, 115u8, 101u8, 108u8, 101u8, 99u8, 116u8, 101u8, 100u8]
}

/// Executable copy of [`msg_config_missing`].
pub fn msg_config_missing_v() -> (r: Vec<u8>)
    ensures
        r@ == msg_config_missing(),
{
    let r: Vec<u8> = vec![69u8, 114u8, 114u8, 111u8, 114u8, 58u8, 32u8, 78u8, 111u8, 32u8, 86u8, 80u8, 78u8, 32u8, 99u8, 111u8, 110u8, 102u8, 105u8, 103u8, 117u8, 114u8, 97u8, 116u8, 105u8, 111u8, 110u8, 32u8, 102u8, 105u8, 108u8, 101u8, 32u8, 115u8, 101u8, 108u8, 101u8, 99u8, 116u8, 101u8, 100u8];
    assert(r@ =~= msg_config_missing());
    r
}

/// Bytes of `Error: No IP address available for connection`.
pub open spec fn msg_no_address() -> Seq<u8> {
    seq![69u8, 114u8, 114u8, 111u8, 114u8, 58u8, 32u8, 78u8, 111u8, 32u8, 73u8, 80u8, 32u8, 97u8, 100u8, 100u8, 114u8, 101u8, 115u8, 115u8, 32u8, 97u8, 118u8, 97u8, 105u8, 108u8, 97u8, 98u8, 108u8, 101u8, 32u8, 102u8, 111u8, 114u8, 32u8, 99u8, 111u8, 110u8, 110u8, 101u8, 99u8, 116u8, 105u8, 111u8, 110u8]
}

/// Executable copy of [`msg_no_address`].
pub fn msg_no_address_v() -> (r: Vec<u8>)
    ensures
        r@ == msg_no_address(),
{
    let r: Vec<u8> = vec![69u8, 114u8, 114u8, 111u8, 114u8, 58u8, 32u8, 78u8, 111u8, 32u8, 73u8, 80u8, 32u8, 97u8, 100u8, 100u8, 114u8, 101u8, 115u8, 115u8, 32u8, 97u8, 118u8, 97u8, 105u8, 108u8, 97u8, 98u8, 108u8, 101u8, 32u8, 102u8, 111u8, 114u8, 32u8, 99u8, 111u8, 110u8, 110u8, 101u8, 99u8, 116u8, 105u8, 111u8, 110u8];
    assert(r@ =~= msg_no_address());
    r
}

/// Bytes of `Error: No config file available`.
pub open spec fn msg_no_config() -> Seq<u8> {
    seq![69u8, 114u8, 114u8, 111u8, 114u8, 58u8, 32u8, 78u8, 111u8, 32u8, 99u8, 111u8, 110u8, 102u8, 105u8, 103u8, 32u8, 102u8, 105u8, 108u8, 101u8, 32u8, 97u8, 118u8, 97u8, 105u8, 108u8, 97u8, 98u8, 108u8, 101u8]
}

/// Executable copy of [`msg_no_config`].
pub fn msg_no_config_v() -> (r: Vec<u8>)
    ensures
        r@ == msg_no_config(),
{
    let r: Vec<u8> = vec![69u8, 114u8, 114u8, 111u8, 114u8, 58u8, 32u8, 78u8, 111u8, 32u8, 99u8, 111u8, 110u8, 102u8, 105u8, 103u8, 32u8, 102u8, 105u8, 108u8, 101u8, 32u8, 97u8, 118u8, 97u8, 105u8, 108u8, 97u8, 98u8, 108u8, 101u8];
    assert(r@ =~= msg_no_config());
    r
}

/// Bytes of `Error: No port available`.
pub open spec fn msg_no_port() -> Seq<u8> {
    seq![69u8, 114u8, 114u8, 111u8, 114u8, 58u8, 32u8, 78u8, 111u8, 32u8, 112u8, 111u8, 114u8, 116u8, 32u8, 97u8, 118u8, 97u8, 105u8, 108u8, 97u8, 98u8, 108u8, 101u8]
}

/// Executable copy of [`msg_no_port`].
pub fn msg_no_port_v() -> (r: Vec<u8>)
    ensures
        r@ == msg_no_port(),
{
    let r: Vec<u8> = vec![69u8, 114u8, 114u8, 111u8, 114u8, 58u8, 32u8, 78u8, 111u8, 32u8, 112u8, 111u8, 114u8, 116u8, 32u8, 97u8, 118u8, 97u8, 105u8, 108u8, 97u8, 98u8, 108u8, 101u8];
    assert(r@ =~= msg_no_port());
    r
}

/// Bytes of `SAMLResponse`.
pub open spec fn saml_field_key() -> Seq<u8> {
    seq![83u8, 65u8, 77u8, 76u8, 82u8, 101u8, 115u8, 112u8, 111u8, 110u8, 115u8, 101u8]
}

/// Executable copy of [`saml_field_key`].
pub fn saml_field_key_v() -> (r: Vec<u8>)
    ensures
        r@ == saml_field_key(),
{
    let r: Vec<u8> = vec![83u8, 65u8, 77u8, 76u8, 82u8, 101u8, 115u8, 112u8, 111u8, 110u8, 115u8, 101u8];
    assert(r@ =~= saml_field_key());
    r
}


/// Bytes of `INFO: `.
pub open spec fn level_info() -> Seq<u8> {
    seq![73u8, 78u8, 70u8, 79u8, 58u8, 32u8]
}

/// Executable copy of [`level_info`].
pub fn level_info_v() -> (r: Vec<u8>)
    ensures
        r@ == level_info(),
{
    let r: Vec<u8> = vec![73u8, 78u8, 70u8, 79u8, 58u8, 32u8];
    assert(r@ =~= level_info());
    r
}

/// Bytes of `ERROR: `.
pub open spec fn level_error() -> Seq<u8> {
    seq![69u8, 82u8, 82u8, 79u8, 82u8, 58u8, 32u8]
}

/// Executable copy of [`level_error`].
pub fn level_error_v() -> (r: Vec<u8>)
    ensures
        r@ == level_error(),
{
    let r: Vec<u8> = vec![69u8, 82u8, 82u8, 79u8, 82u8, 58u8, 32u8];
    assert(r@ =~= level_error());
    r
}


/// Bytes of `&`.
pub open spec fn amp() -> Seq<u8> {
    seq![38u8]
}

/// Executable copy of [`amp`].
pub fn amp_v() -> (r: Vec<u8>)
    ensures
        r@ == amp(),
{
    let r: Vec<u8> = vec![38u8];
    assert(r@ =~= amp());
    r
}

/// Bytes of `=`.
pub open spec fn equals() -> Seq<u8> {
    seq![61u8]
}

/// Executable copy of [`equals`].
pub fn equals_v() -> (r: Vec<u8>)
    ensures
        r@ == equals(),
{
    let r: Vec<u8> = vec![61u8];
    assert(r@ =~= equals());
    r
}


/// Bytes of `remote`.
pub open spec fn word_remote() -> Seq<u8> {
    seq![114u8, 101u8, 109u8, 111u8, 116u8, 101u8]
}

/// Executable copy of [`word_remote`].
pub fn word_remote_v() -> (r: Vec<u8>)
    ensures
        r@ == word_remote(),
{
    let r: Vec<u8> = vec![114u8, 101u8, 109u8, 111u8, 116u8, 101u8];
    assert(r@ =~= word_remote());
    r
}

} // verus!

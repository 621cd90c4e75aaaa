//! The request view and the probe scenarios: echo, random, and the fixed
//! entry points.

use zbx::{
    rust_echo, rust_random, zbx_module_api_version, zbx_module_init, zbx_module_item_list,
    zbx_module_uninit, AGENT_REQUEST, AGENT_RESULT, AR_MESSAGE, AR_STRING, AR_UINT64,
    CF_HAVEPARAMS, CF_NOPARAMS, SYSINFO_RET_FAIL, SYSINFO_RET_OK, ZBX_MODULE_API_VERSION_ONE,
    ZBX_MODULE_OK,
};

fn request(key: &str, params: &[&[u8]]) -> AGENT_REQUEST {
    AGENT_REQUEST {
        key: key.as_bytes().to_vec(),
        params: params.iter().map(|p| p.to_vec()).collect(),
        lastlogsize: 0,
        mtime: 0,
    }
}

fn decode(buffer: &[u8]) -> &[u8] {
    let end = buffer.iter().position(|&b| b == 0).unwrap_or(buffer.len());
    &buffer[..end]
}

#[test]
fn get_params_returns_every_entry_in_order() {
    let req = request("rust.echo", &[b"one", b"two", b"three"]);
    let params = AGENT_REQUEST::get_params(&req);
    assert_eq!(params.len(), 3);
    assert_eq!(params[0], b"one".to_vec());
    assert_eq!(params[1], b"two".to_vec());
    assert_eq!(params[2], b"three".to_vec());
}

#[test]
fn get_params_of_an_empty_request_is_empty() {
    let req = request("rust.random", &[]);
    assert!(AGENT_REQUEST::get_params(&req).is_empty());
    assert_eq!(req.nparam(), 0);
}

#[test]
fn echo_answers_its_parameter_as_string() {
    let req = request("rust.echo", &[b"hello"]);
    let mut res = AGENT_RESULT::new();
    let status = rust_echo(&req, &mut res);
    assert_eq!(status, SYSINFO_RET_OK);
    assert_eq!(res._type, AR_STRING);
    let buffer = res._str.as_ref().expect("string payload set");
    assert_eq!(decode(buffer), b"hello");
}

#[test]
fn echo_with_zero_parameters_fails_with_a_diagnostic() {
    let req = request("rust.echo", &[]);
    let mut res = AGENT_RESULT::new();
    let status = rust_echo(&req, &mut res);
    assert_eq!(status, SYSINFO_RET_FAIL);
    assert_eq!(res._type, AR_MESSAGE);
    let buffer = res.msg.as_ref().expect("message payload set");
    assert!(!decode(buffer).is_empty());
    assert_eq!(decode(buffer), b"Invalid number of parameters");
}

#[test]
fn echo_with_two_parameters_fails_with_a_diagnostic() {
    let req = request("rust.echo", &[b"a", b"b"]);
    let mut res = AGENT_RESULT::new();
    let status = rust_echo(&req, &mut res);
    assert_eq!(status, SYSINFO_RET_FAIL);
    assert_eq!(res._type, AR_MESSAGE);
}

#[test]
fn echo_with_a_nul_byte_fails_instead_of_truncating() {
    let req = request("rust.echo", &[b"he\0llo"]);
    let mut res = AGENT_RESULT::new();
    let status = rust_echo(&req, &mut res);
    assert_eq!(status, SYSINFO_RET_FAIL);
    assert_eq!(res._type, AR_MESSAGE);
    let buffer = res.msg.as_ref().expect("message payload set");
    assert!(!decode(buffer).is_empty());
    assert!(res._str.is_none());
}

#[test]
fn random_succeeds_and_tags_the_integer_payload() {
    let req = request("rust.random", &[]);
    let mut res = AGENT_RESULT::new();
    let status = rust_random(&req, &mut res);
    assert_eq!(status, SYSINFO_RET_OK);
    assert_eq!(res._type & AR_UINT64, AR_UINT64);
}

#[test]
fn random_ignores_its_parameters() {
    let req = request("rust.random", &[b"ignored", b"also ignored"]);
    let mut res = AGENT_RESULT::new();
    let status = rust_random(&req, &mut res);
    assert_eq!(status, SYSINFO_RET_OK);
    assert_eq!(res._type & AR_UINT64, AR_UINT64);
}

#[test]
fn version_query_is_the_fixed_constant() {
    assert_eq!(zbx_module_api_version(), 1);
    assert_eq!(zbx_module_api_version(), ZBX_MODULE_API_VERSION_ONE);
}

#[test]
fn version_query_is_stable_across_other_calls() {
    assert_eq!(zbx_module_api_version(), 1);
    assert_eq!(zbx_module_init(), ZBX_MODULE_OK);
    let _ = zbx_module_item_list();
    let req = request("rust.random", &[]);
    let mut res = AGENT_RESULT::new();
    let _ = rust_random(&req, &mut res);
    assert_eq!(zbx_module_api_version(), 1);
    assert_eq!(zbx_module_uninit(), ZBX_MODULE_OK);
    assert_eq!(zbx_module_api_version(), 1);
}

#[test]
fn item_list_advertises_echo_and_random_with_sentinel() {
    let items = zbx_module_item_list();
    assert_eq!(items.len(), 3);
    assert_eq!(items[0].key, b"rust.echo\0".to_vec());
    assert_eq!(items[0].flags, CF_HAVEPARAMS);
    assert_eq!(items[1].key, b"rust.random\0".to_vec());
    assert_eq!(items[1].flags, CF_NOPARAMS);
    assert_eq!(items[2].key, vec![0u8]);
}

//! The module's fixed entry points and its two probe callbacks.
//!
//! The host resolves four entry points by name — version query, init,
//! uninit, item-list query — and then calls the probe callbacks the item
//! list advertises. The unverified shell owns the C signatures; it calls
//! the functions here for every decision and every byte of the answer, and
//! dispatches a request to a probe by the callback identifier carried in
//! the matching descriptor.

use vstd::prelude::*;

use crate::cstr::contains_nul;
use crate::cstr::no_nul;
use crate::metric::create_items;
use crate::metric::is_sentinel;
use crate::metric::Metric;
use crate::metric::ZBX_METRIC;
use crate::request::AGENT_REQUEST;
use crate::result::apply_set;
use crate::result::SetOp;
use crate::result::AGENT_RESULT;
use crate::AR_UINT64;
use crate::CF_HAVEPARAMS;
use crate::CF_NOPARAMS;
use crate::SYSINFO_RET_FAIL;
use crate::SYSINFO_RET_OK;
use crate::ZBX_MODULE_API_VERSION_ONE;
use crate::ZBX_MODULE_OK;

verus! {

/// Relies on rand::random: draws a value of the asked type from the
/// thread-local generator; nothing is promised of the value.
pub assume_specification<T>[ rand::random::<T> ]() -> (r: T)
    where
        rand::distributions::Standard: rand::distributions::Distribution<T>,
;

/// Callback identifier the echo metric's descriptor carries.
pub const CALLBACK_ECHO: usize = 0;

/// Callback identifier the random metric's descriptor carries.
pub const CALLBACK_RANDOM: usize = 1;

/// The key of the echo item, `rust.echo`.
pub open spec fn echo_key() -> Seq<u8> {
    seq![114u8, 117u8, 115u8, 116u8, 46u8, 101u8, 99u8, 104u8, 111u8]
}

/// The key of the random item, `rust.random`.
pub open spec fn random_key() -> Seq<u8> {
    seq![114u8, 117u8, 115u8, 116u8, 46u8, 114u8, 97u8, 110u8, 100u8, 111u8, 109u8]
}

/// The diagnostic a probe answers when the parameter count is wrong.
pub open spec fn msg_bad_arity() -> Seq<u8> {
    seq![
        73u8, 110u8, 118u8, 97u8, 108u8, 105u8, 100u8, 32u8, 110u8, 117u8, 109u8, 98u8, 101u8,
        114u8, 32u8, 111u8, 102u8, 32u8, 112u8, 97u8, 114u8, 97u8, 109u8, 101u8, 116u8, 101u8,
        114u8, 115u8,
    ]
}

/// The diagnostic a probe answers when a parameter cannot become a C
/// string.
pub open spec fn msg_bad_param() -> Seq<u8> {
    seq![
        73u8, 110u8, 118u8, 97u8, 108u8, 105u8, 100u8, 32u8, 112u8, 97u8, 114u8, 97u8, 109u8,
        101u8, 116u8, 101u8, 114u8, 32u8, 101u8, 110u8, 99u8, 111u8, 100u8, 105u8, 110u8, 103u8,
    ]
}

fn msg_bad_arity_bytes() -> (r: Vec<u8>)
    ensures
        r@ == msg_bad_arity(),
{
    let r: Vec<u8> = vec![
        73u8, 110u8, 118u8, 97u8, 108u8, 105u8, 100u8, 32u8, 110u8, 117u8, 109u8, 98u8, 101u8,
        114u8, 32u8, 111u8, 102u8, 32u8, 112u8, 97u8, 114u8, 97u8, 109u8, 101u8, 116u8, 101u8,
        114u8, 115u8,
    ];
    proof {
        assert(r@ =~= msg_bad_arity());
    }
    r
}

fn msg_bad_param_bytes() -> (r: Vec<u8>)
    ensures
        r@ == msg_bad_param(),
{
    let r: Vec<u8> = vec![
        73u8, 110u8, 118u8, 97u8, 108u8, 105u8, 100u8, 32u8, 112u8, 97u8, 114u8, 97u8, 109u8,
        101u8, 116u8, 101u8, 114u8, 32u8, 101u8, 110u8, 99u8, 111u8, 100u8, 105u8, 110u8, 103u8,
    ];
    proof {
        assert(r@ =~= msg_bad_param());
    }
    r
}

/// Version query: the one API version this module speaks, the same answer
/// on every call, whatever was called before.
pub fn zbx_module_api_version() -> (r: i32)
    ensures
        r == ZBX_MODULE_API_VERSION_ONE,
{
    ZBX_MODULE_API_VERSION_ONE
}

/// Init: this module needs no process-wide setup, so it always succeeds.
pub fn zbx_module_init() -> (r: i32)
    ensures
        r == ZBX_MODULE_OK,
{
    ZBX_MODULE_OK
}

/// Uninit: this module holds nothing to release, so it always succeeds.
pub fn zbx_module_uninit() -> (r: i32)
    ensures
        r == ZBX_MODULE_OK,
{
    ZBX_MODULE_OK
}

/// The item list this module advertises: the echo item, the random item,
/// and the closing sentinel, with distinct keys.
pub fn zbx_module_item_list() -> (r: Vec<ZBX_METRIC>)
    ensures
        r@.len() == 3,
        is_sentinel(r@[2]),
        r@[0].key@ == echo_key() + seq![0u8],
        r@[0].flags == CF_HAVEPARAMS,
        r@[0].function == CALLBACK_ECHO,
        r@[1].key@ == random_key() + seq![0u8],
        r@[1].flags == CF_NOPARAMS,
        r@[1].function == CALLBACK_RANDOM,
{
    let echo_key_bytes: Vec<u8> = vec![
        114u8, 117u8, 115u8, 116u8, 46u8, 101u8, 99u8, 104u8, 111u8,
    ];
    let random_key_bytes: Vec<u8> = vec![
        114u8, 117u8, 115u8, 116u8, 46u8, 114u8, 97u8, 110u8, 100u8, 111u8, 109u8,
    ];
    proof {
        assert(echo_key_bytes@ =~= echo_key());
        assert(random_key_bytes@ =~= random_key());
    }
    let echo = Metric {
        key: echo_key_bytes,
        flags: CF_HAVEPARAMS,
        function: CALLBACK_ECHO,
        test_param: Vec::new(),
    };
    let random = Metric {
        key: random_key_bytes,
        flags: CF_NOPARAMS,
        function: CALLBACK_RANDOM,
        test_param: Vec::new(),
    };
    let mut metrics: Vec<Metric> = Vec::new();
    metrics.push(echo);
    metrics.push(random);
    proof {
        assert(forall|i: int| 0 <= i < metrics@.len() ==> #[trigger] metrics@[i].wf());
        assert(metrics@[0].key@.len() != metrics@[1].key@.len());
        assert(!crate::metric::has_dup_keys(metrics@));
    }
    match create_items(&metrics) {
        Ok(items) => items,
        Err(_) => {
            proof {
                assert(false);
            }
            Vec::new()
        },
    }
}

/// Echo probe: answers its single parameter back as the string payload.
/// A wrong parameter count or a parameter no C string can carry is a
/// per-call failure: the probe reports a diagnostic message and the
/// failure status, and never panics.
pub fn rust_echo(request: &AGENT_REQUEST, result: &mut AGENT_RESULT) -> (status: i32)
    ensures
        ({
            let ps = request.params_view();
            if ps.len() != 1 {
                status == SYSINFO_RET_FAIL && final(result)@ == apply_set(
                    old(result)@,
                    SetOp::Msg(msg_bad_arity()),
                )
            } else if !no_nul(ps[0]) {
                status == SYSINFO_RET_FAIL && final(result)@ == apply_set(
                    old(result)@,
                    SetOp::Msg(msg_bad_param()),
                )
            } else {
                status == SYSINFO_RET_OK && final(result)@ == apply_set(
                    old(result)@,
                    SetOp::Str(ps[0]),
                )
            }
        }),
{
    let params = AGENT_REQUEST::get_params(request);
    if params.len() != 1 {
        let msg = msg_bad_arity_bytes();
        proof {
            assert(no_nul(msg@));
        }
        AGENT_RESULT::set_msg_result(result, &msg);
        return SYSINFO_RET_FAIL;
    }
    let param = &params[0];
    if contains_nul(param) {
        let msg = msg_bad_param_bytes();
        proof {
            assert(no_nul(msg@));
        }
        AGENT_RESULT::set_msg_result(result, &msg);
        return SYSINFO_RET_FAIL;
    }
    AGENT_RESULT::set_str_result(result, param);
    SYSINFO_RET_OK
}

/// Random probe: ignores its parameters, draws a fresh unsigned 64-bit
/// value and stores it as the integer payload. Always succeeds; the tag
/// field gains the integer bit whatever value was drawn.
pub fn rust_random(request: &AGENT_REQUEST, result: &mut AGENT_RESULT) -> (status: i32)
    ensures
        status == SYSINFO_RET_OK,
        final(result)@ == apply_set(old(result)@, SetOp::Uint64(final(result)@.ui64)),
        final(result)@.tag & AR_UINT64 == AR_UINT64,
{
    let num: u64 = rand::random::<u64>();
    AGENT_RESULT::set_uint64_result(result, num);
    proof {
        let t = old(result)@.tag;
        assert((t | 1i32) & 1i32 == 1i32) by (bit_vector);
    }
    SYSINFO_RET_OK
}

} // verus!

//! The result record a probe fills for the host, and the writer operations
//! on it.
//!
//! A result may carry several representations at once: each `set_*_result`
//! call ORs its tag bit into the type field and stores its payload, leaving
//! every other slot alone. String-bearing payloads are stored as the exact
//! NUL-terminated buffer image the unverified shell later copies into a
//! host-allocated block.

use vstd::prelude::*;

use crate::cstr::c_str_decode;
use crate::cstr::c_str_image;
use crate::cstr::host_string_buffer;
use crate::cstr::lemma_c_str_round_trip;
use crate::cstr::no_nul;
use crate::AR_DOUBLE;
use crate::AR_MESSAGE;
use crate::AR_STRING;
use crate::AR_TEXT;
use crate::AR_UINT64;

verus! {

/// One entry of the log-result payload. Building a log result is not
/// supported by this writer (see `AGENT_RESULT`); the type only mirrors the
/// host's record so a request for it can be rejected whole.
#[derive(Clone)]
#[allow(non_camel_case_types)]
pub struct zbx_log_t {
    pub value: Vec<u8>,
    pub source: Vec<u8>,
    pub lastlogsize: u64,
    pub timestamp: i32,
    pub severity: i32,
    pub logeventid: i32,
    pub mtime: i32,
}

/// The host's per-call result record, modelled with owned buffers. The
/// `dbl` field holds the IEEE-754 bit pattern of the double payload; the
/// shell converts with `f64::to_bits` and `f64::from_bits`, so no float
/// enters the verified core. The log payload (`logs`) has no writer here:
/// a probe that would need it must answer with a failure status instead of
/// populating it partially.
#[derive(Clone)]
#[allow(non_camel_case_types)]
pub struct AGENT_RESULT {
    pub _type: i32,
    pub ui64: u64,
    pub dbl: u64,
    pub _str: Option<Vec<u8>>,
    pub text: Option<Vec<u8>>,
    pub msg: Option<Vec<u8>>,
    pub logs: Vec<zbx_log_t>,
}

/// Mathematical image of a result record.
#[verifier::ext_equal]
pub struct ResultModel {
    pub tag: i32,
    pub ui64: u64,
    pub dbl: u64,
    pub str_buf: Option<Seq<u8>>,
    pub text_buf: Option<Seq<u8>>,
    pub msg_buf: Option<Seq<u8>>,
    pub logs: Seq<zbx_log_t>,
}

impl View for AGENT_RESULT {
    type V = ResultModel;

    open spec fn view(&self) -> ResultModel {
        ResultModel {
            tag: self._type,
            ui64: self.ui64,
            dbl: self.dbl,
            str_buf: match self._str {
                Some(b) => Some(b@),
                None => None,
            },
            text_buf: match self.text {
                Some(b) => Some(b@),
                None => None,
            },
            msg_buf: match self.msg {
                Some(b) => Some(b@),
                None => None,
            },
            logs: self.logs@,
        }
    }
}

/// One writer operation, named by the payload it stores.
pub enum SetOp {
    Uint64(u64),
    DoubleBits(u64),
    Str(Seq<u8>),
    Text(Seq<u8>),
    Msg(Seq<u8>),
}

/// The tag bit an operation ORs into the type field.
pub open spec fn op_tag(op: SetOp) -> i32 {
    match op {
        SetOp::Uint64(_) => AR_UINT64,
        SetOp::DoubleBits(_) => AR_DOUBLE,
        SetOp::Str(_) => AR_STRING,
        SetOp::Text(_) => AR_TEXT,
        SetOp::Msg(_) => AR_MESSAGE,
    }
}

/// What one writer operation does to a result: OR the tag bit in, replace
/// the one payload slot, keep everything else.
pub open spec fn apply_set(r: ResultModel, op: SetOp) -> ResultModel {
    match op {
        SetOp::Uint64(v) => ResultModel { tag: r.tag | AR_UINT64, ui64: v, ..r },
        SetOp::DoubleBits(v) => ResultModel { tag: r.tag | AR_DOUBLE, dbl: v, ..r },
        SetOp::Str(s) => ResultModel {
            tag: r.tag | AR_STRING,
            str_buf: Some(c_str_image(s)),
            ..r
        },
        SetOp::Text(s) => ResultModel {
            tag: r.tag | AR_TEXT,
            text_buf: Some(c_str_image(s)),
            ..r
        },
        SetOp::Msg(s) => ResultModel { tag: r.tag | AR_MESSAGE, msg_buf: Some(c_str_image(s)), ..r },
    }
}

/// A run of writer operations, applied left to right.
pub open spec fn apply_sets(r: ResultModel, ops: Seq<SetOp>) -> ResultModel
    decreases ops.len(),
{
    if ops.len() == 0 {
        r
    } else {
        apply_sets(apply_set(r, ops[0]), ops.drop_first())
    }
}

/// The OR of the tag bits of a run of operations.
pub open spec fn or_tags(ops: Seq<SetOp>) -> i32
    decreases ops.len(),
{
    if ops.len() == 0 {
        0
    } else {
        op_tag(ops[0]) | or_tags(ops.drop_first())
    }
}

/// After any run of writer operations, the tag field equals the starting
/// tag ORed with every tag bit the run set: no operation clears a bit.
pub proof fn lemma_tags_accumulate(r: ResultModel, ops: Seq<SetOp>)
    ensures
        apply_sets(r, ops).tag == r.tag | or_tags(ops),
    decreases ops.len(),
{
    if ops.len() == 0 {
        assert(r.tag | 0i32 == r.tag) by (bit_vector);
    } else {
        let t0 = op_tag(ops[0]);
        let rest = or_tags(ops.drop_first());
        lemma_tags_accumulate(apply_set(r, ops[0]), ops.drop_first());
        assert(forall|a: i32, b: i32, c: i32| (a | b) | c == a | (b | c)) by (bit_vector);
        assert(apply_set(r, ops[0]).tag == r.tag | t0);
    }
}

/// Setting the same kind of payload twice overwrites the payload but leaves
/// every other slot and every other tag bit as the second set alone would:
/// the earlier same-kind set is absorbed.
pub proof fn lemma_same_kind_overwrites(r: ResultModel, op1: SetOp, op2: SetOp)
    requires
        op_tag(op1) == op_tag(op2),
    ensures
        apply_set(apply_set(r, op1), op2) =~= apply_set(r, op2),
{
    assert(forall|a: i32, b: i32| (a | b) | b == a | b) by (bit_vector);
}

/// Every string-bearing payload round-trips: after setting a string, text
/// or message payload `s`, the stored buffer holds exactly `s.len() + 1`
/// bytes and, read as a NUL-terminated C string, decodes back to exactly
/// `s`.
pub proof fn lemma_payload_round_trip(r: ResultModel, s: Seq<u8>)
    requires
        no_nul(s),
    ensures
        apply_set(r, SetOp::Str(s)).str_buf matches Some(b) && c_str_decode(b) == s && b.len()
            == s.len() + 1,
        apply_set(r, SetOp::Text(s)).text_buf matches Some(b) && c_str_decode(b) == s && b.len()
            == s.len() + 1,
        apply_set(r, SetOp::Msg(s)).msg_buf matches Some(b) && c_str_decode(b) == s && b.len()
            == s.len() + 1,
{
    lemma_c_str_round_trip(s);
}

impl AGENT_RESULT {
    /// A cleared record: no tag bit set, numeric slots zero, no payload
    /// buffer. The shell starts every call with one of these and copies it
    /// out to the host's memory afterwards.
    pub fn new() -> (r: AGENT_RESULT)
        ensures
            r@.tag == 0,
            r@.ui64 == 0,
            r@.dbl == 0,
            r@.str_buf is None,
            r@.text_buf is None,
            r@.msg_buf is None,
            r@.logs.len() == 0,
    {
        AGENT_RESULT {
            _type: 0,
            ui64: 0,
            dbl: 0,
            _str: None,
            text: None,
            msg: None,
            logs: Vec::new(),
        }
    }

    /// Store the unsigned integer payload and OR its tag bit in.
    pub fn set_uint64_result(result: &mut AGENT_RESULT, value: u64)
        ensures
            final(result)@ == apply_set(old(result)@, SetOp::Uint64(value)),
    {
        result._type = result._type | AR_UINT64;
        result.ui64 = value;
        assert(result@ =~= apply_set(old(result)@, SetOp::Uint64(value)));
    }

    /// Store the double payload, given as its IEEE-754 bit pattern, and OR
    /// its tag bit in.
    pub fn set_f64_result(result: &mut AGENT_RESULT, value_bits: u64)
        ensures
            final(result)@ == apply_set(old(result)@, SetOp::DoubleBits(value_bits)),
    {
        result._type = result._type | AR_DOUBLE;
        result.dbl = value_bits;
        assert(result@ =~= apply_set(old(result)@, SetOp::DoubleBits(value_bits)));
    }

    /// Store a short-string payload: build the NUL-terminated buffer image
    /// of `value` and OR the string tag bit in.
    pub fn set_str_result(result: &mut AGENT_RESULT, value: &Vec<u8>)
        requires
            no_nul(value@),
        ensures
            final(result)@ == apply_set(old(result)@, SetOp::Str(value@)),
    {
        result._type = result._type | AR_STRING;
        result._str = Some(host_string_buffer(value));
        assert(result@ =~= apply_set(old(result)@, SetOp::Str(value@)));
    }

    /// Store a long-text payload: build the NUL-terminated buffer image of
    /// `value` and OR the text tag bit in.
    pub fn set_text_result(result: &mut AGENT_RESULT, value: &Vec<u8>)
        requires
            no_nul(value@),
        ensures
            final(result)@ == apply_set(old(result)@, SetOp::Text(value@)),
    {
        result._type = result._type | AR_TEXT;
        result.text = Some(host_string_buffer(value));
        assert(result@ =~= apply_set(old(result)@, SetOp::Text(value@)));
    }

    /// Store a diagnostic-message payload: build the NUL-terminated buffer
    /// image of `value` and OR the message tag bit in.
    pub fn set_msg_result(result: &mut AGENT_RESULT, value: &Vec<u8>)
        requires
            no_nul(value@),
        ensures
            final(result)@ == apply_set(old(result)@, SetOp::Msg(value@)),
    {
        result._type = result._type | AR_MESSAGE;
        result.msg = Some(host_string_buffer(value));
        assert(result@ =~= apply_set(old(result)@, SetOp::Msg(value@)));
    }
}

} // verus!

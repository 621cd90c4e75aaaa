//! Metric descriptors and the builder of the descriptor array the host
//! reads at startup.
//!
//! The host expects a contiguous array of fixed-layout records closed by a
//! sentinel whose key is empty. Keys travel as NUL-terminated C strings, so
//! a key must be non-empty and free of NUL bytes before the module may
//! register it; a violation is a construction error, never a published
//! corrupt array.

use vstd::prelude::*;

use crate::cstr::c_str_image;
use crate::cstr::contains_nul;
use crate::cstr::host_string_buffer;
use crate::cstr::no_nul;

verus! {

/// Why a descriptor or a descriptor array could not be built.
#[derive(PartialEq, Eq, Structural, Clone, Copy, Debug)]
pub enum ZbxError {
    /// A key was empty or held a NUL byte, or a test parameter held a NUL
    /// byte: it cannot become a C string the host can read.
    InvalidKey,
    /// Two metrics in one list carried the same key.
    DuplicateKey,
}

/// One item the module offers: key, flag bits, the identifier of its probe
/// callback, and a test parameter. The unverified shell maps the callback
/// identifier to the C function pointer the host receives.
pub struct Metric {
    pub key: Vec<u8>,
    pub flags: u32,
    pub function: usize,
    pub test_param: Vec<u8>,
}

impl Metric {
    /// A metric the host can be told about: non-empty key, and no NUL byte
    /// in key or test parameter.
    pub open spec fn wf(self) -> bool {
        self.key@.len() > 0 && no_nul(self.key@) && no_nul(self.test_param@)
    }

    /// Build a metric, refusing any key or test parameter that cannot
    /// become a C string.
    pub fn new(key: Vec<u8>, flags: u32, function: usize, test_param: Vec<u8>) -> (r: Result<
        Metric,
        ZbxError,
    >)
        ensures
            match r {
                Ok(m) => m.wf() && m.key@ == key@ && m.flags == flags && m.function == function
                    && m.test_param@ == test_param@,
                Err(e) => e == ZbxError::InvalidKey,
            },
            r is Err <==> (key@.len() == 0 || !no_nul(key@) || !no_nul(test_param@)),
    {
        if key.len() == 0 || contains_nul(&key) || contains_nul(&test_param) {
            Err(ZbxError::InvalidKey)
        } else {
            Ok(Metric { key, flags, function, test_param })
        }
    }

    /// The fixed-layout record for this metric: key and test parameter as
    /// NUL-terminated buffer images, flags and callback identifier copied.
    pub fn to_zabbix_item(&self) -> (r: ZBX_METRIC)
        requires
            self.wf(),
        ensures
            is_item_of(r, *self),
    {
        ZBX_METRIC {
            key: host_string_buffer(&self.key),
            flags: self.flags,
            function: self.function,
            test_param: host_string_buffer(&self.test_param),
        }
    }
}

/// One fixed-layout descriptor record as the host reads it, with the two
/// string fields held as NUL-terminated buffer images. The shell lays the
/// images out as C strings and keeps them alive for the module's lifetime.
#[derive(Clone)]
#[allow(non_camel_case_types)]
pub struct ZBX_METRIC {
    pub key: Vec<u8>,
    pub flags: u32,
    pub function: usize,
    pub test_param: Vec<u8>,
}

impl ZBX_METRIC {
    /// The record that closes every descriptor array: an empty key, no
    /// flags, no callback, an empty test parameter.
    pub fn sentinel() -> (r: ZBX_METRIC)
        ensures
            is_sentinel(r),
    {
        let r = ZBX_METRIC {
            key: vec![0u8],
            flags: 0,
            function: 0,
            test_param: vec![0u8],
        };
        proof {
            assert(r.key@ =~= seq![0u8]);
            assert(r.test_param@ =~= seq![0u8]);
        }
        r
    }
}

/// `z` is the descriptor record of metric `m`.
pub open spec fn is_item_of(z: ZBX_METRIC, m: Metric) -> bool {
    z.key@ == c_str_image(m.key@) && z.flags == m.flags && z.function == m.function
        && z.test_param@ == c_str_image(m.test_param@)
}

/// `z` is the sentinel record: its key is the empty C string.
pub open spec fn is_sentinel(z: ZBX_METRIC) -> bool {
    z.key@ == seq![0u8] && z.flags == 0 && z.function == 0 && z.test_param@ == seq![0u8]
}

/// Two metrics of the list share a key.
pub open spec fn has_dup_keys(ms: Seq<Metric>) -> bool {
    exists|i: int, j: int| 0 <= i < j < ms.len() && ms[i].key@ == ms[j].key@
}

/// True when the two byte vectors hold the same bytes.
pub fn bytes_eq(a: &Vec<u8>, b: &Vec<u8>) -> (r: bool)
    ensures
        r == (a@ == b@),
{
    if a.len() != b.len() {
        return false;
    }
    let mut i: usize = 0;
    while i < a.len()
        invariant
            a@.len() == b@.len(),
            i <= a@.len(),
            forall|j: int| 0 <= j < i ==> a@[j] == b@[j],
        decreases a@.len() - i,
    {
        if a[i] != b[i] {
            return false;
        }
        i += 1;
    }
    proof {
        assert(a@ =~= b@);
    }
    true
}

/// Appending the terminator keeps distinct payloads distinct.
proof fn lemma_image_injective(a: Seq<u8>, b: Seq<u8>)
    requires
        a != b,
    ensures
        c_str_image(a) != c_str_image(b),
{
    if c_str_image(a) == c_str_image(b) {
        assert(c_str_image(a).len() == a.len() + 1);
        assert(c_str_image(b).len() == b.len() + 1);
        assert(a.len() == b.len());
        assert(a =~= b) by {
            assert forall|i: int| 0 <= i < a.len() implies a[i] == b[i] by {
                assert(c_str_image(a)[i] == a[i]);
                assert(c_str_image(b)[i] == b[i]);
            }
        }
    }
}

/// Build the descriptor array for `metrics`: one record per metric in
/// order, closed by the sentinel, refused whole when two metrics share a
/// key. The produced array has exactly `metrics.len() + 1` records and all
/// non-sentinel keys are distinct.
pub fn create_items(metrics: &Vec<Metric>) -> (r: Result<Vec<ZBX_METRIC>, ZbxError>)
    requires
        forall|i: int| 0 <= i < metrics@.len() ==> #[trigger] metrics@[i].wf(),
    ensures
        r is Err <==> has_dup_keys(metrics@),
        match r {
            Ok(items) => items@.len() == metrics@.len() + 1 && (forall|i: int|
                0 <= i < metrics@.len() ==> is_item_of(#[trigger] items@[i], metrics@[i]))
                && is_sentinel(items@[metrics@.len() as int]) && (forall|i: int, j: int|
                0 <= i < j < metrics@.len() ==> items@[i].key@ != items@[j].key@),
            Err(e) => e == ZbxError::DuplicateKey,
        },
{
    let n = metrics.len();
    let mut i: usize = 0;
    while i < n
        invariant
            n == metrics@.len(),
            i <= n,
            forall|a: int, b: int| 0 <= a < b < n && a < i ==> metrics@[a].key@ != metrics@[b].key@,
        decreases n - i,
    {
        let mut j: usize = i + 1;
        while j < n
            invariant
                n == metrics@.len(),
                i < j <= n,
                i < n,
                forall|b: int| i < b < j ==> metrics@[i as int].key@ != metrics@[b].key@,
            decreases n - j,
        {
            if bytes_eq(&metrics[i].key, &metrics[j].key) {
                proof {
                    let gi = i as int;
                    let gj = j as int;
                    assert(0 <= gi < gj < metrics@.len() && metrics@[gi].key@ == metrics@[gj].key@);
                }
                return Err(ZbxError::DuplicateKey);
            }
            j += 1;
        }
        i += 1;
    }
    proof {
        assert(!has_dup_keys(metrics@));
    }
    let mut items: Vec<ZBX_METRIC> = Vec::new();
    let mut k: usize = 0;
    while k < n
        invariant
            n == metrics@.len(),
            k <= n,
            items@.len() == k,
            forall|i: int| 0 <= i < metrics@.len() ==> #[trigger] metrics@[i].wf(),
            forall|i: int| 0 <= i < k ==> is_item_of(#[trigger] items@[i], metrics@[i]),
        decreases n - k,
    {
        let item = metrics[k].to_zabbix_item();
        items.push(item);
        k += 1;
    }
    items.push(ZBX_METRIC::sentinel());
    proof {
        assert(forall|i: int, j: int|
            0 <= i < j < metrics@.len() ==> items@[i].key@ != items@[j].key@) by {
            assert forall|i: int, j: int|
                0 <= i < j < metrics@.len() implies items@[i].key@ != items@[j].key@ by {
                assert(metrics@[i].key@ != metrics@[j].key@);
                lemma_image_injective(metrics@[i].key@, metrics@[j].key@);
            }
        }
    }
    Ok(items)
}

} // verus!

//! Endpoint identifiers: a logical process on a node.
//!
//! The textual grammar matches the platform's: a process identifier is
//! `process:package:publisher` with exactly three non-empty colon-separated
//! segments, and an address is `node@process:package:publisher` with exactly
//! one `@` and a non-empty node name. The parsers here are total on
//! arbitrary bytes and return `None` exactly on text outside the grammar.

use vstd::prelude::*;
use crate::codec::{senc_bytes, sdec_bytes, enc_bytes, dec_bytes};

verus! {

pub struct ProcessId {
    pub process_name: Vec<u8>,
    pub package_name: Vec<u8>,
    pub publisher_node: Vec<u8>,
}

pub ghost struct ProcessIdV {
    pub process_name: Seq<u8>,
    pub package_name: Seq<u8>,
    pub publisher_node: Seq<u8>,
}

impl View for ProcessId {
    type V = ProcessIdV;

    open spec fn view(&self) -> ProcessIdV {
        ProcessIdV {
            process_name: self.process_name@,
            package_name: self.package_name@,
            publisher_node: self.publisher_node@,
        }
    }
}

pub struct Address {
    pub node: Vec<u8>,
    pub process: ProcessId,
}

pub ghost struct AddressV {
    pub node: Seq<u8>,
    pub process: ProcessIdV,
}

impl View for Address {
    type V = AddressV;

    open spec fn view(&self) -> AddressV {
        AddressV { node: self.node@, process: self.process@ }
    }
}

pub fn clone_bytes(v: &Vec<u8>) -> (r: Vec<u8>)
    ensures
        r@ == v@,
{
    let mut r: Vec<u8> = Vec::new();
    let mut k: usize = 0;
    while k < v.len()
        invariant
            k <= v@.len(),
            r@ == v@.take(k as int),
        decreases v@.len() - k,
    {
        r.push(v[k]);
        proof {
            assert(r@ =~= v@.take(k + 1));
        }
        k = k + 1;
    }
    proof {
        assert(v@.take(v@.len() as int) =~= v@);
    }
    r
}

pub fn clone_process_id(p: &ProcessId) -> (r: ProcessId)
    ensures
        r@ == p@,
{
    ProcessId {
        process_name: clone_bytes(&p.process_name),
        package_name: clone_bytes(&p.package_name),
        publisher_node: clone_bytes(&p.publisher_node),
    }
}

pub fn clone_address(a: &Address) -> (r: Address)
    ensures
        r@ == a@,
{
    Address { node: clone_bytes(&a.node), process: clone_process_id(&a.process) }
}

// ---------------------------------------------------------------------------
// grammar
// ---------------------------------------------------------------------------

/// Position of the first occurrence of `c` in `s` at or after `from`.
pub open spec fn find_byte(s: Seq<u8>, c: u8, from: int) -> Option<int>
    decreases s.len() - from,
{
    if from < 0 || from >= s.len() {
        None
    } else if s[from] == c {
        Some(from)
    } else {
        find_byte(s, c, from + 1)
    }
}

/// `process:package:publisher`: exactly two colons, three non-empty segments.
pub open spec fn sparse_process_id(s: Seq<u8>) -> Option<ProcessIdV> {
    match find_byte(s, 58, 0) {
        None => None,
        Some(i) => match find_byte(s, 58, i + 1) {
            None => None,
            Some(j) => if find_byte(s, 58, j + 1) is Some {
                None
            } else if 0 < i && i + 1 < j && j + 1 < s.len() {
                Some(
                    ProcessIdV {
                        process_name: s.take(i),
                        package_name: s.subrange(i + 1, j),
                        publisher_node: s.skip(j + 1),
                    },
                )
            } else {
                None
            },
        },
    }
}

/// `node@process:package:publisher`: exactly one `@`, non-empty node.
pub open spec fn sparse_address(s: Seq<u8>) -> Option<AddressV> {
    match find_byte(s, 64, 0) {
        None => None,
        Some(a) => if find_byte(s, 64, a + 1) is Some {
            None
        } else if a == 0 {
            None
        } else {
            match sparse_process_id(s.skip(a + 1)) {
                None => None,
                Some(p) => Some(AddressV { node: s.take(a), process: p }),
            }
        },
    }
}

// ---------------------------------------------------------------------------
// executable parsing
// ---------------------------------------------------------------------------

/// First occurrence of `c` in `s` at or after `from`.
pub fn scan_byte(s: &Vec<u8>, c: u8, from: usize) -> (r: Option<usize>)
    ensures
        match r {
            Some(i) => from <= i < s@.len() && find_byte(s@, c, from as int) == Some(i as int),
            None => find_byte(s@, c, from as int) is None,
        },
{
    let mut k: usize = from;
    while k < s.len()
        invariant
            from <= k,
            find_byte(s@, c, from as int) == find_byte(s@, c, k as int),
        decreases s@.len() - k,
    {
        if s[k] == c {
            return Some(k);
        }
        k = k + 1;
    }
    None
}

pub fn copy_range(s: &Vec<u8>, from: usize, to: usize) -> (r: Vec<u8>)
    requires
        from <= to <= s@.len(),
    ensures
        r@ == s@.subrange(from as int, to as int),
{
    let mut r: Vec<u8> = Vec::new();
    let mut k: usize = from;
    while k < to
        invariant
            from <= k <= to <= s@.len(),
            r@ == s@.subrange(from as int, k as int),
        decreases to - k,
    {
        r.push(s[k]);
        proof {
            assert(r@ =~= s@.subrange(from as int, k + 1));
        }
        k = k + 1;
    }
    r
}

/// Parse a process identifier; `None` exactly on text outside the grammar.
pub fn parse_process_id(s: &Vec<u8>) -> (r: Option<ProcessId>)
    ensures
        match r {
            Some(p) => sparse_process_id(s@) == Some(p@),
            None => sparse_process_id(s@) is None,
        },
{
    let n = s.len();
    let i = match scan_byte(s, 58, 0) {
        None => {
            return None;
        },
        Some(i) => i,
    };
    assert(i < n);
    let j = match scan_byte(s, 58, i + 1) {
        None => {
            return None;
        },
        Some(j) => j,
    };
    assert(j < n);
    match scan_byte(s, 58, j + 1) {
        Some(_) => None,
        None => {
            if 0 < i && i + 1 < j && j + 1 < s.len() {
                let p = ProcessId {
                    process_name: copy_range(s, 0, i),
                    package_name: copy_range(s, i + 1, j),
                    publisher_node: copy_range(s, j + 1, s.len()),
                };
                proof {
                    assert(p.process_name@ =~= s@.take(i as int));
                    assert(p.publisher_node@ =~= s@.skip(j + 1));
                }
                Some(p)
            } else {
                None
            }
        },
    }
}

/// Parse an address; `None` exactly on text outside the grammar.
pub fn parse_address(s: &Vec<u8>) -> (r: Option<Address>)
    ensures
        match r {
            Some(a) => sparse_address(s@) == Some(a@),
            None => sparse_address(s@) is None,
        },
{
    let n = s.len();
    let a = match scan_byte(s, 64, 0) {
        None => {
            return None;
        },
        Some(a) => a,
    };
    assert(a < n);
    match scan_byte(s, 64, a + 1) {
        Some(_) => None,
        None => {
            if a == 0 {
                return None;
            }
            let rest = copy_range(s, a + 1, s.len());
            proof {
                assert(rest@ =~= s@.skip(a + 1));
            }
            match parse_process_id(&rest) {
                None => None,
                Some(p) => {
                    let node = copy_range(s, 0, a);
                    proof {
                        assert(node@ =~= s@.take(a as int));
                    }
                    Some(Address { node, process: p })
                },
            }
        },
    }
}

// ---------------------------------------------------------------------------
// wire encoding (used by the persisted state record)
// ---------------------------------------------------------------------------

pub open spec fn senc_process_id(p: ProcessIdV) -> Seq<u8> {
    senc_bytes(p.process_name) + senc_bytes(p.package_name) + senc_bytes(p.publisher_node)
}

pub open spec fn sdec_process_id(b: Seq<u8>) -> Option<(ProcessIdV, Seq<u8>)> {
    match sdec_bytes(b) {
        None => None,
        Some((pr, r)) => match sdec_bytes(r) {
            None => None,
            Some((pk, r)) => match sdec_bytes(r) {
                None => None,
                Some((pub_node, r)) => Some((
                    ProcessIdV { process_name: pr, package_name: pk, publisher_node: pub_node },
                    r,
                )),
            },
        },
    }
}

pub open spec fn senc_address(a: AddressV) -> Seq<u8> {
    senc_bytes(a.node) + senc_process_id(a.process)
}

pub open spec fn sdec_address(b: Seq<u8>) -> Option<(AddressV, Seq<u8>)> {
    match sdec_bytes(b) {
        None => None,
        Some((n, r)) => match sdec_process_id(r) {
            None => None,
            Some((p, r)) => Some((AddressV { node: n, process: p }, r)),
        },
    }
}

pub fn enc_process_id(out: &mut Vec<u8>, p: &ProcessId)
    ensures
        final(out)@ == old(out)@ + senc_process_id(p@),
{
    enc_bytes(out, &p.process_name);
    enc_bytes(out, &p.package_name);
    enc_bytes(out, &p.publisher_node);
    proof {
        assert(out@ =~= old(out)@ + senc_process_id(p@));
    }
}

pub fn dec_process_id(b: &Vec<u8>, i: usize) -> (r: Option<(ProcessId, usize)>)
    requires
        i <= b@.len(),
    ensures
        match r {
            Some((v, j)) => i <= j <= b@.len() && sdec_process_id(b@.skip(i as int)) == Some((
                v@,
                b@.skip(j as int),
            )),
            None => sdec_process_id(b@.skip(i as int)) is None,
        },
{
    match dec_bytes(b, i) {
        None => None,
        Some((pr, j)) => match dec_bytes(b, j) {
            None => None,
            Some((pk, j)) => match dec_bytes(b, j) {
                None => None,
                Some((pub_node, j)) => Some((
                    ProcessId { process_name: pr, package_name: pk, publisher_node: pub_node },
                    j,
                )),
            },
        },
    }
}

pub fn enc_address(out: &mut Vec<u8>, a: &Address)
    ensures
        final(out)@ == old(out)@ + senc_address(a@),
{
    enc_bytes(out, &a.node);
    enc_process_id(out, &a.process);
    proof {
        assert(out@ =~= old(out)@ + senc_address(a@));
    }
}

pub fn dec_address(b: &Vec<u8>, i: usize) -> (r: Option<(Address, usize)>)
    requires
        i <= b@.len(),
    ensures
        match r {
            Some((v, j)) => i <= j <= b@.len() && sdec_address(b@.skip(i as int)) == Some((
                v@,
                b@.skip(j as int),
            )),
            None => sdec_address(b@.skip(i as int)) is None,
        },
{
    match dec_bytes(b, i) {
        None => None,
        Some((n, j)) => match dec_process_id(b, j) {
            None => None,
            Some((p, j)) => Some((Address { node: n, process: p }, j)),
        },
    }
}

/// Byte-wise equality of two byte strings.
pub fn bytes_eq(a: &Vec<u8>, b: &Vec<u8>) -> (r: bool)
    ensures
        r == (a@ == b@),
{
    if a.len() != b.len() {
        proof {
            assert(a@.len() != b@.len());
        }
        return false;
    }
    let mut k: usize = 0;
    while k < a.len()
        invariant
            k <= a@.len(),
            a@.len() == b@.len(),
            forall|m: int| 0 <= m < k ==> a@[m] == b@[m],
        decreases a@.len() - k,
    {
        if a[k] != b[k] {
            return false;
        }
        k = k + 1;
    }
    proof {
        assert(a@ =~= b@);
    }
    true
}

/// Field-wise equality of two process identifiers.
pub fn process_id_eq(a: &ProcessId, b: &ProcessId) -> (r: bool)
    ensures
        r == (a@ == b@),
{
    let r = bytes_eq(&a.process_name, &b.process_name) && bytes_eq(&a.package_name, &b.package_name)
        && bytes_eq(&a.publisher_node, &b.publisher_node);
    r
}

} // verus!

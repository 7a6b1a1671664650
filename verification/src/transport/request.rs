//! Write side shared by the HTTP-style obfuscation transports: serializing a
//! list of header fields, with the fields a codec manages itself skipped, and
//! finding configured overrides.
use vstd::prelude::*;

verus! {

use vstd::string::StringSliceAdditionalSpecFns;
use crate::bytestr::{eq_ignore_case_bytes, push_str_bytes, str_bytes, str_eq, str_eq_ignore_case};

/// Whether a header field is left out of the serialized block because the
/// codec writes its own copy: the `Host` header, or the body-length fields
/// `Content-Length` and `Transfer-Encoding`.
pub open spec fn spec_skip_header(
    k: Seq<char>,
    skip_host: bool,
    skip_content_length: bool,
    skip_transfer_encoding: bool,
) -> bool {
    ||| (skip_host && eq_ignore_case_bytes(str_bytes(k), ("Host").spec_bytes()))
    ||| (skip_content_length && eq_ignore_case_bytes(str_bytes(k), ("Content-Length").spec_bytes()))
    ||| (skip_transfer_encoding && eq_ignore_case_bytes(
        str_bytes(k),
        ("Transfer-Encoding").spec_bytes(),
    ))
}

/// One serialized header field: `key: value` and CRLF.
pub open spec fn spec_header_line(k: Seq<char>, v: Seq<char>) -> Seq<u8> {
    str_bytes(k) + (": ").spec_bytes() + str_bytes(v) + ("\r\n").spec_bytes()
}

/// The serialized block of the fields from position `j` on, skipped fields
/// left out.
pub open spec fn spec_headers_from(
    hs: Seq<(String, String)>,
    j: int,
    skip_host: bool,
    skip_content_length: bool,
    skip_transfer_encoding: bool,
) -> Seq<u8>
    decreases hs.len() - j,
    when 0 <= j
{
    if j >= hs.len() {
        Seq::empty()
    } else {
        let line = if spec_skip_header(
            hs[j].0@,
            skip_host,
            skip_content_length,
            skip_transfer_encoding,
        ) {
            Seq::empty()
        } else {
            spec_header_line(hs[j].0@, hs[j].1@)
        };
        line + spec_headers_from(hs, j + 1, skip_host, skip_content_length, skip_transfer_encoding)
    }
}

/// The serialized block of all fields, skipped fields left out, in the order
/// configured.
pub open spec fn spec_headers_block(
    hs: Seq<(String, String)>,
    skip_host: bool,
    skip_content_length: bool,
    skip_transfer_encoding: bool,
) -> Seq<u8> {
    spec_headers_from(hs, 0, skip_host, skip_content_length, skip_transfer_encoding)
}

/// Serializes the header fields onto `out`, skipping the fields the caller
/// manages itself.
pub fn append_headers(
    out: &mut Vec<u8>,
    hs: &Vec<(String, String)>,
    skip_host: bool,
    skip_content_length: bool,
    skip_transfer_encoding: bool,
)
    ensures
        final(out)@ == old(out)@ + spec_headers_block(
            hs@,
            skip_host,
            skip_content_length,
            skip_transfer_encoding,
        ),
{
    let n = hs.len();
    let mut i: usize = 0;
    while i < n
        invariant
            n == hs@.len(),
            i <= n,
            out@ + spec_headers_from(hs@, i as int, skip_host, skip_content_length,
                skip_transfer_encoding,
            ) == old(out)@ + spec_headers_block(hs@, skip_host, skip_content_length,
                skip_transfer_encoding,
            ),
        decreases n - i,
    {
        let ghost before = out@;
        let k = &hs[i].0;
        let v = &hs[i].1;
        let skip = (skip_host && str_eq_ignore_case(k.as_str(), "Host")) || (skip_content_length
            && str_eq_ignore_case(k.as_str(), "Content-Length")) || (skip_transfer_encoding
            && str_eq_ignore_case(k.as_str(), "Transfer-Encoding"));
        if !skip {
            push_str_bytes(out, k.as_str());
            push_str_bytes(out, ": ");
            push_str_bytes(out, v.as_str());
            push_str_bytes(out, "\r\n");
            proof {
                assert(out@ =~= before + spec_header_line(hs@[i as int].0@, hs@[i as int].1@));
            }
        }
        proof {
            assert(out@ + spec_headers_from(hs@, i + 1, skip_host, skip_content_length,
                skip_transfer_encoding,
            ) =~= before + spec_headers_from(hs@, i as int, skip_host, skip_content_length,
                skip_transfer_encoding,
            ));
        }
        i += 1;
    }
}

/// The value of the first field whose key is exactly `Host`, if any.
pub open spec fn spec_host_override_from(hs: Seq<(String, String)>, j: int) -> Option<Seq<char>>
    decreases hs.len() - j,
    when 0 <= j
{
    if j >= hs.len() {
        None
    } else if hs[j].0@ == ("Host")@ {
        Some(hs[j].1@)
    } else {
        spec_host_override_from(hs, j + 1)
    }
}

/// The value of the first field whose key is exactly `Host`, if any.
pub open spec fn spec_host_override(hs: Seq<(String, String)>) -> Option<Seq<char>> {
    spec_host_override_from(hs, 0)
}

/// Finds the first field whose key is exactly `Host`.
pub fn find_host(hs: &Vec<(String, String)>) -> (r: Option<usize>)
    ensures
        match r {
            Some(i) => i < hs@.len() && spec_host_override(hs@) == Some(hs@[i as int].1@),
            None => spec_host_override(hs@) is None,
        },
{
    let n = hs.len();
    let mut i: usize = 0;
    while i < n
        invariant
            n == hs@.len(),
            i <= n,
            spec_host_override(hs@) == spec_host_override_from(hs@, i as int),
        decreases n - i,
    {
        if str_eq(hs[i].0.as_str(), "Host") {
            return Some(i);
        }
        i += 1;
    }
    None
}

/// Whether some field's key equals `key` up to ASCII case, looking from
/// position `j` on.
pub open spec fn spec_has_key_ic_from(hs: Seq<(String, String)>, key: Seq<char>, j: int) -> bool
    decreases hs.len() - j,
    when 0 <= j
{
    if j >= hs.len() {
        false
    } else if eq_ignore_case_bytes(str_bytes(hs[j].0@), str_bytes(key)) {
        true
    } else {
        spec_has_key_ic_from(hs, key, j + 1)
    }
}

/// Whether some field's key equals `key` up to ASCII case.
pub open spec fn spec_has_key_ic(hs: Seq<(String, String)>, key: Seq<char>) -> bool {
    spec_has_key_ic_from(hs, key, 0)
}

/// Tests whether some field's key equals `key` up to ASCII case.
pub fn has_key_ic(hs: &Vec<(String, String)>, key: &str) -> (r: bool)
    ensures
        r == spec_has_key_ic(hs@, key@),
{
    let n = hs.len();
    let mut i: usize = 0;
    while i < n
        invariant
            n == hs@.len(),
            i <= n,
            spec_has_key_ic(hs@, key@) == spec_has_key_ic_from(hs@, key@, i as int),
        decreases n - i,
    {
        if str_eq_ignore_case(hs[i].0.as_str(), key) {
            return true;
        }
        i += 1;
    }
    false
}

/// Copies a header list.
pub fn clone_headers(hs: &Vec<(String, String)>) -> (r: Vec<(String, String)>)
    ensures
        r@ == hs@,
{
    let n = hs.len();
    let mut r: Vec<(String, String)> = Vec::new();
    let mut i: usize = 0;
    while i < n
        invariant
            n == hs@.len(),
            i <= n,
            r@ == hs@.take(i as int),
        decreases n - i,
    {
        let k = hs[i].0.clone();
        let v = hs[i].1.clone();
        r.push((k, v));
        proof {
            assert(hs@.take(i as int) + seq![(hs@[i as int].0, hs@[i as int].1)] =~= hs@.take(
                i + 1,
            ));
            assert(hs@[i as int] == (hs@[i as int].0, hs@[i as int].1));
        }
        i += 1;
    }
    proof {
        assert(hs@.take(n as int) =~= hs@);
    }
    r
}

} // verus!

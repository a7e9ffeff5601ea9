//! The trailer locator: given a byte buffer made of a zip archive with
//! data appended after it, find the absolute offset at which the appended
//! data begins.
//!
//! A zip archive ends with a 22-byte end-of-central-directory record —
//! the 4-byte signature `50 4b 05 06`, six fixed little-endian fields,
//! and a 2-byte comment length — followed by up to `0xFFFF` comment
//! bytes. The locator scans backward from the end of the buffer for the
//! signature within a bounded window and takes the match closest to the
//! end of the file; the appended data begins right after the record and
//! its comment.

use vstd::prelude::*;
use vstd::slice::slice_subrange;
use vstd::string::StringExecFns;
use crate::strutil::{dec_chars, usize_to_string};
use crate::codec::{dec_config, deserialize_config};
use crate::config::{Config, ConfigV};
use crate::json::json_parse;

verus! {

/// Width of the fixed part of the end-of-central-directory record,
/// its signature included.
pub const EOCD_SIZE: usize = 22;

/// Largest comment a zip archive can carry after the record.
pub const MAXIMUM_COMMENT_SIZE: usize = 0xFFFF;

/// Whether the end-of-central-directory signature stands at offset `s`.
pub open spec fn sig_at(d: Seq<u8>, s: int) -> bool {
    &&& 0 <= s
    &&& s + 4 <= d.len()
    &&& d[s] == 0x50u8
    &&& d[s + 1] == 0x4bu8
    &&& d[s + 2] == 0x05u8
    &&& d[s + 3] == 0x06u8
}

/// The largest signature offset in `lo..=s`, scanning downward.
pub open spec fn find_sig(d: Seq<u8>, s: int, lo: int) -> Option<int>
    decreases s - lo + 1,
{
    if s < lo {
        None
    } else if sig_at(d, s) {
        Some(s)
    } else {
        find_sig(d, s - 1, lo)
    }
}

/// How many of the buffer's last bytes are scanned: the fixed record,
/// the largest possible comment, and the caller's bound on the trailer.
pub open spec fn max_scan_of(maximum_trailer_size: int) -> int {
    EOCD_SIZE + MAXIMUM_COMMENT_SIZE + maximum_trailer_size
}

/// The lowest offset the scan may visit.
pub open spec fn scan_floor(len: int, maximum_trailer_size: int) -> int {
    if len - max_scan_of(maximum_trailer_size) > 0 {
        len - max_scan_of(maximum_trailer_size)
    } else {
        0
    }
}

/// The signature offset the bounded backward scan settles on: the one
/// closest to the end of the buffer, if any lies within the window.
pub open spec fn eocd_sig_pos(d: Seq<u8>, maximum_trailer_size: int) -> Option<int> {
    find_sig(d, d.len() - 4, scan_floor(d.len() as int, maximum_trailer_size))
}

/// The comment length stored in the record that starts at offset `s`,
/// read little-endian.
pub open spec fn comment_len_at(d: Seq<u8>, s: int) -> int {
    d[s + 20] + 0x100 * d[s + 21]
}

/// Where the appended data begins, for the record at offset `s`: right
/// after the fixed record and its comment.
pub open spec fn trailer_start(d: Seq<u8>, s: int) -> int {
    s + EOCD_SIZE + comment_len_at(d, s)
}

/// The message the scan fails with when no signature lies within the
/// window: it names how many of the file's last bytes were scanned.
pub open spec fn scan_failure_message(max_scan: int) -> Seq<char> {
    "Failed to find application zip end of central directory record within the last "@
        + dec_chars(max_scan as nat) + " bytes of the file. Invalid NCE."@
}

/// What the backward scan finds is the signature offset closest to the
/// end of the buffer: any match is a real signature within the window,
/// with none above it, and a miss means the window holds no signature.
pub proof fn lemma_find_sig_latest(d: Seq<u8>, s: int, lo: int)
    requires
        0 <= lo,
    ensures
        find_sig(d, s, lo) matches Some(p) ==> {
            &&& sig_at(d, p)
            &&& lo <= p <= s
            &&& forall|q: int| p < q <= s ==> !sig_at(d, q)
        },
        find_sig(d, s, lo) is None ==> forall|q: int| lo <= q <= s ==> !sig_at(d, q),
    decreases s - lo + 1,
{
    if s >= lo && !sig_at(d, s) {
        lemma_find_sig_latest(d, s - 1, lo);
    }
}

/// A buffer built as archive bytes followed by appended data is located
/// exactly: when the archive's own end-of-central-directory signature at
/// `p` is the last signature in the buffer and lies within the scan
/// window, the scan settles on `p`, and the trailer is found to begin
/// right after the record and the comment the record declares.
pub proof fn lemma_locates_trailer(d: Seq<u8>, p: int, maximum_trailer_size: int)
    requires
        scan_floor(d.len() as int, maximum_trailer_size) <= p,
        p + EOCD_SIZE <= d.len(),
        sig_at(d, p),
        forall|q: int| p < q ==> !sig_at(d, q),
    ensures
        eocd_sig_pos(d, maximum_trailer_size) == Some(p),
{
    let lo = scan_floor(d.len() as int, maximum_trailer_size);
    let s = d.len() - 4;
    lemma_find_sig_latest(d, s, lo);
    match find_sig(d, s, lo) {
        Some(q) => {
            if q < p {
                assert(!sig_at(d, p));
            }
            if q > p {
                assert(!sig_at(d, q));
            }
        },
        None => {
            assert(!sig_at(d, p));
        },
    }
}

/// Build the scan-failure message for a window of `max_scan` bytes.
fn scan_failure(max_scan: usize) -> (r: String)
    ensures
        r@ == scan_failure_message(max_scan as int),
{
    let mut m = String::new();
    m.append("Failed to find application zip end of central directory record within the last ");
    let count = usize_to_string(max_scan);
    m.append(count.as_str());
    m.append(" bytes of the file. Invalid NCE.");
    proof {
        assert(m@ =~= scan_failure_message(max_scan as int));
    }
    m
}

/// Locate the first byte of the data appended after a zip archive.
///
/// Scans the last `EOCD_SIZE + MAXIMUM_COMMENT_SIZE + maximum_trailer_size`
/// bytes of `data`, backward from the end, for the end-of-central-directory
/// signature; the match closest to the end of the file is taken for the
/// true record, and the offset right after the record and its comment is
/// returned. The scan fails when no signature lies within the window —
/// the buffer is not a zip, is truncated, or carries a trailer larger
/// than `maximum_trailer_size` — and when the record's fixed fields
/// themselves would run past the end of the buffer.
pub fn end_of_zip(data: &[u8], maximum_trailer_size: usize) -> (r: Result<usize, String>)
    requires
        maximum_trailer_size <= usize::MAX - 0x10015,
        data@.len() + 0x10016 <= usize::MAX,
    ensures
        r is Ok <==> (eocd_sig_pos(data@, maximum_trailer_size as int) matches Some(s)
            && s + EOCD_SIZE <= data@.len()),
        r is Ok ==> r->Ok_0 == trailer_start(
            data@,
            eocd_sig_pos(data@, maximum_trailer_size as int)->Some_0,
        ),
        r is Err && eocd_sig_pos(data@, maximum_trailer_size as int) is Some ==> r->Err_0@
            == "Found the end of central directory record, but the file ends before the record does. Invalid NCE."@,
        r is Err && eocd_sig_pos(data@, maximum_trailer_size as int) is None ==> r->Err_0@
            == scan_failure_message(max_scan_of(maximum_trailer_size as int)),
{
    let n: usize = data.len();
    let max_scan: usize = EOCD_SIZE + MAXIMUM_COMMENT_SIZE + maximum_trailer_size;
    let lo: usize = if n > max_scan {
        n - max_scan
    } else {
        0
    };
    if n < 4 {
        return Err(scan_failure(max_scan));
    }
    let mut s: usize = n - 4;
    loop
        invariant
            n == data@.len(),
            4 <= n,
            lo == scan_floor(n as int, maximum_trailer_size as int),
            max_scan == max_scan_of(maximum_trailer_size as int),
            lo <= s <= n - 4,
            find_sig(data@, n - 4, lo as int) == find_sig(data@, s as int, lo as int),
        ensures
            lo <= s <= n - 4,
            sig_at(data@, s as int),
            find_sig(data@, n - 4, lo as int) == Some(s as int),
        decreases s - lo,
    {
        if data[s] == 0x50 && data[s + 1] == 0x4b && data[s + 2] == 0x05 && data[s + 3] == 0x06 {
            break;
        }
        if s == lo {
            proof {
                assert(find_sig(data@, s as int - 1, lo as int) is None);
            }
            return Err(scan_failure(max_scan));
        }
        s = s - 1;
    }
    if n - s < EOCD_SIZE {
        return Err(
            "Found the end of central directory record, but the file ends before the record does. Invalid NCE.".to_owned(),
        );
    }
    let comment_len: usize = (data[s + 20] as usize) + 0x100 * (data[s + 21] as usize);
    Ok(s + EOCD_SIZE + comment_len)
}

/// Largest manifest [`load`] accepts after the archive: the same bound
/// as a zip comment's largest size, since the manifest is small JSON.
pub const MAXIMUM_CONFIG_SIZE: usize = 0xFFFF;

/// The manifest a full payload buffer carries: the bytes after the
/// located end of the zip, parsed and decoded as a [`Config`] document.
pub open spec fn load_spec(d: Seq<u8>) -> Option<ConfigV> {
    match eocd_sig_pos(d, MAXIMUM_CONFIG_SIZE as int) {
        Some(s) => if s + EOCD_SIZE <= d.len() && trailer_start(d, s) <= d.len() {
            match json_parse(d.skip(trailer_start(d, s))) {
                Some(j) => dec_config(j),
                None => None,
            }
        } else {
            None
        },
        None => None,
    }
}

/// Load the manifest appended after the zip archive in `data`.
///
/// The trailer is located with [`end_of_zip`] under the fixed
/// [`MAXIMUM_CONFIG_SIZE`] bound, and everything from that offset to the
/// end of the buffer is deserialized as the manifest.
pub fn load(data: &[u8]) -> (r: Result<Config, String>)
    requires
        data@.len() + 0x10016 <= usize::MAX,
    ensures
        r is Ok <==> load_spec(data@) is Some,
        r is Ok ==> Some(r->Ok_0.deep_view()) == load_spec(data@),
{
    let off = match end_of_zip(data, MAXIMUM_CONFIG_SIZE) {
        Ok(o) => o,
        Err(e) => {
            return Err(e);
        },
    };
    if off > data.len() {
        return Err("the manifest would start beyond the end of the file. Invalid NCE.".to_owned());
    }
    let tail = slice_subrange(data, off, data.len());
    proof {
        assert(tail@ =~= data@.skip(off as int));
    }
    deserialize_config(tail)
}

} // verus!

//! The decisions of the archive packer: which archive kinds can be
//! packed, where the output archive is placed, how entry names are
//! formed, and the wording of the packer's errors.
//!
//! The packer's filesystem work — walking the tree, reading modes,
//! writing the zip — happens outside this library; everything it decides
//! from plain values is here, with contracts.

use vstd::prelude::*;
use vstd::string::{StrSliceExecFns, StringExecFns};
use crate::config::{ArchiveType, ext_chars};

verus! {

/// The archive type a packing run uses when none was asked for: zip.
pub fn resolve_archive_type(t: Option<ArchiveType>) -> (r: ArchiveType)
    ensures
        r == match t {
            Some(x) => x,
            None => ArchiveType::Zip,
        },
{
    match t {
        Some(x) => x,
        None => ArchiveType::Zip,
    }
}

/// Whether the packer can produce the asked-for archive kind: only zip
/// is implemented, and the tar family fails loudly rather than produce
/// a wrong or empty archive.
pub fn check_supported(archive_type: &ArchiveType) -> (r: Result<(), String>)
    ensures
        r is Ok <==> *archive_type == ArchiveType::Zip,
        r is Err ==> r->Err_0@ == "not implemented: cannot create an "@ + ext_chars(
            *archive_type,
        ) + " archive"@,
{
    match archive_type {
        ArchiveType::Zip => Ok(()),
        _ => {
            let mut m = String::new();
            m.append("not implemented: cannot create an ");
            m.append(archive_type.as_ext());
            m.append(" archive");
            proof {
                assert(m@ =~= "not implemented: cannot create an "@ + ext_chars(*archive_type)
                    + " archive"@);
            }
            Err(m)
        },
    }
}

/// The packer's error wording: what failed, for which archive kind and
/// source, and the underlying detail.
pub fn cannot_create_message(archive_type: &ArchiveType, name: &str, detail: &str) -> (r: String)
    ensures
        r@ == "Cannot create an "@ + ext_chars(*archive_type) + " archive from "@ + name@ + ": "@
            + detail@,
{
    let mut m = String::new();
    m.append("Cannot create an ");
    m.append(archive_type.as_ext());
    m.append(" archive from ");
    m.append(name);
    m.append(": ");
    m.append(detail);
    proof {
        assert(m@ =~= "Cannot create an "@ + ext_chars(*archive_type) + " archive from "@ + name@
            + ": "@ + detail@);
    }
    m
}

/// The index of the last occurrence of `c` at or below position `i`,
/// or -1 when there is none.
pub open spec fn find_last(s: Seq<char>, c: char, i: int) -> int
    decreases i + 1,
{
    if i < 0 {
        -1
    } else if s[i] == c {
        i
    } else {
        find_last(s, c, i - 1)
    }
}

/// Find the last occurrence of a character in a string.
fn rfind_char(s: &str, c: char) -> (r: Option<usize>)
    ensures
        r is Some ==> find_last(s@, c, s@.len() - 1) == r->Some_0 && r->Some_0 < s@.len(),
        r is None ==> find_last(s@, c, s@.len() - 1) == -1,
{
    let n = s.unicode_len();
    if n == 0 {
        return None;
    }
    let mut i: usize = n - 1;
    loop
        invariant
            n == s@.len(),
            1 <= n,
            i <= n - 1,
            find_last(s@, c, n - 1) == find_last(s@, c, i as int),
        ensures
            i <= n - 1,
            s@[i as int] == c,
            find_last(s@, c, n - 1) == i,
        decreases i,
    {
        if s.get_char(i) == c {
            break;
        }
        if i == 0 {
            proof {
                assert(find_last(s@, c, -1) == -1);
            }
            return None;
        }
        i = i - 1;
    }
    Some(i)
}

/// Where the packed zip is written for a source directory `d`: the
/// directory's path with its extension replaced by `zip`.
///
/// The final path component's extension — whatever follows its last
/// dot, provided that dot is not the component's first character — is
/// cut before `.zip` is appended; a path whose final component is empty
/// is left unchanged. Paths arrive canonicalized, so `.` and `..`
/// components do not occur.
pub open spec fn zip_dest_chars(d: Seq<char>) -> Seq<char> {
    let sl = find_last(d, '/', d.len() - 1);
    let dot = find_last(d, '.', d.len() - 1);
    if sl + 1 == d.len() {
        d
    } else if dot > sl + 1 {
        d.take(dot) + ".zip"@
    } else {
        d + ".zip"@
    }
}

/// The path the packed zip is written to, beside the source directory.
pub fn zip_dest_path(dir: &str) -> (r: String)
    ensures
        r@ == zip_dest_chars(dir@),
{
    let n = dir.unicode_len();
    let sl = rfind_char(dir, '/');
    let dot = rfind_char(dir, '.');
    let name_start: usize = match sl {
        Some(i) => i + 1,
        None => 0,
    };
    if name_start == n {
        return dir.to_owned();
    }
    match dot {
        Some(di) if di > name_start => {
            let mut r = dir.substring_char(0, di).to_owned();
            r.append(".zip");
            proof {
                assert(r@ =~= dir@.take(di as int) + ".zip"@);
            }
            r
        },
        _ => {
            let mut r = dir.to_owned();
            r.append(".zip");
            r
        },
    }
}

/// The archive entry name of a sequence of path components: the
/// components joined by `/`, the zip separator, whatever the host's is.
pub open spec fn join_upto(cs: Seq<Seq<char>>, n: int) -> Seq<char>
    decreases n,
{
    if n <= 0 {
        Seq::empty()
    } else if n == 1 {
        cs[0]
    } else {
        join_upto(cs, n - 1) + "/"@ + cs[n - 1]
    }
}

/// The entry name for a whole relative path.
pub open spec fn join_entry_name(cs: Seq<Seq<char>>) -> Seq<char> {
    join_upto(cs, cs.len() as int)
}

/// Join a relative path's components into the archive entry name.
pub fn archive_entry_name(components: &Vec<String>) -> (r: String)
    ensures
        r@ == join_entry_name(components.deep_view()),
{
    let ghost cs = components.deep_view();
    let mut r = String::new();
    let mut i: usize = 0;
    while i < components.len()
        invariant
            i <= components@.len(),
            cs == components.deep_view(),
            cs.len() == components@.len(),
            forall|k: int| 0 <= k < cs.len() ==> cs[k] == components@[k]@,
            r@ == join_upto(cs, i as int),
        decreases components@.len() - i,
    {
        if i > 0 {
            r.append("/");
        }
        r.append(components[i].as_str());
        proof {
            if i == 0 {
                assert(r@ =~= join_upto(cs, 1));
            }
        }
        i += 1;
    }
    r
}

} // verus!

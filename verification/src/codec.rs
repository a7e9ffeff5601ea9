//! The manifest schema codec: how a [`Config`] is laid out as a JSON
//! document, in both directions.
//!
//! The layout rules are load-bearing for producer/consumer compatibility:
//! a locator's key appears as a sibling of the surrounding entry's own
//! fields (no nested object), file entries carry a lowercase `type` tag
//! beside those fields, omitted optional fields decode to their defaults,
//! and `archive_type` uses the token codec of [`crate::config`].

use vstd::prelude::*;
use crate::config::{
    Archive, ArchiveType, ArchiveV, Blob, BlobV, Cmd, CmdV, Config, ConfigV, File, FileV,
    Fingerprint, FingerprintV, HashAlgorithm, Locator, LocatorV, Scie, ScieV, ext_chars,
    lemma_archive_type_round_trip, parse_ext_chars,
};
use crate::json::{
    Json, JsonVal, jview, jview_arr, jview_obj, json_parse, json_text, json_from_bytes,
    json_to_bytes, lemma_jview_arr_index, lemma_jview_obj_index, lemma_obj_entries_view, obj_get,
    obj_lookup,
};
use crate::strutil::str_eq;

verus! {

// ---------------------------------------------------------------------
// The document layout, encoding direction.
// ---------------------------------------------------------------------

/// Layout of a digest algorithm: its lowercase token.
pub open spec fn enc_hash_algorithm(a: HashAlgorithm) -> JsonVal {
    match a {
        HashAlgorithm::Sha256 => JsonVal::Str("sha256"@),
    }
}

/// Layout of a fingerprint: an object with `algorithm` and `hash`.
pub open spec fn enc_fingerprint(f: FingerprintV) -> JsonVal {
    JsonVal::Obj(
        seq![
            ("algorithm"@, enc_hash_algorithm(f.algorithm)),
            ("hash"@, JsonVal::Str(f.hash)),
        ],
    )
}

/// Layout of a locator: the single object entry that stands beside the
/// surrounding file entry's own fields.
pub open spec fn enc_locator(l: LocatorV) -> (Seq<char>, JsonVal) {
    match l {
        LocatorV::Size(n) => ("size"@, JsonVal::UInt(n)),
        LocatorV::Entry(p) => ("entry"@, JsonVal::Str(p)),
    }
}

/// Layout of a blob entry: tag, flattened locator, then its own fields.
pub open spec fn enc_blob(b: BlobV) -> JsonVal {
    JsonVal::Obj(
        seq![
            ("type"@, JsonVal::Str("blob"@)),
            enc_locator(b.locator),
            ("fingerprint"@, enc_fingerprint(b.fingerprint)),
            ("name"@, JsonVal::Str(b.name)),
            ("always_extract"@, JsonVal::Bool(b.always_extract)),
        ],
    )
}

/// Layout of an archive entry: tag, flattened locator, its own fields;
/// an absent name is written as `null`.
pub open spec fn enc_archive(a: ArchiveV) -> JsonVal {
    JsonVal::Obj(
        seq![
            ("type"@, JsonVal::Str("archive"@)),
            enc_locator(a.locator),
            ("fingerprint"@, enc_fingerprint(a.fingerprint)),
            ("archive_type"@, JsonVal::Str(ext_chars(a.archive_type))),
            (
                "name"@,
                match a.name {
                    Some(n) => JsonVal::Str(n),
                    None => JsonVal::Null,
                },
            ),
            ("always_extract"@, JsonVal::Bool(a.always_extract)),
        ],
    )
}

/// Layout of a file entry, by its tag.
pub open spec fn enc_file(f: FileV) -> JsonVal {
    match f {
        FileV::Archive(a) => enc_archive(a),
        FileV::Blob(b) => enc_blob(b),
    }
}

/// Layout of a list of strings.
pub open spec fn enc_strings(s: Seq<Seq<char>>) -> Seq<JsonVal> {
    Seq::new(s.len(), |i: int| JsonVal::Str(s[i]))
}

/// Layout of the file entries, in their declared order.
pub open spec fn enc_files(s: Seq<FileV>) -> Seq<JsonVal> {
    Seq::new(s.len(), |i: int| enc_file(s[i]))
}

/// Layout of an environment mapping, in its declared order.
pub open spec fn enc_env(e: Seq<(Seq<char>, Seq<char>)>) -> Seq<(Seq<char>, JsonVal)> {
    Seq::new(e.len(), |i: int| (e[i].0, JsonVal::Str(e[i].1)))
}

/// Layout of a command.
pub open spec fn enc_cmd(c: CmdV) -> JsonVal {
    JsonVal::Obj(
        seq![
            ("exe"@, JsonVal::Str(c.exe)),
            ("args"@, JsonVal::Arr(enc_strings(c.args))),
            ("env"@, JsonVal::Obj(enc_env(c.env))),
            ("additional_files"@, JsonVal::Arr(enc_strings(c.additional_files))),
        ],
    )
}

/// Layout of the named extra commands, in their declared order.
pub open spec fn enc_cmds(cs: Seq<(Seq<char>, CmdV)>) -> Seq<(Seq<char>, JsonVal)> {
    Seq::new(cs.len(), |i: int| (cs[i].0, enc_cmd(cs[i].1)))
}

/// Layout of the scie header.
pub open spec fn enc_scie(s: ScieV) -> JsonVal {
    JsonVal::Obj(
        seq![("version"@, JsonVal::Str(s.version)), ("root"@, JsonVal::Str(s.root))],
    )
}

/// Layout of a whole manifest.
pub open spec fn enc_config(c: ConfigV) -> JsonVal {
    JsonVal::Obj(
        seq![
            ("scie"@, enc_scie(c.scie)),
            ("files"@, JsonVal::Arr(enc_files(c.files))),
            ("command"@, enc_cmd(c.command)),
            ("additional_commands"@, JsonVal::Obj(enc_cmds(c.additional_commands))),
        ],
    )
}

// ---------------------------------------------------------------------
// The document layout, decoding direction.
// ---------------------------------------------------------------------

/// A string node's characters.
pub open spec fn dec_str(j: JsonVal) -> Option<Seq<char>> {
    match j {
        JsonVal::Str(s) => Some(s),
        _ => None,
    }
}

/// A boolean node's value.
pub open spec fn dec_bool(j: JsonVal) -> Option<bool> {
    match j {
        JsonVal::Bool(b) => Some(b),
        _ => None,
    }
}

/// A number node's value.
pub open spec fn dec_u64(j: JsonVal) -> Option<u64> {
    match j {
        JsonVal::UInt(n) => Some(n),
        _ => None,
    }
}

/// A digest algorithm token.
pub open spec fn dec_hash_algorithm(j: JsonVal) -> Option<HashAlgorithm> {
    match j {
        JsonVal::Str(s) => if s == "sha256"@ {
            Some(HashAlgorithm::Sha256)
        } else {
            None
        },
        _ => None,
    }
}

/// A fingerprint object.
pub open spec fn dec_fingerprint(j: JsonVal) -> Option<FingerprintV> {
    match j {
        JsonVal::Obj(es) => match (obj_lookup(es, "algorithm"@), obj_lookup(es, "hash"@)) {
            (Some(a), Some(h)) => match (dec_hash_algorithm(a), dec_str(h)) {
                (Some(algorithm), Some(hash)) => Some(FingerprintV { algorithm, hash }),
                _ => None,
            },
            _ => None,
        },
        _ => None,
    }
}

/// The locator among a file entry's object entries: the first entry
/// named `size` or `entry` decides the variant, and its value must fit.
pub open spec fn dec_locator(es: Seq<(Seq<char>, JsonVal)>) -> Option<LocatorV>
    decreases es.len(),
{
    if es.len() == 0 {
        None
    } else if es[0].0 == "size"@ {
        match es[0].1 {
            JsonVal::UInt(n) => Some(LocatorV::Size(n)),
            _ => None,
        }
    } else if es[0].0 == "entry"@ {
        match es[0].1 {
            JsonVal::Str(p) => Some(LocatorV::Entry(p)),
            _ => None,
        }
    } else {
        dec_locator(es.drop_first())
    }
}

/// The `always_extract` field: absent means `false`.
pub open spec fn dec_always_extract(es: Seq<(Seq<char>, JsonVal)>) -> Option<bool> {
    match obj_lookup(es, "always_extract"@) {
        None => Some(false),
        Some(j) => dec_bool(j),
    }
}

/// A blob entry's fields.
pub open spec fn dec_blob(j: JsonVal) -> Option<BlobV> {
    match j {
        JsonVal::Obj(es) => match (
            dec_locator(es),
            obj_lookup(es, "fingerprint"@),
            obj_lookup(es, "name"@),
            dec_always_extract(es),
        ) {
            (Some(locator), Some(fj), Some(nj), Some(always_extract)) => match (
                dec_fingerprint(fj),
                dec_str(nj),
            ) {
                (Some(fingerprint), Some(name)) => Some(
                    BlobV { locator, fingerprint, name, always_extract },
                ),
                _ => None,
            },
            _ => None,
        },
        _ => None,
    }
}

/// An archive entry's optional name: absent and `null` both mean none.
pub open spec fn dec_archive_name(es: Seq<(Seq<char>, JsonVal)>) -> Option<Option<Seq<char>>> {
    match obj_lookup(es, "name"@) {
        None => Some(None),
        Some(JsonVal::Null) => Some(None),
        Some(JsonVal::Str(s)) => Some(Some(s)),
        Some(_) => None,
    }
}

/// An archive entry's fields.
pub open spec fn dec_archive(j: JsonVal) -> Option<ArchiveV> {
    match j {
        JsonVal::Obj(es) => match (
            dec_locator(es),
            obj_lookup(es, "fingerprint"@),
            obj_lookup(es, "archive_type"@),
            dec_archive_name(es),
            dec_always_extract(es),
        ) {
            (Some(locator), Some(fj), Some(tj), Some(name), Some(always_extract)) => match (
                dec_fingerprint(fj),
                dec_str(tj),
            ) {
                (Some(fingerprint), Some(token)) => match parse_ext_chars(token) {
                    Some(archive_type) => Some(
                        ArchiveV { locator, fingerprint, archive_type, name, always_extract },
                    ),
                    None => None,
                },
                _ => None,
            },
            _ => None,
        },
        _ => None,
    }
}

/// A file entry, discriminated by its `type` tag.
pub open spec fn dec_file(j: JsonVal) -> Option<FileV> {
    match j {
        JsonVal::Obj(es) => match obj_lookup(es, "type"@) {
            Some(tj) => match dec_str(tj) {
                Some(tag) => if tag == "archive"@ {
                    match dec_archive(j) {
                        Some(a) => Some(FileV::Archive(a)),
                        None => None,
                    }
                } else if tag == "blob"@ {
                    match dec_blob(j) {
                        Some(b) => Some(FileV::Blob(b)),
                        None => None,
                    }
                } else {
                    None
                },
                None => None,
            },
            None => None,
        },
        _ => None,
    }
}

/// A list of strings, each element of which must be a string node.
pub open spec fn dec_strs(s: Seq<JsonVal>) -> Option<Seq<Seq<char>>>
    decreases s.len(),
{
    if s.len() == 0 {
        Some(Seq::empty())
    } else {
        match (dec_strs(s.drop_last()), dec_str(s.last())) {
            (Some(r), Some(x)) => Some(r.push(x)),
            _ => None,
        }
    }
}

/// The file entries, in document order.
pub open spec fn dec_files(s: Seq<JsonVal>) -> Option<Seq<FileV>>
    decreases s.len(),
{
    if s.len() == 0 {
        Some(Seq::empty())
    } else {
        match (dec_files(s.drop_last()), dec_file(s.last())) {
            (Some(r), Some(x)) => Some(r.push(x)),
            _ => None,
        }
    }
}

/// An environment object: every value must be a string node.
pub open spec fn dec_env(es: Seq<(Seq<char>, JsonVal)>) -> Option<Seq<(Seq<char>, Seq<char>)>>
    decreases es.len(),
{
    if es.len() == 0 {
        Some(Seq::empty())
    } else {
        match (dec_env(es.drop_last()), dec_str(es.last().1)) {
            (Some(r), Some(x)) => Some(r.push((es.last().0, x))),
            _ => None,
        }
    }
}

/// A command object.
pub open spec fn dec_cmd(j: JsonVal) -> Option<CmdV> {
    match j {
        JsonVal::Obj(es) => match obj_lookup(es, "exe"@) {
            Some(ej) => match dec_str(ej) {
                Some(exe) => {
                    let args = match obj_lookup(es, "args"@) {
                        None => Some(Seq::<Seq<char>>::empty()),
                        Some(JsonVal::Arr(a)) => dec_strs(a),
                        Some(_) => None,
                    };
                    let env = match obj_lookup(es, "env"@) {
                        None => Some(Seq::<(Seq<char>, Seq<char>)>::empty()),
                        Some(JsonVal::Obj(e)) => dec_env(e),
                        Some(_) => None,
                    };
                    let additional_files = match obj_lookup(es, "additional_files"@) {
                        None => Some(Seq::<Seq<char>>::empty()),
                        Some(JsonVal::Arr(a)) => dec_strs(a),
                        Some(_) => None,
                    };
                    match (args, env, additional_files) {
                        (Some(args), Some(env), Some(additional_files)) => Some(
                            CmdV { exe, args, env, additional_files },
                        ),
                        _ => None,
                    }
                },
                None => None,
            },
            None => None,
        },
        _ => None,
    }
}

/// The named extra commands.
pub open spec fn dec_cmds(es: Seq<(Seq<char>, JsonVal)>) -> Option<Seq<(Seq<char>, CmdV)>>
    decreases es.len(),
{
    if es.len() == 0 {
        Some(Seq::empty())
    } else {
        match (dec_cmds(es.drop_last()), dec_cmd(es.last().1)) {
            (Some(r), Some(x)) => Some(r.push((es.last().0, x))),
            _ => None,
        }
    }
}

/// The scie header.
pub open spec fn dec_scie(j: JsonVal) -> Option<ScieV> {
    match j {
        JsonVal::Obj(es) => match (obj_lookup(es, "version"@), obj_lookup(es, "root"@)) {
            (Some(vj), Some(rj)) => match (dec_str(vj), dec_str(rj)) {
                (Some(version), Some(root)) => Some(ScieV { version, root }),
                _ => None,
            },
            _ => None,
        },
        _ => None,
    }
}

/// A whole manifest.
pub open spec fn dec_config(j: JsonVal) -> Option<ConfigV> {
    match j {
        JsonVal::Obj(es) => match (obj_lookup(es, "scie"@), obj_lookup(es, "files"@), obj_lookup(
            es,
            "command"@,
        )) {
            (Some(sj), Some(fj), Some(cj)) => {
                let files = match fj {
                    JsonVal::Arr(a) => dec_files(a),
                    _ => None,
                };
                let additional_commands = match obj_lookup(es, "additional_commands"@) {
                    None => Some(Seq::<(Seq<char>, CmdV)>::empty()),
                    Some(JsonVal::Obj(e)) => dec_cmds(e),
                    Some(_) => None,
                };
                match (dec_scie(sj), files, dec_cmd(cj), additional_commands) {
                    (Some(scie), Some(files), Some(command), Some(additional_commands)) => Some(
                        ConfigV { scie, files, command, additional_commands },
                    ),
                    _ => None,
                }
            },
            _ => None,
        },
        _ => None,
    }
}

// ---------------------------------------------------------------------
// The encoder and the decoder agree: decoding an encoded manifest gives
// the manifest back, defaults included.
// ---------------------------------------------------------------------

/// The schema's object keys and tag values that a reader of an encoded
/// document must tell apart.
proof fn lemma_keys_distinct()
    ensures
        "hash"@ != "algorithm"@,
        "type"@ != "size"@,
        "type"@ != "entry"@,
        "entry"@ != "size"@,
        "fingerprint"@ != "type"@,
        "fingerprint"@ != "size"@,
        "fingerprint"@ != "entry"@,
        "archive_type"@ != "type"@,
        "archive_type"@ != "size"@,
        "archive_type"@ != "entry"@,
        "archive_type"@ != "fingerprint"@,
        "name"@ != "type"@,
        "name"@ != "size"@,
        "name"@ != "entry"@,
        "name"@ != "fingerprint"@,
        "name"@ != "archive_type"@,
        "always_extract"@ != "type"@,
        "always_extract"@ != "size"@,
        "always_extract"@ != "entry"@,
        "always_extract"@ != "fingerprint"@,
        "always_extract"@ != "archive_type"@,
        "always_extract"@ != "name"@,
        "blob"@ != "archive"@,
        "args"@ != "exe"@,
        "env"@ != "exe"@,
        "env"@ != "args"@,
        "additional_files"@ != "exe"@,
        "additional_files"@ != "args"@,
        "additional_files"@ != "env"@,
        "files"@ != "scie"@,
        "command"@ != "scie"@,
        "command"@ != "files"@,
        "additional_commands"@ != "scie"@,
        "additional_commands"@ != "files"@,
        "additional_commands"@ != "command"@,
        "root"@ != "version"@,
{
    reveal_strlit("hash");
    reveal_strlit("algorithm");
    reveal_strlit("type");
    reveal_strlit("size");
    reveal_strlit("entry");
    reveal_strlit("fingerprint");
    reveal_strlit("archive_type");
    reveal_strlit("name");
    reveal_strlit("always_extract");
    reveal_strlit("blob");
    reveal_strlit("archive");
    reveal_strlit("exe");
    reveal_strlit("args");
    reveal_strlit("env");
    reveal_strlit("additional_files");
    reveal_strlit("scie");
    reveal_strlit("files");
    reveal_strlit("command");
    reveal_strlit("additional_commands");
    reveal_strlit("root");
    reveal_strlit("version");
    assert("hash"@.len() == 4);
    assert("algorithm"@.len() == 9);
    assert("type"@.len() == 4);
    assert("size"@.len() == 4);
    assert("entry"@.len() == 5);
    assert("fingerprint"@.len() == 11);
    assert("archive_type"@.len() == 12);
    assert("name"@.len() == 4);
    assert("always_extract"@.len() == 14);
    assert("blob"@.len() == 4);
    assert("archive"@.len() == 7);
    assert("exe"@.len() == 3);
    assert("args"@.len() == 4);
    assert("env"@.len() == 3);
    assert("additional_files"@.len() == 16);
    assert("scie"@.len() == 4);
    assert("files"@.len() == 5);
    assert("command"@.len() == 7);
    assert("additional_commands"@.len() == 19);
    assert("root"@.len() == 4);
    assert("version"@.len() == 7);
    assert("type"@[0] != "size"@[0]);
    assert("name"@[0] != "type"@[0]);
    assert("name"@[0] != "size"@[0]);
    assert("env"@[1] != "exe"@[1]);
    assert("root"@[0] != "size"@[0]);
    assert("root"@[0] != "type"@[0]);
    assert("root"@[0] != "name"@[0]);
    assert("scie"@[0] != "type"@[0]);
    assert("scie"@[0] != "name"@[0]);
    assert("args"@[0] != "type"@[0]);
    assert("args"@[0] != "size"@[0]);
    assert("args"@[0] != "name"@[0]);
}

/// Decoding an encoded fingerprint gives it back.
proof fn lemma_fingerprint_rt(f: FingerprintV)
    ensures
        dec_fingerprint(enc_fingerprint(f)) == Some(f),
{
    lemma_keys_distinct();
    let es = seq![
        ("algorithm"@, enc_hash_algorithm(f.algorithm)),
        ("hash"@, JsonVal::Str(f.hash)),
    ];
    assert(obj_lookup(es, "algorithm"@) == Some(enc_hash_algorithm(f.algorithm)));
    assert(es.drop_first()[0] == es[1]);
    assert(obj_lookup(es.drop_first(), "hash"@) == Some(JsonVal::Str(f.hash)));
    assert(obj_lookup(es, "hash"@) == Some(JsonVal::Str(f.hash)));
}

/// Decoding the entries of an encoded file entry finds its locator.
proof fn lemma_locator_rt(es: Seq<(Seq<char>, JsonVal)>, l: LocatorV)
    requires
        es.len() >= 2,
        es[0].0 == "type"@,
        es[1] == enc_locator(l),
    ensures
        dec_locator(es) == Some(l),
{
    lemma_keys_distinct();
    assert(es.drop_first()[0] == es[1]);
    match l {
        LocatorV::Size(n) => {
            assert(dec_locator(es.drop_first()) == Some(l));
        },
        LocatorV::Entry(p) => {
            assert(dec_locator(es.drop_first()) == Some(l));
        },
    }
}

/// Decoding an encoded blob entry gives it back.
proof fn lemma_blob_rt(b: BlobV)
    ensures
        dec_blob(enc_blob(b)) == Some(b),
{
    lemma_keys_distinct();
    let es = seq![
        ("type"@, JsonVal::Str("blob"@)),
        enc_locator(b.locator),
        ("fingerprint"@, enc_fingerprint(b.fingerprint)),
        ("name"@, JsonVal::Str(b.name)),
        ("always_extract"@, JsonVal::Bool(b.always_extract)),
    ];
    let es1 = es.drop_first();
    let es2 = es1.drop_first();
    let es3 = es2.drop_first();
    let es4 = es3.drop_first();
    assert(es1[0] == es[1] && es1[1] == es[2] && es1[2] == es[3] && es1[3] == es[4]);
    assert(es2[0] == es[2] && es2[1] == es[3] && es2[2] == es[4]);
    assert(es3[0] == es[3] && es3[1] == es[4]);
    assert(es4[0] == es[4]);
    lemma_locator_rt(es, b.locator);
    let lkey = enc_locator(b.locator).0;
    assert(lkey == "size"@ || lkey == "entry"@);
    assert(obj_lookup(es, "fingerprint"@) == obj_lookup(es1, "fingerprint"@));
    assert(obj_lookup(es1, "fingerprint"@) == obj_lookup(es2, "fingerprint"@));
    assert(obj_lookup(es2, "fingerprint"@) == Some(enc_fingerprint(b.fingerprint)));
    assert(obj_lookup(es, "name"@) == obj_lookup(es1, "name"@));
    assert(obj_lookup(es1, "name"@) == obj_lookup(es2, "name"@));
    assert(obj_lookup(es2, "name"@) == obj_lookup(es3, "name"@));
    assert(obj_lookup(es3, "name"@) == Some(JsonVal::Str(b.name)));
    assert(obj_lookup(es, "always_extract"@) == obj_lookup(es1, "always_extract"@));
    assert(obj_lookup(es1, "always_extract"@) == obj_lookup(es2, "always_extract"@));
    assert(obj_lookup(es2, "always_extract"@) == obj_lookup(es3, "always_extract"@));
    assert(obj_lookup(es3, "always_extract"@) == obj_lookup(es4, "always_extract"@));
    assert(obj_lookup(es4, "always_extract"@) == Some(JsonVal::Bool(b.always_extract)));
    lemma_fingerprint_rt(b.fingerprint);
}

/// Decoding an encoded archive entry gives it back.
proof fn lemma_archive_rt(a: ArchiveV)
    ensures
        dec_archive(enc_archive(a)) == Some(a),
{
    lemma_keys_distinct();
    let name_val = match a.name {
        Some(n) => JsonVal::Str(n),
        None => JsonVal::Null,
    };
    let es = seq![
        ("type"@, JsonVal::Str("archive"@)),
        enc_locator(a.locator),
        ("fingerprint"@, enc_fingerprint(a.fingerprint)),
        ("archive_type"@, JsonVal::Str(ext_chars(a.archive_type))),
        ("name"@, name_val),
        ("always_extract"@, JsonVal::Bool(a.always_extract)),
    ];
    let es1 = es.drop_first();
    let es2 = es1.drop_first();
    let es3 = es2.drop_first();
    let es4 = es3.drop_first();
    let es5 = es4.drop_first();
    assert(es1[0] == es[1] && es1[1] == es[2] && es1[2] == es[3] && es1[3] == es[4] && es1[4]
        == es[5]);
    assert(es2[0] == es[2] && es2[1] == es[3] && es2[2] == es[4] && es2[3] == es[5]);
    assert(es3[0] == es[3] && es3[1] == es[4] && es3[2] == es[5]);
    assert(es4[0] == es[4] && es4[1] == es[5]);
    assert(es5[0] == es[5]);
    lemma_locator_rt(es, a.locator);
    let lkey = enc_locator(a.locator).0;
    assert(lkey == "size"@ || lkey == "entry"@);
    assert(obj_lookup(es, "fingerprint"@) == obj_lookup(es1, "fingerprint"@));
    assert(obj_lookup(es1, "fingerprint"@) == obj_lookup(es2, "fingerprint"@));
    assert(obj_lookup(es2, "fingerprint"@) == Some(enc_fingerprint(a.fingerprint)));
    assert(obj_lookup(es, "archive_type"@) == obj_lookup(es1, "archive_type"@));
    assert(obj_lookup(es1, "archive_type"@) == obj_lookup(es2, "archive_type"@));
    assert(obj_lookup(es2, "archive_type"@) == obj_lookup(es3, "archive_type"@));
    assert(obj_lookup(es3, "archive_type"@) == Some(JsonVal::Str(ext_chars(a.archive_type))));
    assert(obj_lookup(es, "name"@) == obj_lookup(es1, "name"@));
    assert(obj_lookup(es1, "name"@) == obj_lookup(es2, "name"@));
    assert(obj_lookup(es2, "name"@) == obj_lookup(es3, "name"@));
    assert(obj_lookup(es3, "name"@) == obj_lookup(es4, "name"@));
    assert(obj_lookup(es4, "name"@) == Some(name_val));
    assert(obj_lookup(es, "always_extract"@) == obj_lookup(es1, "always_extract"@));
    assert(obj_lookup(es1, "always_extract"@) == obj_lookup(es2, "always_extract"@));
    assert(obj_lookup(es2, "always_extract"@) == obj_lookup(es3, "always_extract"@));
    assert(obj_lookup(es3, "always_extract"@) == obj_lookup(es4, "always_extract"@));
    assert(obj_lookup(es4, "always_extract"@) == obj_lookup(es5, "always_extract"@));
    assert(obj_lookup(es5, "always_extract"@) == Some(JsonVal::Bool(a.always_extract)));
    lemma_fingerprint_rt(a.fingerprint);
    lemma_archive_type_round_trip(a.archive_type);
    assert(dec_archive_name(es) == Some(a.name));
    assert(enc_archive(a)->Obj_0 =~= es);
}

/// Decoding an encoded file entry gives it back.
proof fn lemma_file_rt(f: FileV)
    ensures
        dec_file(enc_file(f)) == Some(f),
{
    lemma_keys_distinct();
    reveal_strlit("blob");
    reveal_strlit("archive");
    match f {
        FileV::Archive(a) => {
            lemma_archive_rt(a);
        },
        FileV::Blob(b) => {
            lemma_blob_rt(b);
        },
    }
}

/// Decoding an encoded string list gives it back.
proof fn lemma_strs_rt(s: Seq<Seq<char>>)
    ensures
        dec_strs(enc_strings(s)) == Some(s),
    decreases s.len(),
{
    if s.len() == 0 {
        assert(enc_strings(s).len() == 0);
    } else {
        lemma_strs_rt(s.drop_last());
        assert(enc_strings(s).drop_last() =~= enc_strings(s.drop_last()));
        assert(enc_strings(s).last() == JsonVal::Str(s.last()));
        assert(s.drop_last().push(s.last()) =~= s);
    }
}

/// Decoding an encoded environment gives it back.
proof fn lemma_env_rt(e: Seq<(Seq<char>, Seq<char>)>)
    ensures
        dec_env(enc_env(e)) == Some(e),
    decreases e.len(),
{
    if e.len() == 0 {
        assert(enc_env(e).len() == 0);
    } else {
        lemma_env_rt(e.drop_last());
        assert(enc_env(e).drop_last() =~= enc_env(e.drop_last()));
        assert(enc_env(e).last() == (e.last().0, JsonVal::Str(e.last().1)));
        assert(e.drop_last().push(e.last()) =~= e);
    }
}

/// Decoding encoded file entries gives them back, in order.
proof fn lemma_files_rt(s: Seq<FileV>)
    ensures
        dec_files(enc_files(s)) == Some(s),
    decreases s.len(),
{
    if s.len() == 0 {
        assert(enc_files(s).len() == 0);
    } else {
        lemma_files_rt(s.drop_last());
        lemma_file_rt(s.last());
        assert(enc_files(s).drop_last() =~= enc_files(s.drop_last()));
        assert(enc_files(s).last() == enc_file(s.last()));
        assert(s.drop_last().push(s.last()) =~= s);
    }
}

/// Decoding an encoded command gives it back.
proof fn lemma_cmd_rt(c: CmdV)
    ensures
        dec_cmd(enc_cmd(c)) == Some(c),
{
    lemma_keys_distinct();
    let es = seq![
        ("exe"@, JsonVal::Str(c.exe)),
        ("args"@, JsonVal::Arr(enc_strings(c.args))),
        ("env"@, JsonVal::Obj(enc_env(c.env))),
        ("additional_files"@, JsonVal::Arr(enc_strings(c.additional_files))),
    ];
    let es1 = es.drop_first();
    let es2 = es1.drop_first();
    let es3 = es2.drop_first();
    assert(es1[0] == es[1] && es1[1] == es[2] && es1[2] == es[3]);
    assert(es2[0] == es[2] && es2[1] == es[3]);
    assert(es3[0] == es[3]);
    assert(obj_lookup(es, "exe"@) == Some(JsonVal::Str(c.exe)));
    assert(obj_lookup(es, "args"@) == obj_lookup(es1, "args"@));
    assert(obj_lookup(es1, "args"@) == Some(JsonVal::Arr(enc_strings(c.args))));
    assert(obj_lookup(es, "env"@) == obj_lookup(es1, "env"@));
    assert(obj_lookup(es1, "env"@) == obj_lookup(es2, "env"@));
    assert(obj_lookup(es2, "env"@) == Some(JsonVal::Obj(enc_env(c.env))));
    assert(obj_lookup(es, "additional_files"@) == obj_lookup(es1, "additional_files"@));
    assert(obj_lookup(es1, "additional_files"@) == obj_lookup(es2, "additional_files"@));
    assert(obj_lookup(es2, "additional_files"@) == obj_lookup(es3, "additional_files"@));
    assert(obj_lookup(es3, "additional_files"@) == Some(
        JsonVal::Arr(enc_strings(c.additional_files)),
    ));
    lemma_strs_rt(c.args);
    lemma_env_rt(c.env);
    lemma_strs_rt(c.additional_files);
}

/// Decoding encoded extra commands gives them back, in order.
proof fn lemma_cmds_rt(cs: Seq<(Seq<char>, CmdV)>)
    ensures
        dec_cmds(enc_cmds(cs)) == Some(cs),
    decreases cs.len(),
{
    if cs.len() == 0 {
        assert(enc_cmds(cs).len() == 0);
    } else {
        lemma_cmds_rt(cs.drop_last());
        lemma_cmd_rt(cs.last().1);
        assert(enc_cmds(cs).drop_last() =~= enc_cmds(cs.drop_last()));
        assert(enc_cmds(cs).last() == (cs.last().0, enc_cmd(cs.last().1)));
        assert(cs.drop_last().push(cs.last()) =~= cs);
    }
}

/// Decoding an encoded scie header gives it back.
proof fn lemma_scie_rt(s: ScieV)
    ensures
        dec_scie(enc_scie(s)) == Some(s),
{
    lemma_keys_distinct();
    let es = seq![("version"@, JsonVal::Str(s.version)), ("root"@, JsonVal::Str(s.root))];
    assert(es.drop_first()[0] == es[1]);
    assert(obj_lookup(es, "version"@) == Some(JsonVal::Str(s.version)));
    assert(obj_lookup(es, "root"@) == obj_lookup(es.drop_first(), "root"@));
    assert(obj_lookup(es.drop_first(), "root"@) == Some(JsonVal::Str(s.root)));
}

/// The codec round trip: decoding an encoded manifest gives the
/// manifest back, every field, default and ordering included.
pub proof fn lemma_config_round_trip(c: ConfigV)
    ensures
        dec_config(enc_config(c)) == Some(c),
{
    lemma_keys_distinct();
    let es = seq![
        ("scie"@, enc_scie(c.scie)),
        ("files"@, JsonVal::Arr(enc_files(c.files))),
        ("command"@, enc_cmd(c.command)),
        ("additional_commands"@, JsonVal::Obj(enc_cmds(c.additional_commands))),
    ];
    let es1 = es.drop_first();
    let es2 = es1.drop_first();
    let es3 = es2.drop_first();
    assert(es1[0] == es[1] && es1[1] == es[2] && es1[2] == es[3]);
    assert(es2[0] == es[2] && es2[1] == es[3]);
    assert(es3[0] == es[3]);
    assert(obj_lookup(es, "scie"@) == Some(enc_scie(c.scie)));
    assert(obj_lookup(es, "files"@) == obj_lookup(es1, "files"@));
    assert(obj_lookup(es1, "files"@) == Some(JsonVal::Arr(enc_files(c.files))));
    assert(obj_lookup(es, "command"@) == obj_lookup(es1, "command"@));
    assert(obj_lookup(es1, "command"@) == obj_lookup(es2, "command"@));
    assert(obj_lookup(es2, "command"@) == Some(enc_cmd(c.command)));
    assert(obj_lookup(es, "additional_commands"@) == obj_lookup(es1, "additional_commands"@));
    assert(obj_lookup(es1, "additional_commands"@) == obj_lookup(es2, "additional_commands"@));
    assert(obj_lookup(es2, "additional_commands"@) == obj_lookup(es3, "additional_commands"@));
    assert(obj_lookup(es3, "additional_commands"@) == Some(
        JsonVal::Obj(enc_cmds(c.additional_commands)),
    ));
    lemma_scie_rt(c.scie);
    lemma_files_rt(c.files);
    lemma_cmd_rt(c.command);
    lemma_cmds_rt(c.additional_commands);
}

// ---------------------------------------------------------------------
// The encoder.
// ---------------------------------------------------------------------

/// Encode a digest algorithm as its token.
fn encode_hash_algorithm(a: &HashAlgorithm) -> (r: Json)
    ensures
        jview(r) == enc_hash_algorithm(*a),
{
    match a {
        HashAlgorithm::Sha256 => Json::Str("sha256".to_owned()),
    }
}

/// Encode a fingerprint as its object.
fn encode_fingerprint(f: &Fingerprint) -> (r: Json)
    ensures
        jview(r) == enc_fingerprint(f.deep_view()),
{
    let mut es: Vec<(String, Json)> = Vec::new();
    es.push(("algorithm".to_owned(), encode_hash_algorithm(&f.algorithm)));
    es.push(("hash".to_owned(), Json::Str(f.hash.clone())));
    let r = Json::Obj(es);
    proof {
        lemma_jview_obj_index(r->Obj_0@);
        assert(jview_obj(r->Obj_0@) =~= enc_fingerprint(f.deep_view())->Obj_0);
    }
    r
}

/// Encode a locator as its single object entry.
fn encode_locator(l: &Locator) -> (r: (String, Json))
    ensures
        (r.0@, jview(r.1)) == enc_locator(l.deep_view()),
{
    match l {
        Locator::Size(n) => ("size".to_owned(), Json::UInt(*n)),
        Locator::Entry(p) => ("entry".to_owned(), Json::Str(p.clone())),
    }
}

/// Encode a blob entry.
fn encode_blob(b: &Blob) -> (r: Json)
    ensures
        jview(r) == enc_blob(b.deep_view()),
{
    let mut es: Vec<(String, Json)> = Vec::new();
    es.push(("type".to_owned(), Json::Str("blob".to_owned())));
    es.push(encode_locator(&b.locator));
    es.push(("fingerprint".to_owned(), encode_fingerprint(&b.fingerprint)));
    es.push(("name".to_owned(), Json::Str(b.name.clone())));
    es.push(("always_extract".to_owned(), Json::Bool(b.always_extract)));
    let r = Json::Obj(es);
    proof {
        lemma_jview_obj_index(r->Obj_0@);
        assert(jview_obj(r->Obj_0@) =~= enc_blob(b.deep_view())->Obj_0);
    }
    r
}

/// Encode an archive entry.
fn encode_archive(a: &Archive) -> (r: Json)
    ensures
        jview(r) == enc_archive(a.deep_view()),
{
    let mut es: Vec<(String, Json)> = Vec::new();
    es.push(("type".to_owned(), Json::Str("archive".to_owned())));
    es.push(encode_locator(&a.locator));
    es.push(("fingerprint".to_owned(), encode_fingerprint(&a.fingerprint)));
    es.push(("archive_type".to_owned(), Json::Str(a.archive_type.as_ext().to_owned())));
    let name_node = match &a.name {
        Some(n) => Json::Str(n.clone()),
        None => Json::Null,
    };
    es.push(("name".to_owned(), name_node));
    es.push(("always_extract".to_owned(), Json::Bool(a.always_extract)));
    let r = Json::Obj(es);
    proof {
        lemma_jview_obj_index(r->Obj_0@);
        assert(jview_obj(r->Obj_0@) =~= enc_archive(a.deep_view())->Obj_0);
    }
    r
}

/// Encode a file entry under its tag.
fn encode_file(f: &File) -> (r: Json)
    ensures
        jview(r) == enc_file(f.deep_view()),
{
    match f {
        File::Archive(a) => encode_archive(a),
        File::Blob(b) => encode_blob(b),
    }
}

/// Encode a list of strings.
fn encode_strings(v: &Vec<String>) -> (r: Vec<Json>)
    ensures
        jview_arr(r@) == enc_strings(v.deep_view()),
{
    let mut r: Vec<Json> = Vec::new();
    let mut i: usize = 0;
    while i < v.len()
        invariant
            i <= v@.len(),
            r@.len() == i,
            forall|k: int| 0 <= k < i ==> jview(r@[k]) == JsonVal::Str(v@[k]@),
        decreases v@.len() - i,
    {
        r.push(Json::Str(v[i].clone()));
        i += 1;
    }
    proof {
        lemma_jview_arr_index(r@);
        assert(jview_arr(r@) =~= enc_strings(v.deep_view()));
    }
    r
}

/// Encode the file entries, in order.
fn encode_files(fs: &Vec<File>) -> (r: Vec<Json>)
    ensures
        jview_arr(r@) == enc_files(fs.deep_view()),
{
    let mut r: Vec<Json> = Vec::new();
    let mut i: usize = 0;
    while i < fs.len()
        invariant
            i <= fs@.len(),
            r@.len() == i,
            forall|k: int| 0 <= k < i ==> jview(r@[k]) == enc_file(fs@[k].deep_view()),
        decreases fs@.len() - i,
    {
        r.push(encode_file(&fs[i]));
        i += 1;
    }
    proof {
        lemma_jview_arr_index(r@);
        assert(jview_arr(r@) =~= enc_files(fs.deep_view()));
    }
    r
}

/// Encode an environment mapping, in order.
fn encode_env(e: &Vec<(String, String)>) -> (r: Vec<(String, Json)>)
    ensures
        jview_obj(r@) == enc_env(e.deep_view()),
{
    let mut r: Vec<(String, Json)> = Vec::new();
    let mut i: usize = 0;
    while i < e.len()
        invariant
            i <= e@.len(),
            r@.len() == i,
            forall|k: int|
                0 <= k < i ==> (r@[k].0@, jview(r@[k].1)) == (e@[k].0@, JsonVal::Str(e@[k].1@)),
        decreases e@.len() - i,
    {
        r.push((e[i].0.clone(), Json::Str(e[i].1.clone())));
        i += 1;
    }
    proof {
        lemma_jview_obj_index(r@);
        assert(jview_obj(r@) =~= enc_env(e.deep_view()));
    }
    r
}

/// Encode a command.
fn encode_cmd(c: &Cmd) -> (r: Json)
    ensures
        jview(r) == enc_cmd(c.deep_view()),
{
    let mut es: Vec<(String, Json)> = Vec::new();
    es.push(("exe".to_owned(), Json::Str(c.exe.clone())));
    es.push(("args".to_owned(), Json::Arr(encode_strings(&c.args))));
    es.push(("env".to_owned(), Json::Obj(encode_env(&c.env))));
    es.push(("additional_files".to_owned(), Json::Arr(encode_strings(&c.additional_files))));
    let r = Json::Obj(es);
    proof {
        lemma_jview_obj_index(r->Obj_0@);
        assert(jview_obj(r->Obj_0@) =~= enc_cmd(c.deep_view())->Obj_0);
    }
    r
}

/// Encode the named extra commands, in order.
fn encode_cmds(cs: &Vec<(String, Cmd)>) -> (r: Vec<(String, Json)>)
    ensures
        jview_obj(r@) == enc_cmds(cs.deep_view()),
{
    let mut r: Vec<(String, Json)> = Vec::new();
    let mut i: usize = 0;
    while i < cs.len()
        invariant
            i <= cs@.len(),
            r@.len() == i,
            forall|k: int|
                0 <= k < i ==> (r@[k].0@, jview(r@[k].1)) == (
                    cs@[k].0@,
                    enc_cmd(cs@[k].1.deep_view()),
                ),
        decreases cs@.len() - i,
    {
        r.push((cs[i].0.clone(), encode_cmd(&cs[i].1)));
        i += 1;
    }
    proof {
        lemma_jview_obj_index(r@);
        assert(jview_obj(r@) =~= enc_cmds(cs.deep_view()));
    }
    r
}

/// Encode the scie header.
fn encode_scie(s: &Scie) -> (r: Json)
    ensures
        jview(r) == enc_scie(s.deep_view()),
{
    let mut es: Vec<(String, Json)> = Vec::new();
    es.push(("version".to_owned(), Json::Str(s.version.clone())));
    es.push(("root".to_owned(), Json::Str(s.root.clone())));
    let r = Json::Obj(es);
    proof {
        lemma_jview_obj_index(r->Obj_0@);
        assert(jview_obj(r->Obj_0@) =~= enc_scie(s.deep_view())->Obj_0);
    }
    r
}

/// Encode a whole manifest as its document.
pub fn encode_config(c: &Config) -> (r: Json)
    ensures
        jview(r) == enc_config(c.deep_view()),
{
    let mut es: Vec<(String, Json)> = Vec::new();
    es.push(("scie".to_owned(), encode_scie(&c.scie)));
    es.push(("files".to_owned(), Json::Arr(encode_files(&c.files))));
    es.push(("command".to_owned(), encode_cmd(&c.command)));
    es.push(("additional_commands".to_owned(), Json::Obj(encode_cmds(&c.additional_commands))));
    let r = Json::Obj(es);
    proof {
        lemma_jview_obj_index(r->Obj_0@);
        assert(jview_obj(r->Obj_0@) =~= enc_config(c.deep_view())->Obj_0);
    }
    r
}

/// Serialize a manifest to the JSON bytes its consumers read back.
pub fn serialize_config(c: &Config) -> (r: Vec<u8>)
    ensures
        r@ == json_text(enc_config(c.deep_view())),
{
    let j = encode_config(c);
    json_to_bytes(&j)
}

// ---------------------------------------------------------------------
// The decoder.
// ---------------------------------------------------------------------

/// A list with an element that is not a string node fails as a whole.
proof fn lemma_dec_strs_fail(s: Seq<JsonVal>, i: int)
    requires
        0 <= i < s.len(),
        dec_str(s[i]) is None,
    ensures
        dec_strs(s) is None,
    decreases s.len(),
{
    if i < s.len() - 1 {
        lemma_dec_strs_fail(s.drop_last(), i);
    }
}

/// A file list with an element that does not decode fails as a whole.
proof fn lemma_dec_files_fail(s: Seq<JsonVal>, i: int)
    requires
        0 <= i < s.len(),
        dec_file(s[i]) is None,
    ensures
        dec_files(s) is None,
    decreases s.len(),
{
    if i < s.len() - 1 {
        lemma_dec_files_fail(s.drop_last(), i);
    }
}

/// An environment with a value that is not a string node fails as a
/// whole.
proof fn lemma_dec_env_fail(es: Seq<(Seq<char>, JsonVal)>, i: int)
    requires
        0 <= i < es.len(),
        dec_str(es[i].1) is None,
    ensures
        dec_env(es) is None,
    decreases es.len(),
{
    if i < es.len() - 1 {
        lemma_dec_env_fail(es.drop_last(), i);
    }
}

/// A command mapping with a value that does not decode fails as a whole.
proof fn lemma_dec_cmds_fail(es: Seq<(Seq<char>, JsonVal)>, i: int)
    requires
        0 <= i < es.len(),
        dec_cmd(es[i].1) is None,
    ensures
        dec_cmds(es) is None,
    decreases es.len(),
{
    if i < es.len() - 1 {
        lemma_dec_cmds_fail(es.drop_last(), i);
    }
}

/// Decode a string node.
fn decode_string(j: &Json) -> (r: Result<String, String>)
    ensures
        r is Ok <==> dec_str(jview(*j)) is Some,
        r is Ok ==> Some(r->Ok_0@) == dec_str(jview(*j)),
{
    match j {
        Json::Str(s) => Ok(s.clone()),
        _ => Err("expected a JSON string".to_owned()),
    }
}

/// Decode a list of string nodes.
fn decode_strings(v: &Vec<Json>) -> (r: Result<Vec<String>, String>)
    ensures
        r is Ok <==> dec_strs(jview_arr(v@)) is Some,
        r is Ok ==> Some(r->Ok_0.deep_view()) == dec_strs(jview_arr(v@)),
{
    let ghost s = jview_arr(v@);
    proof {
        lemma_jview_arr_index(v@);
        assert(s.take(0) =~= Seq::<JsonVal>::empty());
    }
    let mut acc: Vec<String> = Vec::new();
    let mut i: usize = 0;
    while i < v.len()
        invariant
            i <= v@.len(),
            s == jview_arr(v@),
            s.len() == v@.len(),
            forall|k: int| 0 <= k < s.len() ==> s[k] == jview(v@[k]),
            acc@.len() == i,
            dec_strs(s.take(i as int)) == Some(acc.deep_view()),
        decreases v@.len() - i,
    {
        let ghost prev = acc.deep_view();
        match &v[i] {
            Json::Str(x) => {
                acc.push(x.clone());
            },
            _ => {
                proof {
                    lemma_dec_strs_fail(s, i as int);
                }
                return Err("expected a JSON string".to_owned());
            },
        }
        proof {
            assert(acc.deep_view() =~= prev.push(v@[i as int]->Str_0@));
            assert(s.take(i + 1).drop_last() =~= s.take(i as int));
            assert(s.take(i + 1).last() == s[i as int]);
        }
        i += 1;
    }
    proof {
        assert(s.take(v@.len() as int) =~= s);
    }
    Ok(acc)
}

/// Decode the file entries of a manifest.
fn decode_files(v: &Vec<Json>) -> (r: Result<Vec<File>, String>)
    ensures
        r is Ok <==> dec_files(jview_arr(v@)) is Some,
        r is Ok ==> Some(r->Ok_0.deep_view()) == dec_files(jview_arr(v@)),
{
    let ghost s = jview_arr(v@);
    proof {
        lemma_jview_arr_index(v@);
        assert(s.take(0) =~= Seq::<JsonVal>::empty());
    }
    let mut acc: Vec<File> = Vec::new();
    let mut i: usize = 0;
    while i < v.len()
        invariant
            i <= v@.len(),
            s == jview_arr(v@),
            s.len() == v@.len(),
            forall|k: int| 0 <= k < s.len() ==> s[k] == jview(v@[k]),
            acc@.len() == i,
            dec_files(s.take(i as int)) == Some(acc.deep_view()),
        decreases v@.len() - i,
    {
        let ghost prev = acc.deep_view();
        match decode_file(&v[i]) {
            Ok(f) => {
                acc.push(f);
            },
            Err(e) => {
                proof {
                    lemma_dec_files_fail(s, i as int);
                }
                return Err(e);
            },
        }
        proof {
            assert(acc.deep_view() =~= prev.push(dec_file(s[i as int])->Some_0));
            assert(s.take(i + 1).drop_last() =~= s.take(i as int));
            assert(s.take(i + 1).last() == s[i as int]);
        }
        i += 1;
    }
    proof {
        assert(s.take(v@.len() as int) =~= s);
    }
    Ok(acc)
}

/// Decode an environment object.
fn decode_env(entries: &Vec<(String, Json)>) -> (r: Result<Vec<(String, String)>, String>)
    ensures
        r is Ok <==> dec_env(jview_obj(entries@)) is Some,
        r is Ok ==> Some(r->Ok_0.deep_view()) == dec_env(jview_obj(entries@)),
{
    let ghost s = jview_obj(entries@);
    proof {
        lemma_jview_obj_index(entries@);
        assert(s.take(0) =~= Seq::<(Seq<char>, JsonVal)>::empty());
    }
    let mut acc: Vec<(String, String)> = Vec::new();
    let mut i: usize = 0;
    while i < entries.len()
        invariant
            i <= entries@.len(),
            s == jview_obj(entries@),
            s.len() == entries@.len(),
            forall|k: int|
                0 <= k < s.len() ==> s[k] == (entries@[k].0@, jview(entries@[k].1)),
            acc@.len() == i,
            dec_env(s.take(i as int)) == Some(acc.deep_view()),
        decreases entries@.len() - i,
    {
        let ghost prev = acc.deep_view();
        match &entries[i].1 {
            Json::Str(x) => {
                acc.push((entries[i].0.clone(), x.clone()));
            },
            _ => {
                proof {
                    lemma_dec_env_fail(s, i as int);
                }
                return Err("expected a JSON string as an environment value".to_owned());
            },
        }
        proof {
            assert(acc.deep_view() =~= prev.push(
                (entries@[i as int].0@, entries@[i as int].1->Str_0@),
            ));
            assert(s.take(i + 1).drop_last() =~= s.take(i as int));
            assert(s.take(i + 1).last() == s[i as int]);
        }
        i += 1;
    }
    proof {
        assert(s.take(entries@.len() as int) =~= s);
    }
    Ok(acc)
}

/// Decode a fingerprint object.
fn decode_fingerprint(j: &Json) -> (r: Result<Fingerprint, String>)
    ensures
        r is Ok <==> dec_fingerprint(jview(*j)) is Some,
        r is Ok ==> r->Ok_0.deep_view() == dec_fingerprint(jview(*j))->Some_0,
{
    let entries = match j {
        Json::Obj(entries) => entries,
        _ => {
            return Err("expected a JSON object for a fingerprint".to_owned());
        },
    };
    proof {
        lemma_obj_entries_view(entries);
    }
    let algorithm = match obj_get(entries, "algorithm") {
        Some(Json::Str(t)) => {
            if str_eq(t.as_str(), "sha256") {
                HashAlgorithm::Sha256
            } else {
                return Err("unknown hash algorithm".to_owned());
            }
        },
        Some(_) => {
            return Err("expected a JSON string as a hash algorithm".to_owned());
        },
        None => {
            return Err("a fingerprint requires an algorithm".to_owned());
        },
    };
    let hash = match obj_get(entries, "hash") {
        Some(h) => match decode_string(h) {
            Ok(h) => h,
            Err(e) => {
                return Err(e);
            },
        },
        None => {
            return Err("a fingerprint requires a hash".to_owned());
        },
    };
    Ok(Fingerprint { algorithm, hash })
}

/// Decode the locator among a file entry's object entries.
fn decode_locator(entries: &Vec<(String, Json)>) -> (r: Result<Locator, String>)
    ensures
        r is Ok <==> dec_locator(jview_obj(entries@)) is Some,
        r is Ok ==> Some(r->Ok_0.deep_view()) == dec_locator(jview_obj(entries@)),
{
    let ghost s = jview_obj(entries@);
    proof {
        lemma_jview_obj_index(entries@);
        assert(s.skip(0) =~= s);
    }
    let mut i: usize = 0;
    while i < entries.len()
        invariant
            i <= entries@.len(),
            s == jview_obj(entries@),
            s.len() == entries@.len(),
            forall|k: int|
                0 <= k < s.len() ==> s[k] == (entries@[k].0@, jview(entries@[k].1)),
            dec_locator(s) == dec_locator(s.skip(i as int)),
        decreases entries@.len() - i,
    {
        proof {
            assert(s.skip(i as int)[0] == s[i as int]);
        }
        if str_eq(entries[i].0.as_str(), "size") {
            match &entries[i].1 {
                Json::UInt(n) => {
                    return Ok(Locator::Size(*n));
                },
                _ => {
                    return Err("expected a JSON number as a size locator".to_owned());
                },
            }
        }
        if str_eq(entries[i].0.as_str(), "entry") {
            match &entries[i].1 {
                Json::Str(p) => {
                    return Ok(Locator::Entry(p.clone()));
                },
                _ => {
                    return Err("expected a JSON string as an entry locator".to_owned());
                },
            }
        }
        proof {
            assert(s.skip(i as int).drop_first() =~= s.skip(i + 1));
        }
        i += 1;
    }
    proof {
        assert(s.skip(i as int).len() == 0);
    }
    Err("a file entry requires a size or entry locator".to_owned())
}

/// Decode the `always_extract` field, absent meaning `false`.
fn decode_always_extract(entries: &Vec<(String, Json)>) -> (r: Result<bool, String>)
    ensures
        r is Ok <==> dec_always_extract(jview_obj(entries@)) is Some,
        r is Ok ==> Some(r->Ok_0) == dec_always_extract(jview_obj(entries@)),
{
    proof {
        lemma_obj_entries_view(entries);
    }
    match obj_get(entries, "always_extract") {
        None => Ok(false),
        Some(Json::Bool(b)) => Ok(*b),
        Some(_) => Err("expected a JSON boolean for always_extract".to_owned()),
    }
}

/// Decode a blob entry.
fn decode_blob(j: &Json) -> (r: Result<Blob, String>)
    ensures
        r is Ok <==> dec_blob(jview(*j)) is Some,
        r is Ok ==> r->Ok_0.deep_view() == dec_blob(jview(*j))->Some_0,
{
    let entries = match j {
        Json::Obj(entries) => entries,
        _ => {
            return Err("expected a JSON object for a blob entry".to_owned());
        },
    };
    proof {
        lemma_obj_entries_view(entries);
    }
    let locator = match decode_locator(entries) {
        Ok(l) => l,
        Err(e) => {
            return Err(e);
        },
    };
    let fingerprint = match obj_get(entries, "fingerprint") {
        Some(fj) => match decode_fingerprint(fj) {
            Ok(f) => f,
            Err(e) => {
                return Err(e);
            },
        },
        None => {
            return Err("a blob entry requires a fingerprint".to_owned());
        },
    };
    let name = match obj_get(entries, "name") {
        Some(nj) => match decode_string(nj) {
            Ok(n) => n,
            Err(e) => {
                return Err(e);
            },
        },
        None => {
            return Err("a blob entry requires a name".to_owned());
        },
    };
    let always_extract = match decode_always_extract(entries) {
        Ok(b) => b,
        Err(e) => {
            return Err(e);
        },
    };
    Ok(Blob { locator, fingerprint, name, always_extract })
}

/// Decode an archive entry's optional name.
fn decode_archive_name(entries: &Vec<(String, Json)>) -> (r: Result<Option<String>, String>)
    ensures
        r is Ok <==> dec_archive_name(jview_obj(entries@)) is Some,
        r is Ok ==> Some(r->Ok_0.deep_view()) == dec_archive_name(jview_obj(entries@)),
{
    proof {
        lemma_obj_entries_view(entries);
    }
    match obj_get(entries, "name") {
        None => Ok(None),
        Some(Json::Null) => Ok(None),
        Some(Json::Str(s)) => Ok(Some(s.clone())),
        Some(_) => Err("expected a JSON string as an archive name".to_owned()),
    }
}

/// Decode an archive entry.
fn decode_archive(j: &Json) -> (r: Result<Archive, String>)
    ensures
        r is Ok <==> dec_archive(jview(*j)) is Some,
        r is Ok ==> r->Ok_0.deep_view() == dec_archive(jview(*j))->Some_0,
{
    let entries = match j {
        Json::Obj(entries) => entries,
        _ => {
            return Err("expected a JSON object for an archive entry".to_owned());
        },
    };
    proof {
        lemma_obj_entries_view(entries);
    }
    let locator = match decode_locator(entries) {
        Ok(l) => l,
        Err(e) => {
            return Err(e);
        },
    };
    let fingerprint = match obj_get(entries, "fingerprint") {
        Some(fj) => match decode_fingerprint(fj) {
            Ok(f) => f,
            Err(e) => {
                return Err(e);
            },
        },
        None => {
            return Err("an archive entry requires a fingerprint".to_owned());
        },
    };
    let archive_type = match obj_get(entries, "archive_type") {
        Some(tj) => match decode_string(tj) {
            Ok(token) => match ArchiveType::from_ext(token.as_str()) {
                Ok(t) => t,
                Err(e) => {
                    return Err(e);
                },
            },
            Err(e) => {
                return Err(e);
            },
        },
        None => {
            return Err("an archive entry requires an archive_type".to_owned());
        },
    };
    let name = match decode_archive_name(entries) {
        Ok(n) => n,
        Err(e) => {
            return Err(e);
        },
    };
    let always_extract = match decode_always_extract(entries) {
        Ok(b) => b,
        Err(e) => {
            return Err(e);
        },
    };
    Ok(Archive { locator, fingerprint, archive_type, name, always_extract })
}

/// Decode a file entry under its tag.
fn decode_file(j: &Json) -> (r: Result<File, String>)
    ensures
        r is Ok <==> dec_file(jview(*j)) is Some,
        r is Ok ==> r->Ok_0.deep_view() == dec_file(jview(*j))->Some_0,
{
    let entries = match j {
        Json::Obj(entries) => entries,
        _ => {
            return Err("expected a JSON object for a file entry".to_owned());
        },
    };
    proof {
        lemma_obj_entries_view(entries);
    }
    let tag = match obj_get(entries, "type") {
        Some(tj) => match decode_string(tj) {
            Ok(t) => t,
            Err(e) => {
                return Err(e);
            },
        },
        None => {
            return Err("a file entry requires a type tag".to_owned());
        },
    };
    if str_eq(tag.as_str(), "archive") {
        match decode_archive(j) {
            Ok(a) => Ok(File::Archive(a)),
            Err(e) => Err(e),
        }
    } else if str_eq(tag.as_str(), "blob") {
        match decode_blob(j) {
            Ok(b) => Ok(File::Blob(b)),
            Err(e) => Err(e),
        }
    } else {
        Err("unknown file entry type, expected archive or blob".to_owned())
    }
}

/// Decode a command object.
fn decode_cmd(j: &Json) -> (r: Result<Cmd, String>)
    ensures
        r is Ok <==> dec_cmd(jview(*j)) is Some,
        r is Ok ==> r->Ok_0.deep_view() == dec_cmd(jview(*j))->Some_0,
{
    let entries = match j {
        Json::Obj(entries) => entries,
        _ => {
            return Err("expected a JSON object for a command".to_owned());
        },
    };
    proof {
        lemma_obj_entries_view(entries);
    }
    let exe = match obj_get(entries, "exe") {
        Some(ej) => match decode_string(ej) {
            Ok(x) => x,
            Err(e) => {
                return Err(e);
            },
        },
        None => {
            return Err("a command requires an exe".to_owned());
        },
    };
    let args = match obj_get(entries, "args") {
        None => Vec::new(),
        Some(Json::Arr(v)) => match decode_strings(v) {
            Ok(a) => a,
            Err(e) => {
                return Err(e);
            },
        },
        Some(_) => {
            return Err("expected a JSON array of strings as args".to_owned());
        },
    };
    let env = match obj_get(entries, "env") {
        None => Vec::new(),
        Some(Json::Obj(e)) => match decode_env(e) {
            Ok(m) => m,
            Err(e) => {
                return Err(e);
            },
        },
        Some(_) => {
            return Err("expected a JSON object of strings as env".to_owned());
        },
    };
    let additional_files = match obj_get(entries, "additional_files") {
        None => Vec::new(),
        Some(Json::Arr(v)) => match decode_strings(v) {
            Ok(a) => a,
            Err(e) => {
                return Err(e);
            },
        },
        Some(_) => {
            return Err("expected a JSON array of strings as additional_files".to_owned());
        },
    };
    proof {
        if args@.len() == 0 {
            assert(args.deep_view() =~= Seq::<Seq<char>>::empty());
        }
        if env@.len() == 0 {
            assert(env.deep_view() =~= Seq::<(Seq<char>, Seq<char>)>::empty());
        }
        if additional_files@.len() == 0 {
            assert(additional_files.deep_view() =~= Seq::<Seq<char>>::empty());
        }
    }
    Ok(Cmd { exe, args, env, additional_files })
}

/// Decode the named extra commands.
fn decode_cmds(entries: &Vec<(String, Json)>) -> (r: Result<Vec<(String, Cmd)>, String>)
    ensures
        r is Ok <==> dec_cmds(jview_obj(entries@)) is Some,
        r is Ok ==> Some(r->Ok_0.deep_view()) == dec_cmds(jview_obj(entries@)),
{
    let ghost s = jview_obj(entries@);
    proof {
        lemma_jview_obj_index(entries@);
        assert(s.take(0) =~= Seq::<(Seq<char>, JsonVal)>::empty());
    }
    let mut acc: Vec<(String, Cmd)> = Vec::new();
    let mut i: usize = 0;
    while i < entries.len()
        invariant
            i <= entries@.len(),
            s == jview_obj(entries@),
            s.len() == entries@.len(),
            forall|k: int|
                0 <= k < s.len() ==> s[k] == (entries@[k].0@, jview(entries@[k].1)),
            acc@.len() == i,
            dec_cmds(s.take(i as int)) == Some(acc.deep_view()),
        decreases entries@.len() - i,
    {
        let ghost prev = acc.deep_view();
        match decode_cmd(&entries[i].1) {
            Ok(c) => {
                acc.push((entries[i].0.clone(), c));
            },
            Err(e) => {
                proof {
                    lemma_dec_cmds_fail(s, i as int);
                }
                return Err(e);
            },
        }
        proof {
            assert(acc.deep_view() =~= prev.push(
                (entries@[i as int].0@, dec_cmd(s[i as int].1)->Some_0),
            ));
            assert(s.take(i + 1).drop_last() =~= s.take(i as int));
            assert(s.take(i + 1).last() == s[i as int]);
        }
        i += 1;
    }
    proof {
        assert(s.take(entries@.len() as int) =~= s);
    }
    Ok(acc)
}

/// Decode the scie header.
fn decode_scie(j: &Json) -> (r: Result<Scie, String>)
    ensures
        r is Ok <==> dec_scie(jview(*j)) is Some,
        r is Ok ==> r->Ok_0.deep_view() == dec_scie(jview(*j))->Some_0,
{
    let entries = match j {
        Json::Obj(entries) => entries,
        _ => {
            return Err("expected a JSON object for the scie header".to_owned());
        },
    };
    proof {
        lemma_obj_entries_view(entries);
    }
    let version = match obj_get(entries, "version") {
        Some(vj) => match decode_string(vj) {
            Ok(v) => v,
            Err(e) => {
                return Err(e);
            },
        },
        None => {
            return Err("the scie header requires a version".to_owned());
        },
    };
    let root = match obj_get(entries, "root") {
        Some(rj) => match decode_string(rj) {
            Ok(v) => v,
            Err(e) => {
                return Err(e);
            },
        },
        None => {
            return Err("the scie header requires a root".to_owned());
        },
    };
    Ok(Scie { version, root })
}

/// Decode a whole manifest document.
pub fn decode_config(j: &Json) -> (r: Result<Config, String>)
    ensures
        r is Ok <==> dec_config(jview(*j)) is Some,
        r is Ok ==> r->Ok_0.deep_view() == dec_config(jview(*j))->Some_0,
{
    let entries = match j {
        Json::Obj(entries) => entries,
        _ => {
            return Err("expected a JSON object as the manifest".to_owned());
        },
    };
    proof {
        lemma_obj_entries_view(entries);
    }
    let scie = match obj_get(entries, "scie") {
        Some(sj) => match decode_scie(sj) {
            Ok(s) => s,
            Err(e) => {
                return Err(e);
            },
        },
        None => {
            return Err("the manifest requires a scie header".to_owned());
        },
    };
    let files = match obj_get(entries, "files") {
        Some(Json::Arr(v)) => match decode_files(v) {
            Ok(fs) => fs,
            Err(e) => {
                return Err(e);
            },
        },
        Some(_) => {
            return Err("expected a JSON array as the manifest files".to_owned());
        },
        None => {
            return Err("the manifest requires its files".to_owned());
        },
    };
    let command = match obj_get(entries, "command") {
        Some(cj) => match decode_cmd(cj) {
            Ok(c) => c,
            Err(e) => {
                return Err(e);
            },
        },
        None => {
            return Err("the manifest requires a command".to_owned());
        },
    };
    let additional_commands = match obj_get(entries, "additional_commands") {
        None => Vec::new(),
        Some(Json::Obj(e)) => match decode_cmds(e) {
            Ok(cs) => cs,
            Err(e) => {
                return Err(e);
            },
        },
        Some(_) => {
            return Err("expected a JSON object as the additional commands".to_owned());
        },
    };
    proof {
        if additional_commands@.len() == 0 {
            assert(additional_commands.deep_view() =~= Seq::<(Seq<char>, CmdV)>::empty());
        }
    }
    Ok(Config { scie, files, command, additional_commands })
}

/// Deserialize a manifest from JSON bytes.
pub fn deserialize_config(data: &[u8]) -> (r: Result<Config, String>)
    ensures
        r is Ok <==> (json_parse(data@) is Some && dec_config(json_parse(data@)->Some_0) is Some),
        r is Ok ==> Some(r->Ok_0.deep_view()) == dec_config(json_parse(data@)->Some_0),
{
    let j = match json_from_bytes(data) {
        Ok(j) => j,
        Err(e) => {
            return Err(e);
        },
    };
    decode_config(&j)
}

/// A file entry that omits `always_extract` decodes with it `false`,
/// and a blob, like every entry, requires nothing else of the omission.
pub proof fn lemma_blob_default_always_extract(es: Seq<(Seq<char>, JsonVal)>)
    requires
        obj_lookup(es, "always_extract"@) is None,
        dec_blob(JsonVal::Obj(es)) is Some,
    ensures
        dec_blob(JsonVal::Obj(es))->Some_0.always_extract == false,
{
}

/// An archive entry that omits `name` decodes with no name, and one
/// that omits `always_extract` decodes with it `false`.
pub proof fn lemma_archive_defaults(es: Seq<(Seq<char>, JsonVal)>)
    requires
        dec_archive(JsonVal::Obj(es)) is Some,
    ensures
        obj_lookup(es, "name"@) is None ==> dec_archive(JsonVal::Obj(es))->Some_0.name is None,
        obj_lookup(es, "always_extract"@) is None ==> dec_archive(
            JsonVal::Obj(es),
        )->Some_0.always_extract == false,
{
}

/// A command that omits `args`, `env` or `additional_files` decodes
/// with the empty sequence or mapping in their place.
pub proof fn lemma_cmd_defaults(es: Seq<(Seq<char>, JsonVal)>)
    requires
        dec_cmd(JsonVal::Obj(es)) is Some,
    ensures
        obj_lookup(es, "args"@) is None ==> dec_cmd(JsonVal::Obj(es))->Some_0.args
            == Seq::<Seq<char>>::empty(),
        obj_lookup(es, "env"@) is None ==> dec_cmd(JsonVal::Obj(es))->Some_0.env == Seq::<
            (Seq<char>, Seq<char>),
        >::empty(),
        obj_lookup(es, "additional_files"@) is None ==> dec_cmd(
            JsonVal::Obj(es),
        )->Some_0.additional_files == Seq::<Seq<char>>::empty(),
{
}

/// A manifest that omits `additional_commands` decodes with none.
pub proof fn lemma_config_default_commands(es: Seq<(Seq<char>, JsonVal)>)
    requires
        dec_config(JsonVal::Obj(es)) is Some,
        obj_lookup(es, "additional_commands"@) is None,
    ensures
        dec_config(JsonVal::Obj(es))->Some_0.additional_commands == Seq::<
            (Seq<char>, CmdV),
        >::empty(),
{
}

} // verus!

//! Artifact scanning support: classifying a build output by its filename,
//! hashing its content, and building its public asset URI.
use vstd::prelude::*;
use vstd::string::*;
use crate::digest::{digest_hex, hex_chars, sha256_of};
use crate::text::{dec_chars, ends_with, str_ends_with, u64_to_string};
use crate::uri::{parse_uri_path, uri_path_of};

verus! {

/// How an artifact is classified, by its filename suffix.
#[derive(Clone, Copy, Debug, PartialEq, Eq, Structural)]
pub enum Kind {
    Unknown,
    BinaryManifest,
    JsonManifest,
    Log,
    Package,
}

/// A classified, hashed, publicly addressable build output.
#[derive(Debug)]
pub struct Collectable {
    pub kind: Kind,
    pub uri: String,
    pub sha256sum: String,
}

/// A file found directly inside the asset directory: its name and content.
pub struct FileEntry {
    pub name: String,
    pub content: Vec<u8>,
}

/// Classification is a pure function of the filename suffix; the first
/// matching suffix wins.
pub open spec fn kind_of(name: Seq<char>) -> Kind {
    if ends_with(name, ".bin"@) {
        Kind::BinaryManifest
    } else if ends_with(name, ".jsonc"@) {
        Kind::JsonManifest
    } else if ends_with(name, ".log.gz"@) {
        Kind::Log
    } else if ends_with(name, ".stone"@) {
        Kind::Package
    } else {
        Kind::Unknown
    }
}

pub fn classify(name: &str) -> (k: Kind)
    ensures
        k == kind_of(name@),
{
    if str_ends_with(name, ".bin") {
        Kind::BinaryManifest
    } else if str_ends_with(name, ".jsonc") {
        Kind::JsonManifest
    } else if str_ends_with(name, ".log.gz") {
        Kind::Log
    } else if str_ends_with(name, ".stone") {
        Kind::Package
    } else {
        Kind::Unknown
    }
}

/// The public URI under which an artifact is served: the worker's advertised
/// host address, the fixed asset prefix keyed by build id, and the filename.
pub open spec fn asset_uri_chars(host: Seq<char>, build_id: nat, name: Seq<char>) -> Seq<char> {
    host + "assets/"@ + dec_chars(build_id) + seq!['/'] + name
}

pub fn asset_uri_string(host: &str, build_id: u64, name: &str) -> (r: String)
    ensures
        r@ == asset_uri_chars(host@, build_id as nat, name@),
{
    proof {
        reveal_strlit("/");
    }
    let mut s = host.to_owned();
    s.append("assets/");
    let id = u64_to_string(build_id);
    s.append(id.as_str());
    s.append("/");
    s.append(name);
    proof {
        assert(s@ =~= asset_uri_chars(host@, build_id as nat, name@));
    }
    s
}

/// `c` is the collectable for the file `name` with content `content`:
/// classified by suffix, addressed by its asset URI, carrying the hex
/// SHA-256 digest of the content.
pub open spec fn collectable_ok(
    c: Collectable,
    host: Seq<char>,
    build_id: nat,
    name: Seq<char>,
    content: Seq<u8>,
) -> bool {
    &&& c.kind == kind_of(name)
    &&& c.uri@ == asset_uri_chars(host, build_id, name)
    &&& c.sha256sum@ == hex_chars(sha256_of(content))
}

/// The asset URI built for this entry parses as a URI.
pub open spec fn entry_uri_ok(host: Seq<char>, build_id: nat, name: Seq<char>) -> bool {
    uri_path_of(asset_uri_chars(host, build_id, name)) is Some
}

/// Classifies and hashes one asset-directory entry. Returns `None` exactly
/// when the built asset URI does not parse as a URI.
pub fn collect_one(host: &str, build_id: u64, name: &str, content: &[u8]) -> (r: Option<
    Collectable,
>)
    ensures
        r is Some <==> entry_uri_ok(host@, build_id as nat, name@),
        r is Some ==> collectable_ok(r->0, host@, build_id as nat, name@, content@),
{
    let uri = asset_uri_string(host, build_id, name);
    match parse_uri_path(uri.as_str()) {
        Some(_) => {
            let kind = classify(name);
            let sha256sum = digest_hex(content);
            Some(Collectable { kind, uri, sha256sum })
        },
        None => None,
    }
}

/// `cs` lists one collectable per scanned entry, in order.
pub open spec fn collected_ok(
    cs: Seq<Collectable>,
    host: Seq<char>,
    build_id: nat,
    entries: Seq<FileEntry>,
) -> bool {
    &&& cs.len() == entries.len()
    &&& forall|i: int|
        0 <= i < entries.len() ==> collectable_ok(
            #[trigger] cs[i],
            host,
            build_id,
            entries[i].name@,
            entries[i].content@,
        )
}

/// Every entry's asset URI parses.
pub open spec fn all_entry_uris_ok(host: Seq<char>, build_id: nat, entries: Seq<FileEntry>) -> bool {
    forall|i: int| 0 <= i < entries.len() ==> entry_uri_ok(host, build_id, #[trigger] entries[i].name@)
}

/// Classifies and hashes every scanned entry. Succeeds exactly when every
/// entry's asset URI parses; the scan aborts on the first that does not.
pub fn collect_all(host: &str, build_id: u64, entries: &Vec<FileEntry>) -> (r: Option<
    Vec<Collectable>,
>)
    ensures
        r is Some <==> all_entry_uris_ok(host@, build_id as nat, entries@),
        r is Some ==> collected_ok(r->0@, host@, build_id as nat, entries@),
{
    let mut cs: Vec<Collectable> = Vec::new();
    let mut i: usize = 0;
    while i < entries.len()
        invariant
            i <= entries@.len(),
            cs@.len() == i,
            forall|j: int|
                0 <= j < i ==> collectable_ok(
                    #[trigger] cs@[j],
                    host@,
                    build_id as nat,
                    entries@[j].name@,
                    entries@[j].content@,
                ),
            forall|j: int|
                0 <= j < i ==> entry_uri_ok(host@, build_id as nat, #[trigger] entries@[j].name@),
        decreases entries@.len() - i,
    {
        let entry = &entries[i];
        match collect_one(host, build_id, entry.name.as_str(), entry.content.as_slice()) {
            Some(c) => {
                cs.push(c);
            },
            None => {
                return None;
            },
        }
        i += 1;
    }
    Some(cs)
}

} // verus!

use vstd::prelude::*;

use crate::errors::Failure;
use crate::json::{json_doc_of, parse_json, JsonValue};
use vstd::string::StrSliceExecFns;
use vstd::string::StringExecFns;

verus! {

/// A resolved cover image: the bare content location the gateway takes, and
/// the display name the output file is to carry.
#[derive(Clone, Debug, PartialEq, Eq)]
pub struct CoverInfo {
    pub location: String,
    pub name: String,
}

/// The scheme prefix every cover source must carry.
pub open spec fn spec_ipfs_prefix() -> Seq<char> {
    "ipfs://"@
}

/// The text starts with the required scheme prefix.
pub open spec fn has_ipfs_prefix(s: Seq<char>) -> bool {
    s.len() >= spec_ipfs_prefix().len() && s.subrange(0, spec_ipfs_prefix().len() as int)
        == spec_ipfs_prefix()
}

/// The raw cover source of a metadata answer: the string under `src` of the
/// first element of the `files` array of its `onchain_metadata` object, or
/// nothing where the text does not have that shape.
pub open spec fn cover_src_of(text: Seq<char>) -> Option<Seq<char>> {
    match json_doc_of(text) {
        Some(doc) => match doc.spec_member("onchain_metadata"@) {
            Some(meta) => match meta.spec_member("files"@) {
                Some(files) => match files.spec_element(0) {
                    Some(first) => match first.spec_member("src"@) {
                        Some(v) => v.spec_text(),
                        None => None,
                    },
                    None => None,
                },
                None => None,
            },
            None => None,
        },
        None => None,
    }
}

/// The display name of a metadata answer: the string under `name` of its
/// `onchain_metadata` object, or the empty string where that is absent or not
/// a string — the degenerate case the pipeline accepts.
pub open spec fn cover_name_of(text: Seq<char>) -> Seq<char> {
    match json_doc_of(text) {
        Some(doc) => match doc.spec_member("onchain_metadata"@) {
            Some(meta) => match meta.spec_member("name"@) {
                Some(v) => match v.spec_text() {
                    Some(s) => s,
                    None => Seq::empty(),
                },
                None => Seq::empty(),
            },
            None => Seq::empty(),
        },
        None => Seq::empty(),
    }
}

/// Takes the required scheme prefix off a cover source: the characters past
/// the prefix where it stands, nothing where it does not.
pub fn strip_ipfs_prefix(s: &str) -> (r: Option<String>)
    ensures
        match r {
            Some(t) => has_ipfs_prefix(s@) && t@ == s@.skip(spec_ipfs_prefix().len() as int),
            None => !has_ipfs_prefix(s@),
        },
{
    let prefix = "ipfs://";
    proof {
        reveal_strlit("ipfs://");
    }
    let n = s.unicode_len();
    if n < 7 {
        return None;
    }
    let mut i: usize = 0;
    while i < 7
        invariant
            0 <= i <= 7,
            n == s@.len(),
            n >= 7,
            prefix@ == spec_ipfs_prefix(),
            prefix@.len() == 7,
            forall|j: int| 0 <= j < i ==> s@[j] == spec_ipfs_prefix()[j],
        decreases 7 - i,
    {
        if s.get_char(i) != prefix.get_char(i) {
            proof {
                assert(!has_ipfs_prefix(s@)) by {
                    if has_ipfs_prefix(s@) {
                        assert(s@.subrange(0, 7)[i as int] == s@[i as int]);
                    }
                }
            }
            return None;
        }
        i += 1;
    }
    proof {
        assert(s@.subrange(0, 7) =~= spec_ipfs_prefix());
    }
    let rest = s.substring_char(7, n);
    proof {
        assert(rest@ =~= s@.skip(7));
    }
    Some(rest.to_owned())
}

/// Resolves one asset's metadata answer to its cover: the first file's source
/// with the scheme prefix taken off, and the display name. A document without
/// that shape is malformed; one whose source lacks the prefix carries an
/// invalid content location; exactly one of the three outcomes holds.
pub fn resolve_cover(body: &str) -> (r: Result<CoverInfo, Failure>)
    ensures
        match r {
            Ok(c) => cover_src_of(body@) matches Some(src) && has_ipfs_prefix(src) && c.location@
                == src.skip(spec_ipfs_prefix().len() as int) && c.name@ == cover_name_of(body@),
            Err(f) => match f {
                Failure::MetadataMalformed => cover_src_of(body@) is None,
                Failure::InvalidContentUri => cover_src_of(body@) matches Some(src)
                    && !has_ipfs_prefix(src),
                _ => false,
            },
        },
{
    let doc = match parse_json(body) {
        Some(d) => d,
        None => {
            return Err(Failure::MetadataMalformed);
        },
    };
    let meta = match doc.member("onchain_metadata") {
        Some(v) => v,
        None => {
            return Err(Failure::MetadataMalformed);
        },
    };
    let files = match meta.member("files") {
        Some(v) => v,
        None => {
            return Err(Failure::MetadataMalformed);
        },
    };
    let first = match files.element(0) {
        Some(v) => v,
        None => {
            return Err(Failure::MetadataMalformed);
        },
    };
    let src = match first.member("src") {
        Some(v) => match v.text() {
            Some(s) => s,
            None => {
                return Err(Failure::MetadataMalformed);
            },
        },
        None => {
            return Err(Failure::MetadataMalformed);
        },
    };
    let location = match strip_ipfs_prefix(src.as_str()) {
        Some(t) => t,
        None => {
            return Err(Failure::InvalidContentUri);
        },
    };
    let name: String = match meta.member("name") {
        Some(v) => match v.text() {
            Some(s) => s.clone(),
            None => String::new(),
        },
        None => String::new(),
    };
    Ok(CoverInfo { location, name })
}

/// The extension every downloaded cover file carries.
pub open spec fn spec_png_suffix() -> Seq<char> {
    ".png"@
}

/// The output file name for a display name: the name with the image
/// extension appended.
pub fn cover_file_name(name: &str) -> (r: String)
    ensures
        r@ == name@ + spec_png_suffix(),
{
    let mut out: String = name.to_owned();
    out.append(".png");
    out
}

} // verus!

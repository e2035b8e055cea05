//! Initialization scripts and the hashes by which a content security policy admits them.
use base64::Engine;
use sha2::Digest;
use vstd::prelude::*;
use vstd::utf8::*;

verus! {

/// A script that runs when a page loads.
#[derive(Debug, Clone, PartialEq, Eq)]
pub struct InitializationScript {
    pub script: String,
    /// Whether the script is left out of the frames inside a page.
    pub for_main_frame_only: bool,
}

/// An initialization script with its hash source.
#[derive(Debug, Clone, PartialEq, Eq)]
pub struct CefInitScript {
    pub script: InitializationScript,
    pub hash: String,
}

/// The bytes with every line ending written as one line feed: a carriage return with a line
/// feed behind it, and a carriage return alone, each become a line feed.
pub open spec fn normalized_newlines(bytes: Seq<u8>) -> Seq<u8>
    decreases bytes.len(),
{
    if bytes.len() == 0 {
        Seq::empty()
    } else if bytes[0] != 13 {
        seq![bytes[0]] + normalized_newlines(bytes.skip(1))
    } else if bytes.len() > 1 && bytes[1] == 10 {
        seq![10u8] + normalized_newlines(bytes.skip(2))
    } else {
        seq![10u8] + normalized_newlines(bytes.skip(1))
    }
}

/// The SHA-256 digest of a sequence of bytes.
pub uninterp spec fn sha256(bytes: Seq<u8>) -> Seq<u8>;

/// The bytes in base64, with the standard alphabet and padding.
pub uninterp spec fn standard_base64(bytes: Seq<u8>) -> Seq<char>;

/// `tauri_utils::html::normalize_script_for_csp`: writes every line ending as a line feed and
/// leaves every other byte as it is.
#[verifier::external_body]
fn normalize_script(script: &[u8]) -> (normalized: Vec<u8>)
    ensures
        normalized@ == normalized_newlines(script@),
{
    tauri_utils::html::normalize_script_for_csp(script)
}

/// `sha2::Sha256::digest`: the 32 bytes of the digest. They are named, not stated.
#[verifier::external_body]
fn sha256_digest(bytes: &Vec<u8>) -> (digest: Vec<u8>)
    ensures
        digest@ == sha256(bytes@),
        digest@.len() == 32,
{
    sha2::Sha256::digest(bytes).to_vec()
}

/// `base64::engine::general_purpose::STANDARD.encode`: the encoded text. It is named, not
/// stated. The text is a third longer than the bytes and must fit in memory.
#[verifier::external_body]
fn base64_encode(bytes: &Vec<u8>) -> (encoded: String)
    requires
        bytes@.len() <= 0x4000_0000,
    ensures
        encoded@ == standard_base64(bytes@),
{
    base64::engine::general_purpose::STANDARD.encode(bytes)
}

/// The hash source of a digest in base64.
pub open spec fn hash_source(encoded: Seq<char>) -> Seq<char> {
    "'sha256-"@ + encoded + "'"@
}

/// The hash source of a script: of its digest after its line endings were made line feeds.
pub open spec fn script_hash(script: Seq<char>) -> Seq<char> {
    hash_source(standard_base64(sha256(normalized_newlines(encode_utf8(script)))))
}

/// Writes a digest in base64 as a hash source.
pub fn quote_hash(encoded: &str) -> (source: String)
    ensures
        source@ == hash_source(encoded@),
{
    let mut source = "'sha256-".to_owned();
    source.append(encoded);
    source.append("'");
    source
}

impl InitializationScript {
    /// A copy of the script.
    pub fn duplicate(&self) -> (copy: Self)
        ensures
            copy == *self,
    {
        InitializationScript {
            script: self.script.clone(),
            for_main_frame_only: self.for_main_frame_only,
        }
    }
}

impl CefInitScript {
    /// Whether the hash is the one of the script.
    pub open spec fn wf(self) -> bool {
        self.hash@ == script_hash(self.script.script@)
    }

    /// The script with its hash.
    pub fn new(script: InitializationScript) -> (init: Self)
        ensures
            init.script == script,
            init.wf(),
    {
        let hash = Self::hash_script(script.script.as_str());
        CefInitScript { script, hash }
    }

    fn hash_script(script: &str) -> (hash: String)
        ensures
            hash@ == script_hash(script@),
    {
        let normalized = normalize_script(script.as_bytes());
        let digest = sha256_digest(&normalized);
        quote_hash(base64_encode(&digest).as_str())
    }

    /// A copy of the script and its hash.
    pub fn duplicate(&self) -> (copy: Self)
        ensures
            copy == *self,
    {
        CefInitScript { script: self.script.duplicate(), hash: self.hash.clone() }
    }
}

/// A copy of the scripts.
pub fn duplicate_scripts(scripts: &Vec<CefInitScript>) -> (copies: Vec<CefInitScript>)
    ensures
        copies@ == scripts@,
{
    let mut copies: Vec<CefInitScript> = Vec::new();
    let mut index: usize = 0;
    while index < scripts.len()
        invariant
            index <= scripts.len(),
            copies@ == scripts@.take(index as int),
        decreases scripts.len() - index,
    {
        copies.push(scripts[index].duplicate());
        index = index + 1;
        assert(copies@ =~= scripts@.take(index as int));
    }
    assert(scripts@.take(index as int) =~= scripts@);
    copies
}

/// Whether these are the scripts with their hashes, in order.
pub open spec fn are_init_scripts(
    inits: Seq<CefInitScript>,
    scripts: Seq<InitializationScript>,
) -> bool {
    &&& inits.len() == scripts.len()
    &&& forall|index: int|
        0 <= index < inits.len() ==> (#[trigger] inits[index]).script == scripts[index]
            && inits[index].wf()
}

/// The scripts with their hashes, in order.
pub fn init_scripts(scripts: &Vec<InitializationScript>) -> (inits: Vec<CefInitScript>)
    ensures
        are_init_scripts(inits@, scripts@),
{
    let mut inits: Vec<CefInitScript> = Vec::new();
    let mut index: usize = 0;
    while index < scripts.len()
        invariant
            index <= scripts.len(),
            inits@.len() == index,
            forall|before: int|
                0 <= before < index ==> (#[trigger] inits@[before]).script == scripts@[before]
                    && inits@[before].wf(),
        decreases scripts.len() - index,
    {
        inits.push(CefInitScript::new(scripts[index].duplicate()));
        index = index + 1;
    }
    inits
}

/// No carriage return is left once the line endings were made line feeds.
pub proof fn normalized_has_no_returns(bytes: Seq<u8>, index: int)
    requires
        0 <= index < normalized_newlines(bytes).len(),
    ensures
        normalized_newlines(bytes)[index] != 13,
    decreases bytes.len(),
{
    if bytes[0] == 13 && bytes.len() > 1 && bytes[1] == 10 {
        if index > 0 {
            normalized_has_no_returns(bytes.skip(2), index - 1);
        }
    } else if index > 0 {
        normalized_has_no_returns(bytes.skip(1), index - 1);
    }
}

/// Bytes without a carriage return stay as they are.
pub proof fn normal_bytes_stay(bytes: Seq<u8>)
    requires
        forall|index: int| 0 <= index < bytes.len() ==> bytes[index] != 13,
    ensures
        normalized_newlines(bytes) == bytes,
    decreases bytes.len(),
{
    if bytes.len() > 0 {
        let rest = bytes.skip(1);
        assert forall|index: int| 0 <= index < rest.len() implies rest[index] != 13 by {
            assert(rest[index] == bytes[index + 1]);
        }
        normal_bytes_stay(rest);
        assert(seq![bytes[0]] + rest =~= bytes);
    } else {
        assert(normalized_newlines(bytes) =~= bytes);
    }
}

/// Making line endings line feeds once is enough: doing it again changes nothing.
pub proof fn normalizing_twice_is_once(bytes: Seq<u8>)
    ensures
        normalized_newlines(normalized_newlines(bytes)) == normalized_newlines(bytes),
{
    let once = normalized_newlines(bytes);
    assert forall|index: int| 0 <= index < once.len() implies once[index] != 13 by {
        normalized_has_no_returns(bytes, index);
    }
    normal_bytes_stay(once);
}

} // verus!

//! Transient artifact naming. Every request gets a uniquely identified file
//! `{dir}/{id}{ext}` in the shared temporary directory, holding the submitted
//! code for the interpreter to run; the identifier comes from a freshly
//! generated version-4 UUID.

use vstd::prelude::*;
use vstd::string::StringExecFns;
use crate::lang::{Lang, spec_extension};

verus! {

/// The shared directory that holds artifact files.
pub const TEMP_DIR: &'static str = "/tmp";

/// The artifact path for a directory, an identifier and a language:
/// `{dir}/{id}{ext}`, where the extension (dot included) is the language's.
pub open spec fn spec_artifact_path(dir: Seq<char>, id: Seq<char>, lang: Lang) -> Seq<char> {
    dir + "/"@ + id + spec_extension(lang)
}

/// Relies on `uuid::Uuid::new_v4` and its `Display` impl: a fresh random
/// version-4 UUID rendered in the lower-case hyphenated form, which is always
/// 36 characters. The value is random, so nothing else is stated of it.
#[verifier::external_body]
fn uuid_v4_hyphenated() -> (r: String)
    ensures
        r@.len() == 36,
{
    uuid::Uuid::new_v4().to_string()
}

/// A fresh identifier for one request's artifact: a hyphenated version-4
/// UUID, 36 characters long.
pub fn fresh_artifact_id() -> (r: String)
    ensures
        r@.len() == 36,
{
    uuid_v4_hyphenated()
}

/// Build the artifact path for one request.
pub fn artifact_path(dir: &str, id: &str, lang: Lang) -> (r: String)
    ensures
        r@ == spec_artifact_path(dir@, id@, lang),
{
    let mut p: String = dir.to_owned();
    p.append("/");
    p.append(id);
    p.append(lang.extension());
    p
}

} // verus!

use vstd::prelude::*;

use crate::library_entry::cmp_chars_vec;
use crate::order::Cmp;
use crate::order::lemma_lex_eq;
use crate::text_util::str_chars;

verus! {

/// The file extensions the scanner recognizes as audio.
pub open spec fn spec_is_audio_extension(s: Seq<char>) -> bool {
    ||| s == "aac"@
    ||| s == "ape"@
    ||| s == "aiff"@
    ||| s == "aif"@
    ||| s == "afc"@
    ||| s == "aifc"@
    ||| s == "mp3"@
    ||| s == "mp2"@
    ||| s == "mp1"@
    ||| s == "wav"@
    ||| s == "wave"@
    ||| s == "wv"@
    ||| s == "opus"@
    ||| s == "flac"@
    ||| s == "ogg"@
    ||| s == "mp4"@
    ||| s == "m4a"@
    ||| s == "m4b"@
    ||| s == "m4p"@
    ||| s == "m4r"@
    ||| s == "m4v"@
    ||| s == "3gp"@
    ||| s == "mpc"@
    ||| s == "mp+"@
    ||| s == "mpp"@
    ||| s == "spx"@
}

fn chars_eq_lit(v: &Vec<char>, lit: &str) -> (r: bool)
    ensures
        r == (v@ == lit@),
{
    let w = str_chars(lit);
    proof {
        lemma_lex_eq(v@, w@);
    }
    matches!(cmp_chars_vec(v, &w), Cmp::Equal)
}

/// Whether a file extension names an audio format the scanner takes.
pub fn is_audio_extension(ext: &str) -> (r: bool)
    ensures
        r == spec_is_audio_extension(ext@),
{
    let v = str_chars(ext);
    chars_eq_lit(&v, "aac") || chars_eq_lit(&v, "ape") || chars_eq_lit(&v, "aiff") || chars_eq_lit(
        &v,
        "aif",
    ) || chars_eq_lit(&v, "afc") || chars_eq_lit(&v, "aifc") || chars_eq_lit(&v, "mp3")
        || chars_eq_lit(&v, "mp2") || chars_eq_lit(&v, "mp1") || chars_eq_lit(&v, "wav")
        || chars_eq_lit(&v, "wave") || chars_eq_lit(&v, "wv") || chars_eq_lit(&v, "opus")
        || chars_eq_lit(&v, "flac") || chars_eq_lit(&v, "ogg") || chars_eq_lit(&v, "mp4")
        || chars_eq_lit(&v, "m4a") || chars_eq_lit(&v, "m4b") || chars_eq_lit(&v, "m4p")
        || chars_eq_lit(&v, "m4r") || chars_eq_lit(&v, "m4v") || chars_eq_lit(&v, "3gp")
        || chars_eq_lit(&v, "mpc") || chars_eq_lit(&v, "mp+") || chars_eq_lit(&v, "mpp")
        || chars_eq_lit(&v, "spx")
}

/// Whether a directory is skipped by the scan: hidden names start with a
/// dot.
pub fn is_hidden_dir_name(name: &str) -> (r: bool)
    ensures
        r == (name@.len() > 0 && name@[0] == '.'),
{
    let v = str_chars(name);
    v.len() > 0 && v[0] == '.'
}

} // verus!

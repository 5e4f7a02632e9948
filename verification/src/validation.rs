//! What plugin ids, versions, user names, tags and script names must look like.

use crate::text::{
    alphanumeric, contains, ends_with, is_alphanumeric, is_suffix, lowercase_text, occurs_in,
    str_eq, to_lowercase,
};
use vstd::prelude::*;
use vstd::utf8::encode_utf8;

verus! {

/// Lower-case letters, digits, underscores and hyphens, at least one.
pub const PLUGIN_ID_PATTERN: &'static str = "^[a-z0-9_-]+$";

/// Three numbers with dots between, and after a hyphen, if any, letters and digits.
pub const VERSION_PATTERN: &'static str = "^\\d+\\.\\d+\\.\\d+(-[a-zA-Z0-9]+)?$";

/// Letters, digits, underscores and hyphens, at least one.
pub const USERNAME_PATTERN: &'static str = "^[a-zA-Z0-9_-]+$";

/// Whether the regular expression `pattern` matches somewhere in `text`,
/// as the `regex` crate has it; nothing where it does not accept `pattern`.
pub uninterp spec fn regex_match(pattern: Seq<char>, text: Seq<char>) -> Option<bool>;

/// Whether the regular expression `pattern` matches somewhere in `text`.
///
/// Trusted: `regex::Regex::new` and `Regex::is_match`.
#[verifier::external_body]
pub(crate) fn regex_is_match(pattern: &str, text: &str) -> (matched: Option<bool>)
    ensures
        matched == regex_match(pattern@, text@),
{
    match regex::Regex::new(pattern) {
        Ok(expression) => Some(expression.is_match(text)),
        Err(_) => None,
    }
}

/// Whether `text` matches `pattern` for certain.
pub open spec fn matches(pattern: Seq<char>, text: Seq<char>) -> bool {
    regex_match(pattern, text) == Some(true)
}

fn is_match(pattern: &str, text: &str) -> (matched: bool)
    ensures
        matched == matches(pattern@, text@),
{
    match regex_is_match(pattern, text) {
        Some(matched) => matched,
        None => false,
    }
}

/// Whether `id` is made of lower-case letters, digits, underscores and hyphens.
pub fn validate_plugin_id_regex(id: &str) -> (valid: bool)
    ensures
        valid == matches(PLUGIN_ID_PATTERN@, id@),
{
    is_match(PLUGIN_ID_PATTERN, id)
}

/// Whether `version` reads like `1.0.0` or `1.0.0-beta`.
pub fn validate_version_regex(version: &str) -> (valid: bool)
    ensures
        valid == matches(VERSION_PATTERN@, version@),
{
    is_match(VERSION_PATTERN, version)
}

/// Whether `username` is made of letters, digits, underscores and hyphens.
pub fn validate_username_regex(username: &str) -> (valid: bool)
    ensures
        valid == matches(USERNAME_PATTERN@, username@),
{
    is_match(USERNAME_PATTERN, username)
}

/// How many bytes `text` takes up as a string.
pub open spec fn byte_length(text: Seq<char>) -> usize {
    encode_utf8(text).len() as usize
}

/// What is wrong with a plugin id of `length` bytes that does or does not
/// match the pattern of plugin ids: a length outside 3 to 50 first, then
/// the mismatch.
pub open spec fn plugin_id_fault(length: int, matched: bool) -> Option<Seq<char>> {
    if length < 3 || length > 50 {
        Some("Plugin ID must be between 3 and 50 characters"@)
    } else if !matched {
        Some(
            "Plugin ID can only contain lowercase letters, numbers, underscores, and hyphens"@,
        )
    } else {
        None
    }
}

/// The verdict on a plugin id of `length` bytes that does or does not
/// match the pattern of plugin ids.
pub fn plugin_id_verdict(length: usize, matched: bool) -> (verdict: Result<(), String>)
    ensures
        verdict is Ok <==> plugin_id_fault(length as int, matched) is None,
        verdict matches Err(e) ==> Some(e@) == plugin_id_fault(length as int, matched),
{
    if length < 3 || length > 50 {
        Err("Plugin ID must be between 3 and 50 characters".to_string())
    } else if !matched {
        Err(
            "Plugin ID can only contain lowercase letters, numbers, underscores, and hyphens".to_string(),
        )
    } else {
        Ok(())
    }
}

/// Checks the length and the characters of a plugin id.
pub fn validate_plugin_id(id: &str) -> (verdict: Result<(), String>)
    ensures
        verdict is Ok <==> plugin_id_fault(
            byte_length(id@) as int,
            matches(PLUGIN_ID_PATTERN@, id@),
        ) is None,
        verdict matches Err(e) ==> Some(e@) == plugin_id_fault(
            byte_length(id@) as int,
            matches(PLUGIN_ID_PATTERN@, id@),
        ),
{
    plugin_id_verdict(id.len(), validate_plugin_id_regex(id))
}

/// The verdict on a version that does or does not match the pattern of versions.
pub fn version_verdict(matched: bool) -> (verdict: Result<(), String>)
    ensures
        verdict is Ok <==> matched,
        verdict matches Err(e) ==> e@
            == "Version must follow semantic versioning (e.g., 1.0.0 or 1.0.0-beta)"@,
{
    if matched {
        Ok(())
    } else {
        Err("Version must follow semantic versioning (e.g., 1.0.0 or 1.0.0-beta)".to_string())
    }
}

/// Checks that a version reads like `1.0.0` or `1.0.0-beta`.
pub fn validate_version(version: &str) -> (verdict: Result<(), String>)
    ensures
        verdict is Ok <==> matches(VERSION_PATTERN@, version@),
        verdict matches Err(e) ==> e@
            == "Version must follow semantic versioning (e.g., 1.0.0 or 1.0.0-beta)"@,
{
    version_verdict(validate_version_regex(version))
}

/// Whether the tag at `k` reads, in lower case, like a tag before it.
pub open spec fn repeats_earlier(tags: Seq<String>, k: int) -> bool {
    exists|j: int| 0 <= j < k && lowercase_text(#[trigger] tags[j]@) == lowercase_text(tags[k]@)
}

/// What is wrong with the tag at `k`, if anything: more than 50 bytes
/// first, then a repetition of an earlier tag.
pub open spec fn tag_fault(tags: Seq<String>, k: int) -> Option<Seq<char>> {
    if byte_length(tags[k]@) > 50 {
        Some("Tag length cannot exceed 50 characters"@)
    } else if repeats_earlier(tags, k) {
        Some("Duplicate tag: "@ + tags[k]@)
    } else {
        None
    }
}

/// What is wrong with the first faulty tag from `from` on, if any is faulty.
pub open spec fn first_tag_fault(tags: Seq<String>, from: int) -> Option<Seq<char>>
    decreases tags.len() - from,
{
    if from >= tags.len() {
        None
    } else {
        match tag_fault(tags, from) {
            Some(fault) => Some(fault),
            None => first_tag_fault(tags, from + 1),
        }
    }
}

/// What is wrong with a list of tags, if anything: no tag at all, more
/// than ten tags, or the first faulty tag.
pub open spec fn tags_fault(tags: Seq<String>) -> Option<Seq<char>> {
    if tags.len() == 0 {
        Some("At least one tag is required"@)
    } else if tags.len() > 10 {
        Some("Maximum 10 tags allowed"@)
    } else {
        first_tag_fault(tags, 0)
    }
}

/// Checks a plugin's tags: one to ten of them, none longer than 50
/// bytes, no two alike but for upper and lower case.
pub fn validate_tags(tags: &[String]) -> (verdict: Result<(), String>)
    ensures
        verdict is Ok <==> tags_fault(tags@) is None,
        verdict matches Err(e) ==> Some(e@) == tags_fault(tags@),
{
    if tags.len() == 0 {
        return Err("At least one tag is required".to_string());
    }
    if tags.len() > 10 {
        return Err("Maximum 10 tags allowed".to_string());
    }
    let mut seen: Vec<String> = Vec::new();
    let mut k: usize = 0;
    while k < tags.len()
        invariant
            0 < tags@.len() <= 10,
            k <= tags@.len(),
            seen@.len() == k,
            forall|j: int| 0 <= j < k ==> (#[trigger] seen@[j])@ == lowercase_text(tags@[j]@),
            first_tag_fault(tags@, 0) == first_tag_fault(tags@, k as int),
        decreases tags@.len() - k,
    {
        let tag = &tags[k];
        if tag.as_str().len() > 50 {
            return Err("Tag length cannot exceed 50 characters".to_string());
        }
        let lower = to_lowercase(tag.as_str());
        let mut j: usize = 0;
        while j < k
            invariant
                0 < tags@.len() <= 10,
                first_tag_fault(tags@, 0) == first_tag_fault(tags@, k as int),
                byte_length(tags@[k as int]@) <= 50,
                tag == tags@[k as int],
                j <= k,
                k < tags@.len(),
                seen@.len() == k,
                lower@ == lowercase_text(tags@[k as int]@),
                forall|i: int| 0 <= i < k ==> (#[trigger] seen@[i])@ == lowercase_text(tags@[i]@),
                forall|i: int|
                    0 <= i < j ==> lowercase_text(#[trigger] tags@[i]@) != lowercase_text(
                        tags@[k as int]@,
                    ),
            decreases k - j,
        {
            if str_eq(seen[j].as_str(), lower.as_str()) {
                assert(repeats_earlier(tags@, k as int));
                return Err("Duplicate tag: ".to_string().concat(tag.as_str()));
            }
            j = j + 1;
        }
        assert(!repeats_earlier(tags@, k as int));
        seen.push(lower);
        k = k + 1;
    }
    Ok(())
}

/// Whether `filename` ends like a script.
pub open spec fn has_script_extension(filename: Seq<char>) -> bool {
    is_suffix(filename, ".sh"@) || is_suffix(filename, ".py"@) || is_suffix(filename, ".js"@)
        || is_suffix(filename, ".rb"@) || is_suffix(filename, ".pl"@) || is_suffix(
        filename,
        ".php"@,
    )
}

/// Whether `filename` holds something that could lead out of its directory.
pub open spec fn has_dangerous_part(filename: Seq<char>) -> bool {
    occurs_in(filename, "../"@) || occurs_in(filename, "./"@) || occurs_in(filename, "~"@)
        || occurs_in(filename, "\\"@)
}

/// What is wrong with a script's file name, if anything: that it is
/// empty, then that it does not end like a script, then that it holds
/// something dangerous.
pub open spec fn script_file_fault(filename: Seq<char>) -> Option<Seq<char>> {
    if filename.len() == 0 {
        Some("Script filename cannot be empty"@)
    } else if !has_script_extension(filename) {
        Some("Script file must have one of these extensions: .sh, .py, .js, .rb, .pl, .php"@)
    } else if has_dangerous_part(filename) {
        Some("Script filename contains invalid characters"@)
    } else {
        None
    }
}

/// Checks the file name of a script: that it ends like a script and
/// cannot lead out of its directory.
pub fn validate_script_file(filename: &str) -> (verdict: Result<(), String>)
    ensures
        verdict is Ok <==> script_file_fault(filename@) is None,
        verdict matches Err(e) ==> Some(e@) == script_file_fault(filename@),
{
    if filename.is_empty() {
        return Err("Script filename cannot be empty".to_string());
    }
    let has_valid_extension = ends_with(filename, ".sh") || ends_with(filename, ".py") || ends_with(
        filename,
        ".js",
    ) || ends_with(filename, ".rb") || ends_with(filename, ".pl") || ends_with(filename, ".php");
    if !has_valid_extension {
        return Err(
            "Script file must have one of these extensions: .sh, .py, .js, .rb, .pl, .php".to_string(),
        );
    }
    if contains(filename, "../") || contains(filename, "./") || contains(filename, "~") || contains(
        filename,
        "\\",
    ) {
        return Err("Script filename contains invalid characters".to_string());
    }
    Ok(())
}

/// Whether a character may stay in a file name: letters and numbers, and
/// of the rest the dot, the hyphen and the underscore.
pub open spec fn keeps(c: char) -> bool {
    alphanumeric(c) || c == '.' || c == '-' || c == '_'
}

/// `filename` without the characters that may not stay in a file name.
pub fn sanitize_filename(filename: &str) -> (clean: String)
    ensures
        clean@ == filename@.filter(|c: char| keeps(c)),
{
    let ghost keep = |c: char| keeps(c);
    let len = filename.unicode_len();
    let mut clean = String::new();
    let mut i: usize = 0;
    assert(filename@.take(0).filter(keep) =~= Seq::<char>::empty());
    while i < len
        invariant
            i <= len,
            len == filename@.len(),
            keep == (|c: char| keeps(c)),
            clean@ == filename@.take(i as int).filter(keep),
        decreases len - i,
    {
        let c = filename.get_char(i);
        proof {
            assert(filename@.take(i + 1) =~= filename@.take(i as int).push(c));
            filename@.take(i as int).lemma_filter_push(c, keep);
        }
        if is_alphanumeric(c) || c == '.' || c == '-' || c == '_' {
            let piece = filename.substring_char(i, i + 1);
            assert(piece@ =~= seq![c]);
            clean.append(piece);
            assert(clean@ =~= filename@.take(i as int).filter(keep).push(c));
        }
        i = i + 1;
    }
    assert(filename@.take(len as int) =~= filename@);
    clean
}

} // verus!

//! What is decided around the files of the application: which settings
//! stand after the settings file was read, and how the picture of a
//! recognition is named.
//!
//! Reading and writing the files is left to the caller.

use vstd::prelude::*;
use vstd::string::*;

use crate::data_models::Config;
use crate::text::{ascii_lower, ends_with_str, has_suffix, to_ascii_lower};

verus! {

/// The name of the settings file.
pub const CONFIG_FILENAME: &'static str = "config.json";

/// The name of the history file.
pub const HISTORY_FILENAME: &'static str = "history.json";

/// The name of the directory of the pictures.
pub const PICTURES_DIRNAME: &'static str = "pictures";

/// What reading the settings file came to.
#[derive(Debug)]
pub enum ConfigLoad {
    /// The file holds these settings.
    Parsed { config: Config },
    /// The file holds something else than settings.
    Unreadable,
    /// There is no file.
    Missing,
}

/// The settings that stand once the settings file was read, and whether
/// they are to be written back. Settings that were read are migrated and
/// written back where migration changed them. Without settings that could
/// be read the settings of a new installation stand, and are written.
pub fn settle_config(load: ConfigLoad) -> (r: (Config, bool))
    ensures
        match load {
            ConfigLoad::Parsed { config } => r.0.is_migration_of(config) && r.1
                == config.needs_migration(),
            _ => r.0.is_default() && r.1,
        },
{
    match load {
        ConfigLoad::Parsed { config } => {
            let mut config = config;
            let changed = config.migrate_prompts();
            (config, changed)
        },
        _ => (Config::default(), true),
    }
}

/// What `chrono::DateTime::parse_from_rfc3339` followed by a formatting with
/// `%Y%m%d_%H%M%S` makes of a text: the date and the time of day that an
/// RFC 3339 timestamp names, in the offset that it names, written as year,
/// month, day, an underscore, hour, minute and second; nothing where the
/// text is no such timestamp.
pub uninterp spec fn compact_timestamp(timestamp: Seq<char>) -> Option<Seq<char>>;

/// `chrono::DateTime::parse_from_rfc3339`, and on the parsed value
/// `DateTime::format` with `%Y%m%d_%H%M%S`: the date and time of an RFC 3339
/// timestamp in compact form, or nothing where the text does not parse.
#[verifier::external_body]
fn format_timestamp(timestamp: &str) -> (r: Option<String>)
    ensures
        match r {
            Some(stamp) => compact_timestamp(timestamp@) == Some(stamp@),
            None => compact_timestamp(timestamp@) is None,
        },
{
    match chrono::DateTime::parse_from_rfc3339(timestamp) {
        Ok(parsed) => Some(parsed.format("%Y%m%d_%H%M%S").to_string()),
        Err(_) => None,
    }
}

/// The name of a picture without its extension: a timestamp, an underscore,
/// and the id of the recognition.
pub open spec fn picture_stem_text(stamp: Seq<char>, id: Seq<char>) -> Seq<char> {
    stamp + "_"@ + id
}

/// The timestamp in the name of a picture: the creation time in compact
/// form, or `fallback` where the creation time is no RFC 3339 timestamp.
pub open spec fn picture_stamp_text(created_at: Seq<char>, fallback: Seq<char>) -> Seq<char> {
    match compact_timestamp(created_at) {
        Some(stamp) => stamp,
        None => fallback,
    }
}

/// The name of a picture without its extension, from its timestamp and the
/// id of the recognition.
pub fn picture_stem_with(stamp: &str, id: &str) -> (r: String)
    ensures
        r@ == picture_stem_text(stamp@, id@),
{
    let mut r = String::from_str(stamp);
    r.append("_");
    r.append(id);
    r
}

/// The name of the picture of a recognition without its extension.
/// `fallback` is the present time in compact form; it is used where the
/// creation time of the recognition is no RFC 3339 timestamp.
pub fn picture_stem(created_at: &str, id: &str, fallback: &str) -> (r: String)
    ensures
        r@ == picture_stem_text(picture_stamp_text(created_at@, fallback@), id@),
{
    match format_timestamp(created_at) {
        Some(stamp) => picture_stem_with(stamp.as_str(), id),
        None => picture_stem_with(fallback, id),
    }
}

/// The file name of a picture: its stem and the extension `.png`.
pub fn picture_file_name(stem: &str) -> (r: String)
    ensures
        r@ == stem@ + ".png"@,
{
    let mut r = String::from_str(stem);
    r.append(".png");
    r
}

/// The MIME type of an image file, read off the end of its path without
/// regard to case: JPEG for `.jpg` and `.jpeg`, GIF for `.gif`, PNG for
/// everything else.
pub open spec fn mime_type_text(path: Seq<char>) -> Seq<char> {
    let lowered = ascii_lower(path);
    if has_suffix(lowered, ".jpg"@) || has_suffix(lowered, ".jpeg"@) {
        "image/jpeg"@
    } else if has_suffix(lowered, ".gif"@) {
        "image/gif"@
    } else {
        "image/png"@
    }
}

/// The MIME type of an image file, read off the end of its path.
pub fn image_mime_type(path: &str) -> (r: &'static str)
    ensures
        r@ == mime_type_text(path@),
{
    let lowered = to_ascii_lower(path);
    if ends_with_str(&lowered, ".jpg") || ends_with_str(&lowered, ".jpeg") {
        "image/jpeg"
    } else if ends_with_str(&lowered, ".gif") {
        "image/gif"
    } else {
        "image/png"
    }
}

/// The data URL of an image: its MIME type and its content in base64.
pub fn data_url(mime_type: &str, encoded: &str) -> (r: String)
    ensures
        r@ == "data:"@ + mime_type@ + ";base64,"@ + encoded@,
{
    let mut r = String::from_str("data:");
    r.append(mime_type);
    r.append(";base64,");
    r.append(encoded);
    r
}

} // verus!

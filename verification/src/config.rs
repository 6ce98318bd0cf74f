//! Resolving the destination folders, either from a base directory or from
//! the text of a configuration file.
//!
//! The configuration file is a TOML document whose `directories` table binds
//! the keys `images`, `documents` and `audio` to directory paths. Parsing is
//! the toml crate's work, behind trusted readers whose results are named:
//! whether the text parses, whether the document has a `directories` entry,
//! and what each key's lookup yields. Over those names the outcome of
//! resolution is fixed exactly, for every input, by `spec_resolved`; which
//! outcome follows from which lookup results is decided by
//! `destination_map_from_fields`, which is verified exactly.

use vstd::prelude::*;

use crate::categories::Category;
use crate::categories::spec_category_name;
use crate::paths::join_path;
use crate::paths::spec_join;

verus! {

/// Why a configuration file yields no destination map.
#[derive(Clone, Copy, PartialEq, Eq, Structural, Debug)]
pub enum ConfigError {
    /// The text is not a well-formed TOML document.
    Unparsable,
    /// The document has no `directories` entry.
    MissingDirectories,
    /// The `directories` table has no entry under this category's key.
    MissingKey(Category),
    /// The `directories` table binds this category's key to a non-string value.
    NotAString(Category),
}

/// The line describing a configuration failure, as the error stream shows it.
pub open spec fn spec_error_message(e: ConfigError) -> Seq<char> {
    match e {
        ConfigError::Unparsable => "failed to parse the config file"@,
        ConfigError::MissingDirectories => "missing 'directories' section in config"@,
        ConfigError::MissingKey(c) => match c {
            Category::Images => "missing 'images' key in config"@,
            Category::Documents => "missing 'documents' key in config"@,
            Category::Audio => "missing 'audio' key in config"@,
        },
        ConfigError::NotAString(c) => match c {
            Category::Images => "'images' value in config is not a string"@,
            Category::Documents => "'documents' value in config is not a string"@,
            Category::Audio => "'audio' value in config is not a string"@,
        },
    }
}

impl ConfigError {
    /// A line describing the failure, for the error stream.
    pub fn message(&self) -> (r: &'static str)
        ensures
            r@ == spec_error_message(*self),
    {
        match self {
            ConfigError::Unparsable => "failed to parse the config file",
            ConfigError::MissingDirectories => "missing 'directories' section in config",
            ConfigError::MissingKey(c) => match c {
                Category::Images => "missing 'images' key in config",
                Category::Documents => "missing 'documents' key in config",
                Category::Audio => "missing 'audio' key in config",
            },
            ConfigError::NotAString(c) => match c {
                Category::Images => "'images' value in config is not a string",
                Category::Documents => "'documents' value in config is not a string",
                Category::Audio => "'audio' value in config is not a string",
            },
        }
    }
}

/// The destination folder of each category.
#[derive(Debug, PartialEq, Eq)]
pub struct DestinationMap {
    pub images: String,
    pub documents: String,
    pub audio: String,
}

impl DestinationMap {
    /// The path of the folder that files of `c` go to.
    pub open spec fn spec_dir_for(&self, c: Category) -> Seq<char> {
        match c {
            Category::Images => self.images@,
            Category::Documents => self.documents@,
            Category::Audio => self.audio@,
        }
    }

    /// The folder that files of `c` go to.
    pub fn dir_for(&self, c: Category) -> (r: &String)
        ensures
            r@ == self.spec_dir_for(c),
    {
        match c {
            Category::Images => &self.images,
            Category::Documents => &self.documents,
            Category::Audio => &self.audio,
        }
    }

    /// The map that files every category under `base`, in a folder named
    /// after the category.
    pub fn from_base(base: &str) -> (r: DestinationMap)
        ensures
            forall|c: Category| r.spec_dir_for(c) == spec_join(base@, spec_category_name(c)),
    {
        DestinationMap {
            images: join_path(base, Category::Images.name()),
            documents: join_path(base, Category::Documents.name()),
            audio: join_path(base, Category::Audio.name()),
        }
    }
}

/// What looking a category's key up in the `directories` table yielded.
#[derive(Debug)]
pub enum FieldLookup {
    /// The table has no entry under the key.
    Missing,
    /// The entry is there but is not a string.
    NotAString,
    /// The entry is this path.
    Path(String),
}

/// The destination map that three key lookups yield: the map of the three
/// paths where every lookup found a string, else the error of the first
/// failing key in the order images, documents, audio, a missing key reported
/// as such and a non-string value as such.
pub fn destination_map_from_fields(
    images: FieldLookup,
    documents: FieldLookup,
    audio: FieldLookup,
) -> (r: Result<DestinationMap, ConfigError>)
    ensures
        images is Missing ==> r == Err::<DestinationMap, ConfigError>(
            ConfigError::MissingKey(Category::Images),
        ),
        images is NotAString ==> r == Err::<DestinationMap, ConfigError>(
            ConfigError::NotAString(Category::Images),
        ),
        images is Path && documents is Missing ==> r == Err::<DestinationMap, ConfigError>(
            ConfigError::MissingKey(Category::Documents),
        ),
        images is Path && documents is NotAString ==> r == Err::<DestinationMap, ConfigError>(
            ConfigError::NotAString(Category::Documents),
        ),
        images is Path && documents is Path && audio is Missing ==> r == Err::<
            DestinationMap,
            ConfigError,
        >(ConfigError::MissingKey(Category::Audio)),
        images is Path && documents is Path && audio is NotAString ==> r == Err::<
            DestinationMap,
            ConfigError,
        >(ConfigError::NotAString(Category::Audio)),
        images matches FieldLookup::Path(i) ==> documents matches FieldLookup::Path(d)
            ==> audio matches FieldLookup::Path(a) ==> r == Ok::<DestinationMap, ConfigError>(
            (DestinationMap { images: i, documents: d, audio: a }),
        ),
{
    let i = match images {
        FieldLookup::Missing => {
            return Err(ConfigError::MissingKey(Category::Images));
        },
        FieldLookup::NotAString => {
            return Err(ConfigError::NotAString(Category::Images));
        },
        FieldLookup::Path(p) => p,
    };
    let d = match documents {
        FieldLookup::Missing => {
            return Err(ConfigError::MissingKey(Category::Documents));
        },
        FieldLookup::NotAString => {
            return Err(ConfigError::NotAString(Category::Documents));
        },
        FieldLookup::Path(p) => p,
    };
    let a = match audio {
        FieldLookup::Missing => {
            return Err(ConfigError::MissingKey(Category::Audio));
        },
        FieldLookup::NotAString => {
            return Err(ConfigError::NotAString(Category::Audio));
        },
        FieldLookup::Path(p) => p,
    };
    Ok(DestinationMap { images: i, documents: d, audio: a })
}

/// Whether the text is a well-formed TOML document: what the toml crate's
/// parser accepts.
pub uninterp spec fn spec_toml_parses(content: Seq<char>) -> bool;

/// Whether the document that `content` parses to has a `directories` entry
/// at its top level; meaningful only where the text parses.
pub uninterp spec fn spec_has_directories(content: Seq<char>) -> bool;

/// What looking `key` up in the `directories` table of the document that
/// `content` parses to yields: `None` where the key is absent (or the
/// `directories` entry is no table), `Some(None)` where it is bound to a
/// non-string value, `Some(Some(p))` where it is bound to the string `p`.
/// Meaningful only where the text parses and has a `directories` entry.
pub uninterp spec fn spec_field_of(content: Seq<char>, key: Seq<char>) -> Option<
    Option<Seq<char>>,
>;

/// The characters of a key lookup's outcome.
pub open spec fn spec_field_view(r: Option<Option<String>>) -> Option<Option<Seq<char>>> {
    match r {
        None => None,
        Some(None) => Some(None),
        Some(Some(s)) => Some(Some(s@)),
    }
}

/// Relies on `str::parse` with the toml crate's `FromStr` for `Value`, which
/// returns `Ok` exactly when the text is well-formed TOML.
#[verifier::external_body]
fn toml_parses(content: &str) -> (r: bool)
    ensures
        r == spec_toml_parses(content@),
{
    content.parse::<toml::Value>().is_ok()
}

/// Relies on `str::parse` for `toml::Value` and `toml::Value::get` with a
/// string index, which returns `Some` exactly when the document's top level
/// is a table with the entry.
#[verifier::external_body]
fn toml_has_directories(content: &str) -> (r: bool)
    ensures
        spec_toml_parses(content@) ==> r == spec_has_directories(content@),
{
    match content.parse::<toml::Value>() {
        Ok(root) => root.get("directories").is_some(),
        Err(_) => false,
    }
}

/// Relies on `str::parse` for `toml::Value`, `toml::Value::get` (`None` for
/// an absent key or a non-table value) and `toml::Value::as_str` (`Some`
/// exactly for a TOML string); parsing the same text again yields the same
/// document.
#[verifier::external_body]
fn toml_field(content: &str, key: &str) -> (r: Option<Option<String>>)
    ensures
        spec_toml_parses(content@) && spec_has_directories(content@) ==> spec_field_view(r)
            == spec_field_of(content@, key@),
{
    let root: toml::Value = match content.parse() {
        Ok(root) => root,
        Err(_) => return None,
    };
    let directories = match root.get("directories") {
        Some(directories) => directories,
        None => return None,
    };
    match directories.get(key) {
        None => None,
        Some(value) => match value.as_str() {
            Some(s) => Some(Some(s.to_string())),
            None => Some(None),
        },
    }
}

/// What looking `key` up in the `directories` table yields.
fn lookup_field(content: &str, key: &str) -> (r: FieldLookup)
    requires
        spec_toml_parses(content@),
        spec_has_directories(content@),
    ensures
        match spec_field_of(content@, key@) {
            None => r is Missing,
            Some(None) => r is NotAString,
            Some(Some(p)) => r matches FieldLookup::Path(s) && s@ == p,
        },
{
    match toml_field(content, key) {
        None => FieldLookup::Missing,
        Some(None) => FieldLookup::NotAString,
        Some(Some(path)) => FieldLookup::Path(path),
    }
}

/// The outcome of resolving a configuration text, fixed over the named
/// results of the trusted readers: the first failure in the order parse,
/// `directories` entry, then the keys images, documents, audio — a missing
/// key reported as such and a non-string value as such — or the three paths.
pub open spec fn spec_resolved(content: Seq<char>) -> Result<
    (Seq<char>, Seq<char>, Seq<char>),
    ConfigError,
> {
    if !spec_toml_parses(content) {
        Err(ConfigError::Unparsable)
    } else if !spec_has_directories(content) {
        Err(ConfigError::MissingDirectories)
    } else {
        match spec_field_of(content, "images"@) {
            None => Err(ConfigError::MissingKey(Category::Images)),
            Some(None) => Err(ConfigError::NotAString(Category::Images)),
            Some(Some(images)) => match spec_field_of(content, "documents"@) {
                None => Err(ConfigError::MissingKey(Category::Documents)),
                Some(None) => Err(ConfigError::NotAString(Category::Documents)),
                Some(Some(documents)) => match spec_field_of(content, "audio"@) {
                    None => Err(ConfigError::MissingKey(Category::Audio)),
                    Some(None) => Err(ConfigError::NotAString(Category::Audio)),
                    Some(Some(audio)) => Ok((images, documents, audio)),
                },
            },
        }
    }
}

/// The destination map read from the text of a configuration file: exactly
/// what `spec_resolved` fixes for the text.
pub fn resolve_config(content: &str) -> (r: Result<DestinationMap, ConfigError>)
    ensures
        match spec_resolved(content@) {
            Ok(paths) => r matches Ok(m) && m.images@ == paths.0 && m.documents@ == paths.1
                && m.audio@ == paths.2,
            Err(e) => r == Err::<DestinationMap, ConfigError>(e),
        },
{
    if !toml_parses(content) {
        return Err(ConfigError::Unparsable);
    }
    if !toml_has_directories(content) {
        return Err(ConfigError::MissingDirectories);
    }
    let images = lookup_field(content, "images");
    let documents = lookup_field(content, "documents");
    let audio = lookup_field(content, "audio");
    destination_map_from_fields(images, documents, audio)
}

} // verus!

use file_organizer::categories::Category;
use file_organizer::config::ConfigError;
use file_organizer::config::DestinationMap;
use file_organizer::config::FieldLookup;
use file_organizer::config::destination_map_from_fields;
use file_organizer::config::resolve_config;

fn full_config() -> String {
    [
        "[directories]",
        "images = \"/tmp/org/pics\"",
        "documents = \"/tmp/org/docs\"",
        "audio = \"/tmp/org/tunes\"",
    ]
    .join("\n")
}

#[test]
fn valid_config_yields_all_three_paths() {
    let map = resolve_config(&full_config()).unwrap();
    assert_eq!(map.images, "/tmp/org/pics");
    assert_eq!(map.documents, "/tmp/org/docs");
    assert_eq!(map.audio, "/tmp/org/tunes");
}

#[test]
fn malformed_text_is_unparsable() {
    assert_eq!(resolve_config("this = = is not toml"), Err(ConfigError::Unparsable));
}

#[test]
fn empty_document_misses_directories() {
    assert_eq!(resolve_config(""), Err(ConfigError::MissingDirectories));
}

#[test]
fn other_sections_do_not_count_as_directories() {
    let text = "[settings]\nimages = \"a\"\n";
    assert_eq!(resolve_config(text), Err(ConfigError::MissingDirectories));
}

#[test]
fn missing_audio_key_is_reported() {
    let text = "[directories]\nimages = \"a\"\ndocuments = \"b\"\n";
    assert_eq!(resolve_config(text), Err(ConfigError::MissingKey(Category::Audio)));
}

#[test]
fn missing_images_key_is_reported_first() {
    let text = "[directories]\naudio = \"c\"\n";
    assert_eq!(resolve_config(text), Err(ConfigError::MissingKey(Category::Images)));
}

#[test]
fn missing_documents_key_is_reported() {
    let text = "[directories]\nimages = \"a\"\naudio = \"c\"\n";
    assert_eq!(resolve_config(text), Err(ConfigError::MissingKey(Category::Documents)));
}

#[test]
fn non_string_value_is_reported() {
    let text = "[directories]\nimages = 5\ndocuments = \"b\"\naudio = \"c\"\n";
    assert_eq!(resolve_config(text), Err(ConfigError::NotAString(Category::Images)));
}

#[test]
fn non_string_audio_is_reported() {
    let text = "[directories]\nimages = \"a\"\ndocuments = \"b\"\naudio = false\n";
    assert_eq!(resolve_config(text), Err(ConfigError::NotAString(Category::Audio)));
}

#[test]
fn scalar_directories_entry_has_no_keys() {
    let text = "directories = 5\n";
    assert_eq!(resolve_config(text), Err(ConfigError::MissingKey(Category::Images)));
}

#[test]
fn fields_all_present_build_the_map() {
    let r = destination_map_from_fields(
        FieldLookup::Path("p".to_string()),
        FieldLookup::Path("d".to_string()),
        FieldLookup::Path("a".to_string()),
    );
    assert_eq!(
        r,
        Ok(DestinationMap {
            images: "p".to_string(),
            documents: "d".to_string(),
            audio: "a".to_string(),
        })
    );
}

#[test]
fn fields_missing_image_wins_over_later_errors() {
    let r = destination_map_from_fields(
        FieldLookup::Missing,
        FieldLookup::NotAString,
        FieldLookup::Missing,
    );
    assert_eq!(r, Err(ConfigError::MissingKey(Category::Images)));
}

#[test]
fn fields_non_string_documents_reported() {
    let r = destination_map_from_fields(
        FieldLookup::Path("p".to_string()),
        FieldLookup::NotAString,
        FieldLookup::Path("a".to_string()),
    );
    assert_eq!(r, Err(ConfigError::NotAString(Category::Documents)));
}

#[test]
fn error_messages_name_the_key() {
    assert_eq!(
        ConfigError::MissingKey(Category::Audio).message(),
        "missing 'audio' key in config"
    );
    assert_eq!(
        ConfigError::NotAString(Category::Documents).message(),
        "'documents' value in config is not a string"
    );
    assert_eq!(ConfigError::Unparsable.message(), "failed to parse the config file");
    assert_eq!(
        ConfigError::MissingDirectories.message(),
        "missing 'directories' section in config"
    );
}

#[test]
fn from_base_derives_category_folders() {
    let map = DestinationMap::from_base("out");
    assert_eq!(map.images, "out/Images");
    assert_eq!(map.documents, "out/Documents");
    assert_eq!(map.audio, "out/Audio");
}

use file_organizer::categories::Category;
use file_organizer::config::ConfigError;
use file_organizer::config::DestinationMap;
use file_organizer::config::resolve_config;
use file_organizer::organizer::Organizer;

fn scanning_organizer(base: &str) -> Organizer {
    let mut organizer = Organizer::new();
    organizer.on_config(Ok(DestinationMap::from_base(base)));
    organizer.on_source_checked(true);
    organizer
}

#[test]
fn mixed_directory_is_organized() {
    let mut organizer = scanning_organizer("out");

    let photo = organizer.on_entry("photo.JPG", false).unwrap();
    assert_eq!(photo.dest_dir, "out/Images");
    assert_eq!(photo.dest_path, "out/Images/photo.JPG");

    let notes = organizer.on_entry("notes.txt", false).unwrap();
    assert_eq!(notes.dest_dir, "out/Documents");
    assert_eq!(notes.dest_path, "out/Documents/notes.txt");

    let song = organizer.on_entry("song.mp3", false).unwrap();
    assert_eq!(song.dest_dir, "out/Audio");
    assert_eq!(song.dest_path, "out/Audio/song.mp3");

    assert_eq!(organizer.on_entry("archive.zip", false), None);
    assert_eq!(organizer.on_entry("sub", true), None);

    organizer.on_scan_complete();
    assert_eq!(organizer.exit_code(), 0);
}

#[test]
fn directory_named_like_a_file_stays() {
    let mut organizer = scanning_organizer("out");
    assert_eq!(organizer.on_entry("holiday.jpg", true), None);
}

#[test]
fn extensionless_file_stays() {
    let mut organizer = scanning_organizer("out");
    assert_eq!(organizer.on_entry("Makefile", false), None);
}

#[test]
fn configured_destinations_are_used() {
    let mut organizer = Organizer::new();
    organizer.on_config(Ok(DestinationMap {
        images: "/media/pics".to_string(),
        documents: "/media/docs".to_string(),
        audio: "/media/tunes".to_string(),
    }));
    organizer.on_source_checked(true);
    let order = organizer.on_entry("clip.flac", false).unwrap();
    assert_eq!(order.dest_dir, "/media/tunes");
    assert_eq!(order.dest_path, "/media/tunes/clip.flac");
}

#[test]
fn config_driven_run_uses_configured_folders() {
    let text = "[directories]\nimages = \"pics\"\ndocuments = \"docs\"\naudio = \"tunes\"\n";
    let mut organizer = Organizer::new();
    organizer.on_config(resolve_config(text));
    organizer.on_source_checked(true);
    let order = organizer.on_entry("pic.png", false).unwrap();
    assert_eq!(order.dest_dir, "pics");
    assert_eq!(order.dest_path, "pics/pic.png");
    organizer.on_scan_complete();
    assert_eq!(organizer.exit_code(), 0);
}

#[test]
fn missing_source_aborts_with_exit_one() {
    let mut organizer = Organizer::new();
    organizer.on_config(Ok(DestinationMap::from_base("out")));
    organizer.on_source_checked(false);
    assert_eq!(organizer.exit_code(), 1);
}

#[test]
fn config_error_aborts_before_scanning() {
    let mut organizer = Organizer::new();
    organizer.on_config(Err(ConfigError::MissingKey(Category::Audio)));
    assert_eq!(organizer.exit_code(), 1);
}

#[test]
fn scan_error_aborts() {
    let mut organizer = scanning_organizer("out");
    organizer.on_entry("song.ogg", false).unwrap();
    organizer.on_scan_error();
    assert_eq!(organizer.exit_code(), 1);
}

#[test]
fn second_run_over_leftovers_moves_nothing() {
    let entries = [
        ("photo.JPG", false),
        ("notes.txt", false),
        ("song.mp3", false),
        ("archive.zip", false),
        ("sub", true),
        ("README", false),
    ];
    let mut organizer = scanning_organizer("out");
    let mut leftovers: Vec<(String, bool)> = Vec::new();
    for (name, is_dir) in entries.iter() {
        if organizer.on_entry(name, *is_dir).is_none() {
            leftovers.push((name.to_string(), *is_dir));
        }
    }
    organizer.on_scan_complete();
    assert_eq!(organizer.exit_code(), 0);

    let mut second = scanning_organizer("out");
    for (name, is_dir) in leftovers.iter() {
        assert_eq!(second.on_entry(name, *is_dir), None);
    }
}

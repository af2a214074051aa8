use platter::error::SaveError;
use platter::storage::{
    get_storage, set_storage, Area, ReadReply, StorageRead, StorageWrite, WriteReply,
};
use platter::web::{decoded, load, load_raw, save, save_raw};
use platter::Location;
use std::collections::HashMap;

/// A host that keeps what it is given.
struct Host {
    entries: HashMap<(Area, String), String>,
}

impl Host {
    fn new() -> Host {
        Host { entries: HashMap::new() }
    }

    fn write(&mut self, write: &StorageWrite) -> WriteReply {
        self.entries.insert((write.area, write.key.clone()), write.value.clone());
        WriteReply::Stored
    }

    fn read(&self, read: &StorageRead) -> ReadReply {
        match self.entries.get(&(read.area, read.key.clone())) {
            Some(text) => ReadReply::Found(text.clone()),
            None => ReadReply::Missing,
        }
    }
}

fn raw_round_trip(host: &mut Host, location: Location, profile: &str, data: &[u8]) -> Vec<u8> {
    let write = save_raw(location, "app", profile, data);
    let reply = host.write(&write);
    write.finish(reply).expect("the write should be stored");
    let raw = load_raw(location, "app", profile);
    let reply = host.read(&raw.read);
    raw.finish(reply).expect("the bytes should come back")
}

#[test]
fn set_storage_describes_the_write() {
    let write = set_storage(false, "settings", "{\"volume\":3}");
    assert_eq!(
        write,
        StorageWrite {
            area: Area::Persistent,
            key: "settings".to_string(),
            value: "{\"volume\":3}".to_string()
        }
    );
    assert_eq!(set_storage(true, "settings", "x").area, Area::Session);
}

#[test]
fn get_storage_describes_the_read() {
    assert_eq!(
        get_storage(true, "settings"),
        StorageRead { area: Area::Session, key: "settings".to_string() }
    );
    assert_eq!(
        get_storage(false, "settings"),
        StorageRead { area: Area::Persistent, key: "settings".to_string() }
    );
}

#[test]
fn the_cache_goes_to_the_session_and_the_rest_persists() {
    assert_eq!(load(Location::Cache, "app", "p").area, Area::Session);
    assert_eq!(load(Location::Config, "app", "p").area, Area::Persistent);
    assert_eq!(load(Location::Data, "app", "p").area, Area::Persistent);
    assert_eq!(load_raw(Location::Cache, "app", "p").read.area, Area::Session);
    assert_eq!(load_raw(Location::Config, "app", "p").read.area, Area::Persistent);
    assert_eq!(load_raw(Location::Data, "app", "p").read.area, Area::Persistent);
    assert_eq!(save_raw(Location::Cache, "app", "p", &[1]).area, Area::Session);
    assert_eq!(save_raw(Location::Config, "app", "p", &[1]).area, Area::Persistent);
    assert_eq!(save_raw(Location::Data, "app", "p", &[1]).area, Area::Persistent);
    assert_eq!(save(Location::Cache, "app", "p", Ok("1".to_string())).unwrap().area, Area::Session);
    assert_eq!(save(Location::Data, "app", "p", Ok("1".to_string())).unwrap().area, Area::Persistent);
}

#[test]
fn the_application_name_plays_no_part_in_the_browser() {
    assert_eq!(load(Location::Data, "one", "p"), load(Location::Data, "another", "p"));
    assert_eq!(
        save_raw(Location::Data, "one", "p", &[1, 2]),
        save_raw(Location::Data, "another", "p", &[1, 2])
    );
}

#[test]
fn a_write_that_is_stored_is_done() {
    assert!(matches!(set_storage(false, "p", "v").finish(WriteReply::Stored), Ok(())));
}

#[test]
fn a_write_that_is_refused_fails() {
    let result = set_storage(false, "p", "v").finish(WriteReply::Rejected);
    assert!(matches!(result, Err(SaveError::SaveWriteFailed)));
}

#[test]
fn a_write_without_an_area_finds_no_location() {
    let result = set_storage(true, "p", "v").finish(WriteReply::Unavailable);
    assert!(matches!(result, Err(SaveError::SaveLocationNotFound)));
}

#[test]
fn a_read_without_an_area_finds_no_location() {
    let result = get_storage(true, "p").finish(ReadReply::Unavailable);
    assert!(matches!(result, Err(SaveError::SaveLocationNotFound)));
    let result = load_raw(Location::Data, "app", "p").finish(ReadReply::Unavailable);
    assert!(matches!(result, Err(SaveError::SaveLocationNotFound)));
}

#[test]
fn a_read_hands_the_text_back_as_it_is() {
    let result = get_storage(false, "p").finish(ReadReply::Found("  {\"a\": 1}\n".to_string()));
    assert_eq!(result.unwrap(), "  {\"a\": 1}\n");
}

#[test]
fn a_profile_that_was_never_saved_is_not_found() {
    let host = Host::new();
    let read = load(Location::Data, "app", "highscores");
    let reply = host.read(&read);
    match read.finish(reply) {
        Err(SaveError::SaveNotFound(profile)) => assert_eq!(profile, "highscores"),
        other => panic!("expected a profile that is not found, found {:?}", other),
    }
}

#[test]
fn a_raw_profile_that_was_never_saved_is_not_found() {
    let mut host = Host::new();
    raw_round_trip(&mut host, Location::Data, "other", &[1, 2, 3]);
    let raw = load_raw(Location::Data, "app", "highscores");
    let reply = host.read(&raw.read);
    match raw.finish(reply) {
        Err(SaveError::SaveNotFound(profile)) => assert_eq!(profile, "highscores"),
        other => panic!("expected a profile that is not found, found {:?}", other),
    }
}

#[test]
fn what_is_cached_is_not_found_among_the_data() {
    let mut host = Host::new();
    raw_round_trip(&mut host, Location::Cache, "level", &[1, 2, 3]);
    let raw = load_raw(Location::Data, "app", "level");
    let reply = host.read(&raw.read);
    assert!(matches!(raw.finish(reply), Err(SaveError::SaveNotFound(_))));
}

#[test]
fn raw_bytes_are_written_as_base64() {
    assert_eq!(save_raw(Location::Data, "app", "p", &[0x00, 0x01, 0x02]).value, "AAEC");
    assert_eq!(save_raw(Location::Data, "app", "p", b"hello world").value, "aGVsbG8gd29ybGQ=");
    assert_eq!(save_raw(Location::Data, "app", "p", &[0xff]).value, "/w==");
    assert_eq!(save_raw(Location::Data, "app", "p", &[0xfb, 0xef]).value, "++8=");
    assert_eq!(save_raw(Location::Data, "app", "p", &[]).value, "");
    assert_eq!(save_raw(Location::Data, "app", "level", &[1]).key, "level");
}

#[test]
fn base64_is_read_as_raw_bytes() {
    let raw = load_raw(Location::Data, "app", "p");
    assert_eq!(raw.finish(ReadReply::Found("AAEC".to_string())).unwrap(), vec![0x00, 0x01, 0x02]);
    let raw = load_raw(Location::Data, "app", "p");
    assert_eq!(raw.finish(ReadReply::Found("aGVsbG8gd29ybGQ=".to_string())).unwrap(), b"hello world");
    let raw = load_raw(Location::Data, "app", "p");
    assert_eq!(raw.finish(ReadReply::Found(String::new())).unwrap(), Vec::<u8>::new());
}

#[test]
fn what_the_decoder_found_is_handed_on() {
    assert_eq!(decoded(Ok(vec![1, 2, 3])).unwrap(), vec![1, 2, 3]);
    assert_eq!(decoded(Ok(Vec::new())).unwrap(), Vec::<u8>::new());
}

#[test]
fn whatever_the_decoder_objects_to_is_a_decode_error() {
    let objections = [
        base64::DecodeError::InvalidByte(3, b'!'),
        base64::DecodeError::InvalidLength,
        base64::DecodeError::InvalidLastSymbol(1, b'B'),
    ];
    for objection in objections {
        assert!(matches!(decoded(Err(objection)), Err(SaveError::DecodeError)));
    }
}

#[test]
fn base64_without_its_padding_is_read_too() {
    let raw = load_raw(Location::Data, "app", "p");
    assert_eq!(raw.finish(ReadReply::Found("AAE".to_string())).unwrap(), vec![0x00, 0x01]);
}

#[test]
fn text_that_is_no_base64_is_a_decode_error() {
    let texts = [
        "not base64!", "A", "AAEC\n", " AAEC", "=AAE", "AAEC====", "AAE*", "AAAAA===", "A===",
        "AA=A", "====", "=", "AAECA", "\u{e9}\u{e9}",
    ];
    for text in texts {
        let raw = load_raw(Location::Data, "app", "p");
        let result = raw.finish(ReadReply::Found(text.to_string()));
        assert!(matches!(result, Err(SaveError::DecodeError)), "{:?} gave {:?}", text, result);
    }
}

#[test]
fn raw_bytes_come_back_as_they_were() {
    let mut host = Host::new();
    let every_byte: Vec<u8> = (0..=255u8).collect();
    let cases: Vec<Vec<u8>> = vec![
        vec![],
        vec![0],
        vec![0, 0],
        vec![0x00, 0x01, 0x02],
        vec![255, 254, 253, 252],
        b"hello world".to_vec(),
        every_byte,
        vec![0xab; 1000],
    ];
    for location in [Location::Cache, Location::Config, Location::Data] {
        for data in &cases {
            assert_eq!(&raw_round_trip(&mut host, location, "blob", data), data);
        }
    }
}

#[test]
fn a_later_save_replaces_an_earlier_one() {
    let mut host = Host::new();
    raw_round_trip(&mut host, Location::Data, "blob", &[1, 2, 3]);
    assert_eq!(raw_round_trip(&mut host, Location::Data, "blob", &[9]), vec![9]);
}

#[test]
fn a_structured_value_comes_back_equal() {
    let mut host = Host::new();
    let scores: Vec<(String, u32)> = vec![("ada".to_string(), 10), ("grace".to_string(), 7)];
    let write = save(Location::Config, "app", "scores", serde_json::to_string(&scores)).unwrap();
    assert_eq!(write.value, "[[\"ada\",10],[\"grace\",7]]");
    let reply = host.write(&write);
    write.finish(reply).unwrap();
    let read = load(Location::Config, "app", "scores");
    let reply = host.read(&read);
    let text = read.finish(reply).unwrap();
    let loaded: Vec<(String, u32)> = serde_json::from_str(&text).map_err(SaveError::from).unwrap();
    assert_eq!(loaded, scores);
}

#[test]
fn a_value_that_cannot_be_serialized_is_not_written() {
    let mut keyed_by_a_list: HashMap<Vec<u8>, u8> = HashMap::new();
    keyed_by_a_list.insert(vec![1], 1);
    let serialized = serde_json::to_string(&keyed_by_a_list);
    assert!(serialized.is_err());
    let result = save(Location::Data, "app", "p", serialized);
    assert!(matches!(result, Err(SaveError::SerdeError(_))));
}

#[test]
fn an_error_of_serde_converts_into_a_save_error() {
    let error = serde_json::from_str::<u32>("not a number").unwrap_err();
    let line = error.line();
    match SaveError::from(error) {
        SaveError::SerdeError(inner) => assert_eq!(inner.line(), line),
        other => panic!("expected an error of serde, found {:?}", other),
    }
}

#[test]
fn every_save_error_has_its_message() {
    let serde = SaveError::from(serde_json::from_str::<u32>("x").unwrap_err());
    assert_eq!(serde.message(), "The value could not be serialized or deserialized");
    assert_eq!(SaveError::SaveLocationNotFound.message(), "The storage location could not be found");
    assert_eq!(
        SaveError::SaveNotFound("highscores".to_string()).message(),
        "No value is stored under the profile highscores"
    );
    assert_eq!(SaveError::SaveWriteFailed.message(), "The value could not be written to storage");
    assert_eq!(SaveError::DecodeError.message(), "The stored value could not be decoded");
}

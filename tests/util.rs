use pokemon_translator::api::{species_path, translation_path, translation_query};
use pokemon_translator::util::{check_status, PokError, TranslationType};

#[test]
fn error_status_codes() {
    assert_eq!(PokError::Transport.status_code(), 500);
    assert_eq!(PokError::Parse.status_code(), 500);
    assert_eq!(PokError::Unavailable(429).status_code(), 502);
    assert_eq!(PokError::NoDescription.status_code(), 502);
}

#[test]
fn error_messages() {
    assert_eq!(PokError::Transport.message(), "Internal Server Error");
    assert_eq!(PokError::Parse.message(), "Failed to parse JSON response from API");
    assert_eq!(PokError::Unavailable(503).message(), "Failed to connect to upstream service");
    assert_eq!(
        PokError::NoDescription.message(),
        "Pokeapi did not return a description for this pokemon"
    );
}

#[test]
fn upstream_status_check() {
    assert!(check_status(200).is_ok());
    assert!(check_status(299).is_ok());
    assert_eq!(check_status(199), Err(PokError::Unavailable(199)));
    assert_eq!(check_status(300), Err(PokError::Unavailable(300)));
    assert_eq!(check_status(429), Err(PokError::Unavailable(429)));
    assert_eq!(check_status(500), Err(PokError::Unavailable(500)));
}

#[test]
fn style_names() {
    assert_eq!(TranslationType::Yoda.to_string(), "yoda");
    assert_eq!(TranslationType::Shakespeare.to_string(), "shakespeare");
}

#[test]
fn request_paths() {
    assert_eq!(species_path("pikachu"), "/api/v2/pokemon-species/pikachu");
    assert_eq!(translation_query(TranslationType::Yoda, "a%20b"), "/translate/yoda?text=a%20b");
    assert_eq!(
        translation_path("Lives about one yard", TranslationType::Shakespeare),
        "/translate/shakespeare?text=Lives%20about%20one%20yard"
    );
    assert_eq!(
        translation_path("POKéMON, a&b", TranslationType::Yoda),
        "/translate/yoda?text=POK%C3%A9MON%2C%20a%26b"
    );
}

use pokemon_translator::cache::{CacheWrapper, CountingCache, MokaCache};
use pokemon_translator::models::{FlavourText, NamedAPIResource, PokemonResponse, PokemonSpecies};
use pokemon_translator::server::{cached_plain, cached_translated, classify, fill_plain, fill_translated};
use pokemon_translator::util::{PokError, TranslationType};

const PIKACHU_RAW: &str =
    "When several of these POK\u{e9}MON\ngather, their electricity\ncould build and cause\u{0c}lightning storms.";
const PIKACHU: &str =
    "When several of these POKéMON gather, their electricity could build and cause lightning storms.";
const PIKACHU_SHAKESPEARE: &str = "At which hour several of these pokémon gather,  their electricity couldst buildeth and cause lightning storms.";

fn species(name: &str, description: &str, habitat: Option<&str>, legendary: bool) -> PokemonSpecies {
    PokemonSpecies::new(
        name.to_owned(),
        vec![FlavourText::new(description.to_owned(), NamedAPIResource::new("en".to_owned()))],
        habitat.map(|h| NamedAPIResource::new(h.to_owned())),
        legendary,
    )
}

fn record(habitat: &str, legendary: bool) -> PokemonResponse {
    PokemonResponse::new("x".to_owned(), "d".to_owned(), habitat.to_owned(), legendary)
}

/// Serves a plain request the way the application does, fetching from `fetch` on a miss.
fn serve_plain<C: CacheWrapper>(
    cache: &mut C,
    name: &str,
    fetches: &mut u32,
    fetch: &dyn Fn(&str) -> Result<PokemonSpecies, PokError>,
) -> Result<PokemonResponse, PokError> {
    match cached_plain(cache, &name.to_owned()) {
        Some(r) => Ok(r),
        None => {
            *fetches += 1;
            fill_plain(cache, name.to_owned(), fetch(name))
        },
    }
}

/// Serves a translated request, answering translations from `translate` on a miss.
fn serve_translated<C: CacheWrapper>(
    cache: &mut C,
    name: &str,
    fetches: &mut u32,
    translations: &mut u32,
    fetch: &dyn Fn(&str) -> Result<PokemonSpecies, PokError>,
    translate: &dyn Fn(&str, TranslationType) -> Result<String, PokError>,
) -> Result<PokemonResponse, PokError> {
    let plain = serve_plain(cache, name, fetches, fetch)?;
    let (kind, hit) = cached_translated(cache, &plain);
    match hit {
        Some(r) => Ok(r),
        None => {
            *translations += 1;
            let answer = translate(plain.description(), kind);
            Ok(fill_translated(cache, plain, answer))
        },
    }
}

fn pikachu_service(name: &str) -> Result<PokemonSpecies, PokError> {
    match name {
        "pikachu" => Ok(species("pikachu", PIKACHU_RAW, Some("forest"), false)),
        "regice" => Ok(species("regice", "ice", Some("cave"), true)),
        "diglett" => Ok(species("diglett", "ground", Some("cave"), false)),
        "arceus" => Ok(species("arceus", "shaped the universe", None, false)),
        _ => Err(PokError::Unavailable(404)),
    }
}

fn shakespeare_service(text: &str, kind: TranslationType) -> Result<String, PokError> {
    assert_eq!(kind, TranslationType::Shakespeare);
    assert_eq!(text, PIKACHU);
    Ok(PIKACHU_SHAKESPEARE.to_owned())
}

fn rate_limited(_text: &str, _kind: TranslationType) -> Result<String, PokError> {
    Err(PokError::Unavailable(429))
}

#[test]
fn classify_truth_table() {
    assert_eq!(classify(&record("cave", true)), TranslationType::Yoda);
    assert_eq!(classify(&record("cave", false)), TranslationType::Yoda);
    assert_eq!(classify(&record("forest", true)), TranslationType::Yoda);
    assert_eq!(classify(&record("forest", false)), TranslationType::Shakespeare);
    assert_eq!(classify(&record("Cave", false)), TranslationType::Shakespeare);
    assert_eq!(classify(&record("null", false)), TranslationType::Shakespeare);
    assert_eq!(classify(&record("", false)), TranslationType::Shakespeare);
}

#[test]
fn test_cache_utilisation_basic() {
    let mut cache = CountingCache::new();
    let mut fetches = 0u32;
    let a = serve_plain(&mut cache, "pikachu", &mut fetches, &pikachu_service).ok().expect("served");
    let b = serve_plain(&mut cache, "pikachu", &mut fetches, &pikachu_service).ok().expect("served");
    let c = serve_plain(&mut cache, "pikachu", &mut fetches, &pikachu_service).ok().expect("served");
    assert_eq!(fetches, 1);
    assert_eq!(cache.get_count(), 3);
    assert_eq!(cache.insert_count(), 1);
    for r in [&b, &c] {
        assert_eq!(r.name(), a.name());
        assert_eq!(r.description(), a.description());
        assert_eq!(r.habitat(), a.habitat());
        assert_eq!(r.is_legendary(), a.is_legendary());
    }
}

#[test]
fn test_cache_utilisation_advanced() {
    let mut cache = CountingCache::new();
    let (mut fetches, mut translations) = (0u32, 0u32);
    serve_plain(&mut cache, "pikachu", &mut fetches, &pikachu_service).ok().expect("served");
    let b = serve_translated(&mut cache, "pikachu", &mut fetches, &mut translations, &pikachu_service, &shakespeare_service)
        .ok()
        .expect("served");
    let c = serve_translated(&mut cache, "pikachu", &mut fetches, &mut translations, &pikachu_service, &shakespeare_service)
        .ok()
        .expect("served");
    assert_eq!(fetches, 1);
    assert_eq!(translations, 1);
    assert_eq!(cache.get_count(), 5);
    assert_eq!(cache.insert_count(), 2);
    assert_eq!(b.description(), PIKACHU_SHAKESPEARE);
    assert_eq!(c.description(), PIKACHU_SHAKESPEARE);
}

#[test]
fn plain_pikachu_record() {
    let mut cache = CountingCache::new();
    let mut fetches = 0u32;
    let r = serve_plain(&mut cache, "pikachu", &mut fetches, &pikachu_service).ok().expect("served");
    assert_eq!(r.name(), "pikachu");
    assert_eq!(r.habitat(), "forest");
    assert!(!r.is_legendary());
    assert_eq!(r.description(), PIKACHU);
}

#[test]
fn translated_pikachu_record() {
    let mut cache = CountingCache::new();
    let (mut fetches, mut translations) = (0u32, 0u32);
    let r = serve_translated(&mut cache, "pikachu", &mut fetches, &mut translations, &pikachu_service, &shakespeare_service)
        .ok()
        .expect("served");
    assert_eq!(r.name(), "pikachu");
    assert_eq!(r.habitat(), "forest");
    assert_eq!(r.description(), PIKACHU_SHAKESPEARE);
    let again = serve_translated(&mut cache, "pikachu", &mut fetches, &mut translations, &pikachu_service, &shakespeare_service)
        .ok()
        .expect("served");
    assert_eq!(again.description(), PIKACHU_SHAKESPEARE);
    assert_eq!(translations, 1);
    assert_eq!(fetches, 1);
}

#[test]
fn translated_regice_is_yoda() {
    let mut cache = CountingCache::new();
    let regice = PokemonResponse::try_from(species("regice", "ice", Some("cave"), true)).ok().expect("record");
    let (kind, hit) = cached_translated(&mut cache, &regice);
    assert_eq!(kind, TranslationType::Yoda);
    assert!(hit.is_none());
    let diglett = PokemonResponse::try_from(species("diglett", "ground", Some("cave"), false)).ok().expect("record");
    assert_eq!(cached_translated(&mut cache, &diglett).0, TranslationType::Yoda);
}

#[test]
fn plain_arceus_null_habitat() {
    let mut cache = CountingCache::new();
    let mut fetches = 0u32;
    let r = serve_plain(&mut cache, "arceus", &mut fetches, &pikachu_service).ok().expect("served");
    assert_eq!(r.habitat(), "null");
}

#[test]
fn test_advanced_handler_rejection() {
    let mut cache = CountingCache::new();
    let (mut fetches, mut translations) = (0u32, 0u32);
    let r = serve_translated(&mut cache, "pikachu", &mut fetches, &mut translations, &pikachu_service, &rate_limited)
        .ok()
        .expect("a failed translation still serves the record");
    assert_eq!(r.description(), PIKACHU);
    assert_eq!(r.name(), "pikachu");
    assert_eq!(cache.insert_count(), 1);
    let (_, hit) = cached_translated(&mut cache, &r);
    assert!(hit.is_none());
}

#[test]
fn fill_translated_failure_keeps_record() {
    let mut cache = CountingCache::new();
    let p = PokemonResponse::new("pikachu".to_owned(), PIKACHU.to_owned(), "forest".to_owned(), false);
    let r = fill_translated(&mut cache, p, Err(PokError::Transport));
    assert_eq!(r.description(), PIKACHU);
    assert_eq!(cache.insert_count(), 0);
}

#[test]
fn plain_failure_is_passed_on() {
    let mut cache = CountingCache::new();
    let mut fetches = 0u32;
    let r = serve_plain(&mut cache, "missingno", &mut fetches, &pikachu_service);
    assert!(matches!(r, Err(PokError::Unavailable(404))));
    assert_eq!(cache.insert_count(), 0);
    let no_text = PokemonSpecies::new("x".to_owned(), vec![], None, false);
    let r = fill_plain(&mut cache, "x".to_owned(), Ok(no_text));
    assert!(matches!(r, Err(PokError::NoDescription)));
    let r = fill_plain(&mut cache, "x".to_owned(), Err(PokError::Parse));
    assert!(matches!(r, Err(PokError::Parse)));
    assert_eq!(cache.insert_count(), 0);
    assert!(cached_plain(&mut cache, &"x".to_owned()).is_none());
}

#[test]
fn translated_entry_leaves_other_keys() {
    let mut cache = CountingCache::new();
    let p = PokemonResponse::new("pikachu".to_owned(), PIKACHU.to_owned(), "forest".to_owned(), false);
    cache.insert(("pikachu".to_owned(), TranslationType::Yoda), p);
    assert!(cache.get(&("pikachu".to_owned(), TranslationType::Plain)).is_none());
    assert!(cache.get(&("pikachu".to_owned(), TranslationType::Shakespeare)).is_none());
    assert!(cache.get(&("pikachu".to_owned(), TranslationType::Yoda)).is_some());
}

#[test]
fn moka_cache_serves_inserted_records() {
    let mut cache = MokaCache::new(1_000);
    let mut fetches = 0u32;
    let a = serve_plain(&mut cache, "pikachu", &mut fetches, &pikachu_service).ok().expect("served");
    let b = serve_plain(&mut cache, "pikachu", &mut fetches, &pikachu_service).ok().expect("served");
    assert_eq!(fetches, 1);
    assert_eq!(a.description(), b.description());
    assert!(cache.get(&("pikachu".to_owned(), TranslationType::Yoda)).is_none());
    let p = PokemonResponse::new("pikachu".to_owned(), "t".to_owned(), "forest".to_owned(), false);
    cache.insert(("pikachu".to_owned(), TranslationType::Shakespeare), p);
    let got = cache.get(&("pikachu".to_owned(), TranslationType::Shakespeare)).expect("held");
    assert_eq!(got.description(), "t");
    assert_eq!(got.habitat(), "forest");
    let plain = cache.get(&("pikachu".to_owned(), TranslationType::Plain)).expect("held");
    assert_eq!(plain.description(), PIKACHU);
}

#[test]
fn counting_cache_overwrites() {
    let mut cache = CountingCache::new();
    let key = ("a".to_owned(), TranslationType::Plain);
    cache.insert(key.clone(), PokemonResponse::new("a".to_owned(), "1".to_owned(), "h".to_owned(), false));
    cache.insert(key.clone(), PokemonResponse::new("a".to_owned(), "2".to_owned(), "h".to_owned(), false));
    assert_eq!(cache.get(&key).expect("held").description(), "2");
    assert_eq!(cache.insert_count(), 2);
    assert_eq!(cache.get_count(), 1);
}

use vstd::prelude::*;
use crate::cache::CacheWrapper;
use crate::models::{PokemonResponse, PokemonSpecies, SpeciesRecord, record_of};
use crate::util::{PokError, TranslationType};

verus! {

/// The habitat whose species are translated in the Yoda style.
pub open spec fn cave() -> Seq<char> {
    seq!['c', 'a', 'v', 'e']
}

/// The translation a record gets: Yoda for legendary or cave-dwelling
/// species, Shakespeare for all others.
pub open spec fn translation_for(r: SpeciesRecord) -> TranslationType {
    if r.is_legendary || r.habitat == cave() {
        TranslationType::Yoda
    } else {
        TranslationType::Shakespeare
    }
}

/// The key under which the untranslated record of `name` is cached.
pub open spec fn plain_key(name: Seq<char>) -> (Seq<char>, TranslationType) {
    (name, TranslationType::Plain)
}

/// What a cache that keeps every entry answers for `key`.
pub open spec fn lookup(
    m: Map<(Seq<char>, TranslationType), SpeciesRecord>,
    key: (Seq<char>, TranslationType),
) -> Option<SpeciesRecord> {
    if m.contains_key(key) {
        Some(m[key])
    } else {
        None
    }
}

/// The cache contents after a plain request for `name` was served `record`
/// from the species service.
pub open spec fn plain_fill(
    m: Map<(Seq<char>, TranslationType), SpeciesRecord>,
    name: Seq<char>,
    record: SpeciesRecord,
) -> Map<(Seq<char>, TranslationType), SpeciesRecord> {
    m.insert(plain_key(name), record)
}

/// The cache contents after `record` was translated into `translated` in the
/// style that `record` calls for.
pub open spec fn translated_fill(
    m: Map<(Seq<char>, TranslationType), SpeciesRecord>,
    record: SpeciesRecord,
    translated: SpeciesRecord,
) -> Map<(Seq<char>, TranslationType), SpeciesRecord> {
    m.insert((record.name, translation_for(record)), translated)
}

/// The views of an optional record.
pub open spec fn optional_view(o: Option<PokemonResponse>) -> Option<SpeciesRecord> {
    match o {
        Some(v) => Some(v@),
        None => None,
    }
}

/// What a plain request serves once the species service has answered.
pub open spec fn plain_outcome(fetched: Result<PokemonSpecies, PokError>) -> Result<SpeciesRecord, PokError> {
    match fetched {
        Ok(s) => record_of(s@),
        Err(e) => Err(e),
    }
}

/// What a translated request serves for `record` once the translation
/// service has answered: the translation in place of the description, or the
/// record unchanged where the service failed.
pub open spec fn translated_outcome(record: SpeciesRecord, answer: Result<String, PokError>) -> SpeciesRecord {
    match answer {
        Ok(t) => SpeciesRecord { description: t@, ..record },
        Err(_) => record,
    }
}

/// The translation that `pokemon` gets.
pub fn classify(pokemon: &PokemonResponse) -> (r: TranslationType)
    ensures
        r == translation_for(pokemon@),
{
    let cave_name = "cave".to_owned();
    proof { reveal_strlit("cave"); }
    assert(cave_name@ =~= cave());
    if pokemon.is_legendary() || pokemon.habitat().to_owned() == cave_name {
        TranslationType::Yoda
    } else {
        TranslationType::Shakespeare
    }
}

/// First step of a plain request: the cached record of `name`, or `None`
/// where the species service must be asked.
pub fn cached_plain<C: CacheWrapper>(cache: &mut C, name: &String) -> (r: Option<PokemonResponse>)
    ensures
        final(cache).recorded() == old(cache).recorded(),
        final(cache).retains_all() == old(cache).retains_all(),
        final(cache).lookups() == old(cache).lookups() + 1,
        final(cache).inserts() == old(cache).inserts(),
        r is Some ==> optional_view(r) == lookup(old(cache).recorded(), plain_key(name@)),
        old(cache).retains_all() ==> optional_view(r) == lookup(old(cache).recorded(), plain_key(name@)),
{
    let key = (name.clone(), TranslationType::Plain);
    cache.get(&key)
}

/// Second step of a plain request, after a miss: the record built from what
/// the species service answered for `name`, cached under the plain key of
/// `name` on success. Failures are passed on and nothing is cached.
pub fn fill_plain<C: CacheWrapper>(
    cache: &mut C,
    name: String,
    fetched: Result<PokemonSpecies, PokError>,
) -> (r: Result<PokemonResponse, PokError>)
    ensures
        r matches Ok(v) ==> plain_outcome(fetched) == Ok::<SpeciesRecord, PokError>(v@),
        r matches Err(e) ==> plain_outcome(fetched) == Err::<SpeciesRecord, PokError>(e),
        r matches Ok(v) ==> final(cache).recorded() == plain_fill(old(cache).recorded(), name@, v@),
        r matches Ok(_) ==> final(cache).inserts() == old(cache).inserts() + 1,
        r is Err ==> final(cache).recorded() == old(cache).recorded(),
        r is Err ==> final(cache).inserts() == old(cache).inserts(),
        final(cache).retains_all() == old(cache).retains_all(),
        final(cache).lookups() == old(cache).lookups(),
{
    let species = match fetched {
        Ok(s) => s,
        Err(e) => return Err(e),
    };
    let response = match PokemonResponse::try_from(species) {
        Ok(v) => v,
        Err(e) => return Err(e),
    };
    cache.insert((name, TranslationType::Plain), response.clone());
    Ok(response)
}

/// First step of a translated request for `pokemon`: the translation it
/// gets, and the cached translated record, or `None` where the translation
/// service must be asked.
pub fn cached_translated<C: CacheWrapper>(
    cache: &mut C,
    pokemon: &PokemonResponse,
) -> (r: (TranslationType, Option<PokemonResponse>))
    ensures
        r.0 == translation_for(pokemon@),
        final(cache).recorded() == old(cache).recorded(),
        final(cache).retains_all() == old(cache).retains_all(),
        final(cache).lookups() == old(cache).lookups() + 1,
        final(cache).inserts() == old(cache).inserts(),
        r.1 is Some ==> optional_view(r.1) == lookup(old(cache).recorded(), (pokemon@.name, r.0)),
        old(cache).retains_all() ==> optional_view(r.1) == lookup(
            old(cache).recorded(),
            (pokemon@.name, r.0),
        ),
{
    let kind = classify(pokemon);
    let key = (pokemon.name().to_owned(), kind);
    (kind, cache.get(&key))
}

/// Second step of a translated request, after a miss: `pokemon` with the
/// translation service's answer as its description, cached under its name
/// and translation. Where the service failed, `pokemon` itself, and nothing
/// is cached.
pub fn fill_translated<C: CacheWrapper>(
    cache: &mut C,
    pokemon: PokemonResponse,
    answer: Result<String, PokError>,
) -> (r: PokemonResponse)
    ensures
        r@ == translated_outcome(pokemon@, answer),
        answer is Ok ==> final(cache).recorded() == translated_fill(old(cache).recorded(), pokemon@, r@),
        answer is Ok ==> final(cache).inserts() == old(cache).inserts() + 1,
        answer is Err ==> final(cache).recorded() == old(cache).recorded(),
        answer is Err ==> final(cache).inserts() == old(cache).inserts(),
        final(cache).retains_all() == old(cache).retains_all(),
        final(cache).lookups() == old(cache).lookups(),
{
    let mut pokemon = pokemon;
    match answer {
        Ok(translated) => {
            let kind = classify(&pokemon);
            pokemon.set_description(translated);
            cache.insert((pokemon.name().to_owned(), kind), pokemon.clone());
            pokemon
        },
        Err(_) => pokemon,
    }
}

/// Serving the same species twice asks the species service once: after a
/// plain request for `name` cached `record`, a cache that keeps its entries
/// answers the next plain request for `name` with that same record. The fill
/// added that one entry and left every other key as it was.
pub proof fn plain_second_request_hits(
    m: Map<(Seq<char>, TranslationType), SpeciesRecord>,
    name: Seq<char>,
    record: SpeciesRecord,
)
    ensures
        lookup(plain_fill(m, name, record), plain_key(name)) == Some(record),
        plain_fill(m, name, record).dom() == m.dom().insert(plain_key(name)),
        forall|k: (Seq<char>, TranslationType)|
            k != plain_key(name) ==> lookup(plain_fill(m, name, record), k) == lookup(m, k),
{
    assert(plain_fill(m, name, record).dom() =~= m.dom().insert(plain_key(name)));
}

/// Serving the same translated species twice asks the translation service
/// once: after `record` was translated into `translated` and cached, a cache
/// that keeps its entries answers the next translated request for the species
/// with `translated`.
pub proof fn translated_second_request_hits(
    m: Map<(Seq<char>, TranslationType), SpeciesRecord>,
    record: SpeciesRecord,
    translated: SpeciesRecord,
)
    ensures
        lookup(translated_fill(m, record, translated), (record.name, translation_for(record)))
            == Some(translated),
{
}

/// A translated record never shadows another variant of its species: after
/// it is cached, the untranslated record and the record under any other
/// translation are answered exactly as before.
pub proof fn translated_fill_keeps_other_keys(
    m: Map<(Seq<char>, TranslationType), SpeciesRecord>,
    record: SpeciesRecord,
    translated: SpeciesRecord,
    other: TranslationType,
)
    requires
        other != translation_for(record),
    ensures
        translation_for(record) != TranslationType::Plain,
        lookup(translated_fill(m, record, translated), plain_key(record.name)) == lookup(
            m,
            plain_key(record.name),
        ),
        lookup(translated_fill(m, record, translated), (record.name, other)) == lookup(
            m,
            (record.name, other),
        ),
{
}

} // verus!

use vstd::prelude::*;
use crate::util::PokError;

verus! {

/// A species as the species service describes it.
pub struct SpeciesView {
    pub name: Seq<char>,
    /// Each description with the name of its language, in the service's order.
    pub descriptions: Seq<(Seq<char>, Seq<char>)>,
    pub habitat: Option<Seq<char>>,
    pub is_legendary: bool,
}

/// The record served for a species, translated or not.
pub struct SpeciesRecord {
    pub name: Seq<char>,
    pub description: Seq<char>,
    pub habitat: Seq<char>,
    pub is_legendary: bool,
}

/// `s` with every line feed and form feed turned into a single space.
pub open spec fn spaced_breaks(s: Seq<char>) -> Seq<char> {
    s.map_values(|c: char| if c == '\n' || c == '\x0c' { ' ' } else { c })
}

/// The first description in `d` written in `lang`, as the service gave it.
pub open spec fn first_text_in(d: Seq<(Seq<char>, Seq<char>)>, lang: Seq<char>) -> Option<Seq<char>>
    decreases d.len(),
{
    if d.len() == 0 {
        None
    } else if d[0].1 == lang {
        Some(d[0].0)
    } else {
        first_text_in(d.drop_first(), lang)
    }
}

/// The first description of `s` in `lang`, line breaks turned into spaces.
pub open spec fn first_description(s: SpeciesView, lang: Seq<char>) -> Option<Seq<char>> {
    match first_text_in(s.descriptions, lang) {
        Some(t) => Some(spaced_breaks(t)),
        None => None,
    }
}

/// The habitat of `s`, or the literal `null` where the service gave none.
pub open spec fn habitat_name(s: SpeciesView) -> Seq<char> {
    match s.habitat {
        Some(h) => h,
        None => seq!['n', 'u', 'l', 'l'],
    }
}

/// The language whose description is served.
pub open spec fn english() -> Seq<char> {
    seq!['e', 'n']
}

/// The record served for `s`: its English description is required.
pub open spec fn record_of(s: SpeciesView) -> Result<SpeciesRecord, PokError> {
    match first_description(s, english()) {
        Some(d) => Ok(
            SpeciesRecord {
                name: s.name,
                description: d,
                habitat: habitat_name(s),
                is_legendary: s.is_legendary,
            },
        ),
        None => Err(PokError::NoDescription),
    }
}

/// The pattern of one line feed or one form feed.
pub open spec fn breaks_pattern() -> Seq<char> {
    seq!['\n', '|', '\x0c']
}

/// Relies on regex::Regex::new and regex::Regex::replace_all: the pattern of
/// one line feed or one form feed compiles, and each match in `s` is replaced
/// by `rep`, a single space, with every other character kept in place.
#[verifier::external_body]
fn replace_all_matches(pattern: &str, s: &str, rep: &str) -> (r: String)
    requires
        pattern@ == breaks_pattern(),
        rep@ == seq![' '],
    ensures
        r@ == spaced_breaks(s@),
{
    regex::Regex::new(pattern).unwrap().replace_all(s, rep).into_owned()
}

/// A name that may also point at a fuller resource of the species service.
pub struct NamedAPIResource {
    name: String,
}

impl View for NamedAPIResource {
    type V = Seq<char>;

    closed spec fn view(&self) -> Seq<char> {
        self.name@
    }
}

impl NamedAPIResource {
    pub fn new(name: String) -> (r: Self)
        ensures
            r@ == name@,
    {
        NamedAPIResource { name }
    }

    /// The resource's name.
    pub fn name(&self) -> (r: &str)
        ensures
            r@ == self@,
    {
        self.name.as_str()
    }
}

/// A description of a species and the language it is written in.
pub struct FlavourText {
    flavor_text: String,
    language: NamedAPIResource,
}

impl View for FlavourText {
    type V = (Seq<char>, Seq<char>);

    closed spec fn view(&self) -> (Seq<char>, Seq<char>) {
        (self.flavor_text@, self.language@)
    }
}

impl FlavourText {
    pub fn new(flavor_text: String, language: NamedAPIResource) -> (r: Self)
        ensures
            r@ == (flavor_text@, language@),
    {
        FlavourText { flavor_text, language }
    }

    /// The description itself, line breaks included.
    pub fn flavor_text(&self) -> (r: &str)
        ensures
            r@ == self@.0,
    {
        self.flavor_text.as_str()
    }

    /// The language of the description.
    pub fn language(&self) -> (r: &NamedAPIResource)
        ensures
            r@ == self@.1,
    {
        &self.language
    }
}

/// A species as the species service describes it: only the fields that the
/// served record needs.
pub struct PokemonSpecies {
    name: String,
    descriptions: Vec<FlavourText>,
    habitat: Option<NamedAPIResource>,
    is_legendary: bool,
}

/// The views of `v`, in order.
pub open spec fn texts_view(v: Seq<FlavourText>) -> Seq<(Seq<char>, Seq<char>)> {
    v.map_values(|f: FlavourText| f@)
}

impl View for PokemonSpecies {
    type V = SpeciesView;

    closed spec fn view(&self) -> SpeciesView {
        SpeciesView {
            name: self.name@,
            descriptions: texts_view(self.descriptions@),
            habitat: match self.habitat {
                Some(h) => Some(h@),
                None => None,
            },
            is_legendary: self.is_legendary,
        }
    }
}

impl PokemonSpecies {
    pub fn new(
        name: String,
        descriptions: Vec<FlavourText>,
        habitat: Option<NamedAPIResource>,
        is_legendary: bool,
    ) -> (r: Self)
        ensures
            r@ == (SpeciesView {
                name: name@,
                descriptions: texts_view(descriptions@),
                habitat: match habitat {
                    Some(h) => Some(h@),
                    None => None,
                },
                is_legendary,
            }),
    {
        PokemonSpecies { name, descriptions, habitat, is_legendary }
    }

    /// The species' name.
    pub fn name(&self) -> (r: &str)
        ensures
            r@ == self@.name,
    {
        self.name.as_str()
    }

    /// Whether the species is legendary.
    pub fn is_legendary(&self) -> (r: bool)
        ensures
            r == self@.is_legendary,
    {
        self.is_legendary
    }

    /// The first description in the language named `key`, with each line feed
    /// and form feed turned into a space; `None` where no description is in
    /// that language.
    pub fn get_first_description(&self, key: &str) -> (r: Option<String>)
        ensures
            r matches Some(d) ==> first_description(self@, key@) == Some(d@),
            r is None ==> first_description(self@, key@) is None,
    {
        let lang = key.to_owned();
        let ghost d = texts_view(self.descriptions@);
        let mut i: usize = 0;
        assert(d.subrange(0, d.len() as int) =~= d);
        while i < self.descriptions.len()
            invariant
                i <= self.descriptions@.len(),
                d == texts_view(self.descriptions@),
                lang@ == key@,
                first_text_in(d, key@) == first_text_in(d.subrange(i as int, d.len() as int), key@),
            decreases self.descriptions@.len() - i,
        {
            let ghost rest = d.subrange(i as int, d.len() as int);
            assert(rest[0] == d[i as int]);
            if self.descriptions[i].language.name == lang {
                let pattern = "\n|\x0c";
                let space = " ";
                proof {
                    reveal_strlit("\n|\x0c");
                    reveal_strlit(" ");
                }
                assert(pattern@ =~= breaks_pattern());
                assert(space@ =~= seq![' ']);
                return Some(replace_all_matches(pattern, self.descriptions[i].flavor_text.as_str(), space));
            }
            assert(rest.drop_first() =~= d.subrange(i + 1, d.len() as int));
            i = i + 1;
        }
        assert(d.subrange(i as int, d.len() as int) =~= Seq::<(Seq<char>, Seq<char>)>::empty());
        None
    }

    /// The species' habitat, or the literal `null` where the service gave none.
    pub fn habitat(&self) -> (r: &str)
        ensures
            r@ == habitat_name(self@),
    {
        match &self.habitat {
            Some(resource) => resource.name(),
            None => {
                proof { reveal_strlit("null"); }
                let r = "null";
                assert(r@ =~= habitat_name(self@));
                r
            },
        }
    }
}

/// The record served for a species: a stricter form of `PokemonSpecies` that
/// always carries a description.
pub struct PokemonResponse {
    name: String,
    description: String,
    habitat: String,
    is_legendary: bool,
}

impl View for PokemonResponse {
    type V = SpeciesRecord;

    closed spec fn view(&self) -> SpeciesRecord {
        SpeciesRecord {
            name: self.name@,
            description: self.description@,
            habitat: self.habitat@,
            is_legendary: self.is_legendary,
        }
    }
}

impl Clone for PokemonResponse {
    fn clone(&self) -> (r: Self)
        ensures
            r@ == self@,
    {
        PokemonResponse {
            name: self.name.clone(),
            description: self.description.clone(),
            habitat: self.habitat.clone(),
            is_legendary: self.is_legendary,
        }
    }
}

impl TryFrom<PokemonSpecies> for PokemonResponse {
    type Error = PokError;

    /// The record built from `species`; fails with `NoDescription` where the
    /// species has no English description.
    fn try_from(species: PokemonSpecies) -> (r: Result<Self, Self::Error>)
        ensures
            r matches Ok(v) ==> record_of(species@) == Ok::<SpeciesRecord, PokError>(v@),
            r matches Err(e) ==> record_of(species@) == Err::<SpeciesRecord, PokError>(e),
    {
        let en = "en";
        proof { reveal_strlit("en"); }
        assert(en@ =~= english());
        match species.get_first_description(en) {
            Some(description) => Ok(
                PokemonResponse {
                    name: species.name().to_owned(),
                    description,
                    habitat: species.habitat().to_owned(),
                    is_legendary: species.is_legendary(),
                },
            ),
            None => Err(PokError::NoDescription),
        }
    }
}

impl vstd::std_specs::convert::TryFromSpecImpl<PokemonSpecies> for PokemonResponse {
    open spec fn obeys_try_from_spec() -> bool {
        false
    }

    open spec fn try_from_spec(species: PokemonSpecies) -> Result<Self, PokError> {
        arbitrary()
    }
}

impl PokemonResponse {
    pub fn new(name: String, description: String, habitat: String, is_legendary: bool) -> (r: Self)
        ensures
            r@ == (SpeciesRecord {
                name: name@,
                description: description@,
                habitat: habitat@,
                is_legendary,
            }),
    {
        PokemonResponse { name, description, habitat, is_legendary }
    }

    /// The species' name.
    pub fn name(&self) -> (r: &str)
        ensures
            r@ == self@.name,
    {
        self.name.as_str()
    }

    /// The description served, translated or not.
    pub fn description(&self) -> (r: &str)
        ensures
            r@ == self@.description,
    {
        self.description.as_str()
    }

    /// The species' habitat.
    pub fn habitat(&self) -> (r: &str)
        ensures
            r@ == self@.habitat,
    {
        self.habitat.as_str()
    }

    /// Whether the species is legendary.
    pub fn is_legendary(&self) -> (r: bool)
        ensures
            r == self@.is_legendary,
    {
        self.is_legendary
    }

    /// Replaces the description, leaving the other fields as they were.
    pub fn set_description(&mut self, translated: String)
        ensures
            final(self)@ == (SpeciesRecord { description: translated@, ..old(self)@ }),
    {
        self.description = translated;
    }
}

/// The answer of the translation service.
pub struct TranslationUnit {
    contents: Contents,
}

impl View for TranslationUnit {
    type V = Seq<char>;

    closed spec fn view(&self) -> Seq<char> {
        self.contents@
    }
}

impl TranslationUnit {
    pub fn new(contents: Contents) -> (r: Self)
        ensures
            r@ == contents@,
    {
        TranslationUnit { contents }
    }

    /// The translated contents.
    pub fn contents(&self) -> (r: &Contents)
        ensures
            r@ == self@,
    {
        &self.contents
    }
}

/// The translated text, as the translation service nests it.
pub struct Contents {
    translated: String,
}

impl View for Contents {
    type V = Seq<char>;

    closed spec fn view(&self) -> Seq<char> {
        self.translated@
    }
}

impl Contents {
    pub fn new(translated: String) -> (r: Self)
        ensures
            r@ == translated@,
    {
        Contents { translated }
    }

    /// The translated text.
    pub fn translated(&self) -> (r: &str)
        ensures
            r@ == self@,
    {
        self.translated.as_str()
    }
}

} // verus!

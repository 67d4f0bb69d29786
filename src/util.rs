use vstd::prelude::*;

verus! {

/// The translation requested for a species description.
///
/// Species that live in caves or are legendary are translated in the Yoda
/// style, all others in the Shakespeare style. `Plain` marks a request for the
/// untranslated record and only ever serves as part of a cache key.
#[derive(Clone, Copy, Debug, Hash, PartialEq, Eq, Structural)]
pub enum TranslationType {
    Yoda,
    Shakespeare,
    Plain,
}

/// The path segment naming a translation style.
pub open spec fn style_name(t: TranslationType) -> Seq<char> {
    match t {
        TranslationType::Yoda => seq!['y', 'o', 'd', 'a'],
        TranslationType::Shakespeare => seq!['s', 'h', 'a', 'k', 'e', 's', 'p', 'e', 'a', 'r', 'e'],
        TranslationType::Plain => Seq::empty(),
    }
}

impl TranslationType {
    /// The name of the style as used in the translation service's path.
    ///
    /// A translation is never requested without a style.
    pub fn to_string(&self) -> (r: String)
        requires
            *self != TranslationType::Plain,
        ensures
            r@ == style_name(*self),
    {
        match self {
            TranslationType::Yoda => {
                let r = "yoda".to_owned();
                proof { reveal_strlit("yoda"); }
                assert(r@ =~= style_name(*self));
                r
            },
            _ => {
                let r = "shakespeare".to_owned();
                proof { reveal_strlit("shakespeare"); }
                assert(r@ =~= style_name(*self));
                r
            },
        }
    }
}

/// What can go wrong while serving a request.
#[derive(Clone, Copy, Debug, PartialEq, Eq, Structural)]
pub enum PokError {
    /// The connection to an upstream service failed.
    Transport,
    /// An upstream service answered with a non-success status.
    Unavailable(u16),
    /// An upstream answer could not be decoded.
    Parse,
    /// The species carried no description in the language asked for.
    NoDescription,
}

/// The HTTP status that answers a request failing with `e`.
pub open spec fn status_of(e: PokError) -> u16 {
    match e {
        PokError::Transport => 500,
        PokError::Parse => 500,
        PokError::Unavailable(_) => 502,
        PokError::NoDescription => 502,
    }
}

impl PokError {
    /// The HTTP status to answer with.
    pub fn status_code(&self) -> (r: u16)
        ensures
            r == status_of(*self),
    {
        match self {
            PokError::Transport => 500,
            PokError::Parse => 500,
            PokError::Unavailable(_) => 502,
            PokError::NoDescription => 502,
        }
    }
}

/// The message that answers a request failing with `e`.
pub open spec fn message_of(e: PokError) -> Seq<char> {
    match e {
        PokError::Transport => "Internal Server Error"@,
        PokError::Parse => "Failed to parse JSON response from API"@,
        PokError::Unavailable(_) => "Failed to connect to upstream service"@,
        PokError::NoDescription => "Pokeapi did not return a description for this pokemon"@,
    }
}

impl PokError {
    /// The message to answer with.
    pub fn message(&self) -> (r: String)
        ensures
            r@ == message_of(*self),
    {
        match self {
            PokError::Transport => "Internal Server Error".to_owned(),
            PokError::Parse => "Failed to parse JSON response from API".to_owned(),
            PokError::Unavailable(_) => "Failed to connect to upstream service".to_owned(),
            PokError::NoDescription => "Pokeapi did not return a description for this pokemon".to_owned(),
        }
    }
}

/// Whether `status` is a success status of HTTP.
pub open spec fn is_success(status: u16) -> bool {
    200 <= status < 300
}

/// Accepts an upstream answer with a success status; any other status makes
/// the request fail as `Unavailable`, carrying the status.
pub fn check_status(status: u16) -> (r: Result<(), PokError>)
    ensures
        r is Ok <==> is_success(status),
        r matches Err(e) ==> e == PokError::Unavailable(status),
{
    if 200 <= status && status < 300 {
        Ok(())
    } else {
        Err(PokError::Unavailable(status))
    }
}

} // verus!

//! The endpoint catalogue: every upstream method the proxy serves, with
//! its route path and its parameter descriptions. One data-driven table
//! stands in for per-method dispatch code.

use vstd::prelude::*;
use crate::lex::str_eq;
use crate::store::push_char;

verus! {

/// The endpoint categories of the upstream API.
#[derive(Debug, Clone, Copy, PartialEq, Eq, Structural)]
pub enum EndpointCategory {
    Artist,
    Album,
    Track,
    Chart,
    Geo,
    Tag,
    User,
    Library,
}

/// The name of a category, as it appears in methods and paths.
pub open spec fn category_name(c: EndpointCategory) -> Seq<char> {
    match c {
        EndpointCategory::Artist => "artist"@,
        EndpointCategory::Album => "album"@,
        EndpointCategory::Track => "track"@,
        EndpointCategory::Chart => "chart"@,
        EndpointCategory::Geo => "geo"@,
        EndpointCategory::Tag => "tag"@,
        EndpointCategory::User => "user"@,
        EndpointCategory::Library => "library"@,
    }
}

/// The category a name denotes, if any.
pub open spec fn category_of(s: Seq<char>) -> Option<EndpointCategory> {
    if s == "artist"@ {
        Some(EndpointCategory::Artist)
    } else if s == "album"@ {
        Some(EndpointCategory::Album)
    } else if s == "track"@ {
        Some(EndpointCategory::Track)
    } else if s == "chart"@ {
        Some(EndpointCategory::Chart)
    } else if s == "geo"@ {
        Some(EndpointCategory::Geo)
    } else if s == "tag"@ {
        Some(EndpointCategory::Tag)
    } else if s == "user"@ {
        Some(EndpointCategory::User)
    } else if s == "library"@ {
        Some(EndpointCategory::Library)
    } else {
        None
    }
}

impl EndpointCategory {
    /// The category's name.
    pub fn as_str(&self) -> (r: &'static str)
        ensures
            r@ == category_name(*self),
    {
        match self {
            EndpointCategory::Artist => "artist",
            EndpointCategory::Album => "album",
            EndpointCategory::Track => "track",
            EndpointCategory::Chart => "chart",
            EndpointCategory::Geo => "geo",
            EndpointCategory::Tag => "tag",
            EndpointCategory::User => "user",
            EndpointCategory::Library => "library",
        }
    }

    /// The category a name denotes, if any.
    pub fn from_str(s: &str) -> (r: Option<Self>)
        ensures
            r == category_of(s@),
    {
        if str_eq(s, "artist") {
            Some(EndpointCategory::Artist)
        } else if str_eq(s, "album") {
            Some(EndpointCategory::Album)
        } else if str_eq(s, "track") {
            Some(EndpointCategory::Track)
        } else if str_eq(s, "chart") {
            Some(EndpointCategory::Chart)
        } else if str_eq(s, "geo") {
            Some(EndpointCategory::Geo)
        } else if str_eq(s, "tag") {
            Some(EndpointCategory::Tag)
        } else if str_eq(s, "user") {
            Some(EndpointCategory::User)
        } else if str_eq(s, "library") {
            Some(EndpointCategory::Library)
        } else {
            None
        }
    }
}

/// The type of a parameter's value.
#[derive(Debug, Clone, PartialEq, Eq, Structural)]
pub enum ParameterType {
    String,
    Integer,
    Boolean,
    Enum,
}

/// A parameter an endpoint accepts.
#[derive(Debug, Clone)]
pub struct Parameter {
    pub name: String,
    pub description: String,
    pub required: bool,
    pub param_type: ParameterType,
    pub default: Option<String>,
    pub allowed_values: Option<Vec<String>>,
}

/// An endpoint: a category and method, the route path they map to, and the
/// parameters the method accepts.
#[derive(Debug, Clone)]
pub struct Endpoint {
    pub category: String,
    pub method: String,
    pub path: String,
    pub description: String,
    pub requires_auth: bool,
    pub parameters: Vec<Parameter>,
}

/// A method name with every dot turned into a path separator.
pub open spec fn dots_to_slashes(s: Seq<char>) -> Seq<char> {
    s.map_values(
        |c: char|
            if c == '.' {
                '/'
            } else {
                c
            },
    )
}

/// Turn every dot of a method name into a path separator.
fn replace_dots(s: &str) -> (r: String)
    ensures
        r@ == dots_to_slashes(s@),
{
    let n = s.unicode_len();
    let mut out = String::new();
    proof {
        assert(out@ =~= dots_to_slashes(s@.take(0)));
    }
    let mut i: usize = 0;
    while i < n
        invariant
            0 <= i <= n,
            n == s@.len(),
            out@ == dots_to_slashes(s@.take(i as int)),
        decreases n - i,
    {
        let c = s.get_char(i);
        if c == '.' {
            push_char(&mut out, '/');
        } else {
            push_char(&mut out, c);
        }
        proof {
            assert(out@ =~= dots_to_slashes(s@.take(i as int + 1)));
        }
        i = i + 1;
    }
    proof {
        assert(s@.take(n as int) =~= s@);
    }
    out
}

/// The route path shape every endpoint keeps: the category and the method,
/// dots as separators, and no authentication requirement.
pub open spec fn endpoint_wf(e: Endpoint) -> bool {
    &&& e.path@ == "/"@ + e.category@ + "/"@ + dots_to_slashes(e.method@)
    &&& !e.requires_auth
}

impl Endpoint {
    /// A new endpoint of a category and method; its route path is derived
    /// from them.
    pub fn new(category: &str, method: &str, description: &str, requires_auth: bool) -> (r:
        Endpoint)
        ensures
            r.category@ == category@,
            r.method@ == method@,
            r.description@ == description@,
            r.requires_auth == requires_auth,
            r.parameters@ =~= Seq::<Parameter>::empty(),
            r.path@ == "/"@ + category@ + "/"@ + dots_to_slashes(method@),
    {
        let mut path = String::new();
        path.append("/");
        path.append(category);
        path.append("/");
        let tail = replace_dots(method);
        path.append(tail.as_str());
        Endpoint {
            category: category.to_owned(),
            method: method.to_owned(),
            path,
            description: description.to_owned(),
            requires_auth,
            parameters: Vec::new(),
        }
    }

    /// The endpoint with one parameter added.
    pub fn with_param(self, param: Parameter) -> (r: Endpoint)
        ensures
            r.category == self.category,
            r.method == self.method,
            r.path == self.path,
            r.description == self.description,
            r.requires_auth == self.requires_auth,
            r.parameters@ == self.parameters@.push(param),
    {
        let mut e = self;
        e.parameters.push(param);
        e
    }

    /// The full method name: `category.method`.
    pub fn full_method(&self) -> (r: String)
        ensures
            r@ == self.category@ + "."@ + self.method@,
    {
        let mut out = String::new();
        out.append(self.category.as_str());
        out.append(".");
        out.append(self.method.as_str());
        out
    }
}

/// The decimal rendering of a possibly negative default value.
pub open spec fn int_string_of(v: int) -> Seq<char> {
    if v < 0 {
        seq!['-'] + crate::store::dec_string_of((-v) as nat)
    } else {
        crate::store::dec_string_of(v as nat)
    }
}

/// Render a default value in decimal.
fn i32_to_string(v: i32) -> (r: String)
    ensures
        r@ == int_string_of(v as int),
{
    if v >= 0 {
        crate::store::u32_to_string(v as u32)
    } else {
        let magnitude: u32 = (-(v as i64)) as u32;
        let mut out = String::new();
        push_char(&mut out, '-');
        let digits = crate::store::u32_to_string(magnitude);
        out.append(digits.as_str());
        proof {
            assert(out@ =~= int_string_of(v as int));
        }
        out
    }
}

impl Parameter {
    /// A required string parameter.
    pub fn required_string(name: &str, description: &str) -> (r: Parameter)
        ensures
            r.name@ == name@,
            r.description@ == description@,
            r.required,
            r.param_type == ParameterType::String,
            r.default is None,
            r.allowed_values is None,
    {
        Parameter {
            name: name.to_owned(),
            description: description.to_owned(),
            required: true,
            param_type: ParameterType::String,
            default: None,
            allowed_values: None,
        }
    }

    /// An optional string parameter.
    pub fn optional_string(name: &str, description: &str, default: Option<String>) -> (r:
        Parameter)
        ensures
            r.name@ == name@,
            r.description@ == description@,
            !r.required,
            r.param_type == ParameterType::String,
            r.default == default,
            r.allowed_values is None,
    {
        Parameter {
            name: name.to_owned(),
            description: description.to_owned(),
            required: false,
            param_type: ParameterType::String,
            default,
            allowed_values: None,
        }
    }

    /// An optional integer parameter.
    pub fn optional_integer(name: &str, description: &str, default: Option<i32>) -> (r:
        Parameter)
        ensures
            r.name@ == name@,
            r.description@ == description@,
            !r.required,
            r.param_type == ParameterType::Integer,
            match default {
                Some(v) => r.default is Some && r.default->0@ == int_string_of(v as int),
                None => r.default is None,
            },
            r.allowed_values is None,
    {
        let rendered = match default {
            Some(v) => Some(i32_to_string(v)),
            None => None,
        };
        Parameter {
            name: name.to_owned(),
            description: description.to_owned(),
            required: false,
            param_type: ParameterType::Integer,
            default: rendered,
            allowed_values: None,
        }
    }

    /// An optional boolean parameter, rendered as `1` or `0`.
    pub fn optional_boolean(name: &str, description: &str, default: bool) -> (r: Parameter)
        ensures
            r.name@ == name@,
            r.description@ == description@,
            !r.required,
            r.param_type == ParameterType::Boolean,
            r.default is Some && r.default->0@ == (if default {
                "1"@
            } else {
                "0"@
            }),
            r.allowed_values is None,
    {
        let rendered: String = if default {
            "1".to_owned()
        } else {
            "0".to_owned()
        };
        Parameter {
            name: name.to_owned(),
            description: description.to_owned(),
            required: false,
            param_type: ParameterType::Boolean,
            default: Some(rendered),
            allowed_values: None,
        }
    }

    /// A parameter restricted to a fixed set of values; it is required
    /// exactly when it has no default.
    pub fn enum_param(
        name: &str,
        description: &str,
        allowed_values: Vec<String>,
        default: Option<String>,
    ) -> (r: Parameter)
        ensures
            r.name@ == name@,
            r.description@ == description@,
            r.required == (default is None),
            r.param_type == ParameterType::Enum,
            r.default == default,
            r.allowed_values is Some && r.allowed_values->0 == allowed_values,
    {
        let required = match &default {
            Some(_) => false,
            None => true,
        };
        Parameter {
            name: name.to_owned(),
            description: description.to_owned(),
            required,
            param_type: ParameterType::Enum,
            default,
            allowed_values: Some(allowed_values),
        }
    }
}

/// Append an endpoint that keeps the catalogue's shape.
fn push_endpoint(v: &mut Vec<Endpoint>, e: Endpoint)
    requires
        endpoint_wf(e),
        forall|i: int| 0 <= i < old(v)@.len() ==> endpoint_wf(#[trigger] old(v)@[i]),
    ensures
        final(v)@ == old(v)@.push(e),
        final(v)@.len() == old(v)@.len() + 1,
        forall|i: int| 0 <= i < final(v)@.len() ==> endpoint_wf(#[trigger] final(v)@[i]),
{
    v.push(e);
}

/// The full method name of every endpoint in a catalogue, in order.
pub open spec fn full_method_views(s: Seq<Endpoint>) -> Seq<Seq<char>> {
    s.map_values(|e: Endpoint| e.category@ + "."@ + e.method@)
}

/// The methods the catalogue serves, in catalogue order.
pub open spec fn catalogue_methods() -> Seq<Seq<char>> {
    seq![
        "artist"@ + "."@ + "getCorrection"@,
        "artist"@ + "."@ + "getInfo"@,
        "artist"@ + "."@ + "getSimilar"@,
        "artist"@ + "."@ + "getTopAlbums"@,
        "artist"@ + "."@ + "getTopTags"@,
        "artist"@ + "."@ + "getTopTracks"@,
        "artist"@ + "."@ + "search"@,
        "album"@ + "."@ + "getInfo"@,
        "album"@ + "."@ + "getTopTags"@,
        "album"@ + "."@ + "search"@,
        "track"@ + "."@ + "getCorrection"@,
        "track"@ + "."@ + "getInfo"@,
        "track"@ + "."@ + "getSimilar"@,
        "track"@ + "."@ + "getTopTags"@,
        "track"@ + "."@ + "search"@,
        "chart"@ + "."@ + "getTopArtists"@,
        "chart"@ + "."@ + "getTopTags"@,
        "chart"@ + "."@ + "getTopTracks"@,
        "geo"@ + "."@ + "getTopArtists"@,
        "geo"@ + "."@ + "getTopTracks"@,
        "tag"@ + "."@ + "getInfo"@,
        "tag"@ + "."@ + "getSimilar"@,
        "tag"@ + "."@ + "getTopAlbums"@,
        "tag"@ + "."@ + "getTopArtists"@,
        "tag"@ + "."@ + "getTopTags"@,
        "tag"@ + "."@ + "getTopTracks"@,
        "tag"@ + "."@ + "getWeeklyChartList"@,
        "user"@ + "."@ + "getFriends"@,
        "user"@ + "."@ + "getInfo"@,
        "user"@ + "."@ + "getLovedTracks"@,
        "user"@ + "."@ + "getPersonalTags"@,
        "user"@ + "."@ + "getRecentTracks"@,
        "user"@ + "."@ + "getTopAlbums"@,
        "user"@ + "."@ + "getTopArtists"@,
        "user"@ + "."@ + "getTopTags"@,
        "user"@ + "."@ + "getTopTracks"@,
        "user"@ + "."@ + "getWeeklyAlbumChart"@,
        "user"@ + "."@ + "getWeeklyArtistChart"@,
        "user"@ + "."@ + "getWeeklyChartList"@,
        "user"@ + "."@ + "getWeeklyTrackChart"@,
        "library"@ + "."@ + "getArtists"@,
    ]
}

/// The values of the listening-period selector.
fn period_values() -> (r: Vec<String>)
{
    let mut v: Vec<String> = Vec::new();
    v.push("overall".to_owned());
    v.push("7day".to_owned());
    v.push("1month".to_owned());
    v.push("3month".to_owned());
    v.push("6month".to_owned());
    v.push("12month".to_owned());
    v
}

/// All available endpoints. Every entry keeps the catalogue's shape: its
/// route path is derived from its category and method, and none requires
/// authentication at the route level.
pub fn get_endpoints() -> (r: Vec<Endpoint>)
    ensures
        r@.len() == 41,
        forall|i: int| 0 <= i < r@.len() ==> endpoint_wf(#[trigger] r@[i]),
        full_method_views(r@) == catalogue_methods(),
{
    let mut v: Vec<Endpoint> = Vec::new();
    push_endpoint(&mut v,
        Endpoint::new("artist", "getCorrection", "Get corrections for misspelled artist names", false)
            .with_param(Parameter::required_string("artist", "Artist name")));
    push_endpoint(&mut v,
        Endpoint::new("artist", "getInfo", "Get artist metadata including biography", false)
            .with_param(Parameter::optional_string("artist", "Artist name", None))
            .with_param(Parameter::optional_string("mbid", "MusicBrainz ID", None))
            .with_param(Parameter::optional_boolean("autocorrect", "Autocorrect misspellings", false))
            .with_param(Parameter::optional_string("lang", "Language for biography", None))
            .with_param(Parameter::optional_string("username", "Username for context", None)));
    push_endpoint(&mut v,
        Endpoint::new("artist", "getSimilar", "Get similar artists", false)
            .with_param(Parameter::optional_string("artist", "Artist name", None))
            .with_param(Parameter::optional_string("mbid", "MusicBrainz ID", None))
            .with_param(Parameter::optional_integer("limit", "Number of results", Some(50)))
            .with_param(Parameter::optional_boolean("autocorrect", "Autocorrect misspellings", false)));
    push_endpoint(&mut v,
        Endpoint::new("artist", "getTopAlbums", "Get top albums for an artist", false)
            .with_param(Parameter::optional_string("artist", "Artist name", None))
            .with_param(Parameter::optional_string("mbid", "MusicBrainz ID", None))
            .with_param(Parameter::optional_boolean("autocorrect", "Autocorrect misspellings", false))
            .with_param(Parameter::optional_integer("page", "Page number", Some(1)))
            .with_param(Parameter::optional_integer("limit", "Results per page", Some(50))));
    push_endpoint(&mut v,
        Endpoint::new("artist", "getTopTags", "Get top tags for an artist", false)
            .with_param(Parameter::optional_string("artist", "Artist name", None))
            .with_param(Parameter::optional_string("mbid", "MusicBrainz ID", None))
            .with_param(Parameter::optional_boolean("autocorrect", "Autocorrect misspellings", false)));
    push_endpoint(&mut v,
        Endpoint::new("artist", "getTopTracks", "Get top tracks by an artist", false)
            .with_param(Parameter::optional_string("artist", "Artist name", None))
            .with_param(Parameter::optional_string("mbid", "MusicBrainz ID", None))
            .with_param(Parameter::optional_boolean("autocorrect", "Autocorrect misspellings", false))
            .with_param(Parameter::optional_integer("page", "Page number", Some(1)))
            .with_param(Parameter::optional_integer("limit", "Results per page", Some(50))));
    push_endpoint(&mut v,
        Endpoint::new("artist", "search", "Search for artists", false)
            .with_param(Parameter::required_string("artist", "Search query"))
            .with_param(Parameter::optional_integer("limit", "Results per page", Some(30)))
            .with_param(Parameter::optional_integer("page", "Page number", Some(1))));
    push_endpoint(&mut v,
        Endpoint::new("album", "getInfo", "Get album metadata and tracklist", false)
            .with_param(Parameter::optional_string("artist", "Artist name", None))
            .with_param(Parameter::optional_string("album", "Album name", None))
            .with_param(Parameter::optional_string("mbid", "MusicBrainz ID", None))
            .with_param(Parameter::optional_boolean("autocorrect", "Autocorrect misspellings", false))
            .with_param(Parameter::optional_string("username", "Username for context", None))
            .with_param(Parameter::optional_string("lang", "Language for biography", None)));
    push_endpoint(&mut v,
        Endpoint::new("album", "getTopTags", "Get top tags for an album", false)
            .with_param(Parameter::required_string("artist", "Artist name"))
            .with_param(Parameter::required_string("album", "Album name"))
            .with_param(Parameter::optional_string("mbid", "MusicBrainz ID", None))
            .with_param(Parameter::optional_boolean("autocorrect", "Autocorrect misspellings", false)));
    push_endpoint(&mut v,
        Endpoint::new("album", "search", "Search for albums", false)
            .with_param(Parameter::required_string("album", "Search query"))
            .with_param(Parameter::optional_integer("limit", "Results per page", Some(30)))
            .with_param(Parameter::optional_integer("page", "Page number", Some(1))));
    push_endpoint(&mut v,
        Endpoint::new("track", "getCorrection", "Get corrections for misspelled track names", false)
            .with_param(Parameter::required_string("artist", "Artist name"))
            .with_param(Parameter::required_string("track", "Track name")));
    push_endpoint(&mut v,
        Endpoint::new("track", "getInfo", "Get track metadata", false)
            .with_param(Parameter::optional_string("artist", "Artist name", None))
            .with_param(Parameter::optional_string("track", "Track name", None))
            .with_param(Parameter::optional_string("mbid", "MusicBrainz ID", None))
            .with_param(Parameter::optional_string("username", "Username for context", None))
            .with_param(Parameter::optional_boolean("autocorrect", "Autocorrect misspellings", false)));
    push_endpoint(&mut v,
        Endpoint::new("track", "getSimilar", "Get similar tracks", false)
            .with_param(Parameter::optional_string("artist", "Artist name", None))
            .with_param(Parameter::optional_string("track", "Track name", None))
            .with_param(Parameter::optional_string("mbid", "MusicBrainz ID", None))
            .with_param(Parameter::optional_boolean("autocorrect", "Autocorrect misspellings", false))
            .with_param(Parameter::optional_integer("limit", "Number of results", Some(50))));
    push_endpoint(&mut v,
        Endpoint::new("track", "getTopTags", "Get top tags for a track", false)
            .with_param(Parameter::required_string("artist", "Artist name"))
            .with_param(Parameter::required_string("track", "Track name"))
            .with_param(Parameter::optional_string("mbid", "MusicBrainz ID", None))
            .with_param(Parameter::optional_boolean("autocorrect", "Autocorrect misspellings", false)));
    push_endpoint(&mut v,
        Endpoint::new("track", "search", "Search for tracks", false)
            .with_param(Parameter::required_string("track", "Search query"))
            .with_param(Parameter::optional_string("artist", "Filter by artist", None))
            .with_param(Parameter::optional_integer("limit", "Results per page", Some(30)))
            .with_param(Parameter::optional_integer("page", "Page number", Some(1))));
    push_endpoint(&mut v,
        Endpoint::new("chart", "getTopArtists", "Get top artists chart", false)
            .with_param(Parameter::optional_integer("page", "Page number", Some(1)))
            .with_param(Parameter::optional_integer("limit", "Results per page", Some(50))));
    push_endpoint(&mut v,
        Endpoint::new("chart", "getTopTags", "Get top tags chart", false)
            .with_param(Parameter::optional_integer("page", "Page number", Some(1)))
            .with_param(Parameter::optional_integer("limit", "Results per page", Some(50))));
    push_endpoint(&mut v,
        Endpoint::new("chart", "getTopTracks", "Get top tracks chart", false)
            .with_param(Parameter::optional_integer("page", "Page number", Some(1)))
            .with_param(Parameter::optional_integer("limit", "Results per page", Some(50))));
    push_endpoint(&mut v,
        Endpoint::new("geo", "getTopArtists", "Get top artists by country", false)
            .with_param(Parameter::required_string("country", "Country name (ISO 3166-1)"))
            .with_param(Parameter::optional_integer("page", "Page number", Some(1)))
            .with_param(Parameter::optional_integer("limit", "Results per page", Some(50))));
    push_endpoint(&mut v,
        Endpoint::new("geo", "getTopTracks", "Get top tracks by country", false)
            .with_param(Parameter::required_string("country", "Country name (ISO 3166-1)"))
            .with_param(Parameter::optional_integer("page", "Page number", Some(1)))
            .with_param(Parameter::optional_integer("limit", "Results per page", Some(50))));
    push_endpoint(&mut v,
        Endpoint::new("tag", "getInfo", "Get tag information", false)
            .with_param(Parameter::required_string("tag", "Tag name"))
            .with_param(Parameter::optional_string("lang", "Language for summary", None)));
    push_endpoint(&mut v,
        Endpoint::new("tag", "getSimilar", "Get similar tags", false)
            .with_param(Parameter::required_string("tag", "Tag name")));
    push_endpoint(&mut v,
        Endpoint::new("tag", "getTopAlbums", "Get top albums for a tag", false)
            .with_param(Parameter::required_string("tag", "Tag name"))
            .with_param(Parameter::optional_integer("limit", "Results per page", Some(50)))
            .with_param(Parameter::optional_integer("page", "Page number", Some(1))));
    push_endpoint(&mut v,
        Endpoint::new("tag", "getTopArtists", "Get top artists for a tag", false)
            .with_param(Parameter::required_string("tag", "Tag name"))
            .with_param(Parameter::optional_integer("limit", "Results per page", Some(50)))
            .with_param(Parameter::optional_integer("page", "Page number", Some(1))));
    push_endpoint(&mut v, Endpoint::new("tag", "getTopTags", "Get global top tags", false));
    push_endpoint(&mut v,
        Endpoint::new("tag", "getTopTracks", "Get top tracks for a tag", false)
            .with_param(Parameter::required_string("tag", "Tag name"))
            .with_param(Parameter::optional_integer("limit", "Results per page", Some(50)))
            .with_param(Parameter::optional_integer("page", "Page number", Some(1))));
    push_endpoint(&mut v,
        Endpoint::new("tag", "getWeeklyChartList", "Get available charts for a tag", false)
            .with_param(Parameter::required_string("tag", "Tag name")));
    push_endpoint(&mut v,
        Endpoint::new("user", "getFriends", "Get a user's friends", false)
            .with_param(Parameter::required_string("user", "Username"))
            .with_param(Parameter::optional_boolean("recenttracks", "Include recent tracks", false))
            .with_param(Parameter::optional_integer("limit", "Results per page", Some(50)))
            .with_param(Parameter::optional_integer("page", "Page number", Some(1))));
    push_endpoint(&mut v,
        Endpoint::new("user", "getInfo", "Get user profile information", false)
            .with_param(Parameter::optional_string("user", "Username", None)));
    push_endpoint(&mut v,
        Endpoint::new("user", "getLovedTracks", "Get a user's loved tracks", false)
            .with_param(Parameter::required_string("user", "Username"))
            .with_param(Parameter::optional_integer("limit", "Results per page", Some(50)))
            .with_param(Parameter::optional_integer("page", "Page number", Some(1))));
    push_endpoint(&mut v,
        Endpoint::new("user", "getPersonalTags", "Get a user's personal tags", false)
            .with_param(Parameter::required_string("user", "Username"))
            .with_param(Parameter::required_string("tag", "Tag name"))
            .with_param({
                let mut values: Vec<String> = Vec::new();
                values.push("artist".to_owned());
                values.push("album".to_owned());
                values.push("track".to_owned());
                Parameter::enum_param("taggingtype", "Type of items tagged", values, None)
            })
            .with_param(Parameter::optional_integer("limit", "Results per page", Some(50)))
            .with_param(Parameter::optional_integer("page", "Page number", Some(1))));
    push_endpoint(&mut v,
        Endpoint::new("user", "getRecentTracks", "Get a user's recent tracks", false)
            .with_param(Parameter::required_string("user", "Username"))
            .with_param(Parameter::optional_integer("limit", "Results per page (max 200)", Some(50)))
            .with_param(Parameter::optional_integer("page", "Page number", Some(1)))
            .with_param(Parameter::optional_integer("from", "Beginning timestamp", None))
            .with_param(Parameter::optional_integer("to", "End timestamp", None))
            .with_param(Parameter::optional_boolean("extended", "Include extended data", false)));
    push_endpoint(&mut v,
        Endpoint::new("user", "getTopAlbums", "Get a user's top albums", false)
            .with_param(Parameter::required_string("user", "Username"))
            .with_param(Parameter::enum_param("period", "Time period", period_values(),
                Some("overall".to_owned())))
            .with_param(Parameter::optional_integer("limit", "Results per page", Some(50)))
            .with_param(Parameter::optional_integer("page", "Page number", Some(1))));
    push_endpoint(&mut v,
        Endpoint::new("user", "getTopArtists", "Get a user's top artists", false)
            .with_param(Parameter::required_string("user", "Username"))
            .with_param(Parameter::enum_param("period", "Time period", period_values(),
                Some("overall".to_owned())))
            .with_param(Parameter::optional_integer("limit", "Results per page", Some(50)))
            .with_param(Parameter::optional_integer("page", "Page number", Some(1))));
    push_endpoint(&mut v,
        Endpoint::new("user", "getTopTags", "Get a user's top tags", false)
            .with_param(Parameter::required_string("user", "Username"))
            .with_param(Parameter::optional_integer("limit", "Number of results", Some(50))));
    push_endpoint(&mut v,
        Endpoint::new("user", "getTopTracks", "Get a user's top tracks", false)
            .with_param(Parameter::required_string("user", "Username"))
            .with_param(Parameter::enum_param("period", "Time period", period_values(),
                Some("overall".to_owned())))
            .with_param(Parameter::optional_integer("limit", "Results per page", Some(50)))
            .with_param(Parameter::optional_integer("page", "Page number", Some(1))));
    push_endpoint(&mut v,
        Endpoint::new("user", "getWeeklyAlbumChart", "Get a user's weekly album chart", false)
            .with_param(Parameter::required_string("user", "Username"))
            .with_param(Parameter::optional_integer("from", "Start timestamp", None))
            .with_param(Parameter::optional_integer("to", "End timestamp", None)));
    push_endpoint(&mut v,
        Endpoint::new("user", "getWeeklyArtistChart", "Get a user's weekly artist chart", false)
            .with_param(Parameter::required_string("user", "Username"))
            .with_param(Parameter::optional_integer("from", "Start timestamp", None))
            .with_param(Parameter::optional_integer("to", "End timestamp", None)));
    push_endpoint(&mut v,
        Endpoint::new("user", "getWeeklyChartList", "Get available charts for a user", false)
            .with_param(Parameter::required_string("user", "Username")));
    push_endpoint(&mut v,
        Endpoint::new("user", "getWeeklyTrackChart", "Get a user's weekly track chart", false)
            .with_param(Parameter::required_string("user", "Username"))
            .with_param(Parameter::optional_integer("from", "Start timestamp", None))
            .with_param(Parameter::optional_integer("to", "End timestamp", None)));
    push_endpoint(&mut v,
        Endpoint::new("library", "getArtists", "Get all artists in a user's library", false)
            .with_param(Parameter::required_string("user", "Username"))
            .with_param(Parameter::optional_integer("limit", "Results per page", Some(50)))
            .with_param(Parameter::optional_integer("page", "Page number", Some(1))));
    proof {
        assert(full_method_views(v@) =~= catalogue_methods());
    }
    v
}

} // verus!

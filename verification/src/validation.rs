//! Required-parameter validation per upstream method name: a rule per
//! method, checked against the parameter set before any network activity.

use vstd::prelude::*;
use crate::lex::str_eq;
use crate::params::ParamSet;

verus! {

/// The validation rule of a method.
pub enum RuleForm {
    /// No required parameters.
    NoneRequired,
    /// One key must be present.
    Required(Seq<char>),
    /// At least one of two keys must be present.
    AnyOf(Seq<char>, Seq<char>),
    /// Both keys must be present.
    AllOf(Seq<char>, Seq<char>),
    /// All three keys must be present.
    AllOfThree(Seq<char>, Seq<char>, Seq<char>),
    /// Either both of the first two keys, or the alternate key.
    PairOrAlt(Seq<char>, Seq<char>, Seq<char>),
}

/// Whether a parameter mapping satisfies a rule. An empty string value
/// counts as present: only absence of the key fails a rule.
pub open spec fn rule_satisfied(r: RuleForm, pm: Map<Seq<char>, Seq<char>>) -> bool {
    match r {
        RuleForm::NoneRequired => true,
        RuleForm::Required(k) => pm.contains_key(k),
        RuleForm::AnyOf(a, b) => pm.contains_key(a) || pm.contains_key(b),
        RuleForm::AllOf(a, b) => pm.contains_key(a) && pm.contains_key(b),
        RuleForm::AllOfThree(a, b, c) => pm.contains_key(a) && pm.contains_key(b)
            && pm.contains_key(c),
        RuleForm::PairOrAlt(a, b, alt) => (pm.contains_key(a) && pm.contains_key(b))
            || pm.contains_key(alt),
    }
}

/// The error message reported when a rule is not satisfied.
pub open spec fn rule_missing_message(r: RuleForm) -> Seq<char> {
    match r {
        RuleForm::NoneRequired => Seq::empty(),
        RuleForm::Required(k) => "Missing required parameter: "@ + k,
        RuleForm::AnyOf(a, b) => "Missing required parameter: "@ + a + " or "@ + b,
        RuleForm::AllOf(a, b) => "Missing required parameters: "@ + a + " and "@ + b,
        RuleForm::AllOfThree(a, b, c) => "Missing required parameters: "@ + a + ", "@ + b
            + ", and "@ + c,
        RuleForm::PairOrAlt(a, b, alt) => "Missing required parameters: ("@ + a + " and "@ + b
            + ") or "@ + alt,
    }
}

/// The rule table: the validation rule of each known method, or `None` for
/// an unknown method.
pub open spec fn rule_for(m: Seq<char>) -> Option<RuleForm> {
    if m == "artist.getCorrection"@ {
        Some(RuleForm::Required("artist"@))
    } else if m == "artist.getInfo"@ || m == "artist.getSimilar"@ || m == "artist.getTopAlbums"@
        || m == "artist.getTopTags"@ || m == "artist.getTopTracks"@ {
        Some(RuleForm::AnyOf("artist"@, "mbid"@))
    } else if m == "artist.search"@ {
        Some(RuleForm::Required("artist"@))
    } else if m == "album.getInfo"@ || m == "album.getTopTags"@ {
        Some(RuleForm::PairOrAlt("artist"@, "album"@, "mbid"@))
    } else if m == "album.search"@ {
        Some(RuleForm::Required("album"@))
    } else if m == "track.getCorrection"@ {
        Some(RuleForm::AllOf("artist"@, "track"@))
    } else if m == "track.getInfo"@ || m == "track.getSimilar"@ {
        Some(RuleForm::PairOrAlt("artist"@, "track"@, "mbid"@))
    } else if m == "track.getTopTags"@ {
        Some(RuleForm::AllOf("artist"@, "track"@))
    } else if m == "track.search"@ {
        Some(RuleForm::Required("track"@))
    } else if m == "chart.getTopArtists"@ || m == "chart.getTopTags"@ || m
        == "chart.getTopTracks"@ {
        Some(RuleForm::NoneRequired)
    } else if m == "geo.getTopArtists"@ || m == "geo.getTopTracks"@ {
        Some(RuleForm::Required("country"@))
    } else if m == "tag.getInfo"@ || m == "tag.getSimilar"@ || m == "tag.getTopAlbums"@ || m
        == "tag.getTopArtists"@ || m == "tag.getTopTracks"@ || m == "tag.getWeeklyChartList"@ {
        Some(RuleForm::Required("tag"@))
    } else if m == "tag.getTopTags"@ {
        Some(RuleForm::NoneRequired)
    } else if m == "user.getFriends"@ || m == "user.getLovedTracks"@ || m
        == "user.getRecentTracks"@ || m == "user.getTopAlbums"@ || m == "user.getTopArtists"@
        || m == "user.getTopTags"@ || m == "user.getTopTracks"@ || m
        == "user.getWeeklyAlbumChart"@ || m == "user.getWeeklyArtistChart"@ || m
        == "user.getWeeklyChartList"@ || m == "user.getWeeklyTrackChart"@ {
        Some(RuleForm::Required("user"@))
    } else if m == "user.getPersonalTags"@ {
        Some(RuleForm::AllOfThree("user"@, "tag"@, "taggingtype"@))
    } else if m == "user.getInfo"@ {
        Some(RuleForm::NoneRequired)
    } else if m == "library.getArtists"@ {
        Some(RuleForm::Required("user"@))
    } else if m == "auth.getSession"@ {
        Some(RuleForm::Required("token"@))
    } else if m == "auth.getMobileSession"@ {
        Some(RuleForm::AllOf("username"@, "password"@))
    } else {
        None
    }
}

/// The validation rule of a method, as runtime data.
pub enum MethodRule {
    NoneRequired,
    Required(String),
    AnyOf(String, String),
    AllOf(String, String),
    AllOfThree(String, String, String),
    PairOrAlt(String, String, String),
}

/// The rule a runtime rule value denotes.
pub open spec fn rule_view(r: MethodRule) -> RuleForm {
    match r {
        MethodRule::NoneRequired => RuleForm::NoneRequired,
        MethodRule::Required(k) => RuleForm::Required(k@),
        MethodRule::AnyOf(a, b) => RuleForm::AnyOf(a@, b@),
        MethodRule::AllOf(a, b) => RuleForm::AllOf(a@, b@),
        MethodRule::AllOfThree(a, b, c) => RuleForm::AllOfThree(a@, b@, c@),
        MethodRule::PairOrAlt(a, b, alt) => RuleForm::PairOrAlt(a@, b@, alt@),
    }
}

/// Look up the validation rule of a method.
pub fn method_rule(method: &str) -> (r: Option<MethodRule>)
    ensures
        match r {
            Some(mr) => rule_for(method@) == Some(rule_view(mr)),
            None => rule_for(method@) is None,
        },
{
    if str_eq(method, "artist.getCorrection") {
        Some(MethodRule::Required("artist".to_owned()))
    } else if str_eq(method, "artist.getInfo") || str_eq(method, "artist.getSimilar") || str_eq(
        method,
        "artist.getTopAlbums",
    ) || str_eq(method, "artist.getTopTags") || str_eq(method, "artist.getTopTracks") {
        Some(MethodRule::AnyOf("artist".to_owned(), "mbid".to_owned()))
    } else if str_eq(method, "artist.search") {
        Some(MethodRule::Required("artist".to_owned()))
    } else if str_eq(method, "album.getInfo") || str_eq(method, "album.getTopTags") {
        Some(MethodRule::PairOrAlt("artist".to_owned(), "album".to_owned(), "mbid".to_owned()))
    } else if str_eq(method, "album.search") {
        Some(MethodRule::Required("album".to_owned()))
    } else if str_eq(method, "track.getCorrection") {
        Some(MethodRule::AllOf("artist".to_owned(), "track".to_owned()))
    } else if str_eq(method, "track.getInfo") || str_eq(method, "track.getSimilar") {
        Some(MethodRule::PairOrAlt("artist".to_owned(), "track".to_owned(), "mbid".to_owned()))
    } else if str_eq(method, "track.getTopTags") {
        Some(MethodRule::AllOf("artist".to_owned(), "track".to_owned()))
    } else if str_eq(method, "track.search") {
        Some(MethodRule::Required("track".to_owned()))
    } else if str_eq(method, "chart.getTopArtists") || str_eq(method, "chart.getTopTags")
        || str_eq(method, "chart.getTopTracks") {
        Some(MethodRule::NoneRequired)
    } else if str_eq(method, "geo.getTopArtists") || str_eq(method, "geo.getTopTracks") {
        Some(MethodRule::Required("country".to_owned()))
    } else if str_eq(method, "tag.getInfo") || str_eq(method, "tag.getSimilar") || str_eq(
        method,
        "tag.getTopAlbums",
    ) || str_eq(method, "tag.getTopArtists") || str_eq(method, "tag.getTopTracks") || str_eq(
        method,
        "tag.getWeeklyChartList",
    ) {
        Some(MethodRule::Required("tag".to_owned()))
    } else if str_eq(method, "tag.getTopTags") {
        Some(MethodRule::NoneRequired)
    } else if str_eq(method, "user.getFriends") || str_eq(method, "user.getLovedTracks")
        || str_eq(method, "user.getRecentTracks") || str_eq(method, "user.getTopAlbums")
        || str_eq(method, "user.getTopArtists") || str_eq(method, "user.getTopTags") || str_eq(
        method,
        "user.getTopTracks",
    ) || str_eq(method, "user.getWeeklyAlbumChart") || str_eq(method, "user.getWeeklyArtistChart")
        || str_eq(method, "user.getWeeklyChartList") || str_eq(
        method,
        "user.getWeeklyTrackChart",
    ) {
        Some(MethodRule::Required("user".to_owned()))
    } else if str_eq(method, "user.getPersonalTags") {
        Some(
            MethodRule::AllOfThree(
                "user".to_owned(),
                "tag".to_owned(),
                "taggingtype".to_owned(),
            ),
        )
    } else if str_eq(method, "user.getInfo") {
        Some(MethodRule::NoneRequired)
    } else if str_eq(method, "library.getArtists") {
        Some(MethodRule::Required("user".to_owned()))
    } else if str_eq(method, "auth.getSession") {
        Some(MethodRule::Required("token".to_owned()))
    } else if str_eq(method, "auth.getMobileSession") {
        Some(MethodRule::AllOf("username".to_owned(), "password".to_owned()))
    } else {
        None
    }
}

/// What `validate_method_params` reports: `Ok` exactly when the method is
/// known and its rule holds; otherwise the exact message.
pub open spec fn validation_result(
    m: Seq<char>,
    pm: Map<Seq<char>, Seq<char>>,
    r: Result<(), String>,
) -> bool {
    match r {
        Ok(()) => rule_for(m) is Some && rule_satisfied(rule_for(m)->Some_0, pm),
        Err(msg) => match rule_for(m) {
            Some(rule) => !rule_satisfied(rule, pm) && msg@ == rule_missing_message(rule),
            None => msg@ == "Unknown method: "@ + m,
        },
    }
}

/// Check a single required key.
pub fn check_required(params: &ParamSet, k: &str) -> (r: Result<(), String>)
    requires
        params.wf(),
    ensures
        r is Ok <==> params@.contains_key(k@),
        r is Err ==> r->Err_0@ == rule_missing_message(RuleForm::Required(k@)),
{
    if params.contains_key(k) {
        Ok(())
    } else {
        let mut msg = String::new();
        msg.append("Missing required parameter: ");
        msg.append(k);
        Err(msg)
    }
}

/// Check that at least one of two keys is present.
pub fn check_any_of(params: &ParamSet, a: &str, b: &str) -> (r: Result<(), String>)
    requires
        params.wf(),
    ensures
        r is Ok <==> (params@.contains_key(a@) || params@.contains_key(b@)),
        r is Err ==> r->Err_0@ == rule_missing_message(RuleForm::AnyOf(a@, b@)),
{
    if params.contains_key(a) || params.contains_key(b) {
        Ok(())
    } else {
        let mut msg = String::new();
        msg.append("Missing required parameter: ");
        msg.append(a);
        msg.append(" or ");
        msg.append(b);
        proof {
            assert(msg@ =~= rule_missing_message(RuleForm::AnyOf(a@, b@)));
        }
        Err(msg)
    }
}

/// Check that both keys are present.
pub fn check_all_of(params: &ParamSet, a: &str, b: &str) -> (r: Result<(), String>)
    requires
        params.wf(),
    ensures
        r is Ok <==> (params@.contains_key(a@) && params@.contains_key(b@)),
        r is Err ==> r->Err_0@ == rule_missing_message(RuleForm::AllOf(a@, b@)),
{
    if params.contains_key(a) && params.contains_key(b) {
        Ok(())
    } else {
        let mut msg = String::new();
        msg.append("Missing required parameters: ");
        msg.append(a);
        msg.append(" and ");
        msg.append(b);
        proof {
            assert(msg@ =~= rule_missing_message(RuleForm::AllOf(a@, b@)));
        }
        Err(msg)
    }
}

/// Check that all three keys are present.
pub fn check_all_three(params: &ParamSet, a: &str, b: &str, c: &str) -> (r: Result<(), String>)
    requires
        params.wf(),
    ensures
        r is Ok <==> (params@.contains_key(a@) && params@.contains_key(b@)
            && params@.contains_key(c@)),
        r is Err ==> r->Err_0@ == rule_missing_message(RuleForm::AllOfThree(a@, b@, c@)),
{
    if params.contains_key(a) && params.contains_key(b) && params.contains_key(c) {
        Ok(())
    } else {
        let mut msg = String::new();
        msg.append("Missing required parameters: ");
        msg.append(a);
        msg.append(", ");
        msg.append(b);
        msg.append(", and ");
        msg.append(c);
        proof {
            assert(msg@ =~= rule_missing_message(RuleForm::AllOfThree(a@, b@, c@)));
        }
        Err(msg)
    }
}

/// Check that either both of the first two keys, or the alternate key, is
/// present.
pub fn check_pair_or_alt(params: &ParamSet, a: &str, b: &str, alt: &str) -> (r: Result<(), String>)
    requires
        params.wf(),
    ensures
        r is Ok <==> ((params@.contains_key(a@) && params@.contains_key(b@))
            || params@.contains_key(alt@)),
        r is Err ==> r->Err_0@ == rule_missing_message(RuleForm::PairOrAlt(a@, b@, alt@)),
{
    if (params.contains_key(a) && params.contains_key(b)) || params.contains_key(alt) {
        Ok(())
    } else {
        let mut msg = String::new();
        msg.append("Missing required parameters: (");
        msg.append(a);
        msg.append(" and ");
        msg.append(b);
        msg.append(") or ");
        msg.append(alt);
        proof {
            assert(msg@ =~= rule_missing_message(RuleForm::PairOrAlt(a@, b@, alt@)));
        }
        Err(msg)
    }
}

/// Validate the parameters of an upstream method. Returns `Ok` exactly when
/// the method is known and its required parameters are present; otherwise
/// the exact message naming what is missing, or that the method is unknown.
pub fn validate_method_params(method: &str, params: &ParamSet) -> (r: Result<(), String>)
    requires
        params.wf(),
    ensures
        validation_result(method@, params@, r),
{
    match method_rule(method) {
        None => {
            let mut msg = String::new();
            msg.append("Unknown method: ");
            msg.append(method);
            Err(msg)
        },
        Some(MethodRule::NoneRequired) => Ok(()),
        Some(MethodRule::Required(k)) => check_required(params, k.as_str()),
        Some(MethodRule::AnyOf(a, b)) => check_any_of(params, a.as_str(), b.as_str()),
        Some(MethodRule::AllOf(a, b)) => check_all_of(params, a.as_str(), b.as_str()),
        Some(MethodRule::AllOfThree(a, b, c)) => check_all_three(
            params,
            a.as_str(),
            b.as_str(),
            c.as_str(),
        ),
        Some(MethodRule::PairOrAlt(a, b, alt)) => check_pair_or_alt(
            params,
            a.as_str(),
            b.as_str(),
            alt.as_str(),
        ),
    }
}

} // verus!

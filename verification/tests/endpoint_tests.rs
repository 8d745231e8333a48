use lastfm_proxy_worker::endpoints::{get_endpoints, Endpoint, EndpointCategory, Parameter,
    ParameterType};
use lastfm_proxy_worker::validation::method_rule;

#[test]
fn test_endpoint_category_round_trip() {
    let names = ["artist", "album", "track", "chart", "geo", "tag", "user", "library"];
    for name in &names {
        let category = EndpointCategory::from_str(name).unwrap();
        assert_eq!(category.as_str(), *name);
    }
    assert_eq!(EndpointCategory::from_str("nope"), None);
    assert_eq!(EndpointCategory::Artist.as_str(), "artist");
}

#[test]
fn test_endpoint_path_and_method() {
    let e = Endpoint::new("artist", "getInfo", "Get artist metadata", false);
    assert_eq!(e.path, "/artist/getInfo");
    assert_eq!(e.full_method(), "artist.getInfo");
    assert_eq!(e.category, "artist");
    assert_eq!(e.method, "getInfo");
    assert!(!e.requires_auth);
    assert!(e.parameters.is_empty());

    let with = e.with_param(Parameter::required_string("artist", "Artist name"));
    assert_eq!(with.parameters.len(), 1);
    assert_eq!(with.parameters[0].name, "artist");
    assert!(with.parameters[0].required);
}

#[test]
fn test_parameter_constructors() {
    let p = Parameter::required_string("artist", "Artist name");
    assert!(p.required);
    assert!(matches!(p.param_type, ParameterType::String));
    assert!(p.default.is_none());

    let p = Parameter::optional_string("lang", "Language", None);
    assert!(!p.required);
    assert!(p.default.is_none());

    let p = Parameter::optional_integer("limit", "Results per page", Some(50));
    assert!(!p.required);
    assert!(matches!(p.param_type, ParameterType::Integer));
    assert_eq!(p.default.as_deref(), Some("50"));

    let p = Parameter::optional_boolean("autocorrect", "Autocorrect", false);
    assert_eq!(p.default.as_deref(), Some("0"));
    let p = Parameter::optional_boolean("extended", "Extended", true);
    assert_eq!(p.default.as_deref(), Some("1"));

    let values = vec!["artist".to_string(), "album".to_string(), "track".to_string()];
    let p = Parameter::enum_param("taggingtype", "Type of items tagged", values, None);
    assert!(p.required);
    assert!(matches!(p.param_type, ParameterType::Enum));
    assert_eq!(p.allowed_values.as_ref().unwrap().len(), 3);

    let p = Parameter::enum_param("period", "Time period", vec!["overall".to_string()],
        Some("overall".to_string()));
    assert!(!p.required);
    assert_eq!(p.default.as_deref(), Some("overall"));
}

#[test]
fn test_get_endpoints_catalogue() {
    let endpoints = get_endpoints();
    assert_eq!(endpoints.len(), 41);

    // every endpoint's full method is known to the validator
    for e in &endpoints {
        let method = e.full_method();
        assert!(method_rule(method.as_str()).is_some(), "unknown method {}", method);
        assert!(!e.requires_auth);
        assert_eq!(e.path, format!("/{}/{}", e.category, e.method));
    }

    // no full method occurs twice
    let mut methods: Vec<String> = endpoints.iter().map(|e| e.full_method()).collect();
    let before = methods.len();
    methods.sort();
    methods.dedup();
    assert_eq!(methods.len(), before);

    // spot checks against the catalogue
    assert_eq!(endpoints[0].full_method(), "artist.getCorrection");
    assert_eq!(endpoints[0].path, "/artist/getCorrection");
    assert_eq!(endpoints[0].parameters.len(), 1);
    assert_eq!(endpoints[40].full_method(), "library.getArtists");

    let recent = endpoints.iter().find(|e| e.full_method() == "user.getRecentTracks").unwrap();
    assert_eq!(recent.parameters.len(), 6);
    let period = endpoints
        .iter()
        .find(|e| e.full_method() == "user.getTopArtists")
        .unwrap()
        .parameters
        .iter()
        .find(|p| p.name == "period")
        .cloned()
        .unwrap();
    assert_eq!(period.allowed_values.as_ref().unwrap().len(), 6);
    assert_eq!(period.default.as_deref(), Some("overall"));
}

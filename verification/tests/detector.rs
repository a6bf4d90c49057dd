use graphql_resolver::config::{FieldConfig, FieldType, GraphQLConfig, ResolverConfig, TypeConfig};
use graphql_resolver::n1::N1Detector;
use graphql_resolver::registry::TraitRegistry;
use graphql_resolver::tables::ArgumentMappings;

type Registry = TraitRegistry<(), ()>;

fn make_config_with_types(types: Vec<(&str, Vec<FieldConfig>)>) -> GraphQLConfig {
    let mut config = GraphQLConfig { query_type: Some("Query".to_string()), ..Default::default() };
    for (name, fields) in types {
        config.types.insert(name.to_string(), TypeConfig { name: name.to_string(), fields });
    }
    config
}

fn make_field(name: &str, field_type: FieldType, resolver: Option<ResolverConfig>) -> FieldConfig {
    FieldConfig { name: name.to_string(), field_type, arguments: vec![], resolver }
}

fn named(name: &str) -> FieldType {
    FieldType::Named(name.to_string())
}

fn list_of(name: &str) -> FieldType {
    FieldType::List(Box::new(named(name)))
}

fn plain(name: &str) -> Option<ResolverConfig> {
    Some(ResolverConfig::Trait { name: name.to_string(), batch_key: None })
}

#[test]
fn test_detector_no_query_type() {
    let config = GraphQLConfig::default();
    let registry = Registry::default();

    let detector = N1Detector::new(&config, &registry);
    let result = detector.detect();
    assert!(result.is_ok());
}

#[test]
fn test_detector_no_errors_without_resolvers() {
    let config = make_config_with_types(vec![(
        "Query",
        vec![make_field("hello", FieldType::Named("String".to_string()), None)],
    )]);
    let registry = Registry::default();

    let detector = N1Detector::new(&config, &registry);
    let result = detector.detect();
    assert!(result.is_ok());
}

#[test]
fn test_detector_single_resolver_no_list() {
    let config = make_config_with_types(vec![(
        "Query",
        vec![make_field(
            "user",
            FieldType::Named("User".to_string()),
            Some(ResolverConfig::Trait { name: "getUser".to_string(), batch_key: None }),
        )],
    )]);
    let registry = Registry::default();

    let detector = N1Detector::new(&config, &registry);
    let result = detector.detect();
    assert!(result.is_ok());
}

#[test]
fn test_detector_list_with_batched_resolver() {
    let config = make_config_with_types(vec![
        (
            "Query",
            vec![make_field(
                "users",
                FieldType::NonNull(Box::new(FieldType::List(Box::new(FieldType::Named(
                    "User".to_string(),
                ))))),
                None,
            )],
        ),
        (
            "User",
            vec![
                make_field("id", FieldType::Named("ID".to_string()), None),
                make_field(
                    "posts",
                    FieldType::List(Box::new(FieldType::Named("Post".to_string()))),
                    Some(ResolverConfig::Trait {
                        name: "getPosts".to_string(),
                        batch_key: Some("userId".to_string()),
                    }),
                ),
            ],
        ),
    ]);
    let registry = Registry::default();

    let detector = N1Detector::new(&config, &registry);
    let result = detector.detect();
    assert!(result.is_ok());
}

#[test]
fn test_detector_list_without_batch_key_error() {
    let config = make_config_with_types(vec![
        (
            "Query",
            vec![make_field(
                "users",
                FieldType::List(Box::new(FieldType::Named("User".to_string()))),
                None,
            )],
        ),
        (
            "User",
            vec![
                make_field("id", FieldType::Named("ID".to_string()), None),
                make_field(
                    "posts",
                    FieldType::List(Box::new(FieldType::Named("Post".to_string()))),
                    Some(ResolverConfig::Trait { name: "getPosts".to_string(), batch_key: None }),
                ),
            ],
        ),
    ]);
    let registry = Registry::default();

    let detector = N1Detector::new(&config, &registry);
    let result = detector.detect();
    assert!(result.is_err());
    let errors = result.unwrap_err();
    assert_eq!(errors.len(), 1);
    assert_eq!(errors[0].field_name, "posts");
}

#[test]
fn test_detector_with_batch_resolver_in_registry() {
    let config = make_config_with_types(vec![
        (
            "Query",
            vec![make_field(
                "users",
                FieldType::List(Box::new(FieldType::Named("User".to_string()))),
                None,
            )],
        ),
        (
            "User",
            vec![
                make_field("id", FieldType::Named("ID".to_string()), None),
                make_field(
                    "posts",
                    FieldType::List(Box::new(FieldType::Named("Post".to_string()))),
                    Some(ResolverConfig::Trait { name: "getPosts".to_string(), batch_key: None }),
                ),
            ],
        ),
    ]);

    let mut registry = Registry::default();
    registry.register_batch_resolver("getPosts".to_string(), ());

    let detector = N1Detector::new(&config, &registry);
    let result = detector.detect();
    assert!(result.is_ok());
}

#[test]
fn test_detector_deeply_nested_list() {
    let config = make_config_with_types(vec![
        (
            "Query",
            vec![make_field(
                "orgs",
                FieldType::List(Box::new(FieldType::Named("Org".to_string()))),
                None,
            )],
        ),
        (
            "Org",
            vec![make_field(
                "users",
                FieldType::List(Box::new(FieldType::Named("User".to_string()))),
                None,
            )],
        ),
        (
            "User",
            vec![make_field(
                "posts",
                FieldType::List(Box::new(FieldType::Named("Post".to_string()))),
                Some(ResolverConfig::Trait { name: "getPosts".to_string(), batch_key: None }),
            )],
        ),
    ]);
    let registry = Registry::default();

    let detector = N1Detector::new(&config, &registry);
    let result = detector.detect();
    assert!(result.is_err());
}

#[test]
fn test_detector_unknown_field_type() {
    let config = make_config_with_types(vec![(
        "Query",
        vec![make_field("data", FieldType::Named("UnknownType".to_string()), None)],
    )]);
    let registry = Registry::default();

    let detector = N1Detector::new(&config, &registry);
    let result = detector.detect();
    assert!(result.is_ok());
}

#[test]
fn test_detector_call_resolver() {
    let config = make_config_with_types(vec![
        (
            "Query",
            vec![make_field(
                "users",
                FieldType::List(Box::new(FieldType::Named("User".to_string()))),
                None,
            )],
        ),
        (
            "User",
            vec![
                make_field("id", FieldType::Named("ID".to_string()), None),
                make_field(
                    "profile",
                    FieldType::Named("Profile".to_string()),
                    Some(ResolverConfig::Call {
                        trait_name: "getProfile".to_string(),
                        args: ArgumentMappings::default(),
                    }),
                ),
            ],
        ),
    ]);
    let registry = Registry::default();

    let detector = N1Detector::new(&config, &registry);
    let result = detector.detect();
    assert!(result.is_err());
}

#[test]
fn test_violation_records_path_field_parent_and_message() {
    let config = make_config_with_types(vec![
        ("Query", vec![make_field("users", list_of("User"), None)]),
        ("User", vec![make_field("posts", list_of("Post"), plain("getPosts"))]),
    ]);
    let registry = Registry::default();

    let errors = N1Detector::new(&config, &registry).detect().unwrap_err();
    assert_eq!(errors.len(), 1);
    assert_eq!(errors[0].path, vec!["Query", "users", "posts"]);
    assert_eq!(errors[0].field_name, "posts");
    assert_eq!(errors[0].parent_type, "User");
    assert_eq!(
        errors[0].message,
        "Field 'posts' on type 'User' has a resolver in list context without batching. \
         Add @batchKey directive or use a BatchResolver."
    );
}

#[test]
fn test_all_violations_are_reported_in_walk_order() {
    let config = make_config_with_types(vec![
        (
            "Query",
            vec![
                make_field("users", list_of("User"), None),
                make_field("teams", list_of("Team"), None),
            ],
        ),
        (
            "User",
            vec![
                make_field("posts", list_of("Post"), plain("getPosts")),
                make_field("team", named("Team"), plain("getTeam")),
            ],
        ),
        ("Team", vec![make_field("lead", named("User"), plain("getLead"))]),
        ("Post", vec![make_field("author", named("User"), plain("getAuthor"))]),
    ]);
    let registry = Registry::default();

    let errors = N1Detector::new(&config, &registry).detect().unwrap_err();
    let paths: Vec<String> = errors.iter().map(|error| error.path.join(".")).collect();
    assert_eq!(
        paths,
        vec![
            "Query.users.posts",
            "Query.users.posts.author",
            "Query.users.team",
            "Query.users.team.lead",
            "Query.teams.lead",
            "Query.teams.lead.posts",
            "Query.teams.lead.posts.author",
            "Query.teams.lead.team",
        ]
    );
}

#[test]
fn test_own_list_shape_does_not_count() {
    let config = make_config_with_types(vec![
        ("Query", vec![make_field("users", list_of("User"), plain("listUsers"))]),
        ("User", vec![make_field("id", named("ID"), None)]),
    ]);
    let registry = Registry::default();

    assert!(N1Detector::new(&config, &registry).detect().is_ok());
}

#[test]
fn test_non_list_ancestors_never_report() {
    let config = make_config_with_types(vec![
        ("Query", vec![make_field("me", named("User"), plain("getMe"))]),
        ("User", vec![make_field("profile", named("Profile"), plain("getProfile"))]),
        ("Profile", vec![make_field("avatar", named("Image"), plain("getAvatar"))]),
    ]);
    let registry = Registry::default();

    assert!(N1Detector::new(&config, &registry).detect().is_ok());
}

#[test]
fn test_self_referential_type_terminates() {
    let config = make_config_with_types(vec![
        ("Query", vec![make_field("users", list_of("User"), None)]),
        (
            "User",
            vec![make_field(
                "friends",
                FieldType::NonNull(Box::new(FieldType::List(Box::new(FieldType::NonNull(
                    Box::new(named("User")),
                ))))),
                None,
            )],
        ),
    ]);
    let registry = Registry::default();

    assert!(N1Detector::new(&config, &registry).detect().is_ok());
}

#[test]
fn test_cycle_between_types_reports_each_path_once() {
    let config = make_config_with_types(vec![
        ("Query", vec![make_field("users", list_of("User"), None)]),
        ("User", vec![make_field("posts", list_of("Post"), plain("getPosts"))]),
        ("Post", vec![make_field("author", named("User"), plain("getAuthor"))]),
    ]);
    let registry = Registry::default();

    let errors = N1Detector::new(&config, &registry).detect().unwrap_err();
    let paths: Vec<String> = errors.iter().map(|error| error.path.join(".")).collect();
    assert_eq!(paths, vec!["Query.users.posts", "Query.users.posts.author"]);
}

#[test]
fn test_plain_resolver_of_the_same_name_is_no_escape() {
    let config = make_config_with_types(vec![
        ("Query", vec![make_field("users", list_of("User"), None)]),
        ("User", vec![make_field("posts", list_of("Post"), plain("getPosts"))]),
    ]);
    let mut registry = Registry::default();
    registry.register_resolver("getPosts".to_string(), ());

    let errors = N1Detector::new(&config, &registry).detect().unwrap_err();
    assert_eq!(errors.len(), 1);
    assert_eq!(errors[0].field_name, "posts");
}

#[test]
fn test_root_that_is_not_modeled_has_no_violations() {
    let mut config = make_config_with_types(vec![(
        "User",
        vec![make_field("posts", list_of("Post"), plain("getPosts"))],
    )]);
    config.query_type = Some("Missing".to_string());
    let registry = Registry::default();

    assert!(N1Detector::new(&config, &registry).detect().is_ok());
}

#[test]
fn test_custom_root_is_where_paths_start() {
    let mut config = make_config_with_types(vec![
        ("Root", vec![make_field("users", list_of("User"), None)]),
        ("User", vec![make_field("posts", list_of("Post"), plain("getPosts"))]),
    ]);
    config.query_type = Some("Root".to_string());
    let registry = Registry::default();

    let errors = N1Detector::new(&config, &registry).detect().unwrap_err();
    assert_eq!(errors.len(), 1);
    assert_eq!(errors[0].path, vec!["Root", "users", "posts"]);
}

#[test]
fn test_path_segments_are_looked_up_by_name() {
    let config = make_config_with_types(vec![
        (
            "Query",
            vec![make_field("a", list_of("Missing"), None), make_field("a", named("User"), None)],
        ),
        (
            "User",
            vec![
                make_field("posts", named("Post"), plain("getPosts")),
                make_field("posts", named("Post"), plain("getPosts")),
            ],
        ),
    ]);
    let registry = Registry::default();

    let errors = N1Detector::new(&config, &registry).detect().unwrap_err();
    let paths: Vec<String> = errors.iter().map(|error| error.path.join(".")).collect();
    assert_eq!(paths, vec!["Query.a.posts", "Query.a.posts"]);
}

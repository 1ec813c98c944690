use mlflow_rs::client::CreateExperimentResponse;
use mlflow_rs::{ExperimentBuilder, ExperimentIdentifier, ExperimentTag, MLFLowRestClient, MLFlowError};

#[test]
fn experiment_builder_new_empty_name() {
    ExperimentBuilder::new("").expect_err("ExperimentBuilderError: name cannot be empty");
}

#[test]
fn builder_with_tag() {
    let builder = ExperimentBuilder::new("test_experiment")
        .unwrap()
        .with_tag(("key", "value"))
        .with_tag(("key2", "value2"));

    assert_eq!(builder.name(), "test_experiment");
    assert_eq!(builder.tags().len(), 2);
}

#[test]
fn tuple_to_experiment_tag() {
    let tag = ExperimentTag::from(("name", "value"));
    assert_eq!(tag.key, "name");
    assert_eq!(tag.value, "value");
}

#[test]
fn build_with_tags() {
    let builder = ExperimentBuilder::new("test_experiment")
        .unwrap()
        .with_tags(vec![("key", "value"), ("key2", "value2")]);
    assert_eq!(builder.name(), "test_experiment");
    assert_eq!(builder.tags().len(), 2);
}

#[test]
fn tag_from_pair_round_trip() {
    let tag = ExperimentTag::from(("k", "v"));
    assert_eq!(tag.key, "k");
    assert_eq!(tag.value, "v");
}

#[test]
fn empty_name_is_a_builder_error() {
    let err = ExperimentBuilder::new("").err().unwrap();
    assert!(matches!(&err, MLFlowError::ExperimentBuilderError(s) if s == "name cannot be empty"));
    assert_eq!(err.to_string(), "ExperimentBuilderError: name cannot be empty");
}

#[test]
fn non_empty_names_are_accepted() {
    for name in ["a", "my-ml-experiment", " ", "é"] {
        let builder = ExperimentBuilder::new(name).unwrap();
        assert_eq!(builder.name(), name);
        assert!(builder.tags().is_empty());
        assert_eq!(builder.rest_client().host(), "http://localhost:5000");
    }
}

#[test]
fn with_tag_keeps_order_and_duplicates() {
    let builder = ExperimentBuilder::new("e")
        .unwrap()
        .with_tag(("k", "1"))
        .with_tag(("k", "2"));
    let tags = builder.tags();
    assert_eq!(tags.len(), 2);
    assert_eq!((tags[0].key.as_str(), tags[0].value.as_str()), ("k", "1"));
    assert_eq!((tags[1].key.as_str(), tags[1].value.as_str()), ("k", "2"));
}

#[test]
fn with_tags_replaces_the_list() {
    let builder = ExperimentBuilder::new("e")
        .unwrap()
        .with_tag(("old", "x"))
        .with_tags(vec![("a", "1"), ("b", "2"), ("c", "3")]);
    let keys: Vec<&str> = builder.tags().iter().map(|t| t.key.as_str()).collect();
    assert_eq!(keys, vec!["a", "b", "c"]);
    let empty = ExperimentBuilder::new("e").unwrap().with_tag(("old", "x")).with_tags(Vec::new());
    assert!(empty.tags().is_empty());
}

#[test]
fn with_rest_client_changes_the_server() {
    let builder = ExperimentBuilder::new("e")
        .unwrap()
        .with_rest_client(MLFLowRestClient::new("http://example:1234"));
    assert_eq!(builder.rest_client().host(), "http://example:1234");
}

#[test]
fn draft_experiment_has_no_identifier() {
    let builder = ExperimentBuilder::new("e").unwrap().with_tag(("k", "v"));
    let draft = builder.experiment();
    assert_eq!(draft.experiment_id(), None);
    assert_eq!(draft.name, "e");
    assert_eq!(draft.artifact_location, None);
    assert_eq!(draft.tags.len(), 1);
    assert_eq!(draft.tags[0].key, "k");
}

#[test]
fn build_assigns_the_server_identifier() {
    let builder = ExperimentBuilder::new("test_experiment")
        .unwrap()
        .with_tag(("key", "value"))
        .with_tag(("key2", "value2"));
    let created = Ok(CreateExperimentResponse { experiment_id: "abc123".to_string() });
    let experiment = builder.build(created).unwrap();
    assert_eq!(experiment.experiment_id(), Some("abc123".to_string()));
    assert_eq!(experiment.name, "test_experiment");
    assert_eq!(experiment.artifact_location, None);
    assert_eq!(experiment.tags.len(), 2);
    assert_eq!(experiment.tags[1].key, "key2");
    assert_eq!(experiment.tags[1].value, "value2");
}

#[test]
fn build_passes_errors_through() {
    let builder = ExperimentBuilder::new("e").unwrap();
    let err = builder
        .build(Err(MLFlowError::UnknownError("Could not create experiment".to_string())))
        .err()
        .unwrap();
    assert!(matches!(err, MLFlowError::UnknownError(s) if s == "Could not create experiment"));
}

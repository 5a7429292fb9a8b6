use lambda_deployer::batch::{plan_batch, plan_decoded, plan_envelope, plan_message, plan_record, BatchStep};
use lambda_deployer::command::{ExtractError, Field, UpdateCommand};
use lambda_deployer::envelope::{decode_body, ChangeRecord, InnerEnvelope, OuterEnvelope};
use rusoto_core::Region;

fn wire_field(name: &str, value: Option<&str>) -> String {
    match value {
        Some(text) => format!("\"{}\":\"{}\",", name, text),
        None => String::new(),
    }
}

fn wire_record(
    region: Option<&str>,
    bucket: Option<&str>,
    key: Option<&str>,
    version: Option<&str>,
) -> String {
    format!(
        "{{{}\"eventTime\":\"2019-06-01T12:00:00Z\",\"userIdentity\":{{}},\
         \"requestParameters\":{{}},\"s3\":{{\"bucket\":{{{}\"ownerIdentity\":{{}}}},\
         \"object\":{{{}{}\"size\":1}}}}}}",
        wire_field("awsRegion", region),
        wire_field("name", bucket),
        wire_field("key", key),
        wire_field("versionId", version),
    )
}

fn wire_envelope(records: &[String]) -> String {
    format!("{{\"Records\":[{}]}}", records.join(","))
}

fn message(body: &str) -> OuterEnvelope {
    OuterEnvelope { body: Some(body.to_string()) }
}

fn absent() -> OuterEnvelope {
    OuterEnvelope { body: None }
}

fn record(
    region: Option<&str>,
    bucket: Option<&str>,
    key: Option<&str>,
    version: Option<&str>,
) -> ChangeRecord {
    ChangeRecord {
        region: region.map(|s| s.to_string()),
        storage_location: bucket.map(|s| s.to_string()),
        object_key: key.map(|s| s.to_string()),
        object_version: version.map(|s| s.to_string()),
    }
}

fn command(region: Region, bucket: &str, key: &str, version: &str) -> UpdateCommand {
    UpdateCommand {
        target_name: key.to_string(),
        region,
        storage_location: bucket.to_string(),
        object_key: key.to_string(),
        object_version: version.to_string(),
    }
}

fn executed(steps: &[BatchStep]) -> Vec<&UpdateCommand> {
    steps
        .iter()
        .filter_map(|step| match step {
            BatchStep::Execute(command) => Some(command),
            _ => None,
        })
        .collect()
}

#[test]
fn valid_message_then_absent_body_executes_one_command() {
    let body = wire_envelope(&[wire_record(Some("us-east-1"), Some("b"), Some("fn-a"), Some("v1"))]);
    let steps = plan_batch(&vec![message(&body), absent()]);
    assert_eq!(steps.len(), 1);
    match &steps[0] {
        BatchStep::Execute(found) => {
            assert_eq!(found, &command(Region::UsEast1, "b", "fn-a", "v1"));
            assert_eq!(found.target_name, "fn-a");
        }
        other => panic!("expected a command, got {:?}", other),
    }
}

#[test]
fn record_without_version_is_rejected_and_nothing_is_executed() {
    let body = wire_envelope(&[wire_record(Some("us-east-1"), Some("b"), Some("fn-a"), None)]);
    let steps = plan_batch(&vec![message(&body)]);
    assert_eq!(steps.len(), 1);
    match &steps[0] {
        BatchStep::Rejected { record: rejected, error } => {
            assert_eq!(*error, ExtractError::MissingField(Field::Version));
            assert_eq!(error_field_name(error), "version");
            assert_eq!(rejected, &record(Some("us-east-1"), Some("b"), Some("fn-a"), None));
        }
        other => panic!("expected a rejection, got {:?}", other),
    }
    assert!(executed(&steps).is_empty());
}

fn error_field_name(error: &ExtractError) -> &'static str {
    match error {
        ExtractError::MissingField(field) => field.name(),
        ExtractError::InvalidRegion => "region",
    }
}

#[test]
fn malformed_body_is_reported_and_nothing_is_executed() {
    let steps = plan_batch(&vec![message("certainly { not json")]);
    assert_eq!(steps.len(), 1);
    match &steps[0] {
        BatchStep::Undecodable(error) => {
            assert_eq!(error.body, "certainly { not json");
            assert!(error.cause.is_syntax());
        }
        other => panic!("expected a decode report, got {:?}", other),
    }
    assert!(executed(&steps).is_empty());
}

#[test]
fn empty_batch_has_an_empty_plan() {
    assert!(plan_batch(&Vec::new()).is_empty());
}

#[test]
fn absent_bodies_leave_no_trace() {
    assert!(plan_batch(&vec![absent(), absent(), absent()]).is_empty());
    let body = wire_envelope(&[wire_record(Some("eu-west-1"), Some("b"), Some("k"), Some("v"))]);
    let with = plan_batch(&vec![absent(), message(&body), absent(), message("oops"), absent()]);
    let without = plan_batch(&vec![message(&body), message("oops")]);
    assert_eq!(format!("{:?}", with), format!("{:?}", without));
    assert_eq!(with.len(), 2);
}

#[test]
fn every_record_of_an_envelope_gets_its_step() {
    let body = wire_envelope(&[
        wire_record(Some("us-east-1"), Some("b"), Some("one"), Some("v1")),
        wire_record(Some("us-east-1"), None, Some("two"), Some("v2")),
        wire_record(Some("atlantis-1"), Some("b"), Some("three"), Some("v3")),
        wire_record(Some("us-west-1"), Some("c"), Some("four"), Some("v4")),
    ]);
    let steps = plan_batch(&vec![message(&body)]);
    assert_eq!(steps.len(), 4);
    assert!(matches!(&steps[0], BatchStep::Execute(c) if c.target_name == "one"));
    assert!(matches!(
        &steps[1],
        BatchStep::Rejected { error: ExtractError::MissingField(Field::Bucket), record }
            if record.object_key.as_deref() == Some("two")
    ));
    assert!(matches!(
        &steps[2],
        BatchStep::Rejected { error: ExtractError::InvalidRegion, record }
            if record.region.as_deref() == Some("atlantis-1")
    ));
    match &steps[3] {
        BatchStep::Execute(found) => assert_eq!(found, &command(Region::UsWest1, "c", "four", "v4")),
        other => panic!("expected a command, got {:?}", other),
    }
}

#[test]
fn messages_are_planned_in_order_and_failures_stay_local() {
    let first = wire_envelope(&[
        wire_record(Some("us-east-1"), Some("b"), Some("a1"), Some("v")),
        wire_record(Some("us-east-1"), Some("b"), Some("a2"), Some("v")),
    ]);
    let last = wire_envelope(&[wire_record(Some("us-east-2"), Some("b"), Some("z"), Some("v"))]);
    let steps = plan_batch(&vec![message(&first), message("][ broken"), absent(), message(&last)]);
    assert_eq!(steps.len(), 4);
    assert!(matches!(&steps[0], BatchStep::Execute(c) if c.target_name == "a1"));
    assert!(matches!(&steps[1], BatchStep::Execute(c) if c.target_name == "a2"));
    assert!(matches!(&steps[2], BatchStep::Undecodable(e) if e.body == "][ broken"));
    assert!(matches!(&steps[3], BatchStep::Execute(c) if c.region == Region::UsEast2));
    let targets: Vec<&str> = executed(&steps).iter().map(|c| c.target_name.as_str()).collect();
    assert_eq!(targets, vec!["a1", "a2", "z"]);
}

#[test]
fn envelope_without_records_plans_nothing() {
    let steps = plan_batch(&vec![message("{\"Records\":[]}")]);
    assert!(steps.is_empty());
}

#[test]
fn plan_of_one_record() {
    let good = record(Some("sa-east-1"), Some("b"), Some("k"), Some("v"));
    match plan_record(&good) {
        BatchStep::Execute(found) => assert_eq!(found, command(Region::SaEast1, "b", "k", "v")),
        other => panic!("expected a command, got {:?}", other),
    }
    let bad = record(Some("sa-east-1"), Some("b"), None, Some("v"));
    match plan_record(&bad) {
        BatchStep::Rejected { record: rejected, error } => {
            assert_eq!(error, ExtractError::MissingField(Field::Key));
            assert_eq!(rejected, bad);
        }
        other => panic!("expected a rejection, got {:?}", other),
    }
}

#[test]
fn plan_of_an_envelope_has_one_step_per_record() {
    let envelope = InnerEnvelope {
        records: vec![
            record(None, None, None, None),
            record(Some("us-east-1"), Some("b"), Some("k"), Some("v")),
            record(Some("us-east-1"), Some("b"), Some("k"), None),
        ],
    };
    let steps = plan_envelope(&envelope);
    assert_eq!(steps.len(), 3);
    assert!(matches!(&steps[0], BatchStep::Rejected { error: ExtractError::InvalidRegion, .. }));
    assert!(matches!(&steps[1], BatchStep::Execute(_)));
    assert!(matches!(
        &steps[2],
        BatchStep::Rejected { error: ExtractError::MissingField(Field::Version), .. }
    ));
    assert!(plan_envelope(&InnerEnvelope { records: Vec::new() }).is_empty());
}

#[test]
fn plan_of_a_decode_failure_is_its_report() {
    let steps = plan_decoded(decode_body("nope"));
    assert_eq!(steps.len(), 1);
    assert!(matches!(&steps[0], BatchStep::Undecodable(e) if e.body == "nope"));
}

#[test]
fn plan_of_a_decoded_envelope_is_that_of_its_records() {
    let envelope = InnerEnvelope {
        records: vec![record(Some("us-east-1"), Some("b"), Some("k"), Some("v"))],
    };
    let steps = plan_decoded(Ok(envelope));
    assert_eq!(steps.len(), 1);
    assert!(matches!(&steps[0], BatchStep::Execute(c) if c.target_name == "k"));
}

#[test]
fn plan_of_a_message() {
    assert!(plan_message(&absent()).is_empty());
    let steps = plan_message(&message("{"));
    assert_eq!(steps.len(), 1);
    assert!(matches!(&steps[0], BatchStep::Undecodable(e) if e.body == "{"));
    let body = wire_envelope(&[wire_record(Some("us-east-1"), Some("b"), Some("fn-a"), Some("v1"))]);
    let steps = plan_message(&message(&body));
    assert_eq!(executed(&steps), vec![&command(Region::UsEast1, "b", "fn-a", "v1")]);
}

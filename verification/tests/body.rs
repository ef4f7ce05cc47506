use send::body::{
    attach_files, encode_body, make_part, plan_body, BodyPlan, LoadedPart, Part, Payload,
};
use send::environment::Environment;
use send::files::{FileError, FileOutcome};
use send::request::{ContentType, KeyValue};

fn kv(key: &str, value: &str, enabled: bool) -> KeyValue {
    KeyValue { enabled, data: (key.to_string(), value.to_string()) }
}

fn pair(key: &str, value: &str) -> (String, String) {
    (key.to_string(), value.to_string())
}

fn env() -> Environment {
    Environment { values: vec![pair("DIR", "/srv/data"), pair("WHO", "me")] }
}

#[test]
fn no_body_sends_nothing() {
    assert_eq!(plan_body(&ContentType::NoBody, &env()), BodyPlan::Empty);
    assert_eq!(attach_files(BodyPlan::Empty, Vec::new()), Ok(Payload::Empty));
}

#[test]
fn text_bodies_are_sent_verbatim() {
    let text = "{\"who\": \"{{WHO}}\"}";
    let plan = BodyPlan::Text(text.to_string());
    assert_eq!(plan_body(&ContentType::Raw(text.to_string()), &env()), plan);
    assert_eq!(plan_body(&ContentType::Json(text.to_string()), &env()), plan);
    assert_eq!(plan_body(&ContentType::Xml(text.to_string()), &env()), plan);
    assert_eq!(plan_body(&ContentType::Html(text.to_string()), &env()), plan);
    assert_eq!(plan_body(&ContentType::Javascript(text.to_string()), &env()), plan);
    assert_eq!(attach_files(plan, Vec::new()), Ok(Payload::Text(text.to_string())));
}

#[test]
fn form_fields_are_resolved_and_filtered() {
    let body = ContentType::Form(vec![
        kv("name", "{{WHO}}", true),
        kv("skipped", "x", false),
        kv("dir", "{{DIR}}", true),
    ]);
    let plan = plan_body(&body, &env());
    assert_eq!(plan, BodyPlan::Form(vec![pair("name", "me"), pair("dir", "/srv/data")]));
    assert!(plan.file_paths().is_empty());
    assert_eq!(
        attach_files(plan, Vec::new()),
        Ok(Payload::Form(vec![pair("name", "me"), pair("dir", "/srv/data")]))
    );
}

#[test]
fn a_value_with_the_marker_is_a_file() {
    assert_eq!(
        make_part("f".to_string(), "!!/tmp/a.bin".to_string()),
        Part::File { name: "f".to_string(), path: "/tmp/a.bin".to_string() }
    );
    assert_eq!(
        make_part("f".to_string(), "!!".to_string()),
        Part::File { name: "f".to_string(), path: String::new() }
    );
    assert_eq!(
        make_part("f".to_string(), "!/tmp/a.bin".to_string()),
        Part::Text { name: "f".to_string(), value: "!/tmp/a.bin".to_string() }
    );
    assert_eq!(
        make_part("f".to_string(), " !!x".to_string()),
        Part::Text { name: "f".to_string(), value: " !!x".to_string() }
    );
    assert_eq!(
        make_part("f".to_string(), String::new()),
        Part::Text { name: "f".to_string(), value: String::new() }
    );
}

#[test]
fn multipart_fields_become_parts() {
    let body = ContentType::Multipart(vec![
        kv("title", "for {{WHO}}", true),
        kv("upload", "!!{{DIR}}/a.bin", true),
        kv("off", "!!/never", false),
        kv("second", "!!b.txt", true),
    ]);
    let plan = plan_body(&body, &env());
    assert_eq!(
        plan,
        BodyPlan::Multipart(vec![
            Part::Text { name: "title".to_string(), value: "for me".to_string() },
            Part::File { name: "upload".to_string(), path: "/srv/data/a.bin".to_string() },
            Part::File { name: "second".to_string(), path: "b.txt".to_string() },
        ])
    );
    assert_eq!(plan.file_paths(), vec!["/srv/data/a.bin".to_string(), "b.txt".to_string()]);
}

#[test]
fn the_marker_is_looked_for_after_resolution() {
    let env = Environment { values: vec![pair("F", "!!/x/y.z")] };
    let body = ContentType::Multipart(vec![kv("k", "{{F}}", true)]);
    assert_eq!(
        plan_body(&body, &env),
        BodyPlan::Multipart(vec![Part::File { name: "k".to_string(), path: "/x/y.z".to_string() }])
    );
}

#[test]
fn files_are_attached_in_order() {
    let plan = BodyPlan::Multipart(vec![
        Part::File { name: "one".to_string(), path: "/d/one.bin".to_string() },
        Part::Text { name: "t".to_string(), value: "v".to_string() },
        Part::File { name: "two".to_string(), path: "two.txt".to_string() },
    ]);
    let reads = vec![FileOutcome::Available(vec![1]), FileOutcome::Available(vec![2, 2])];
    assert_eq!(
        attach_files(plan, reads),
        Ok(Payload::Multipart(vec![
            LoadedPart::File {
                name: "one".to_string(),
                file_name: "one.bin".to_string(),
                content: vec![1],
            },
            LoadedPart::Text { name: "t".to_string(), value: "v".to_string() },
            LoadedPart::File {
                name: "two".to_string(),
                file_name: "two.txt".to_string(),
                content: vec![2, 2],
            },
        ]))
    );
}

#[test]
fn the_first_unreadable_file_fails_the_body() {
    let parts = || {
        BodyPlan::Multipart(vec![
            Part::File { name: "one".to_string(), path: "/d/one.bin".to_string() },
            Part::File { name: "two".to_string(), path: "/d/..".to_string() },
        ])
    };
    assert_eq!(
        attach_files(parts(), vec![FileOutcome::Unreadable, FileOutcome::Available(vec![1])]),
        Err(FileError::Unreadable)
    );
    assert_eq!(
        attach_files(parts(), vec![FileOutcome::Available(vec![1]), FileOutcome::Available(vec![1])]),
        Err(FileError::NoFileName)
    );
    // an outcome that was never handed over counts as a failure
    assert_eq!(attach_files(parts(), Vec::new()), Err(FileError::Unreadable));
    assert_eq!(
        attach_files(parts(), vec![FileOutcome::Available(vec![1])]),
        Err(FileError::Unreadable)
    );
}

#[test]
fn a_multipart_body_without_files_needs_no_outcome() {
    let plan = BodyPlan::Multipart(vec![Part::Text {
        name: "t".to_string(),
        value: "v".to_string(),
    }]);
    assert!(plan.file_paths().is_empty());
    assert_eq!(
        attach_files(plan, vec![FileOutcome::Unreadable]),
        Ok(Payload::Multipart(vec![LoadedPart::Text {
            name: "t".to_string(),
            value: "v".to_string()
        }]))
    );
    assert_eq!(
        attach_files(BodyPlan::Multipart(Vec::new()), Vec::new()),
        Ok(Payload::Multipart(Vec::new()))
    );
}

#[test]
fn a_file_body_needs_its_file() {
    let body = ContentType::File("{{DIR}}/dump.sql".to_string());
    let plan = plan_body(&body, &env());
    assert_eq!(plan, BodyPlan::File("/srv/data/dump.sql".to_string()));
    assert_eq!(plan.file_paths(), vec!["/srv/data/dump.sql".to_string()]);
    assert_eq!(
        attach_files(
            BodyPlan::File("/srv/data/dump.sql".to_string()),
            vec![FileOutcome::Available(Vec::new())]
        ),
        Ok(Payload::File("/srv/data/dump.sql".to_string()))
    );
    assert_eq!(
        attach_files(
            BodyPlan::File("/srv/data/dump.sql".to_string()),
            vec![FileOutcome::Unreadable]
        ),
        Err(FileError::Unreadable)
    );
    assert_eq!(
        attach_files(BodyPlan::File("/srv/data/dump.sql".to_string()), Vec::new()),
        Err(FileError::Unreadable)
    );
}

#[test]
fn a_body_is_encoded_in_one_go() {
    let body = ContentType::Multipart(vec![
        kv("who", "{{WHO}}", true),
        kv("upload", "!!{{DIR}}/a.bin", true),
    ]);
    assert_eq!(
        encode_body(&body, &env(), vec![FileOutcome::Available(vec![7, 8])]),
        Ok(Payload::Multipart(vec![
            LoadedPart::Text { name: "who".to_string(), value: "me".to_string() },
            LoadedPart::File {
                name: "upload".to_string(),
                file_name: "a.bin".to_string(),
                content: vec![7, 8],
            },
        ]))
    );
    assert_eq!(
        encode_body(&body, &env(), vec![FileOutcome::Unreadable]),
        Err(FileError::Unreadable)
    );
    assert_eq!(encode_body(&ContentType::NoBody, &env(), Vec::new()), Ok(Payload::Empty));
}

use obsidian_uri::{dispatch_result, DispatchError, ObsidianUri};

#[test]
fn dispatch_success_is_ok() {
    let uri = ObsidianUri::action("open")
        .add_parameter("file".to_string(), "test".to_string())
        .build();
    assert_eq!(dispatch_result(uri, Ok(())), Ok(()));
}

#[test]
fn dispatch_failure_is_returned_with_the_link() {
    let uri = ObsidianUri::action("open")
        .add_parameter("file".to_string(), "test".to_string())
        .build();
    let result = dispatch_result(uri, Err("no handler for obsidian".to_string()));
    assert_eq!(
        result,
        Err(DispatchError {
            uri: "obsidian://open?file=test".to_string(),
            reason: "no handler for obsidian".to_string(),
        })
    );
}

#[test]
fn dispatch_failure_can_be_handled_by_the_caller() {
    let failing = |_uri: &str| -> Result<(), String> { Err("launcher exited with 3".to_string()) };
    let uri = ObsidianUri::action("search")
        .add_parameter("query".to_string(), "test test".to_string())
        .build();
    let outcome = failing(&uri);
    match dispatch_result(uri, outcome) {
        Ok(()) => panic!("a failed dispatch was reported as success"),
        Err(error) => {
            assert_eq!(error.uri, "obsidian://search?query=test%20test");
            assert_eq!(error.reason, "launcher exited with 3");
        }
    }
}

#[test]
fn dispatch_failure_keeps_an_empty_reason() {
    let result = dispatch_result("obsidian://open?".to_string(), Err(String::new()));
    assert_eq!(
        result,
        Err(DispatchError { uri: "obsidian://open?".to_string(), reason: String::new() })
    );
}

use mud_saver::pages::{MudrunnerSaveRequest, SnowRunnerProfileRequest, SnowRunnerProfileSaveRequest};

#[test]
fn request_parameters() {
    let r = MudrunnerSaveRequest { original_name: "a".to_string(), user_name: "b".to_string() };
    assert_eq!(r.original_name, "a");
    assert_eq!(r.user_name, "b");
    let r = SnowRunnerProfileRequest { id: "i".to_string() };
    assert_eq!(r.id, "i");
    let r = SnowRunnerProfileSaveRequest { id: "i".to_string(), name: "n".to_string() };
    assert_eq!(r, SnowRunnerProfileSaveRequest { id: "i".to_string(), name: "n".to_string() });
}

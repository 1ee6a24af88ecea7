use nova::files::{file_request, FileRequest};

#[test]
fn the_empty_path_serves_the_index_page() {
    assert_eq!(
        file_request(""),
        FileRequest { path: "index.html".to_string(), content_type: "text/html".to_string() }
    );
}

#[test]
fn content_types_follow_the_extension() {
    assert_eq!(file_request("app.js").content_type, "text/javascript");
    assert_eq!(file_request("app.js").path, "app.js");
    assert_eq!(file_request("css/style.CSS").content_type, "text/css");
    assert_eq!(file_request("icons/nova.svg").content_type, "image/svg+xml");
    assert_eq!(file_request("LICENSE").content_type, "application/octet-stream");
}

use chat_agent::errors::{Error, HTTPError};

#[test]
fn constructors_build_their_variants() {
    assert!(matches!(
        Error::internal_server_error("boom".to_string()),
        Error::InternalServer(m) if m == "boom"
    ));
    assert!(matches!(
        Error::not_found_error("Chat session".to_string()),
        Error::NotFound(m) if m == "Chat session"
    ));
    assert!(matches!(
        Error::unauthorized_error("delete".to_string()),
        Error::Unauthorized(m) if m == "delete"
    ));
    assert!(matches!(
        Error::validation_error("name".to_string(), "empty".to_string()),
        Error::Validation { field, message } if field == "name" && message == "empty"
    ));
    assert!(matches!(
        Error::conflict_error("Session".to_string()),
        Error::Conflict(m) if m == "Session"
    ));
    assert!(matches!(
        Error::bad_request_error("no body".to_string()),
        Error::BadRequest(m) if m == "no body"
    ));
    assert!(matches!(
        Error::malicious_prompt_error("injection".to_string()),
        Error::MaliciousPrompt(m) if m == "injection"
    ));
}

#[test]
fn http_error_maps_bad_request() {
    let e = HTTPError::new(Error::BadRequest("no body".to_string()));
    assert_eq!(e.code, 400);
    assert_eq!(e.message, "Bad request: no body");
}

#[test]
fn http_error_maps_internal_server() {
    let e = HTTPError::new(Error::InternalServer("db down".to_string()));
    assert_eq!(e.code, 500);
    assert_eq!(e.message, "Internal server error: db down");
}

#[test]
fn http_error_maps_not_found() {
    let e = HTTPError::new(Error::NotFound("Chat session".to_string()));
    assert_eq!(e.code, 404);
    assert_eq!(e.message, "Chat session not found");
}

#[test]
fn http_error_maps_unauthorized() {
    let e = HTTPError::new(Error::Unauthorized("read".to_string()));
    assert_eq!(e.code, 401);
    assert_eq!(e.message, "Unauthorized: read");
}

#[test]
fn http_error_maps_validation() {
    let e = HTTPError::new(Error::Validation {
        field: "content".to_string(),
        message: "must not be empty".to_string(),
    });
    assert_eq!(e.code, 400);
    assert_eq!(e.message, "Validation error for field content: must not be empty");
}

#[test]
fn http_error_maps_conflict() {
    let e = HTTPError::new(Error::Conflict("Session".to_string()));
    assert_eq!(e.code, 409);
    assert_eq!(e.message, "Session already exists");
}

#[test]
fn http_error_maps_malicious_prompt() {
    let e = HTTPError::new(Error::MaliciousPrompt("ignore all rules".to_string()));
    assert_eq!(e.code, 422);
    assert_eq!(e.message, "Malicious prompt: ignore all rules");
}

#[test]
fn http_error_maps_render_template_parse() {
    let e = HTTPError::new(Error::Render("bad template var".to_string()));
    assert_eq!(e.code, 500);
    assert_eq!(e.message, "Render error: bad template var");
    let e = HTTPError::new(Error::Template("unclosed block".to_string()));
    assert_eq!(e.code, 500);
    assert_eq!(e.message, "Template error: unclosed block");
    let e = HTTPError::new(Error::Parse("bad json".to_string()));
    assert_eq!(e.code, 400);
    assert_eq!(e.message, "Parse error: bad json");
}

#[test]
fn error_message_renders_each_variant() {
    assert_eq!(Error::BadRequest("x".to_string()).message(), "Bad request: x");
    assert_eq!(
        Error::InternalServer("x".to_string()).message(),
        "Internal server error: x"
    );
    assert_eq!(Error::NotFound("Chat".to_string()).message(), "Chat not found");
    assert_eq!(Error::Unauthorized("x".to_string()).message(), "Unauthorized: x");
    assert_eq!(
        Error::Validation { field: "f".to_string(), message: "m".to_string() }.message(),
        "Validation error for field f: m"
    );
    assert_eq!(Error::Conflict("Chat".to_string()).message(), "Chat already exists");
    assert_eq!(Error::Render("x".to_string()).message(), "Render error: x");
    assert_eq!(Error::Template("x".to_string()).message(), "Template error: x");
    assert_eq!(Error::Parse("x".to_string()).message(), "Parsing error: x");
    assert_eq!(
        Error::MaliciousPrompt("x".to_string()).message(),
        "Malicious prompt error: x"
    );
}

#[test]
fn error_clone_keeps_contents() {
    let e = Error::Validation { field: "f".to_string(), message: "m".to_string() };
    let c = e.clone();
    assert!(matches!(c, Error::Validation { field, message } if field == "f" && message == "m"));
}

#[test]
fn missing_session_surfaces_as_http_404() {
    // An identifier absent from the store: the service answers 404 with a
    // "... not found" body.
    let err = Error::not_found_error("Chat session missing".to_string());
    let http = HTTPError::new(err);
    assert_eq!(http.code, 404);
    assert_eq!(http.message, "Chat session missing not found");
}

use cli_shortener::controller::{
    clear_response, clear_shortcuts, create_new_shortcut, create_response, delete_response,
    delete_shortcut, get_all_shortcuts, index, index_template, list_response, open_response,
    open_shortcut, Body, Response, BAD_REQUEST, INTERNAL_SERVER_ERROR, NO_CONTENT, OK,
    TEMPORARY_REDIRECT,
};
use cli_shortener::db::{add_shortcut, Shortcut, Table};
use cli_shortener::registry::ServerAddress;
use cli_shortener::service::ServiceError;
use cli_shortener::utils::CreateLink;

fn shortcut(link: &str, hash: &str) -> Shortcut {
    Shortcut { link: link.to_string(), hash: hash.to_string() }
}

fn text(status: u16, text: &str) -> Response {
    Response { status, body: Body::Text(text.to_string()) }
}

fn local() -> ServerAddress {
    ServerAddress { host: "127.0.0.1".to_string(), port: 8080, path: "".to_string() }
}

#[test]
fn status_codes() {
    assert_eq!(OK, 200);
    assert_eq!(NO_CONTENT, 204);
    assert_eq!(TEMPORARY_REDIRECT, 307);
    assert_eq!(BAD_REQUEST, 400);
    assert_eq!(INTERNAL_SERVER_ERROR, 500);
}

#[test]
fn open_response_redirects_to_the_link() {
    assert_eq!(
        open_response(Ok("https://example.com".to_string())),
        Response { status: 307, body: Body::Location("https://example.com".to_string()) }
    );
    let failed = text(500, "Could not get original link for given shortcut");
    assert_eq!(open_response(Err(ServiceError::NotFound)), failed);
    assert_eq!(open_response(Err(ServiceError::StoreUnavailable)), failed);
}

#[test]
fn create_response_gives_the_url_of_the_shortcut() {
    assert_eq!(
        create_response(&local(), Ok("willow-harbor".to_string())),
        text(200, "http://127.0.0.1:8080/willow-harbor")
    );
    let prefixed = ServerAddress { host: "10.0.0.2".to_string(), port: 80, path: "s".to_string() };
    assert_eq!(
        create_response(&prefixed, Ok("willow-harbor".to_string())),
        text(200, "http://10.0.0.2:80/s/willow-harbor")
    );
}

#[test]
fn create_response_tells_a_bad_link_from_a_failure() {
    assert_eq!(
        create_response(&local(), Err(ServiceError::InvalidTarget)),
        text(400, "Invalid URL provided as link")
    );
    let failed = text(500, "Could not create shortcut for given link");
    assert_eq!(create_response(&local(), Err(ServiceError::ExhaustedNamespace)), failed);
    assert_eq!(create_response(&local(), Err(ServiceError::StoreUnavailable)), failed);
    assert_eq!(create_response(&local(), Err(ServiceError::NotFound)), failed);
}

#[test]
fn list_response_carries_the_shortcuts() {
    let rows = vec![shortcut("https://a.com", "amber-bridge")];
    assert_eq!(
        list_response(Ok(rows.clone())),
        Response { status: 200, body: Body::Shortcuts(rows) }
    );
    assert_eq!(
        list_response(Err(ServiceError::StoreUnavailable)),
        text(500, "Could not access all shortcuts")
    );
}

#[test]
fn delete_response_tells_an_unknown_hash_from_a_failure() {
    assert_eq!(delete_response(Ok(())), Response { status: 204, body: Body::Empty });
    assert_eq!(
        delete_response(Err(ServiceError::NotFound)),
        text(400, "The given shortcut does not exist")
    );
    assert_eq!(
        delete_response(Err(ServiceError::StoreUnavailable)),
        text(500, "Could not delete shortcut")
    );
}

#[test]
fn clear_response_is_ok_or_a_failure() {
    assert_eq!(clear_response(Ok(())), Response { status: 200, body: Body::Empty });
    assert_eq!(
        clear_response(Err(ServiceError::StoreUnavailable)),
        text(500, "Could not clear shortcuts")
    );
}

#[test]
fn index_answers_with_the_page() {
    assert_eq!(index_template().url, "/");
    assert_eq!(
        index(Some("<html></html>".to_string())),
        Response { status: 200, body: Body::Html("<html></html>".to_string()) }
    );
    assert_eq!(index(None), text(500, "Could not render template"));
}

#[test]
fn open_shortcut_on_a_table() {
    let mut table = Table::new();
    add_shortcut(&mut table, &shortcut("https://a.com", "amber-bridge")).unwrap();
    assert_eq!(
        open_shortcut(&table, "amber-bridge"),
        Response { status: 307, body: Body::Location("https://a.com".to_string()) }
    );
    assert_eq!(
        open_shortcut(&table, "birch-canyon"),
        text(500, "Could not get original link for given shortcut")
    );
}

#[test]
fn create_new_shortcut_on_a_table() {
    let mut table = Table::new();
    let request = CreateLink { link: "https://example.com/path?q=1".to_string() };
    let response = create_new_shortcut(&mut table, &local(), &request);
    assert_eq!(response.status, 200);
    let url = match response.body {
        Body::Text(url) => url,
        other => panic!("no text: {:?}", other),
    };
    let hash = url.strip_prefix("http://127.0.0.1:8080/").unwrap().to_string();
    assert_eq!(table.len(), 1);
    assert_eq!(
        open_shortcut(&table, &hash),
        Response { status: 307, body: Body::Location("https://example.com/path?q=1".to_string()) }
    );
}

#[test]
fn create_new_shortcut_refuses_what_is_no_link() {
    let mut table = Table::new();
    for link in ["not-a-url", "ftp://x", "http://"] {
        let request = CreateLink { link: link.to_string() };
        assert_eq!(
            create_new_shortcut(&mut table, &local(), &request),
            text(400, "Invalid URL provided as link")
        );
    }
    assert_eq!(table.len(), 0);
}

#[test]
fn get_all_shortcuts_on_a_table() {
    let mut table = Table::new();
    assert_eq!(get_all_shortcuts(&table), Response { status: 200, body: Body::Shortcuts(vec![]) });
    add_shortcut(&mut table, &shortcut("https://a.com", "amber-bridge")).unwrap();
    add_shortcut(&mut table, &shortcut("https://b.com", "birch-canyon")).unwrap();
    assert_eq!(
        get_all_shortcuts(&table),
        Response {
            status: 200,
            body: Body::Shortcuts(vec![
                shortcut("https://a.com", "amber-bridge"),
                shortcut("https://b.com", "birch-canyon")
            ])
        }
    );
}

#[test]
fn delete_shortcut_on_a_table() {
    let mut table = Table::new();
    add_shortcut(&mut table, &shortcut("https://a.com", "amber-bridge")).unwrap();
    assert_eq!(
        delete_shortcut(&mut table, "birch-canyon"),
        text(400, "The given shortcut does not exist")
    );
    assert_eq!(table.len(), 1);
    assert_eq!(
        delete_shortcut(&mut table, "amber-bridge"),
        Response { status: 204, body: Body::Empty }
    );
    assert_eq!(table.len(), 0);
    assert_eq!(
        delete_shortcut(&mut table, "amber-bridge"),
        text(400, "The given shortcut does not exist")
    );
}

#[test]
fn clear_shortcuts_on_a_table() {
    let mut table = Table::new();
    add_shortcut(&mut table, &shortcut("https://a.com", "amber-bridge")).unwrap();
    add_shortcut(&mut table, &shortcut("https://b.com", "birch-canyon")).unwrap();
    assert_eq!(clear_shortcuts(&mut table), Response { status: 200, body: Body::Empty });
    assert_eq!(get_all_shortcuts(&table), Response { status: 200, body: Body::Shortcuts(vec![]) });
    assert_eq!(clear_shortcuts(&mut table), Response { status: 200, body: Body::Empty });
}

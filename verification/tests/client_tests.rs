use cli_shortener::args::{
    gen_addr, needs_server, ClapArgs, DeleteCommand, EntityType, NewCommand, DEFAULT_PORT,
};
use cli_shortener::client::{no_address, plan, report, Method, Plan, Reply, Report, Request};
use cli_shortener::db::Shortcut;
use cli_shortener::registry::ServerAddress;
use cli_shortener::utils::CreateLink;

fn address(host: &str, port: u16, path: &str) -> ServerAddress {
    ServerAddress { host: host.to_string(), port, path: path.to_string() }
}

fn args(host: &str, port: u16, path: &str) -> ClapArgs {
    ClapArgs {
        entity_type: EntityType::Start,
        verbose: false,
        port,
        host: host.to_string(),
        path: path.to_string(),
    }
}

fn new(link: &str) -> EntityType {
    EntityType::New(NewCommand { link: link.to_string() })
}

fn delete(link: &str) -> EntityType {
    EntityType::Delete(DeleteCommand { link: link.to_string() })
}

fn answer(status: u16, text: &str) -> Reply {
    Reply::Answer { status, text: text.to_string(), shortcuts: None }
}

fn say(line: &str) -> Report {
    Report::Say(line.to_string())
}

#[test]
fn gen_addr_keeps_what_can_be_had() {
    assert_eq!(DEFAULT_PORT, 8080);
    assert_eq!(gen_addr(&args("10.0.0.5", 3000, "s"), true, true), address("10.0.0.5", 3000, "s"));
}

#[test]
fn gen_addr_falls_back_to_the_local_host() {
    assert_eq!(gen_addr(&args("nowhere", 3000, ""), false, true), address("127.0.0.1", 3000, ""));
}

#[test]
fn gen_addr_falls_back_to_a_port_of_the_systems_choice() {
    assert_eq!(gen_addr(&args("10.0.0.5", 3000, "s"), true, false), address("10.0.0.5", 0, "s"));
    assert_eq!(gen_addr(&args("nowhere", 3000, "s"), false, false), address("127.0.0.1", 0, "s"));
}

#[test]
fn needs_server_for_every_command_but_start() {
    assert!(!needs_server(&EntityType::Start));
    assert!(needs_server(&EntityType::List));
    assert!(needs_server(&EntityType::Clear));
    assert!(needs_server(&new("https://example.com")));
    assert!(needs_server(&delete("willow-harbor")));
}

#[test]
fn plan_for_start() {
    assert_eq!(plan(&EntityType::Start, &address("127.0.0.1", 8080, "")), Plan::Serve);
}

#[test]
fn plan_for_list_and_clear() {
    assert_eq!(
        plan(&EntityType::List, &address("127.0.0.1", 8080, "")),
        Plan::Send(Request {
            method: Method::Get,
            url: "http://127.0.0.1:8080/all".to_string(),
            body: None
        })
    );
    assert_eq!(
        plan(&EntityType::List, &address("127.0.0.1", 8080, "s")),
        Plan::Send(Request {
            method: Method::Get,
            url: "http://127.0.0.1:8080/s/all".to_string(),
            body: None
        })
    );
    assert_eq!(
        plan(&EntityType::Clear, &address("127.0.0.1", 8080, "s")),
        Plan::Send(Request {
            method: Method::Get,
            url: "http://127.0.0.1:8080/s/clear".to_string(),
            body: None
        })
    );
}

#[test]
fn plan_for_new() {
    assert_eq!(
        plan(&new("https://example.com/path?q=1"), &address("127.0.0.1", 8080, "")),
        Plan::Send(Request {
            method: Method::Post,
            url: "http://127.0.0.1:8080/".to_string(),
            body: Some(CreateLink { link: "https://example.com/path?q=1".to_string() })
        })
    );
    assert_eq!(
        plan(&new("https://example.com"), &address("127.0.0.1", 8080, "s")),
        Plan::Send(Request {
            method: Method::Post,
            url: "http://127.0.0.1:8080/s".to_string(),
            body: Some(CreateLink { link: "https://example.com".to_string() })
        })
    );
    assert_eq!(
        plan(&new("not-a-url"), &address("127.0.0.1", 8080, "")),
        Plan::Refuse(
            "\nThe link given is not valid. Make sure to provide the full link address."
                .to_string()
        )
    );
}

#[test]
fn plan_for_delete() {
    let expected = Plan::Send(Request {
        method: Method::Delete,
        url: "http://127.0.0.1:8080/s/willow-harbor".to_string(),
        body: None,
    });
    assert_eq!(plan(&delete("willow-harbor"), &address("127.0.0.1", 8080, "s")), expected);
    assert_eq!(
        plan(&delete("http://127.0.0.1:8080/s/willow-harbor"), &address("127.0.0.1", 8080, "s")),
        expected
    );
}

#[test]
fn report_where_no_server_answered() {
    let line = say(
        "\nThe links server has not been started. Use the start command to start the server",
    );
    assert_eq!(report(&EntityType::List, Reply::Unreachable), line);
    assert_eq!(report(&EntityType::Clear, Reply::Unreachable), line);
    assert_eq!(report(&new("https://example.com"), Reply::Unreachable), line);
    assert_eq!(report(&delete("willow-harbor"), Reply::Unreachable), line);
    assert_eq!(report(&EntityType::Start, Reply::Unreachable), Report::Silence);
}

#[test]
fn report_for_list() {
    let rows = vec![Shortcut { link: "https://a.com".to_string(), hash: "amber-bridge".to_string() }];
    let listed = Reply::Answer { status: 200, text: "".to_string(), shortcuts: Some(rows.clone()) };
    assert_eq!(report(&EntityType::List, listed), Report::Show(rows));
    let none = Reply::Answer { status: 200, text: "[]".to_string(), shortcuts: Some(vec![]) };
    assert_eq!(
        report(&EntityType::List, none),
        say("\nNo shortcuts have been created yet. Use the new command to create a new link")
    );
    assert_eq!(report(&EntityType::List, answer(200, "?")), say("\nNo links could be found"));
    assert_eq!(report(&EntityType::List, answer(500, "")), Report::Silence);
}

#[test]
fn report_for_new() {
    let command = new("https://example.com");
    assert_eq!(
        report(&command, answer(200, "http://127.0.0.1:8080/willow-harbor")),
        say("\nhttp://127.0.0.1:8080/willow-harbor --> https://example.com")
    );
    assert_eq!(report(&command, answer(400, "")), say("\nCould not create shortcut to link"));
    assert_eq!(report(&command, answer(500, "")), say("\nCould not create shortcut to link"));
}

#[test]
fn report_for_delete() {
    let command = delete("willow-harbor");
    assert_eq!(report(&command, answer(204, "")), say("\nDeleted shortcut to link"));
    assert_eq!(report(&command, answer(400, "")), say("\nCould not delete given shortcut link"));
    assert_eq!(report(&command, answer(200, "")), say("\nCould not delete given shortcut link"));
}

#[test]
fn report_for_clear() {
    assert_eq!(report(&EntityType::Clear, answer(200, "")), say("\nDeleted all shortcuts"));
    assert_eq!(
        report(&EntityType::Clear, answer(500, "")),
        say("\nCould not delete all shortcuts")
    );
}

#[test]
fn no_address_line() {
    assert_eq!(no_address(), "Could not get address to access cli_shortener");
}

use klumo::web::{
    decode_percent_path, guess_content_type, is_affirmative, names_a_file, parse_web_command,
    parse_web_start, plan_script_command, port_or_default, read_request_line, request_route_key,
    resolve_request_path, route_path, script_asks_to_open, server_url, status_or_ok, status_text,
    web_server_scope_text, RequestLine, RequestMethod, ScriptCommand, ScriptOptions, WebAction,
    WebCommand, WebError, WebServerConfig, WebStart, DEFAULT_WEB_HOST, DEFAULT_WEB_PORT,
};

#[test]
fn main_web_start_parser_applies_defaults() {
    let start = parse_web_start(&[], "here").expect("parse");
    assert_eq!(start.config.host, DEFAULT_WEB_HOST);
    assert_eq!(start.config.port, DEFAULT_WEB_PORT);
    assert!(start.open_override.is_none());
    assert!(start.ask_open);
}

#[test]
fn web_start_parser_applies_defaults() {
    let start = parse_web_start(&[], "here").expect("parse");
    assert_eq!(start.config.host, DEFAULT_WEB_HOST);
    assert_eq!(start.config.port, DEFAULT_WEB_PORT);
    assert_eq!(start.config.root_dir, "here");
    assert!(start.open_override.is_none());
    assert!(start.ask_open);
}

#[test]
fn main_web_start_parser_supports_flags() {
    let start = parse_web_start(
        &["--host", "0.0.0.0", "--port", "8080", "--dir", "web", "--open"],
        "here",
    )
    .expect("parse");
    assert_eq!(start.config.host, "0.0.0.0");
    assert_eq!(start.config.port, 8080);
    assert_eq!(start.config.root_dir, "web");
    assert_eq!(start.open_override, Some(true));
    assert!(!start.ask_open);
}

#[test]
fn web_start_parser_supports_flags() {
    let start = parse_web_start(
        &["--host", "0.0.0.0", "--port", "8080", "--dir", "web", "--open"],
        "here",
    )
    .expect("parse");
    assert_eq!(start.config.host, "0.0.0.0");
    assert_eq!(start.config.port, 8080);
    assert_eq!(start.config.root_dir, "web");
    assert_eq!(start.open_override, Some(true));
    assert!(!start.ask_open);
}

#[test]
fn main_route_path_normalizes_missing_leading_slash() {
    let normalized = route_path("api/health").expect("path");
    assert_eq!(normalized, "/api/health");
}

#[test]
fn route_path_normalizes_missing_leading_slash() {
    let normalized = route_path("api/health").expect("path");
    assert_eq!(normalized, "/api/health");
}

#[test]
fn main_route_path_rejects_parent_segments() {
    let err = route_path("../escape").expect_err("should reject");
    assert!(err.message().contains("invalid route path"));
}

#[test]
fn route_path_rejects_parent_segments() {
    let err = route_path("../escape").expect_err("should reject");
    assert!(err.message().contains("invalid route path"));
}

#[test]
fn route_paths_keep_their_slash_and_refuse_two_dots_anywhere() {
    assert_eq!(route_path("/a"), Ok("/a".to_string()));
    assert_eq!(route_path(""), Ok("/".to_string()));
    assert_eq!(route_path("a..b"), Err(WebError::InvalidRoute("a..b".to_string())));
    assert_eq!(
        WebError::InvalidRoute("a..b".to_string()).message(),
        "invalid route path 'a..b'"
    );
}

#[test]
fn start_flags_are_read_in_order_and_refused_when_wrong() {
    let start = parse_web_start(&["--open", "--no-open", "--port", "+80"], "cwd").expect("parse");
    assert_eq!(start.open_override, Some(false));
    assert_eq!(start.config.port, 80);
    let quiet = parse_web_start(&["--no-open-prompt"], "cwd").expect("parse");
    assert_eq!(quiet.open_override, None);
    assert!(!quiet.ask_open);

    let err = parse_web_start(&["--host"], "cwd").expect_err("no value");
    assert_eq!(err, WebError::MissingValue("--host".to_string()));
    assert_eq!(err.message(), "missing value for --host");
    for bad in ["65536", "", "-1", "8o", "99999999999999999999"] {
        let err = parse_web_start(&["--port", bad], "cwd").expect_err("bad port");
        assert_eq!(err, WebError::InvalidPort(bad.to_string()));
        assert_eq!(err.message(), format!("invalid --port value '{bad}'"));
    }
    assert_eq!(parse_web_start(&["--port", "65535"], "cwd").expect("max").config.port, 65535);
    let err = parse_web_start(&["--dir", "d", "--fast"], "cwd").expect_err("unknown");
    assert_eq!(err.message(), "unknown .web start flag '--fast'");
}

#[test]
fn web_lines_are_commands() {
    assert_eq!(parse_web_command("let a = 1", "cwd"), Ok(WebCommand::Nothing));
    assert_eq!(parse_web_command("", "cwd"), Ok(WebCommand::Nothing));
    assert_eq!(parse_web_command(".web", "cwd"), Ok(WebCommand::Status));
    assert_eq!(parse_web_command("  .web   status ", "cwd"), Ok(WebCommand::Status));
    assert_eq!(parse_web_command(".web help", "cwd"), Ok(WebCommand::Help));
    assert_eq!(parse_web_command(".web stop", "cwd"), Ok(WebCommand::Stop));
    assert_eq!(parse_web_command(".web restart", "cwd"), Ok(WebCommand::Restart));
    assert_eq!(parse_web_command(".web open", "cwd"), Ok(WebCommand::Open));
    assert_eq!(
        parse_web_command(".web start --port 9000\t--no-open", "cwd"),
        Ok(WebCommand::Start(WebStart {
            config: WebServerConfig {
                host: "127.0.0.1".to_string(),
                port: 9000,
                root_dir: "cwd".to_string(),
            },
            open_override: Some(false),
            ask_open: false,
        }))
    );
    let err = parse_web_command(".web dance", "cwd").expect_err("unknown");
    assert_eq!(err.message(), "unknown .web action 'dance'");
    assert_eq!(
        parse_web_command(".web start --port", "cwd"),
        Err(WebError::MissingValue("--port".to_string()))
    );
}

#[test]
fn status_codes_and_content_types() {
    assert_eq!(status_text(200), "OK");
    assert_eq!(status_text(201), "Created");
    assert_eq!(status_text(202), "Accepted");
    assert_eq!(status_text(204), "No Content");
    assert_eq!(status_text(400), "Bad Request");
    assert_eq!(status_text(404), "Not Found");
    assert_eq!(status_text(405), "Method Not Allowed");
    assert_eq!(status_text(500), "Internal Server Error");
    assert_eq!(status_text(418), "OK");
    assert_eq!(guess_content_type("index.HTML"), "text/html; charset=utf-8");
    assert_eq!(guess_content_type("a/b.htm"), "text/html; charset=utf-8");
    assert_eq!(guess_content_type("site.css"), "text/css; charset=utf-8");
    assert_eq!(guess_content_type("app.mjs"), "application/javascript; charset=utf-8");
    assert_eq!(guess_content_type("data.json"), "application/json; charset=utf-8");
    assert_eq!(guess_content_type("logo.svg"), "image/svg+xml");
    assert_eq!(guess_content_type("p.png"), "image/png");
    assert_eq!(guess_content_type("p.jpeg"), "image/jpeg");
    assert_eq!(guess_content_type("p.gif"), "image/gif");
    assert_eq!(guess_content_type("p.webp"), "image/webp");
    assert_eq!(guess_content_type("favicon.ico"), "image/x-icon");
    assert_eq!(guess_content_type("notes.txt"), "text/plain; charset=utf-8");
    assert_eq!(guess_content_type("archive.tar.gz"), "application/octet-stream");
    assert_eq!(guess_content_type("Makefile"), "application/octet-stream");
}

#[test]
fn percent_escapes_are_resolved() {
    assert_eq!(decode_percent_path("/a%20b/c").as_deref(), Some("/a b/c"));
    assert_eq!(decode_percent_path("%41%6a%6A").as_deref(), Some("Ajj"));
    assert_eq!(decode_percent_path("%C3%A9t%c3%a9").as_deref(), Some("été"));
    assert_eq!(decode_percent_path("é").as_deref(), Some("é"));
    assert_eq!(decode_percent_path(""), Some(String::new()));
    assert_eq!(decode_percent_path("%"), None);
    assert_eq!(decode_percent_path("%4"), None);
    assert_eq!(decode_percent_path("a%zz"), None);
    assert_eq!(decode_percent_path("%FF"), None);
    assert_eq!(decode_percent_path("%+1").as_deref(), Some("\u{1}"));
    assert_eq!(decode_percent_path("%-1"), None);
    assert_eq!(decode_percent_path("%é"), None);
}

#[test]
fn request_targets_name_files_under_the_root() {
    assert_eq!(resolve_request_path("/srv", "/").as_deref(), Some("/srv"));
    assert_eq!(resolve_request_path("/srv", "/a/b.html?x=1/../y").as_deref(), Some("/srv/a/b.html"));
    assert_eq!(resolve_request_path("/srv/", "a//./b").as_deref(), Some("/srv/a/b"));
    assert_eq!(resolve_request_path("", "/a").as_deref(), Some("a"));
    assert_eq!(resolve_request_path("/srv", "/a/../b"), None);
    assert_eq!(resolve_request_path("/srv", "/%2e%2e/secret"), None);
    assert_eq!(resolve_request_path("/srv", "/a%2Fb").as_deref(), Some("/srv/a/b"));
    assert_eq!(resolve_request_path("/srv", "/%"), None);
    assert_eq!(resolve_request_path("/srv", "/..."), Some("/srv/...".to_string()));
}

#[test]
fn what_scripts_ask_for_is_bounded() {
    assert_eq!(port_or_default(None), 4173);
    assert_eq!(port_or_default(Some(8080)), 8080);
    assert_eq!(port_or_default(Some(65536)), 4173);
    assert_eq!(status_or_ok(None), 200);
    assert_eq!(status_or_ok(Some(404)), 404);
    assert_eq!(status_or_ok(Some(70000)), 200);
    assert!(script_asks_to_open(None, None));
    assert!(script_asks_to_open(None, Some(false)));
    assert!(!script_asks_to_open(None, Some(true)));
    assert!(!script_asks_to_open(Some(false), None));
    assert_eq!(server_url("127.0.0.1", 4173), "http://127.0.0.1:4173/");
}

#[test]
fn the_status_sentence_is_exact() {
    assert_eq!(
        web_server_scope_text(None, 0),
        "Web daemon is not running. Registered API routes: 0. JavaScript APIs available in REPL: klumo.web.start(opts), klumo.web.stop(), klumo.web.restart(opts), klumo.web.status(), klumo.web.open(), klumo.web.routeJson(path, payload, opts), klumo.web.routeText(path, text, opts), klumo.web.unroute(path)."
    );
    assert_eq!(
        web_server_scope_text(Some(("http://127.0.0.1:4173/", "/srv/site")), 12),
        "Web daemon is running at http://127.0.0.1:4173/ and serving files from /srv/site. Registered API routes: 12. File changes are reflected on refresh because content is read from disk per request. JavaScript APIs available in REPL: klumo.web.start(opts), klumo.web.stop(), klumo.web.restart(opts), klumo.web.status(), klumo.web.open(), klumo.web.routeJson(path, payload, opts), klumo.web.routeText(path, text, opts), klumo.web.unroute(path)."
    );
}

#[test]
fn the_first_line_of_a_request_is_read() {
    assert_eq!(
        read_request_line("GET /a/b?x=1 HTTP/1.1\r\nHost: h\r\n\r\n"),
        RequestLine { method: RequestMethod::Get, target: "/a/b?x=1".to_string() }
    );
    assert_eq!(
        read_request_line("head /\n"),
        RequestLine { method: RequestMethod::Head, target: "/".to_string() }
    );
    assert_eq!(
        read_request_line("POST /x HTTP/1.1"),
        RequestLine { method: RequestMethod::Other, target: "/x".to_string() }
    );
    assert_eq!(
        read_request_line("GET"),
        RequestLine { method: RequestMethod::Get, target: "/".to_string() }
    );
    assert_eq!(
        read_request_line(""),
        RequestLine { method: RequestMethod::Other, target: "/".to_string() }
    );
    assert_eq!(
        read_request_line("\nGET /late"),
        RequestLine { method: RequestMethod::Other, target: "/".to_string() }
    );
    assert_eq!(request_route_key("/api/a%20b?q=%zz"), "/api/a b");
    assert_eq!(request_route_key("/api/%zz"), "/api/%zz");
    assert!(names_a_file("/a/b.css"));
    assert!(names_a_file("/a.d/.hidden"));
    assert!(!names_a_file("/a.d/page"));
    assert!(!names_a_file("/"));
}

#[test]
fn only_y_and_yes_say_yes() {
    for yes in ["y", "Y\n", " yes ", "YES"] {
        assert!(is_affirmative(yes));
    }
    for no in ["", "n", "no", "yeah", "y es"] {
        assert!(!is_affirmative(no));
    }
}

fn no_options() -> ScriptOptions {
    ScriptOptions {
        host: None,
        port: None,
        dir: None,
        open: None,
        no_open_prompt: None,
        status: None,
        content_type: None,
    }
}

fn command(action: &str, path: Option<&str>, options: Option<ScriptOptions>) -> ScriptCommand {
    ScriptCommand { action: action.to_string(), path: path.map(str::to_string), options }
}

#[test]
fn scripts_start_stop_and_restart_the_server() {
    assert_eq!(
        plan_script_command(&command("start", None, None), "cwd"),
        Ok(WebAction::Start(WebStart {
            config: WebServerConfig {
                host: "127.0.0.1".to_string(),
                port: 4173,
                root_dir: "cwd".to_string(),
            },
            open_override: None,
            ask_open: true,
        }))
    );
    let options = ScriptOptions {
        host: Some("0.0.0.0".to_string()),
        port: Some(8080),
        dir: Some("site".to_string()),
        open: Some(false),
        ..no_options()
    };
    assert_eq!(
        plan_script_command(&command("start", None, Some(options.clone())), "cwd"),
        Ok(WebAction::Start(WebStart {
            config: WebServerConfig {
                host: "0.0.0.0".to_string(),
                port: 8080,
                root_dir: "site".to_string(),
            },
            open_override: Some(false),
            ask_open: false,
        }))
    );
    let quiet = ScriptOptions { no_open_prompt: Some(true), port: Some(70000), ..no_options() };
    match plan_script_command(&command("start", None, Some(quiet)), "cwd") {
        Ok(WebAction::Start(start)) => {
            assert!(!start.ask_open);
            assert_eq!(start.open_override, None);
            assert_eq!(start.config.port, 4173);
        }
        other => panic!("unexpected {other:?}"),
    }
    assert_eq!(plan_script_command(&command("stop", None, None), "cwd"), Ok(WebAction::Stop));
    assert_eq!(plan_script_command(&command("open", None, None), "cwd"), Ok(WebAction::Open));
    assert_eq!(
        plan_script_command(&command("restart", None, None), "cwd"),
        Ok(WebAction::Restart { config: None, open: false })
    );
    assert_eq!(
        plan_script_command(
            &command("restart", None, Some(ScriptOptions { open: Some(true), ..no_options() })),
            "cwd"
        ),
        Ok(WebAction::Restart {
            config: Some(WebServerConfig {
                host: "127.0.0.1".to_string(),
                port: 4173,
                root_dir: ".".to_string(),
            }),
            open: true,
        })
    );
    assert_eq!(plan_script_command(&command("dance", None, None), "cwd"), Ok(WebAction::Ignore));
}

#[test]
fn scripts_register_and_remove_routes() {
    assert_eq!(
        plan_script_command(&command("route_json", Some("api/health"), None), "cwd"),
        Ok(WebAction::Route {
            key: "/api/health".to_string(),
            status: 200,
            content_type: "application/json; charset=utf-8".to_string(),
        })
    );
    let options = ScriptOptions {
        status: Some(404),
        content_type: Some("text/html".to_string()),
        ..no_options()
    };
    assert_eq!(
        plan_script_command(&command("route_json", Some("/a"), Some(options.clone())), "cwd"),
        Ok(WebAction::Route {
            key: "/a".to_string(),
            status: 404,
            content_type: "application/json; charset=utf-8".to_string(),
        })
    );
    assert_eq!(
        plan_script_command(&command("route_text", Some("/a"), Some(options)), "cwd"),
        Ok(WebAction::Route {
            key: "/a".to_string(),
            status: 404,
            content_type: "text/html".to_string(),
        })
    );
    assert_eq!(
        plan_script_command(&command("route_text", Some("b"), Some(no_options())), "cwd"),
        Ok(WebAction::Route {
            key: "/b".to_string(),
            status: 200,
            content_type: "text/plain; charset=utf-8".to_string(),
        })
    );
    assert_eq!(
        plan_script_command(&command("unroute", Some("b"), None), "cwd"),
        Ok(WebAction::Unroute { key: "/b".to_string() })
    );
    for action in ["route_json", "route_text", "unroute"] {
        assert_eq!(plan_script_command(&command(action, None, None), "cwd"), Ok(WebAction::Ignore));
        assert_eq!(
            plan_script_command(&command(action, Some("../x"), None), "cwd"),
            Err(WebError::InvalidRoute("../x".to_string()))
        );
    }
}

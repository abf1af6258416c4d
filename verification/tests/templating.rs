use tera_templating::middleware::directory_glob;
use tera_templating::response::{
    into_response, into_result, render_response, HTTP_INTERNAL_SERVER_ERROR, HTTP_OK,
};
use tera_templating::{
    from_request, ReplaceTemplates, Request, TeraTemplatingEndpoint, TeraTemplatingMiddleware,
};

fn engine_with(name: &str, content: &str) -> tera::Tera {
    let mut engine = tera::Tera::default();
    engine.add_raw_template(name, content).unwrap();
    engine
}

fn names(engine: &tera::Tera) -> Vec<String> {
    engine.get_template_names().map(|n| n.to_string()).collect()
}

#[test]
fn directory_glob_appends_recursive_pattern() {
    assert_eq!(directory_glob("templates"), "templates/**/*");
    assert_eq!(directory_glob(""), "/**/*");
}

#[test]
fn from_glob_without_star_is_rejected() {
    let result = TeraTemplatingMiddleware::from_glob("missing_templates");
    let err = result.err().expect("a starless pattern is not a glob");
    assert!(!err.message.is_empty());
}

#[test]
fn from_directory_of_missing_directory_is_empty() {
    let middleware = TeraTemplatingMiddleware::from_directory("no_such_templates_dir").unwrap();
    assert_eq!(names(&middleware.tera).len(), 0);
}

#[test]
fn default_reads_conventional_directory() {
    let middleware = TeraTemplatingMiddleware::default().unwrap();
    assert_eq!(names(&middleware.tera).len(), 0);
}

#[test]
fn custom_keeps_configured_engine() {
    let middleware = TeraTemplatingMiddleware::custom(engine_with("hello.html", "Hi"));
    assert!(names(&middleware.tera).contains(&"hello.html".to_string()));
}

#[test]
fn transform_starts_with_no_transformers() {
    let middleware = TeraTemplatingMiddleware::custom(engine_with("hello.html", "Hi"));
    let ep: TeraTemplatingEndpoint<u8, ReplaceTemplates> = middleware.transform(7u8);
    assert_eq!(ep.inner, 7u8);
    assert_eq!(ep.transformers.len(), 0);
    assert!(names(&ep.tera).contains(&"hello.html".to_string()));
}

#[test]
fn using_registers_transformers_in_order() {
    let middleware = TeraTemplatingMiddleware::custom(tera::Tera::default());
    let ep: TeraTemplatingEndpoint<u8, ReplaceTemplates> = middleware.transform(0u8);
    let ep = ep
        .using(ReplaceTemplates { replacement: engine_with("first.html", "1") })
        .using(ReplaceTemplates { replacement: engine_with("second.html", "2") });
    assert_eq!(ep.transformers.len(), 2);
    assert!(names(&ep.transformers[0].replacement).contains(&"first.html".to_string()));
    assert!(names(&ep.transformers[1].replacement).contains(&"second.html".to_string()));
}

#[test]
fn prepare_fills_slot_with_copy_of_shared_set() {
    let middleware = TeraTemplatingMiddleware::custom(engine_with("hello.html", "Hi"));
    let ep: TeraTemplatingEndpoint<u8, ReplaceTemplates> = middleware.transform(0u8);
    let req = Request::new(String::from("/"));
    assert!(req.tera_slot.is_none());
    let out = ep.prepare(req);
    assert_eq!(out.path, "/");
    let mut copy = from_request(&out);
    assert!(names(&copy).contains(&"hello.html".to_string()));
    // Mutating the per-request copy leaves the shared set untouched.
    copy.add_raw_template("extra.html", "x").unwrap();
    assert!(!names(&ep.tera).contains(&"extra.html".to_string()));
}

#[test]
fn prepare_applies_transformer_to_request_copy() {
    let middleware = TeraTemplatingMiddleware::custom(engine_with("base.html", "b"));
    let ep: TeraTemplatingEndpoint<u8, ReplaceTemplates> = middleware.transform(0u8);
    let ep = ep.using(ReplaceTemplates { replacement: engine_with("swapped.html", "s") });
    let out = ep.prepare(Request::new(String::from("/page")));
    let copy = from_request(&out);
    assert!(names(&copy).contains(&"swapped.html".to_string()));
    assert!(!names(&copy).contains(&"base.html".to_string()));
    // The shared set still holds the original template.
    assert!(names(&ep.tera).contains(&"base.html".to_string()));
}

#[test]
fn request_isolation() {
    let middleware = TeraTemplatingMiddleware::custom(engine_with("shared.html", "s"));
    let ep: TeraTemplatingEndpoint<u8, ReplaceTemplates> = middleware.transform(0u8);
    let ep = ep.using(ReplaceTemplates { replacement: engine_with("common.html", "c") });

    let first = ep.prepare(Request::new(String::from("/a")));
    let second = ep.prepare(Request::new(String::from("/b")));

    let mut first_copy = from_request(&first);
    first_copy.add_raw_template("only_first.html", "1").unwrap();

    let second_copy = from_request(&second);
    assert!(names(&second_copy).contains(&"common.html".to_string()));
    assert!(!names(&second_copy).contains(&"only_first.html".to_string()));
    assert!(!names(&ep.tera).contains(&"only_first.html".to_string()));
}

#[test]
fn insert_tera_fills_the_typed_slot() {
    let mut req = Request::new(String::from("/"));
    assert!(req.tera_slot.is_none());
    req.insert_tera(engine_with("t.html", "t"));
    assert!(req.tera_slot.is_some());
    assert_eq!(req.path, "/");
}

#[test]
fn render_known_template_gives_ok_with_body() {
    let engine = engine_with("hello.html", "Hello {{ name }}!");
    let mut ctx = tera::Context::new();
    ctx.insert("name", "World");
    let outcome = engine.render("hello.html", &ctx);

    let html = into_result(outcome).ok().expect("render succeeded");
    assert_eq!(html.0, "Hello World!");

    let resp = into_response(Ok(html));
    assert_eq!(resp.status, HTTP_OK);
    assert_eq!(resp.status, 200);
    assert_eq!(resp.body, "Hello World!");
}

#[test]
fn failed_render_gives_internal_server_error() {
    let engine = engine_with("hello.html", "Hello {{ name }}!");
    let ctx = tera::Context::new();
    let outcome = engine.render("hello.html", &ctx);
    assert!(outcome.is_err());

    let result = into_result(engine.render("hello.html", &ctx));
    let err = result.err().expect("missing variable fails the render");
    assert!(!err.message.is_empty());

    let resp = render_response(outcome);
    assert_eq!(resp.status, HTTP_INTERNAL_SERVER_ERROR);
    assert_eq!(resp.status, 500);
    assert_eq!(resp.body, "");
}

#[test]
fn render_response_maps_success_straight_through() {
    let resp = render_response(Ok(String::from("<p>ok</p>")));
    assert_eq!(resp.status, 200);
    assert_eq!(resp.body, "<p>ok</p>");
}

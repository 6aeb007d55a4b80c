use axum_mini::guard::Doubt;
use axum_mini::header::Header;
use axum_mini::interceptor::{conclude, process, respond, response_buffer, transform_failure, Pending, Step};
use axum_mini::response::{Failure, FailureKind, Response, INTERNAL_SERVER_ERROR};
use axum_mini::transform::MinifyConfig;
use axum_mini::html_minifier;

fn header(name: &str, value: &str) -> Header {
    Header { name: name.as_bytes().to_vec(), value: value.as_bytes().to_vec() }
}

fn html_headers() -> Vec<Header> {
    vec![header("Content-Type", "text/html; charset=utf-8")]
}

fn has(hay: &[u8], needle: &[u8]) -> bool {
    hay.windows(needle.len()).any(|w| w == needle)
}

fn run_minifier(body: &[u8], cfg: &MinifyConfig) -> Vec<u8> {
    let mut switches = minify_html::Cfg::new();
    switches.allow_removing_spaces_between_attributes = cfg.allow_removing_spaces_between_attributes;
    switches.minify_css = cfg.minify_css;
    switches.minify_js = cfg.minify_js;
    switches.remove_bangs = cfg.remove_bangs;
    switches.remove_processing_instructions = cfg.remove_processing_instructions;
    switches.keep_comments = cfg.keep_comments;
    minify_html::minify(body, &switches)
}

fn finish(step: Step) -> Result<Response, Failure> {
    match step {
        Step::Settled(outcome) => outcome,
        Step::Deferred(pending) => {
            let rewritten = run_minifier(&pending.body, &pending.cfg);
            conclude(pending, Ok(rewritten))
        }
    }
}

fn settled(step: Step) -> Result<Response, Failure> {
    match step {
        Step::Settled(outcome) => outcome,
        Step::Deferred(pending) => panic!("deferred for {:?}", pending.doubt),
    }
}

fn deferred(step: Step) -> Pending {
    match step {
        Step::Settled(outcome) => panic!("settled as {:?}", outcome),
        Step::Deferred(pending) => pending,
    }
}

fn minified(body: &[u8]) -> Vec<u8> {
    match finish(html_minifier(200, html_headers(), Ok(body.to_vec()))) {
        Ok(response) => response.body,
        Err(failure) => panic!("unexpected failure: {}", failure.message),
    }
}

#[test]
fn html_body_loses_comment_and_spacing() {
    let body = b"<html>  <!-- c --> <body>  <h1>Hi</h1>  </body></html>".to_vec();
    let response = settled(html_minifier(200, html_headers(), Ok(body.clone()))).unwrap();
    assert_eq!(response.status, 200);
    assert_eq!(response.headers, html_headers());
    assert!(!has(&response.body, b"<!--"));
    assert!(!has(&response.body, b"c -->"));
    assert!(!has(&response.body, b"> <"));
    assert!(!has(&response.body, b"  "));
    assert!(has(&response.body, b"<h1>Hi</h1>"));
    assert!(response.body.len() < body.len());
    assert_eq!(response.body, b"<body><h1>Hi</h1>".to_vec());
}

#[test]
fn json_body_is_byte_identical() {
    let headers = vec![header("Content-Type", "application/json")];
    let body = b"{\"a\":1}".to_vec();
    let response = settled(html_minifier(200, headers.clone(), Ok(body.clone()))).unwrap();
    assert_eq!(response, Response { status: 200, headers, body });
}

#[test]
fn failed_drain_is_an_internal_error() {
    let headers = vec![header("Content-Type", "text/html"), header("X-Trace", "abc")];
    let failure = settled(html_minifier(200, headers, Err("connection reset".to_string()))).unwrap_err();
    assert_eq!(failure.kind, FailureKind::BodyRead);
    assert_eq!(failure.status(), 500);
    assert_eq!(failure.message, "failed to read response body: connection reset");
    assert!(!failure.message.is_empty());
    let response = failure.into_response();
    assert_eq!(response.status, 500);
    assert!(response.headers.is_empty());
    assert_eq!(response.body, b"failed to read response body: connection reset".to_vec());
}

#[test]
fn failed_drain_is_reported_for_any_content_type() {
    let failure = settled(html_minifier(204, vec![header("Content-Type", "application/json")], Err(String::new())))
        .unwrap_err();
    assert_eq!(failure.kind, FailureKind::BodyRead);
    assert_eq!(failure.message, "failed to read response body: ");
    let failure = settled(html_minifier(200, Vec::new(), Err("eof".to_string()))).unwrap_err();
    assert_eq!(failure.message, "failed to read response body: eof");
}

#[test]
fn empty_html_body_stays_empty() {
    let response = settled(html_minifier(200, html_headers(), Ok(Vec::new()))).unwrap();
    assert_eq!(response, Response { status: 200, headers: html_headers(), body: Vec::new() });
}

#[test]
fn empty_body_without_content_type_stays_empty() {
    let response = settled(html_minifier(304, Vec::new(), Ok(Vec::new()))).unwrap();
    assert_eq!(response, Response { status: 304, headers: Vec::new(), body: Vec::new() });
}

#[test]
fn missing_content_type_is_never_transformed() {
    let headers = vec![header("Content-Length", "54"), header("X-Content-Type", "text/html")];
    let body = b"<html>  <!-- c --> <body>  <h1>Hi</h1>  </body></html>".to_vec();
    let response = settled(html_minifier(200, headers.clone(), Ok(body.clone()))).unwrap();
    assert_eq!(response, Response { status: 200, headers, body });
}

#[test]
fn passthrough_keeps_bytes_status_and_headers() {
    let types = ["text/plain", "text/htm", "application/xhtml+xml", "image/png", "TEXT/HTML", "text /html", ""];
    let statuses: [u16; 4] = [200, 201, 404, 503];
    let body: Vec<u8> = (0u16..=255).map(|b| b as u8).collect();
    for (k, t) in types.iter().enumerate() {
        let headers = vec![header("Server", "x"), header("content-type", t), header("ETag", "\"1\"")];
        let status = statuses[k % statuses.len()];
        let response = settled(html_minifier(status, headers.clone(), Ok(body.clone()))).unwrap();
        assert_eq!(response.status, status);
        assert_eq!(response.headers, headers);
        assert_eq!(response.body, body);
    }
}

#[test]
fn html_response_keeps_status_and_every_header() {
    let headers = vec![
        header("Content-Length", "24"),
        header("Content-Type", "text/html"),
        header("Set-Cookie", "a=1"),
        header("Set-Cookie", "b=2"),
    ];
    let response = settled(html_minifier(404, headers.clone(), Ok(b"<p>  Hello, world!  </p>".to_vec()))).unwrap();
    assert_eq!(response.status, 404);
    assert_eq!(response.headers, headers);
    assert_eq!(response.body, b"<p>Hello, world!".to_vec());
}

#[test]
fn page_with_a_script_is_deferred_and_minified() {
    let body = b"<p>  a  </p><script> var  x = 1 ; console.log( x ) ; </script>".to_vec();
    let pending = deferred(html_minifier(201, html_headers(), Ok(body.clone())));
    assert_eq!(
        pending,
        Pending {
            status: 201,
            headers: html_headers(),
            body: body.clone(),
            cfg: MinifyConfig::fixed(),
            doubt: Doubt::Script,
        }
    );
    let response = finish(Step::Deferred(pending)).unwrap();
    assert_eq!(response.status, 201);
    assert_eq!(response.headers, html_headers());
    assert_eq!(response.body, b"<p>a</p><script>console.log(1);</script>".to_vec());
    for body in [&b"<SCRIPT src=a.js></SCRIPT>"[..], &b"<p>the tag <scripture> is not one</p>"[..]] {
        assert_eq!(deferred(html_minifier(200, html_headers(), Ok(body.to_vec()))).doubt, Doubt::Script);
    }
}

#[test]
fn page_with_a_style_is_deferred_and_minified() {
    let cases: Vec<(&[u8], &[u8])> = vec![
        (b"<style> body { color: red; } </style><p>x</p>", b"<style>body{color:red}</style><p>x"),
        (b"<div style=\"color: red;\">x</div>", b"<div style=color:red>x</div>"),
        (b"<p>  a matter of style  </p>", b"<p>a matter of style"),
    ];
    for (body, expected) in cases {
        let pending = deferred(html_minifier(200, html_headers(), Ok(body.to_vec())));
        assert_eq!(pending.doubt, Doubt::Style);
        assert_eq!(pending.body, body.to_vec());
        assert_eq!(pending.cfg, MinifyConfig::fixed());
        assert_eq!(finish(Step::Deferred(pending)).unwrap().body, expected.to_vec());
    }
}

#[test]
fn style_sheet_that_is_not_utf8_is_left_to_the_caller() {
    for body in [&b"<style>\xff</style>"[..], &b"<p style=\"\xc3\">x</p>"[..]] {
        let pending = deferred(html_minifier(200, html_headers(), Ok(body.to_vec())));
        assert_eq!(pending.doubt, Doubt::Style);
        let failure = conclude(pending, Err("the minifier stopped".to_string())).unwrap_err();
        assert_eq!(failure.kind, FailureKind::Transform);
        assert_eq!(failure.status(), 500);
        assert_eq!(failure.message, "failed to minify response body: the minifier stopped");
        let response = failure.into_response();
        assert_eq!(response.status, 500);
        assert!(response.headers.is_empty());
        assert!(!response.body.is_empty());
    }
}

#[test]
fn embedded_css_and_js_are_minified() {
    let body = b"<!DOCTYPE html><html><head><style> body { color: red; } </style></head><body><?php x ?><p class=\"a\"  id=\"b\">x</p><script> var  x = 1 ; console.log( x ) ; </script></body></html>";
    let out = minified(body);
    assert!(has(&out, b"<style>body{color:red}</style>"));
    assert!(has(&out, b"<script>console.log(1);</script>"));
    assert!(has(&out, b"<p class=a id=b>x"));
    assert!(!has(&out, b"<?php"));
    assert!(out.len() < body.len());
}

#[test]
fn scripts_and_styles_are_settled_with_their_switches_off() {
    let body = b"<!DOCTYPE html><html><head><style> body { color: red; } </style></head><body><?php x ?><p class=\"a\"  id=\"b\">x</p><script> var  x = 1 ; console.log( x ) ; </script></body></html>";
    let mut cfg = MinifyConfig::fixed();
    cfg.minify_js = false;
    cfg.minify_css = false;
    let out = settled(process(200, html_headers(), Ok(body.to_vec()), &cfg)).unwrap().body;
    assert!(has(&out, b"<style>body { color: red; }</style>"));
    assert!(has(&out, b"<script>var  x = 1 ; console.log( x ) ;</script>"));
    assert!(has(&out, b"<p class=a id=b>x"));
    assert!(!has(&out, b"<?php"));
    assert!(out.len() < body.len());
    let sent = settled(process(200, html_headers(), Ok(b"<style>\xff</style>".to_vec()), &cfg));
    assert_eq!(sent.unwrap().body, b"<style>\xff</style>".to_vec());
}

#[test]
fn only_the_switch_that_is_on_raises_a_doubt() {
    let mut cfg = MinifyConfig::fixed();
    cfg.minify_js = false;
    let pending = deferred(process(200, html_headers(), Ok(b"<script>1</script><style>a{}</style>".to_vec()), &cfg));
    assert_eq!(pending.doubt, Doubt::Style);
    assert_eq!(pending.cfg, cfg);
    let mut cfg = MinifyConfig::fixed();
    cfg.minify_css = false;
    let pending = deferred(process(200, html_headers(), Ok(b"<style>a{}</style><script>1</script>".to_vec()), &cfg));
    assert_eq!(pending.doubt, Doubt::Script);
    assert_eq!(pending.cfg, cfg);
    let sent = settled(process(200, html_headers(), Ok(b"<style>a{}</style>".to_vec()), &cfg)).unwrap();
    assert_eq!(sent.body, b"<style>a{}</style>".to_vec());
}

#[test]
fn end_tag_that_runs_on_is_deferred() {
    let bodies: Vec<&[u8]> = vec![
        b"<title>a</titles>",
        b"<textarea>a</TEXTAREA-x>",
        b"<p></title:b>",
        b"<p>a</Title9",
    ];
    for body in bodies {
        let pending = deferred(html_minifier(200, html_headers(), Ok(body.to_vec())));
        assert_eq!(pending.doubt, Doubt::EndTag);
        assert_eq!(pending.body, body.to_vec());
    }
    let mut cfg = MinifyConfig::fixed();
    cfg.minify_js = false;
    cfg.minify_css = false;
    for body in [&b"<script></scripts>"[..], &b"<style></STYLEs>"[..]] {
        let pending = deferred(process(200, html_headers(), Ok(body.to_vec()), &cfg));
        assert_eq!(pending.doubt, Doubt::EndTag);
    }
}

#[test]
fn end_tag_that_stops_is_settled() {
    let cases: Vec<(&[u8], &[u8])> = vec![
        (b"<title> a </title><p>b</p>", b"<title> a </title><p>b"),
        (b"<textarea>a</textarea >", b"<textarea>a</textarea>"),
        (b"<title>a</title", b"<title>a</title>"),
    ];
    for (body, expected) in cases {
        let sent = settled(html_minifier(200, html_headers(), Ok(body.to_vec()))).unwrap();
        assert_eq!(sent.body, expected.to_vec());
    }
}

fn nested(depth: usize) -> Vec<u8> {
    let mut body = Vec::new();
    for _ in 0..depth {
        body.extend_from_slice(b"<div> ");
    }
    body.extend_from_slice(b"x");
    for _ in 0..depth {
        body.extend_from_slice(b" </div>");
    }
    body
}

#[test]
fn nesting_up_to_the_bound_is_settled() {
    for depth in [1usize, 2, 64, 127, 128] {
        let body = nested(depth);
        let out = settled(html_minifier(200, html_headers(), Ok(body.clone()))).unwrap().body;
        assert!(out.len() < body.len());
        assert!(has(&out, b"<div>x"));
    }
    let mut flat = Vec::new();
    for _ in 0..128 {
        flat.extend_from_slice(b"<br> ");
    }
    let out = settled(html_minifier(200, html_headers(), Ok(flat.clone()))).unwrap().body;
    assert!(out.len() < flat.len());
}

#[test]
fn more_elements_than_the_bound_are_deferred() {
    let mut flat = Vec::new();
    for _ in 0..129 {
        flat.extend_from_slice(b"<br> ");
    }
    for body in [nested(129), nested(5000), flat.clone()] {
        let pending = deferred(html_minifier(200, html_headers(), Ok(body.clone())));
        assert_eq!(pending.doubt, Doubt::Elements);
        assert_eq!(pending.body, body);
        assert_eq!(pending.headers, html_headers());
    }
    let out = minified(&flat);
    assert!(out.len() < flat.len());
    assert!(!has(&out, b"<br> "));
    let out = minified(&nested(150));
    assert!(has(&out, b"<div>x"));
}

#[test]
fn doubtful_html_passes_through_when_not_declared_html() {
    let headers = vec![header("Content-Type", "text/plain")];
    for body in [nested(5000), b"<script>((((</script>".to_vec(), b"<title></titles>".to_vec()] {
        let response = settled(html_minifier(200, headers.clone(), Ok(body.clone()))).unwrap();
        assert_eq!(response.body, body);
    }
}

#[test]
fn conclude_puts_the_minified_body_into_the_pending_response() {
    let pending = Pending {
        status: 203,
        headers: vec![header("Content-Type", "text/html"), header("X", "y")],
        body: b"<p>  a  </p>".to_vec(),
        cfg: MinifyConfig::fixed(),
        doubt: Doubt::Elements,
    };
    let sent = conclude(pending.clone(), Ok(b"<p>a".to_vec())).unwrap();
    assert_eq!(sent, Response { status: 203, headers: pending.headers.clone(), body: b"<p>a".to_vec() });
    let sent = conclude(pending.clone(), Ok(Vec::new())).unwrap();
    assert_eq!(sent.body, Vec::<u8>::new());
    let failure = conclude(pending, Err("out of patience".to_string())).unwrap_err();
    assert_eq!(
        failure,
        Failure {
            kind: FailureKind::Transform,
            message: "failed to minify response body: out of patience".to_string(),
        }
    );
}

#[test]
fn bang_declarations_are_removed() {
    let out = minified(b"<![CDATA[ x ]]><p>y</p>");
    assert!(!has(&out, b"CDATA"));
    assert!(has(&out, b"<p>y"));
}

#[test]
fn second_pass_does_not_grow() {
    let bodies: Vec<&[u8]> = vec![
        b"<html>  <!-- c --> <body>  <h1>Hi</h1>  </body></html>",
        b"<p>  Hello, world!  </p>",
        b"<ul> <li> one </li> <li> two </li> </ul>",
        b"<div class=\"red\">x</div>",
        b"a < b",
        b"<a href=\"x\"   title=\"y z\">t</a>",
        b"<a title=\"&lt;script\">x</a>",
        b"<p>  a  </p><script> var  x = 1 ; console.log( x ) ; </script>",
        b"<style> body { color: red; } </style><p>x</p>",
        b"",
    ];
    for body in bodies {
        let once = minified(body);
        let twice = minified(&once);
        assert!(twice.len() <= once.len());
    }
}

#[test]
fn output_that_raises_a_doubt_is_minified_again() {
    let once = settled(html_minifier(200, html_headers(), Ok(b"<a title=\"&lt;script\">x</a>".to_vec())));
    let once = once.unwrap().body;
    assert!(has(&once, b"<script"));
    let pending = deferred(html_minifier(200, html_headers(), Ok(once.clone())));
    assert_eq!(pending.doubt, Doubt::Script);
    let twice = finish(Step::Deferred(pending)).unwrap().body;
    assert!(twice.len() <= once.len());
}

#[test]
fn well_formed_html_does_not_grow() {
    let bodies: Vec<&[u8]> = vec![
        b"<html>  <!-- c --> <body>  <h1>Hi</h1>  </body></html>",
        b"<!DOCTYPE html><html><head><title>T</title></head><body><p>x</p></body></html>",
        b"<p>  Hello, world!  </p>",
        b"<ul> <li> one </li> <li> two </li> </ul>",
        b"<table><tr><td>1</td><td>2</td></tr></table>",
        b"<p>a &lt; b</p>",
        b"<p>plain</p>",
        b"<p style=\"color:red\">x</p>",
        b"<p>a matter of style</p>",
        b"<p>a</p><script>var x = 1;</script>",
        b"",
    ];
    for body in bodies {
        assert!(minified(body).len() <= body.len());
    }
}

#[test]
fn html_body_that_is_not_utf8_is_minified() {
    assert_eq!(minified(b"<p>  \xe9t\xe9  </p>"), b"<p>\xe9t\xe9".to_vec());
    assert_eq!(minified(b"<p a=\"\xff\">  x  </p> <!-- \xfe -->"), b"<p a=\xff>x".to_vec());
}

#[test]
fn body_that_is_not_utf8_passes_through_when_not_html() {
    let headers = vec![header("Content-Type", "application/octet-stream")];
    let body = vec![0xffu8, 0x00, 0xc3, 0x28];
    let response = settled(html_minifier(200, headers.clone(), Ok(body.clone()))).unwrap();
    assert_eq!(response, Response { status: 200, headers, body });
}

#[test]
fn html_in_utf8_beyond_ascii_is_minified() {
    let body = "<p>  h\u{e9}llo \u{4e16}\u{754c} \u{1f600}  </p>".as_bytes().to_vec();
    let out = minified(&body);
    assert_eq!(out, "<p>h\u{e9}llo \u{4e16}\u{754c} \u{1f600}".as_bytes().to_vec());
}

#[test]
fn fixed_configuration_has_the_six_switches() {
    let cfg = MinifyConfig::fixed();
    assert!(cfg.allow_removing_spaces_between_attributes);
    assert!(cfg.minify_css);
    assert!(cfg.minify_js);
    assert!(cfg.remove_bangs);
    assert!(cfg.remove_processing_instructions);
    assert!(!cfg.keep_comments);
}

#[test]
fn process_follows_the_switches_it_is_given() {
    let body = b"<p>a</p><!-- c --><?x y?><p>b</p>".to_vec();
    let mut keep = MinifyConfig::fixed();
    keep.keep_comments = true;
    keep.remove_processing_instructions = false;
    let kept = settled(process(200, html_headers(), Ok(body.clone()), &keep)).unwrap();
    assert!(has(&kept.body, b"<!-- c -->"));
    assert!(has(&kept.body, b"<?x y?>"));
    let dropped = settled(process(200, html_headers(), Ok(body.clone()), &MinifyConfig::fixed())).unwrap();
    assert!(!has(&dropped.body, b"<!--"));
    assert!(!has(&dropped.body, b"<?x"));
    assert_eq!(dropped, settled(html_minifier(200, html_headers(), Ok(body))).unwrap());
}

#[test]
fn minifier_is_a_function_of_its_input() {
    let body = b"<div b=\"2\" a=\"1\" c=\"3\" z=\"margin: 0px\"><p d e f>x</p></div>";
    let first = minified(body);
    for _ in 0..20 {
        assert_eq!(minified(body), first);
    }
}

#[test]
fn response_buffer_passes_bytes_and_words_the_failure() {
    assert_eq!(response_buffer(Ok(vec![1, 2, 3])), Ok(vec![1, 2, 3]));
    assert_eq!(response_buffer(Ok(Vec::new())), Ok(Vec::new()));
    assert_eq!(
        response_buffer(Err("broken pipe".to_string())),
        Err("failed to read response body: broken pipe".to_string())
    );
}

#[test]
fn respond_picks_the_body_by_the_answer_of_the_transform() {
    let headers = vec![header("A", "b")];
    let sent = respond(200, headers.clone(), vec![1, 2], None).unwrap();
    assert_eq!(sent, Response { status: 200, headers: headers.clone(), body: vec![1, 2] });
    let sent = respond(201, headers.clone(), vec![1, 2], Some(Ok(vec![9]))).unwrap();
    assert_eq!(sent, Response { status: 201, headers: headers.clone(), body: vec![9] });
    let sent = respond(200, headers.clone(), vec![1, 2], Some(Ok(Vec::new()))).unwrap();
    assert_eq!(sent.body, Vec::<u8>::new());
    let failure = respond(200, headers, vec![1, 2], Some(Err("it stopped".to_string()))).unwrap_err();
    assert_eq!(
        failure,
        Failure {
            kind: FailureKind::Transform,
            message: "failed to minify response body: it stopped".to_string(),
        }
    );
}

#[test]
fn transform_failure_names_the_cause() {
    let failure = transform_failure("the minifier stopped");
    assert_eq!(failure.kind, FailureKind::Transform);
    assert_eq!(failure.message, "failed to minify response body: the minifier stopped");
    assert_eq!(failure.status(), 500);
    let response = failure.into_response();
    assert_eq!(response.status, 500);
    assert_eq!(response.headers, Vec::new());
    assert_eq!(response.body, b"failed to minify response body: the minifier stopped".to_vec());
}

#[test]
fn failure_response_carries_the_message_as_utf8() {
    let failure = Failure { kind: FailureKind::BodyRead, message: "d\u{e9}connect\u{e9}".to_string() };
    let response = failure.into_response();
    assert_eq!(response.body, "d\u{e9}connect\u{e9}".as_bytes().to_vec());
    assert_eq!(response.status, INTERNAL_SERVER_ERROR);
}

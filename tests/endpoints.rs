use trait_link::client::reqwest::Client as MethodClient;
use trait_link::client::reqwest_blocking::AsyncClient;
use trait_link::client::HttpMethod;
use trait_link::format::browser_json::BrowserJson;
use trait_link::model::{Method, ReturnKind, ServiceDefinition};
use trait_link::protocol::compile;
use trait_link::reqwest::Client;

#[test]
fn posting_endpoint() {
    let c = Client::new("http://localhost:8080/api/todo");
    assert_eq!(c.url(), "http://localhost:8080/api/todo");
    assert_eq!(c.method(), HttpMethod::Post);
}

#[test]
fn endpoint_with_method() {
    let c = MethodClient::new("http://localhost:8080/api/todo", HttpMethod::Put);
    assert_eq!(c.url(), "http://localhost:8080/api/todo");
    assert_eq!(c.method(), HttpMethod::Put);
    let b = AsyncClient::new("http://localhost:3000/", HttpMethod::Get);
    assert_eq!(b.url(), "http://localhost:3000/");
    assert_eq!(b.method(), HttpMethod::Get);
}

#[test]
fn method_names() {
    let names: Vec<&str> = [HttpMethod::Get, HttpMethod::Post, HttpMethod::Put, HttpMethod::Patch, HttpMethod::Delete]
        .iter()
        .map(|m| m.as_str())
        .collect();
    assert_eq!(names, vec!["GET", "POST", "PUT", "PATCH", "DELETE"]);
}

#[test]
fn json_content_type() {
    assert_eq!(BrowserJson.content_type(), "application/json");
}

#[test]
fn request_and_response_type_names() {
    let defs = vec![ServiceDefinition {
        vis: String::new(),
        name: "Resources".to_string(),
        generics: vec!["T".to_string()],
        methods: vec![Method { name: "list".to_string(), params: vec![], ret: ReturnKind::Value("Vec<T>".to_string()) }],
    }];
    let schema = compile(&defs).expect("compiles");
    let p = schema.protocol(0);
    assert_eq!(p.request_name(), "ResourcesRequest");
    assert_eq!(p.response_name(), "ResourcesResponse");
    assert_eq!(p.generics, vec!["T".to_string()]);
    assert_eq!(p.cases[0].variant, "List");
}

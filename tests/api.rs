use moxie_ai::api::{
    ApiArg, ApiPlugin, ApiPluginConfig, AuthPlan, AuthType, EndpointDef, HttpMethod, ParamDef,
    ServiceDef,
};
use moxie_ai::tool::PluginError;
use serde_json::Value;

fn param(required: bool, description: &str, location: &str) -> ParamDef {
    ParamDef {
        param_type: "string".to_string(),
        required,
        description: description.to_string(),
        default: None,
        location: location.to_string(),
    }
}

fn sample_config() -> ApiPluginConfig {
    ApiPluginConfig {
        services: vec![ServiceDef {
            id: "test".to_string(),
            name: "Test API".to_string(),
            base_url: "https://httpbin.org".to_string(),
            auth_type: AuthType::NoAuth,
            auth_header: None,
            auth_param: None,
            auth_env: None,
            headers: vec![],
            timeout_secs: 30,
            endpoints: vec![
                EndpointDef {
                    name: "get_info".to_string(),
                    method: HttpMethod::GET,
                    path: "/get".to_string(),
                    description: "Get request info".to_string(),
                    params: vec![("foo".to_string(), param(false, "A test param", "query"))],
                    response_type: None,
                    requires_confirmation: false,
                },
                EndpointDef {
                    name: "post_data".to_string(),
                    method: HttpMethod::POST,
                    path: "/post".to_string(),
                    description: "Post some data".to_string(),
                    params: vec![("message".to_string(), param(true, "Message to send", "body"))],
                    response_type: None,
                    requires_confirmation: false,
                },
            ],
        }],
    }
}

fn arg(name: &str, text: &str) -> ApiArg {
    ApiArg { name: name.to_string(), text: text.to_string(), value: Value::from(text) }
}

#[test]
fn test_tool_generation() {
    let plugin = ApiPlugin::new(sample_config());
    let tools = plugin.tools();

    assert_eq!(tools.len(), 2);
    assert_eq!(tools[0].name, "test_get_info");
    assert_eq!(tools[1].name, "test_post_data");
}

#[test]
fn test_find_endpoint() {
    let plugin = ApiPlugin::new(sample_config());

    let result = plugin.find_endpoint("test_get_info");
    assert!(result.is_some());

    let (service, endpoint) = result.unwrap();
    assert_eq!(service.id, "test");
    assert_eq!(endpoint.name, "get_info");
}

#[test]
fn generated_tool_describes_endpoint_and_schema() {
    let plugin = ApiPlugin::new(sample_config());
    let tools = plugin.tools();
    assert_eq!(tools[1].description, "Test API: Post some data");
    assert_eq!(tools[1].parameters["required"][0], "message");
    assert_eq!(tools[1].parameters["properties"]["message"]["type"], "string");
    assert_eq!(tools[1].plugin_id.as_deref(), Some("moxie.api"));
    let mut config = sample_config();
    config.services[0].endpoints[0].description = String::new();
    let plugin = ApiPlugin::new(config);
    assert_eq!(plugin.tools()[0].description, "Test API: GET /get");
    assert_eq!(plugin.service_count(), 1);
    assert_eq!(plugin.endpoint_count(), 2);
}

#[test]
fn unknown_api_tool_is_not_found() {
    let plugin = ApiPlugin::new(sample_config());
    assert!(plugin.find_endpoint("test_missing").is_none());
    assert!(matches!(plugin.route("other_get_info"), Err(PluginError::ToolNotFound(t)) if t == "other_get_info"));
}

#[test]
fn call_plan_places_arguments() {
    let mut config = sample_config();
    config.services[0].base_url = "https://api.example.com//".to_string();
    config.services[0].headers = vec![("X-Client".to_string(), "moxie".to_string())];
    config.services[0].endpoints.push(EndpointDef {
        name: "update".to_string(),
        method: HttpMethod::PUT,
        path: "/items/{id}/{id}".to_string(),
        description: String::new(),
        params: vec![
            ("id".to_string(), param(true, "", "path")),
            ("trace".to_string(), param(false, "", "header")),
            ("note".to_string(), param(false, "", "body")),
        ],
        response_type: None,
        requires_confirmation: true,
    });
    let plugin = ApiPlugin::new(config);
    let (service, endpoint) = plugin.find_endpoint("test_update").unwrap();
    let args = vec![arg("id", "42"), arg("trace", "t-1"), arg("note", "hi"), arg("page", "2")];
    let plan = plugin.plan_call(service, endpoint, &args);
    assert_eq!(plan.method, HttpMethod::PUT);
    assert_eq!(plan.url, "https://api.example.com/items/42/42");
    assert_eq!(plan.query, vec![("page".to_string(), "2".to_string())]);
    assert_eq!(
        plan.headers,
        vec![
            ("X-Client".to_string(), "moxie".to_string()),
            ("trace".to_string(), "t-1".to_string())
        ]
    );
    assert_eq!(plan.body.len(), 1);
    assert_eq!(plan.body[0].0, "note");
    assert!(plan.send_body);
    assert_eq!(plan.timeout_secs, 30);
}

#[test]
fn get_requests_send_no_body() {
    let plugin = ApiPlugin::new(sample_config());
    let (service, endpoint) = plugin.find_endpoint("test_get_info").unwrap();
    let plan = plugin.plan_call(service, endpoint, &vec![arg("foo", "bar"), arg("message", "x")]);
    assert_eq!(plan.url, "https://httpbin.org/get");
    assert_eq!(plan.query, vec![("foo".to_string(), "bar".to_string()), ("message".to_string(), "x".to_string())]);
    assert!(!plan.send_body);
}

#[test]
fn authentication_plans() {
    let plugin = ApiPlugin::default_plugin();
    let mut service = sample_config().services.remove(0);
    let cred = Some("user:pa:ss".to_string());
    assert!(matches!(plugin.auth_plan(&service, &cred), AuthPlan::Anonymous));
    service.auth_type = AuthType::Basic;
    match plugin.auth_plan(&service, &cred) {
        AuthPlan::Basic(u, p) => {
            assert_eq!(u, "user");
            assert_eq!(p, "pa:ss");
        }
        _ => panic!("expected basic"),
    }
    assert!(matches!(plugin.auth_plan(&service, &Some("nocolon".to_string())), AuthPlan::Anonymous));
    service.auth_type = AuthType::Bearer;
    match plugin.auth_plan(&service, &Some("tok".to_string())) {
        AuthPlan::Header(n, v) => {
            assert_eq!(n, "Authorization");
            assert_eq!(v, "Bearer tok");
        }
        _ => panic!("expected header"),
    }
    service.auth_type = AuthType::ApiKey;
    assert!(matches!(plugin.auth_plan(&service, &Some("k".to_string())), AuthPlan::Anonymous));
    service.auth_header = Some("X-API-Key".to_string());
    assert!(matches!(plugin.auth_plan(&service, &Some("k".to_string())), AuthPlan::Header(n, v) if n == "X-API-Key" && v == "k"));
    assert!(matches!(plugin.auth_plan(&service, &None), AuthPlan::Anonymous));
}

#[test]
fn responses_become_tool_results() {
    let plugin = ApiPlugin::default_plugin();
    let ok = plugin.response_result(200, Value::from("body"), "\"body\"", 12);
    assert!(ok.success);
    assert_eq!(ok.output["status"], 200);
    assert_eq!(ok.output["data"], "body");
    assert_eq!(ok.metadata.unwrap().duration_ms, Some(12));
    let bad = plugin.response_result(404, Value::from("nope"), "\"nope\"", 3);
    assert!(!bad.success);
    assert_eq!(bad.error.as_deref(), Some("API returned error 404: \"nope\""));
    assert!(plugin.response_result(299, Value::from(1u64), "1", 0).success);
    assert!(!plugin.response_result(300, Value::from(1u64), "1", 0).success);
    assert!(!plugin.response_result(199, Value::from(1u64), "1", 0).success);
}

#[test]
fn api_manifest_and_method_names() {
    let m = ApiPlugin::default_plugin().manifest();
    assert_eq!(m.id, "moxie.api");
    assert!(m.validate().is_ok());
    assert_eq!(HttpMethod::PATCH.as_str(), "PATCH");
    assert_eq!(HttpMethod::default(), HttpMethod::GET);
    assert_eq!(AuthType::default(), AuthType::NoAuth);
}

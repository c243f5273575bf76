use tencentcloud_hunyuan_sdk::client::{env_debug_enabled, Client, ClientBuilder, Credential, Region};
use tencentcloud_hunyuan_sdk::models::Message;
use tencentcloud_hunyuan_sdk::tc3::{MAX_TIMESTAMP, MIN_TIMESTAMP};
use time::OffsetDateTime;

fn credential(token: Option<&str>) -> Credential {
    Credential {
        secret_id: "test_id".to_string(),
        secret_key: "test_key".to_string(),
        token: token.map(|t| t.to_string()),
    }
}

#[test]
fn test_region_as_str() {
    assert_eq!(Region::ApBeijing.as_str(), "ap-beijing");
    assert_eq!(Region::ApGuangzhou.as_str(), "ap-guangzhou");
    assert_eq!(
        Region::Custom("custom-region".to_string()).as_str(),
        "custom-region"
    );
}

#[test]
fn test_region_custom_is_passed_through() {
    assert_eq!(Region::Custom("x".to_string()).as_str(), "x");
}

#[test]
fn test_region_names_are_not_empty() {
    for region in [
        Region::ApBeijing,
        Region::ApGuangzhou,
        Region::Custom("x".to_string()),
        Region::Custom(" ".to_string()),
    ] {
        assert!(region.has_name());
        assert!(!region.as_str().is_empty());
    }
}

#[test]
fn test_region_without_a_name() {
    assert!(!Region::Custom(String::new()).has_name());
}

#[test]
fn test_region_clone_keeps_the_name() {
    for region in [
        Region::ApBeijing,
        Region::ApGuangzhou,
        Region::Custom("custom-region".to_string()),
    ] {
        assert_eq!(region.clone().as_str(), region.as_str());
    }
}

#[test]
fn test_client_builder_uses_its_own_transport() {
    let client = ClientBuilder::new()
        .http(reqwest::Client::new())
        .credential(credential(Some("tok")))
        .build(None, None);
    assert_eq!(client.region().as_str(), "ap-guangzhou");
    assert_eq!(client.credential().secret_id, "test_id");
    assert_eq!(client.credential().secret_key, "test_key");
    assert_eq!(client.credential().token, Some("tok".to_string()));
}

#[test]
fn test_client_clone_keeps_the_credential() {
    let client = ClientBuilder::new()
        .credential(credential(Some("tok")))
        .region(Region::Custom("eu-frankfurt".to_string()))
        .endpoint("hunyuan.example.com")
        .debug(true)
        .build(Some(reqwest::Client::new()), None);
    let cloned = client.clone();
    assert_eq!(cloned.credential().secret_id, "test_id");
    assert_eq!(cloned.credential().secret_key, "test_key");
    assert_eq!(cloned.credential().token, Some("tok".to_string()));
    assert_eq!(cloned.region().as_str(), "eu-frankfurt");
    assert_eq!(cloned.endpoint(), "hunyuan.example.com");
    assert!(cloned.debug());
}

#[test]
fn test_credential_creation() {
    let cred = Credential {
        secret_id: "test_id".to_string(),
        secret_key: "test_key".to_string(),
        token: None,
    };
    assert_eq!(cred.secret_id, "test_id");
    assert_eq!(cred.secret_key, "test_key");
    assert!(cred.token.is_none());

    let cred_with_token = Credential {
        secret_id: "test_id".to_string(),
        secret_key: "test_key".to_string(),
        token: Some("test_token".to_string()),
    };
    assert_eq!(cred_with_token.token, Some("test_token".to_string()));
}

#[test]
fn test_client_builder_defaults() {
    let client = ClientBuilder::new()
        .credential(Credential {
            secret_id: "test_id".to_string(),
            secret_key: "test_key".to_string(),
            token: None,
        })
        .build(Some(reqwest::Client::new()), None);

    assert_eq!(client.region().as_str(), "ap-guangzhou");
    assert_eq!(client.endpoint(), "hunyuan.tencentcloudapi.com");
    assert!(!client.debug());
}

#[test]
fn test_client_builder_custom_values() {
    let client = ClientBuilder::new()
        .credential(Credential {
            secret_id: "test_id".to_string(),
            secret_key: "test_key".to_string(),
            token: None,
        })
        .region(Region::ApBeijing)
        .endpoint("custom.endpoint.com")
        .debug(true)
        .build(Some(reqwest::Client::new()), None);

    assert_eq!(client.region().as_str(), "ap-beijing");
    assert_eq!(client.endpoint(), "custom.endpoint.com");
    assert!(client.debug());
}

#[test]
fn test_client_builder_custom_region() {
    let client = ClientBuilder::new()
        .credential(Credential {
            secret_id: "test_id".to_string(),
            secret_key: "test_key".to_string(),
            token: None,
        })
        .region(Region::Custom("us-west-1".to_string()))
        .build(Some(reqwest::Client::new()), None);

    assert_eq!(client.region().as_str(), "us-west-1");
}

#[test]
fn test_client_builder_with_token() {
    let client = ClientBuilder::new()
        .credential(Credential {
            secret_id: "test_id".to_string(),
            secret_key: "test_key".to_string(),
            token: Some("session_token".to_string()),
        })
        .build(Some(reqwest::Client::new()), None);

    assert_eq!(client.credential().token, Some("session_token".to_string()));
}

#[test]
fn test_client_builder_env_debug() {
    // With the debug switch of the environment set
    let client = ClientBuilder::new()
        .credential(Credential {
            secret_id: "test_id".to_string(),
            secret_key: "test_key".to_string(),
            token: None,
        })
        .build(Some(reqwest::Client::new()), Some("true"));
    assert!(client.debug());

    // With the switch not set
    let client = ClientBuilder::new()
        .credential(Credential {
            secret_id: "test_id".to_string(),
            secret_key: "test_key".to_string(),
            token: None,
        })
        .build(Some(reqwest::Client::new()), None);
    assert!(!client.debug());
}

#[test]
fn test_client_builder_override_env_debug() {
    // An explicit setting wins over the switch of the environment
    let client = ClientBuilder::new()
        .credential(Credential {
            secret_id: "test_id".to_string(),
            secret_key: "test_key".to_string(),
            token: None,
        })
        .debug(false)
        .build(Some(reqwest::Client::new()), Some("true"));
    assert!(!client.debug());
}

#[test]
fn test_env_debug_values() {
    for on in ["1", "true", "TRUE", "on", "ON"] {
        assert!(env_debug_enabled(Some(on)), "{on}");
    }
    for off in ["0", "false", "True", "On", "yes", "", " true", "true "] {
        assert!(!env_debug_enabled(Some(off)), "{off}");
    }
    assert!(!env_debug_enabled(None));
}

#[test]
fn test_client_builder_methods() {
    let builder = ClientBuilder::new();
    assert!(!builder.has_http());
    assert!(!builder.has_credential());
    assert!(!builder.has_region());
    assert!(!builder.has_endpoint());
    assert!(!builder.has_debug());
}

#[test]
fn test_client_builder_default_is_empty() {
    let builder = ClientBuilder::default();
    assert!(!builder.has_http());
    assert!(!builder.has_credential());
    assert!(!builder.has_region());
    assert!(!builder.has_endpoint());
    assert!(!builder.has_debug());
}

#[test]
fn test_client_builder_fluent_interface() {
    let builder = ClientBuilder::new()
        .http(reqwest::Client::new())
        .credential(Credential {
            secret_id: "test_id".to_string(),
            secret_key: "test_key".to_string(),
            token: None,
        })
        .region(Region::ApBeijing)
        .endpoint("test.endpoint.com")
        .debug(true);

    assert!(builder.has_http());
    assert!(builder.has_credential());
    assert!(builder.has_region());
    assert!(builder.has_endpoint());
    assert!(builder.has_debug());
}

#[test]
fn test_client_builder_setters_fill_one_slot_each() {
    let builder = ClientBuilder::new().region(Region::ApBeijing);
    assert!(builder.has_region());
    assert!(!builder.has_credential());
    assert!(!builder.has_endpoint());
    let builder = builder.endpoint("e.example.com");
    assert!(builder.has_endpoint());
    assert!(!builder.has_debug());
    assert!(!builder.has_http());
}

#[test]
fn test_client_clone() {
    let client = ClientBuilder::new()
        .credential(Credential {
            secret_id: "test_id".to_string(),
            secret_key: "test_key".to_string(),
            token: None,
        })
        .build(Some(reqwest::Client::new()), None);

    let cloned = client.clone();
    assert_eq!(cloned.region().as_str(), client.region().as_str());
    assert_eq!(cloned.endpoint(), client.endpoint());
    assert_eq!(cloned.debug(), client.debug());
}

#[test]
fn test_client_builder_method() {
    let client = Client::builder()
        .credential(Credential {
            secret_id: "test_id".to_string(),
            secret_key: "test_key".to_string(),
            token: None,
        })
        .build(Some(reqwest::Client::new()), None);

    assert_eq!(client.region().as_str(), "ap-guangzhou");
}

#[test]
fn test_tc3_sign_components() {
    let client = ClientBuilder::new()
        .credential(Credential {
            secret_id: "test_id".to_string(),
            secret_key: "test_key".to_string(),
            token: None,
        })
        .build(Some(reqwest::Client::new()), None);

    let timestamp = OffsetDateTime::now_utc().unix_timestamp();
    assert!(MIN_TIMESTAMP <= timestamp && timestamp <= MAX_TIMESTAMP);
    let (signature, credential_scope) = client.tc3_sign(
        "POST",
        "/",
        "",
        "content-type:application/json; charset=utf-8\nhost:hunyuan.tencentcloudapi.com\n",
        "content-type;host",
        "test_payload_hash",
        timestamp,
    );

    assert!(!signature.is_empty());
    assert!(!credential_scope.is_empty());
    assert!(credential_scope.contains("hunyuan"));
    assert!(credential_scope.contains("tc3_request"));
}

#[test]
fn test_tc3_sign_gives_64_hex_characters() {
    let client = ClientBuilder::new()
        .credential(credential(None))
        .build(Some(reqwest::Client::new()), None);
    let (signature, credential_scope) = client.tc3_sign(
        "POST",
        "/",
        "",
        "content-type:application/json; charset=utf-8\nhost:hunyuan.tencentcloudapi.com\n",
        "content-type;host",
        "test_payload_hash",
        1700000000,
    );
    assert_eq!(signature.len(), 64);
    assert!(signature.bytes().all(|b| b.is_ascii_digit() || (b'a'..=b'f').contains(&b)));
    assert_eq!(credential_scope, "2023-11-14/hunyuan/tc3_request");

    let (signature, _) = client.tc3_sign("", "", "", "", "", "", 0);
    assert_eq!(signature.len(), 64);
}

#[test]
fn test_tc3_sign_known_answer() {
    let client = ClientBuilder::new()
        .credential(credential(None))
        .build(Some(reqwest::Client::new()), None);
    let (signature, credential_scope) = client.tc3_sign(
        "POST",
        "/",
        "",
        "content-type:application/json; charset=utf-8\nhost:hunyuan.tencentcloudapi.com\n",
        "content-type;host",
        "test_payload_hash",
        1551113065,
    );
    assert_eq!(
        signature,
        "026aabe9285324e386a455fe06dcd45d744e3a341876dbf7740c2f58152cde57"
    );
    assert_eq!(credential_scope, "2019-02-25/hunyuan/tc3_request");
}

#[test]
fn test_build_headers() {
    let client = ClientBuilder::new()
        .credential(Credential {
            secret_id: "test_id".to_string(),
            secret_key: "test_key".to_string(),
            token: None,
        })
        .build(Some(reqwest::Client::new()), None);

    let timestamp = OffsetDateTime::now_utc().unix_timestamp();
    let headers = client.build_headers("TestAction", "test_body", timestamp);

    assert_eq!(headers.get("Host").unwrap(), "hunyuan.tencentcloudapi.com");
    assert_eq!(
        headers.get("Content-Type").unwrap(),
        "application/json; charset=utf-8"
    );
    assert_eq!(headers.get("X-TC-Action").unwrap(), "TestAction");
    assert_eq!(headers.get("X-TC-Version").unwrap(), "2023-09-01");
    assert_eq!(headers.get("X-TC-Region").unwrap(), "ap-guangzhou");
    assert_eq!(
        headers.get("X-TC-Timestamp").unwrap(),
        &timestamp.to_string()
    );
    assert!(headers.get("X-TC-Token").is_none());
}

#[test]
fn test_build_headers_with_token() {
    let client = ClientBuilder::new()
        .credential(Credential {
            secret_id: "test_id".to_string(),
            secret_key: "test_key".to_string(),
            token: Some("test_token".to_string()),
        })
        .build(Some(reqwest::Client::new()), None);

    let timestamp = OffsetDateTime::now_utc().unix_timestamp();
    let headers = client.build_headers("TestAction", "test_body", timestamp);

    assert_eq!(headers.get("X-TC-Token").unwrap(), "test_token");
}

#[test]
fn test_build_headers_holds_nothing_else() {
    let without = ClientBuilder::new()
        .credential(credential(None))
        .build(Some(reqwest::Client::new()), None)
        .build_headers("TestAction", "", -5);
    assert_eq!(without.len(), 6);
    assert_eq!(without.get("x-tc-timestamp").unwrap(), "-5");
    assert!(without.get("Authorization").is_none());

    let with = ClientBuilder::new()
        .credential(credential(Some("tok")))
        .region(Region::Custom("eu-frankfurt".to_string()))
        .endpoint("hunyuan.example.com")
        .build(Some(reqwest::Client::new()), None)
        .build_headers("TestAction", "", 0);
    assert_eq!(with.len(), 7);
    assert_eq!(with.get("host").unwrap(), "hunyuan.example.com");
    assert_eq!(with.get("x-tc-region").unwrap(), "eu-frankfurt");
    assert_eq!(with.get("x-tc-timestamp").unwrap(), "0");
    assert_eq!(with.get("x-tc-token").unwrap(), "tok");
}

#[test]
fn test_models_creation() {
    let message = Message {
        role: "user".to_string(),
        content: "Hello, world!".to_string(),
    };

    assert_eq!(message.role, "user");
    assert_eq!(message.content, "Hello, world!");
}

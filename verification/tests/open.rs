use apollo_client::meta::HttpMethod;
use apollo_client::open::errors::OpenApiResponseError;
use apollo_client::open::meta::OpenCreatedItem;
use apollo_client::open::meta::OpenRelease;
use apollo_client::open::meta::OpenUpdateItem;
use apollo_client::open::requests::OpenAppRequest;
use apollo_client::open::requests::OpenClusterRequest;
use apollo_client::open::requests::OpenCreateItemRequest;
use apollo_client::open::requests::OpenEnvClusterRequest;
use apollo_client::open::requests::OpenNamespaceRequest;
use apollo_client::open::requests::OpenPublishNamespaceRequest;
use apollo_client::open::requests::OpenUpdateItemRequest;
use apollo_client::open::responses::OpenEnvClusterResponse;

#[test]
fn test_env_cluster_request_path() {
    let request = OpenEnvClusterRequest {
        app_id: "SampleApp".to_string(),
    };
    assert_eq!(request.path(), "openapi/v1/apps/SampleApp/envclusters");
    assert_eq!(request.app_id(), "SampleApp");
    let response = OpenEnvClusterResponse {
        env: "DEV".to_string(),
        clusters: vec!["default".to_string()],
    };
    assert_eq!(response.env, "DEV");
    assert_eq!(response.clusters, vec!["default".to_string()]);
}

#[test]
fn test_app_request_queries() {
    let request = OpenAppRequest { app_ids: None };
    assert_eq!(request.path(), "openapi/v1/apps");
    assert_eq!(request.queries(), vec![]);

    let request = OpenAppRequest {
        app_ids: Some(vec!["TestApp1".to_string(), "TestApp2".to_string()]),
    };
    assert_eq!(
        request.queries(),
        vec![("appIds".to_string(), "TestApp1,TestApp2".to_string())]
    );
}

#[test]
fn test_cluster_and_namespace_request_paths() {
    let request = OpenClusterRequest {
        env: "DEV".to_string(),
        app_id: "SampleApp".to_string(),
        ..Default::default()
    };
    assert_eq!(
        request.path(),
        "openapi/v1/envs/DEV/apps/SampleApp/clusters/default"
    );

    let request = OpenNamespaceRequest {
        env: "DEV".to_string(),
        app_id: "SampleApp".to_string(),
        ..Default::default()
    };
    assert_eq!(
        request.path(),
        "openapi/v1/envs/DEV/apps/SampleApp/clusters/default/namespaces"
    );
}

#[test]
fn test_create_item_request() {
    let request = OpenCreateItemRequest {
        env: "DEV".to_string(),
        app_id: "TestApp2".to_string(),
        namespace_name: "application".to_string(),
        item: OpenCreatedItem {
            key: "connect_timeout".to_string(),
            value: "100".to_string(),
            comment: None,
            data_change_created_by: "apollo".to_string(),
        },
        ..Default::default()
    };
    assert_eq!(
        request.path(),
        "openapi/v1/envs/DEV/apps/TestApp2/clusters/default/namespaces/application/items"
    );
    assert_eq!(request.method(), HttpMethod::Post);
    assert_eq!(request.item.key, "connect_timeout");
}

#[test]
fn test_update_item_request() {
    let request = OpenUpdateItemRequest {
        env: "DEV".to_string(),
        app_id: "TestApp2".to_string(),
        namespace_name: "application".to_string(),
        create_if_not_exists: true,
        item: OpenUpdateItem {
            key: "timeout".to_string(),
            value: "3000".to_string(),
            comment: Some("connect timeout".to_string()),
            data_change_created_by: None,
            data_change_last_modified_by: "apollo".to_string(),
        },
        ..Default::default()
    };
    assert_eq!(
        request.path(),
        "openapi/v1/envs/DEV/apps/TestApp2/clusters/default/namespaces/application/items/timeout"
    );
    assert_eq!(request.method(), HttpMethod::Put);
    assert_eq!(
        request.queries(),
        vec![("createIfNotExists".to_string(), "true".to_string())]
    );

    let request = OpenUpdateItemRequest::default();
    assert_eq!(request.queries(), vec![]);
}

#[test]
fn test_publish_namespace_request() {
    let request = OpenPublishNamespaceRequest {
        env: "DEV".to_string(),
        app_id: "TestApp2".to_string(),
        namespace_name: "application".to_string(),
        release: OpenRelease {
            release_title: "test-release".to_string(),
            release_comment: Some("a comment".to_string()),
            released_by: "apollo".to_string(),
        },
        ..Default::default()
    };
    assert_eq!(
        request.path(),
        "openapi/v1/envs/DEV/apps/TestApp2/clusters/default/namespaces/application/releases"
    );
    assert_eq!(request.method(), HttpMethod::Post);
    assert_eq!(request.release.release_title, "test-release");
}

#[test]
fn test_open_error_from_status_code() {
    assert_eq!(OpenApiResponseError::from_status_code(200), None);
    assert_eq!(
        OpenApiResponseError::from_status_code(400),
        Some(OpenApiResponseError::BadRequest)
    );
    assert_eq!(
        OpenApiResponseError::from_status_code(401),
        Some(OpenApiResponseError::Unauthorized)
    );
    assert_eq!(
        OpenApiResponseError::from_status_code(403),
        Some(OpenApiResponseError::Forbidden)
    );
    assert_eq!(
        OpenApiResponseError::from_status_code(404),
        Some(OpenApiResponseError::NotFound)
    );
    assert_eq!(
        OpenApiResponseError::from_status_code(405),
        Some(OpenApiResponseError::MethodNotAllowed)
    );
    assert_eq!(
        OpenApiResponseError::from_status_code(500),
        Some(OpenApiResponseError::InternalServerError)
    );
    assert_eq!(
        OpenApiResponseError::from_status_code(418),
        Some(OpenApiResponseError::Unknown(418))
    );
}

use apollo_client::conf::meta::Notification;
use apollo_client::conf::requests::NotifyRequest;
use apollo_client::urls::build_url;

fn initialize_notifications(namespaces: &[&str]) -> Vec<Notification> {
    namespaces
        .iter()
        .map(|namespace| Notification {
            namespace_name: namespace.to_string(),
            ..Default::default()
        })
        .collect()
}

fn test_client_get_listen_url_common(notifications: &Vec<Notification>, expect: &str) {
    let request = NotifyRequest {
        app_id: "test_app_id".to_string(),
        notifications: notifications.clone(),
        ..Default::default()
    };
    let url = build_url("http://localhost:8080", &request.path(), &request.queries());
    assert_eq!(&url, expect);
}

#[test]
fn test_client_get_listen_url_2() {
    test_client_get_listen_url_common(
        &initialize_notifications(&["test-namespace"]),
        "http://localhost:8080/notifications/v2?appId=test_app_id&cluster=default&notifications=%5B%7B%22namespaceName%22%3A%22test-namespace%22%2C%22notificationId%22%3A-1%7D%5D"
    );
}

#[test]
fn test_client_get_listen_url_3() {
    let mut notifications = initialize_notifications(&["test-namespace-2"]);
    notifications[0].notification_id = 100;
    test_client_get_listen_url_common(
        &notifications,
        "http://localhost:8080/notifications/v2?appId=test_app_id&cluster=default&notifications=%5B%7B%22namespaceName%22%3A%22test-namespace-2%22%2C%22notificationId%22%3A100%7D%5D"
    );
}

#[test]
fn test_build_url_without_queries() {
    let url = build_url("http://localhost:8080", "/configs/app/default/ns", &vec![]);
    assert_eq!(&url, "http://localhost:8080/configs/app/default/ns");
}

#[test]
fn test_build_url_encodes_query_values() {
    let url = build_url(
        "http://localhost:8080",
        "/configs/test_app_id/default/test_namespace",
        &vec![("ip".to_string(), "???".to_string())],
    );
    assert_eq!(
        &url,
        "http://localhost:8080/configs/test_app_id/default/test_namespace?ip=%3F%3F%3F"
    );
}

#[test]
fn test_notifications_parameter_escapes_json_strings() {
    let request = NotifyRequest {
        app_id: "app".to_string(),
        notifications: vec![Notification {
            namespace_name: "we\"ird\\ns\n".to_string(),
            notification_id: 7,
        }],
        ..Default::default()
    };
    let queries = request.queries();
    assert_eq!(queries[0], ("appId".to_string(), "app".to_string()));
    assert_eq!(queries[1], ("cluster".to_string(), "default".to_string()));
    assert_eq!(
        queries[2],
        (
            "notifications".to_string(),
            "[{\"namespaceName\":\"we\\\"ird\\\\ns\\n\",\"notificationId\":7}]".to_string()
        )
    );
}

use apollo_client::conf::meta::Notification;
use apollo_client::conf::requests::FetchRequest;
use apollo_client::conf::requests::NotifyRequest;
use apollo_client::conf::requests::WatchRequest;

#[test]
fn test_notification_new() {
    let notification = Notification {
        namespace_name: "foo.properties".to_string(),
        ..Default::default()
    };
    assert_eq!(notification.namespace_name, "foo.properties");
    assert_eq!(notification.notification_id, -1);

    let notification = Notification {
        namespace_name: "foo.yaml".to_string(),
        notification_id: 10,
    };
    assert_eq!(notification.namespace_name, "foo.yaml");
    assert_eq!(notification.notification_id, 10);
}

#[test]
fn test_update_notifications() {
    let mut notifications = vec![
        Notification {
            namespace_name: "foo".to_string(),
            ..Default::default()
        },
        Notification {
            namespace_name: "bar".to_string(),
            notification_id: 10,
        },
    ];
    Notification::update_notifications(
        &mut notifications,
        &vec![Notification {
            namespace_name: "foo".to_string(),
            notification_id: 100,
        }],
    );
    assert_eq!(
        notifications,
        vec![
            Notification {
                namespace_name: "foo".to_string(),
                notification_id: 100,
            },
            Notification {
                namespace_name: "bar".to_string(),
                notification_id: 10,
            },
        ]
    );
}

#[test]
fn test_update_notifications_ignores_unknown_namespace() {
    let mut notifications = vec![Notification {
        namespace_name: "foo".to_string(),
        notification_id: 3,
    }];
    Notification::update_notifications(
        &mut notifications,
        &vec![Notification {
            namespace_name: "stranger".to_string(),
            notification_id: 100,
        }],
    );
    assert_eq!(notifications.len(), 1);
    assert_eq!(notifications[0].namespace_name, "foo");
    assert_eq!(notifications[0].notification_id, 3);
}

#[test]
fn test_create_notifications_order_and_sentinel() {
    let watch = WatchRequest {
        app_id: "SampleApp".to_string(),
        namespace_names: vec!["application".to_string(), "app.json".to_string()],
        ..Default::default()
    };
    let notifications = watch.create_notifications();
    assert_eq!(notifications.len(), 2);
    assert_eq!(notifications[0].namespace_name, "application");
    assert_eq!(notifications[0].notification_id, -1);
    assert_eq!(notifications[1].namespace_name, "app.json");
    assert_eq!(notifications[1].notification_id, -1);
    assert!(notifications[0].is_uninitialized());
}

#[test]
fn test_fetch_request_paths_and_queries() {
    let request = FetchRequest {
        app_id: "SampleApp".to_string(),
        namespace_name: "application.json".to_string(),
        ip: Some("127.0.0.2".to_string()),
        release_key: Some("test-release".to_string()),
        extras_queries: vec![("noAudit".to_string(), "1".to_string())],
        ..Default::default()
    };
    assert_eq!(request.path(), "/configs/SampleApp/default/application.json");
    assert_eq!(
        request.queries(),
        vec![
            ("ip".to_string(), "127.0.0.2".to_string()),
            ("releaseKey".to_string(), "test-release".to_string()),
            ("noAudit".to_string(), "1".to_string()),
        ]
    );
    assert_eq!(request.namespace_name(), "application.json");
    assert_eq!(request.app_id(), "SampleApp");
}

#[test]
fn test_fetch_request_from_watch() {
    let watch = WatchRequest {
        app_id: "SampleApp".to_string(),
        namespace_names: vec!["application".to_string()],
        cluster_name: "DEV".to_string(),
        ip: Some("10.2.0.1".to_string()),
        extras_queries: vec![("noAudit".to_string(), "1".to_string())],
        access_key: Some("key".to_string()),
    };
    let fetch = FetchRequest::from_watch(&watch, "application".to_string());
    assert_eq!(fetch.app_id, "SampleApp");
    assert_eq!(fetch.cluster_name, "DEV");
    assert_eq!(fetch.namespace_name, "application");
    assert_eq!(fetch.ip, Some("10.2.0.1".to_string()));
    assert_eq!(fetch.release_key, None);
    assert_eq!(
        fetch.extras_queries,
        vec![("noAudit".to_string(), "1".to_string())]
    );
    assert_eq!(fetch.access_key, Some("key".to_string()));
}

#[test]
fn test_notify_request_from_watch() {
    let watch = WatchRequest {
        app_id: "SampleApp".to_string(),
        namespace_names: vec!["application".to_string()],
        ..Default::default()
    };
    let notifications = watch.create_notifications();
    let notify = NotifyRequest::from_watch(&watch, notifications, 90_000);
    assert_eq!(notify.app_id, "SampleApp");
    assert_eq!(notify.cluster_name, "default");
    assert_eq!(notify.timeout, 90_000);
    assert_eq!(notify.notifications.len(), 1);
    assert_eq!(notify.notifications[0].namespace_name, "application");
    assert_eq!(notify.path(), "/notifications/v2");
}

use marketplace_core::admin::{classify_sql, AdminPaginationQuery, SqlKind, UserRole};
use marketplace_core::auth::{bearer_token, check_code, AuthError, CodeError, VerificationCode};
use marketplace_core::calendar::{CalendarDate, TimeOfDay, Timestamp};
use marketplace_core::config::{
    default_smtp_from_address, default_smtp_from_name, default_smtp_host, default_smtp_port,
    default_true, Config, ConfigResponse, ConfigTestEmailRequest, DatabaseConfigUpdate,
    SmtpConfig, SmtpConfigUpdate, StorageConfigUpdate,
};
use marketplace_core::monitoring::{
    database_health, sent_at, summarize_health, Health, HealthSummary, SystemLogsQuery,
    TestEmailRequest,
};
use marketplace_core::plugin::{order_column, order_direction, PluginSearchQuery, PluginStatus};
use marketplace_core::rate_limit::RateLimitService;
use marketplace_core::storage::StorageService;
use marketplace_core::user::{User, UserResponse};

fn clock(y: i32, m: u32, d: u32, h: u32, mi: u32, s: u32) -> Timestamp {
    Timestamp {
        date: CalendarDate::new(y, m, d).unwrap(),
        time: TimeOfDay::from_hms(h, mi, s).unwrap(),
    }
}

#[test]
fn pagination_is_brought_into_range() {
    let q = |page, limit| AdminPaginationQuery { page, limit };
    assert_eq!(q(None, None).resolved_page(), 1);
    assert_eq!(q(None, None).resolved_limit(), 10);
    assert_eq!(q(None, None).resolved_offset(), 0);
    assert_eq!(q(Some(3), Some(25)).resolved_page(), 3);
    assert_eq!(q(Some(3), Some(25)).resolved_limit(), 25);
    assert_eq!(q(Some(3), Some(25)).resolved_offset(), 50);
    assert_eq!(q(Some(0), Some(0)).resolved_page(), 1);
    assert_eq!(q(Some(0), Some(0)).resolved_limit(), 1);
    assert_eq!(q(Some(-7), Some(101)).resolved_page(), 1);
    assert_eq!(q(Some(-7), Some(101)).resolved_limit(), 100);
    assert_eq!(q(Some(i32::MAX), Some(100)).resolved_offset(), (i32::MAX as i64 - 1) * 100);
}

#[test]
fn roles_are_read_by_name() {
    assert_eq!(UserRole::parse("admin"), UserRole::Admin);
    assert_eq!(UserRole::parse("user"), UserRole::User);
    assert_eq!(UserRole::parse("Admin"), UserRole::User);
    assert_eq!(UserRole::parse(""), UserRole::User);
    assert_eq!(UserRole::Admin.as_str(), "admin");
    assert_eq!(UserRole::User.as_str(), "user");
    assert_eq!(UserRole::from("admin".to_string()), UserRole::Admin);
    assert_eq!(UserRole::from("user".to_string()), UserRole::User);
    assert_eq!(UserRole::from("root".to_string()), UserRole::User);
    assert_eq!(String::from(UserRole::Admin), "admin");
    assert_eq!(String::from(UserRole::User), "user");
}

#[test]
fn bearer_token_is_what_follows_the_prefix() {
    assert_eq!(bearer_token(None), Err(AuthError::MissingToken));
    assert_eq!(bearer_token(Some("Bearer abc.def")), Ok("abc.def".to_string()));
    assert_eq!(bearer_token(Some("Bearer ")), Ok(String::new()));
    assert_eq!(bearer_token(Some("Bearer")), Err(AuthError::InvalidToken));
    assert_eq!(bearer_token(Some("bearer abc")), Err(AuthError::InvalidToken));
    assert_eq!(bearer_token(Some("Basic abc")), Err(AuthError::InvalidToken));
    assert_eq!(bearer_token(Some("")), Err(AuthError::InvalidToken));
    assert_eq!(bearer_token(Some("Bearer  x")), Ok(" x".to_string()));
    assert_eq!(AuthError::MissingToken.message(), "Missing authorization token");
    assert_eq!(AuthError::InvalidToken.message(), "Invalid token");
    assert_eq!(AuthError::MissingToken.status_code(), 401);
    assert_eq!(AuthError::InvalidToken.status_code(), 401);
}

#[test]
fn default_configuration() {
    assert_eq!(default_smtp_host(), "smtp.gmail.com");
    assert_eq!(default_smtp_port(), 587);
    assert_eq!(default_smtp_from_address(), "noreply@geektools.dev");
    assert_eq!(default_smtp_from_name(), "GeekTools Plugin Marketplace");
    assert!(default_true());
    let smtp = SmtpConfig::default();
    assert_eq!(
        smtp,
        SmtpConfig {
            enabled: false,
            host: "smtp.gmail.com".to_string(),
            port: 587,
            username: String::new(),
            password: String::new(),
            from_address: "noreply@geektools.dev".to_string(),
            from_name: "GeekTools Plugin Marketplace".to_string(),
            use_tls: true,
        }
    );
    let config = Config::default();
    assert_eq!(config.server.host, "0.0.0.0");
    assert_eq!(config.server.port, 3000);
    assert_eq!(config.server.workers, None);
    assert_eq!(config.database.url, "sqlite://marketplace.db");
    assert_eq!(config.database.max_connections, 10);
    assert_eq!(config.database.connect_timeout, 30);
    assert_eq!(config.jwt.secret, "your-secret-key-change-this-in-production");
    assert_eq!(config.jwt.access_token_expires_in, 3600);
    assert_eq!(config.jwt.refresh_token_expires_in, 86400 * 7);
    assert_eq!(config.storage.upload_path, "./uploads");
    assert_eq!(config.storage.max_file_size, 100 * 1024 * 1024);
    assert!(!config.storage.use_cdn);
    assert_eq!(config.storage.cdn_base_url, "https://cdn.geektools.dev");
    assert_eq!(
        config.cors.allowed_origins,
        vec!["http://localhost:3000", "http://localhost:3001", "http://localhost:8080"]
    );
    assert_eq!(config.cors.allowed_methods, vec!["GET", "POST", "PUT", "DELETE"]);
    assert_eq!(config.cors.allowed_headers, vec!["Authorization", "Content-Type", "Accept"]);
    assert_eq!(config.smtp, smtp);
    assert_eq!(PluginStatus::default(), PluginStatus::Active);
}

#[test]
fn shown_configuration_masks_the_password() {
    let mut config = Config::default();
    let shown = ConfigResponse::from(&config);
    assert_eq!(shown.smtp.password, "");
    assert_eq!(
        shown.server.cors_origins,
        "http://localhost:3000\nhttp://localhost:3001\nhttp://localhost:8080"
    );
    assert_eq!(shown.server.host, "0.0.0.0");
    assert_eq!(shown.server.port, 3000);
    assert_eq!(shown.server.jwt_access_token_expires_in, 3600);
    assert_eq!(shown.server.jwt_refresh_token_expires_in, 604800);
    assert_eq!(shown.database.max_connections, 10);
    assert_eq!(shown.database.connect_timeout, 30);
    assert_eq!(shown.storage.upload_path, "./uploads");
    assert_eq!(shown.storage.max_file_size, 104857600);
    assert_eq!(shown.storage.cdn_base_url, "https://cdn.geektools.dev");
    config.smtp.password = "hunter2".to_string();
    config.smtp.username = "mailer@example.com".to_string();
    config.smtp.enabled = true;
    config.cors.allowed_origins = vec!["https://a.example".to_string()];
    let shown = ConfigResponse::from(&config);
    assert_eq!(shown.smtp.password, "***");
    assert_eq!(shown.smtp.username, "mailer@example.com");
    assert!(shown.smtp.enabled);
    assert_eq!(shown.server.cors_origins, "https://a.example");
    config.cors.allowed_origins = Vec::new();
    assert_eq!(ConfigResponse::from(&config).server.cors_origins, "");
}

#[test]
fn updates_are_put_into_the_configuration() {
    let mut config = Config::default();
    SmtpConfigUpdate {
        enabled: true,
        host: "mail.example.com".to_string(),
        port: 465,
        username: "u".to_string(),
        password: "p".to_string(),
        from_address: "f@example.com".to_string(),
        from_name: "F".to_string(),
        use_tls: false,
    }
    .apply(&mut config.smtp);
    assert_eq!(
        config.smtp,
        SmtpConfig {
            enabled: true,
            host: "mail.example.com".to_string(),
            port: 465,
            username: "u".to_string(),
            password: "p".to_string(),
            from_address: "f@example.com".to_string(),
            from_name: "F".to_string(),
            use_tls: false,
        }
    );
    DatabaseConfigUpdate { max_connections: 20, connect_timeout: 60 }.apply(&mut config.database);
    assert_eq!(config.database.max_connections, 20);
    assert_eq!(config.database.connect_timeout, 60);
    assert_eq!(config.database.url, "sqlite://marketplace.db");
    StorageConfigUpdate {
        upload_path: "/srv/uploads".to_string(),
        max_file_size: 5,
        use_cdn: true,
        cdn_base_url: None,
    }
    .apply(&mut config.storage);
    assert_eq!(config.storage.upload_path, "/srv/uploads");
    assert_eq!(config.storage.max_file_size, 5);
    assert!(config.storage.use_cdn);
    assert_eq!(config.storage.cdn_base_url, "https://cdn.geektools.dev");
    StorageConfigUpdate {
        upload_path: "/srv/uploads".to_string(),
        max_file_size: 5,
        use_cdn: true,
        cdn_base_url: Some("https://cdn.example".to_string()),
    }
    .apply(&mut config.storage);
    assert_eq!(config.storage.cdn_base_url, "https://cdn.example");
}

#[test]
fn file_url_goes_through_the_cdn_where_one_is_used() {
    let mut config = Config::default();
    let service = StorageService::new(config.clone());
    assert_eq!(service.get_file_url("plugins/a/1.0.0/a-1.0.0.tar.gz"), "/downloads/plugins/a/1.0.0/a-1.0.0.tar.gz");
    assert_eq!(service.get_file_url(""), "/downloads/");
    config.storage.use_cdn = true;
    let service = StorageService::new(config);
    assert_eq!(
        service.get_file_url("plugins/a/1.0.0/a-1.0.0.tar.gz"),
        "https://cdn.geektools.dev/plugins/a/1.0.0/a-1.0.0.tar.gz"
    );
    assert_eq!(StorageService::plugin_file_name("my-plugin", "1.2.3"), "my-plugin-1.2.3.tar.gz");
}

#[test]
fn test_mail_has_a_subject_and_a_body() {
    let now = clock(2024, 5, 1, 7, 8, 9);
    assert_eq!(sent_at(&now), "2024-05-01 07:08:09 UTC");
    let bare = TestEmailRequest { recipient: "a@b".to_string(), subject: None, body: None };
    assert_eq!(bare.get_subject(), "GeekTools Test Email");
    assert_eq!(
        bare.get_body(&now),
        "This is a test email sent from GeekTools Plugin Marketplace monitoring system.\n\nSent at: 2024-05-01 07:08:09 UTC"
    );
    let asked = TestEmailRequest {
        recipient: "a@b".to_string(),
        subject: Some("Hello".to_string()),
        body: Some("World".to_string()),
    };
    assert_eq!(asked.get_subject(), "Hello");
    assert_eq!(asked.get_body(&now), "World");
    let config_mail = ConfigTestEmailRequest {
        recipient: "a@b".to_string(),
        subject: "Subject".to_string(),
        body: None,
    };
    assert_eq!(config_mail.get_subject(), "Subject");
    assert_eq!(
        config_mail.get_body(&now),
        "This is a test email sent from GeekTools Plugin Marketplace configuration system.\n\nSent at: 2024-05-01 07:08:09 UTC"
    );
    let config_mail = ConfigTestEmailRequest {
        recipient: "a@b".to_string(),
        subject: "Subject".to_string(),
        body: Some("Body".to_string()),
    };
    assert_eq!(config_mail.get_body(&now), "Body");
}

#[test]
fn eleventh_request_within_a_minute_is_refused() {
    let mut limiter = RateLimitService::new();
    for i in 0..10u64 {
        assert!(limiter.check("10.0.0.1", 1000 + i));
    }
    assert!(!limiter.check("10.0.0.1", 1010));
    assert!(!limiter.check("10.0.0.1", 61000));
    // another address has a count of its own
    assert!(limiter.check("10.0.0.2", 1010));
}

#[test]
fn a_new_window_begins_once_the_old_one_is_over() {
    let mut limiter = RateLimitService::new();
    for _ in 0..11 {
        limiter.check("10.0.0.1", 1000);
    }
    // exactly a minute on, the window is not over yet
    assert!(!limiter.check("10.0.0.1", 61000));
    assert!(limiter.check("10.0.0.1", 61001));
    for _ in 0..9 {
        assert!(limiter.check("10.0.0.1", 61002));
    }
    assert!(!limiter.check("10.0.0.1", 61003));
    // a clock that goes back opens no new window
    let mut limiter = RateLimitService::new();
    for _ in 0..10 {
        assert!(limiter.check("a", 100000));
    }
    assert!(!limiter.check("a", 5));
}

#[test]
fn console_refuses_dangerous_statements() {
    for query in [
        "DROP TABLE plugins",
        "drop   table plugins; -- no match, two spaces",
        "Drop Database market",
        "TRUNCATE logs",
        "delete from users where id = 1",
        "UPDATE users SET password_hash = 'x'",
        "select 1; drop table x",
    ] {
        let expected = if query.contains("two spaces") { SqlKind::Other } else { SqlKind::Forbidden };
        assert_eq!(classify_sql(query), expected, "{}", query);
    }
    assert_eq!(classify_sql("SELECT * FROM plugins"), SqlKind::Select);
    assert_eq!(classify_sql("  \n\tSelect 1"), SqlKind::Select);
    assert_eq!(classify_sql("selection"), SqlKind::Select);
    assert_eq!(classify_sql("with x as (select 1) select * from x"), SqlKind::Other);
    assert_eq!(classify_sql("UPDATE plugins SET name = 'x'"), SqlKind::Other);
    assert_eq!(classify_sql("delete from plugins"), SqlKind::Other);
    assert_eq!(classify_sql(""), SqlKind::Other);
}

#[test]
fn plugins_are_ordered_by_known_columns_only() {
    assert_eq!(order_column("rating"), "rating");
    assert_eq!(order_column("name"), "name");
    assert_eq!(order_column("created_at"), "created_at");
    assert_eq!(order_column("updated_at"), "updated_at");
    assert_eq!(order_column("downloads"), "downloads");
    assert_eq!(order_column("id; drop table plugins"), "downloads");
    assert_eq!(order_column(""), "downloads");
    assert_eq!(order_direction("asc"), "ASC");
    assert_eq!(order_direction("desc"), "DESC");
    assert_eq!(order_direction("ASC"), "DESC");
    assert_eq!(order_direction(""), "DESC");
    let query = |page, limit| PluginSearchQuery {
        page,
        limit,
        search: None,
        tag: None,
        sort: None,
        order: None,
    };
    assert_eq!(query(None, None).resolved_page(), 1);
    assert_eq!(query(None, None).resolved_limit(), 20);
    assert_eq!(query(None, None).resolved_offset(), 0);
    assert_eq!(query(Some(3), Some(200)).resolved_limit(), 100);
    assert_eq!(query(Some(3), Some(200)).resolved_offset(), 200);
    assert_eq!(query(Some(-1), Some(-1)).resolved_page(), 1);
    assert_eq!(query(Some(-1), Some(-1)).resolved_limit(), 1);
    assert_eq!(query(Some(i32::MAX), Some(100)).resolved_offset(), (i32::MAX as i64 - 1) * 100);
}

#[test]
fn database_health_goes_by_answer_time_and_connections() {
    assert_eq!(database_health(99, 79, 100), Health::Healthy);
    assert_eq!(database_health(99, 80, 100), Health::Warning);
    assert_eq!(database_health(100, 0, 100), Health::Warning);
    assert_eq!(database_health(999, 500, 100), Health::Warning);
    assert_eq!(database_health(1000, 0, 100), Health::Critical);
    // eight tenths of 15 connections are 12
    assert_eq!(database_health(0, 11, 15), Health::Healthy);
    assert_eq!(database_health(0, 12, 15), Health::Warning);
    assert_eq!(database_health(0, 0, 0), Health::Warning);
    assert_eq!(database_health(0, -1, 0), Health::Healthy);
    assert_eq!(Health::Healthy.as_str(), "healthy");
    assert_eq!(Health::Warning.as_str(), "warning");
    assert_eq!(Health::Critical.as_str(), "critical");
}

#[test]
fn services_fare_together_as_the_worst_of_them() {
    assert_eq!(
        summarize_health(&vec![]),
        HealthSummary { overall: Health::Healthy, healthy_count: 0, warning_count: 0, critical_count: 0 }
    );
    assert_eq!(
        summarize_health(&vec![Health::Healthy, Health::Healthy, Health::Healthy]),
        HealthSummary { overall: Health::Healthy, healthy_count: 3, warning_count: 0, critical_count: 0 }
    );
    assert_eq!(
        summarize_health(&vec![Health::Healthy, Health::Warning, Health::Healthy]),
        HealthSummary { overall: Health::Warning, healthy_count: 2, warning_count: 1, critical_count: 0 }
    );
    assert_eq!(
        summarize_health(&vec![Health::Warning, Health::Critical, Health::Warning]),
        HealthSummary { overall: Health::Critical, healthy_count: 0, warning_count: 2, critical_count: 1 }
    );
}

#[test]
fn log_query_is_brought_into_range_and_built() {
    let bare = SystemLogsQuery {
        limit: None,
        offset: None,
        level: None,
        component: None,
        since: None,
        until: None,
    };
    assert_eq!(bare.get_limit(), 50);
    assert_eq!(bare.get_offset(), 0);
    assert_eq!(bare.build_where_clause(), (String::new(), Vec::<String>::new()));
    let mut since = clock(2024, 5, 1, 7, 8, 9);
    since.time.nanos = 500_000_000;
    let full = SystemLogsQuery {
        limit: Some(5000),
        offset: Some(-3),
        level: Some("ERROR".to_string()),
        component: Some("backup".to_string()),
        since: Some(since),
        until: Some(clock(2024, 5, 2, 0, 0, 0)),
    };
    assert_eq!(full.get_limit(), 1000);
    assert_eq!(full.get_offset(), 0);
    assert_eq!(
        full.build_where_clause(),
        (
            "WHERE log_level = $1 AND component = $2 AND created_at >= $3 AND created_at <= $4"
                .to_string(),
            vec![
                "ERROR".to_string(),
                "backup".to_string(),
                "2024-05-01T07:08:09.500+00:00".to_string(),
                "2024-05-02T00:00:00+00:00".to_string()
            ]
        )
    );
    let some = SystemLogsQuery {
        limit: Some(0),
        offset: Some(20),
        level: None,
        component: Some("auth".to_string()),
        since: None,
        until: Some(clock(2024, 5, 2, 0, 0, 0)),
    };
    assert_eq!(some.get_limit(), 1);
    assert_eq!(some.get_offset(), 20);
    assert_eq!(
        some.build_where_clause(),
        (
            "WHERE component = $1 AND created_at <= $2".to_string(),
            vec!["auth".to_string(), "2024-05-02T00:00:00+00:00".to_string()]
        )
    );
}

#[test]
fn verification_code_counts_until_it_expires() {
    let known = VerificationCode {
        email: "a@b".to_string(),
        code: "123456".to_string(),
        expires_at: clock(2024, 5, 1, 12, 10, 0),
    };
    assert_eq!(check_code(None, "123456", &clock(2024, 5, 1, 12, 0, 0)), Err(CodeError::Missing));
    assert_eq!(check_code(Some(&known), "123456", &clock(2024, 5, 1, 12, 0, 0)), Ok(()));
    assert_eq!(check_code(Some(&known), "123456", &clock(2024, 5, 1, 12, 10, 0)), Ok(()));
    assert_eq!(
        check_code(Some(&known), "123456", &clock(2024, 5, 1, 12, 10, 1)),
        Err(CodeError::Expired)
    );
    assert_eq!(
        check_code(Some(&known), "654321", &clock(2024, 5, 1, 12, 0, 0)),
        Err(CodeError::Mismatch)
    );
    // a code whose time is over is expired, whatever was given
    assert_eq!(
        check_code(Some(&known), "654321", &clock(2024, 5, 2, 0, 0, 0)),
        Err(CodeError::Expired)
    );
}

#[test]
fn shown_user_has_no_password_hash() {
    let user = User {
        id: 7,
        username: "alice".to_string(),
        email: "alice@example.com".to_string(),
        password_hash: "$2b$12$abcdefg".to_string(),
        display_name: Some("Alice".to_string()),
        role: Some("admin".to_string()),
        avatar_url: None,
        is_active: true,
        is_verified: false,
        created_at: clock(2024, 5, 1, 12, 0, 0),
        updated_at: clock(2024, 5, 2, 12, 0, 0),
    };
    assert_eq!(
        UserResponse::from(user),
        UserResponse {
            id: 7,
            username: "alice".to_string(),
            email: "alice@example.com".to_string(),
            display_name: Some("Alice".to_string()),
            avatar_url: None,
            is_active: true,
            is_verified: false,
            created_at: clock(2024, 5, 1, 12, 0, 0),
        }
    );
}

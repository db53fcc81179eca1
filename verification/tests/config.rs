//! The startup configuration carrier.

use blog_cms::config::Config;

#[test]
fn config_carries_its_values() {
    let config = Config::new(
        "mysql://localhost:3306/blog".to_owned(),
        "127.0.0.1:3000".to_owned(),
    );
    assert_eq!(config.get_database_url(), "mysql://localhost:3306/blog");
    assert_eq!(config.get_host(), "127.0.0.1:3000");
}

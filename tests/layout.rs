use chan_image_save::{
    thread_id_and_name, url_to_file_path, validate_url, ConfigError, Enviroment, UrlError,
};

fn env_for(thread: &str, root: &str) -> Enviroment {
    Enviroment {
        ignore_errors: false,
        thread_url: validate_url(thread).unwrap(),
        save_location: root.to_string(),
    }
}

#[test]
fn thread_id_and_name_test() {
    let url = validate_url("https://chan.org/b/thread/666/name");
    let (thread_id, thread_name) = thread_id_and_name(&url.unwrap());
    assert_eq!(thread_id, "666");
    assert_eq!(thread_name, Some("name".to_string()));
}

#[test]
fn thread_id_no_name_test() {
    let url = validate_url("https://chan.org/b/thread/666");
    let (thread_id, thread_name) = thread_id_and_name(&url.unwrap());
    assert_eq!(thread_id, "666");
    assert_eq!(thread_name, None);
}

#[test]
fn url_to_file_path_test() {
    let env = env_for("https://chan.org/b/thread/666/name", "/pictures");
    let image_url = validate_url("https://i.4cdn.org/b/1.jpg").unwrap();
    assert_eq!(
        Some(url_to_file_path(&image_url, &env).as_str()),
        Some("/pictures/name - 666/1.jpg")
    )
}

#[test]
fn thread_with_five_segments_uses_last_two() {
    let url = validate_url("http://chan.org/g/res/thread/42/some-title").unwrap();
    let (thread_id, thread_name) = thread_id_and_name(&url);
    assert_eq!(thread_id, "42");
    assert_eq!(thread_name, Some("some-title".to_string()));
}

#[test]
fn thread_with_one_segment_has_no_name() {
    let url = validate_url("https://chan.org/777").unwrap();
    let (thread_id, thread_name) = thread_id_and_name(&url);
    assert_eq!(thread_id, "777");
    assert_eq!(thread_name, None);
}

#[test]
fn path_without_thread_name() {
    let env = env_for("https://chan.org/b/thread/666", "/pictures");
    let image_url = validate_url("https://i.4cdn.org/b/1.jpg").unwrap();
    assert_eq!(url_to_file_path(&image_url, &env), "/pictures/666/1.jpg");
}

#[test]
fn path_is_the_same_on_every_call() {
    let env = env_for("https://chan.org/b/thread/666/name", "/pictures");
    let image_url = validate_url("https://i.cdn.org/b/1.jpg").unwrap();
    let first = url_to_file_path(&image_url, &env);
    let second = url_to_file_path(&image_url, &env);
    assert_eq!(first, "/pictures/name - 666/1.jpg");
    assert_eq!(first, second);
}

#[test]
fn path_under_root_with_trailing_slash() {
    let env = env_for("https://chan.org/b/thread/666/name", "/pictures/");
    let image_url = validate_url("https://i.4cdn.org/b/1.jpg").unwrap();
    assert_eq!(url_to_file_path(&image_url, &env), "/pictures/name - 666/1.jpg");
}

#[test]
fn path_under_relative_root() {
    let env = env_for("https://chan.org/b/thread/666", ".");
    let image_url = validate_url("https://i.4cdn.org/b/1700000000.png").unwrap();
    assert_eq!(url_to_file_path(&image_url, &env), "./666/1700000000.png");
}

#[test]
fn settings_default_to_current_directory() {
    let env = Enviroment::new("https://chan.org/b/thread/666/name", None, true).unwrap();
    assert_eq!(env.save_location, ".");
    assert!(env.ignore_errors);
    assert_eq!(env.thread_url.as_str(), "https://chan.org/b/thread/666/name");
}

#[test]
fn settings_keep_given_location() {
    let env =
        Enviroment::new("https://chan.org/b/thread/666", Some("/tmp/x".to_string()), false)
            .unwrap();
    assert_eq!(env.save_location, "/tmp/x");
    assert!(!env.ignore_errors);
}

#[test]
fn settings_refuse_ftp_thread() {
    let r = Enviroment::new("ftp://chan.org/b/thread/666", None, false);
    assert!(matches!(r, Err(ConfigError::Url(UrlError::UnsupportedScheme))));
}

#[test]
fn settings_refuse_unparseable_thread() {
    let r = Enviroment::new("chan.org/b/thread/666", None, false);
    assert!(matches!(r, Err(ConfigError::Url(UrlError::Unparseable))));
}

#[test]
fn settings_refuse_thread_without_id() {
    let r = Enviroment::new("https://chan.org/", None, false);
    assert!(matches!(r, Err(ConfigError::EmptyThreadId)));
}

use rabbitui::endpoints::{
    bindings_endpoint, encode_vhost, pop_endpoint, publish_endpoint, purge_endpoint,
};
use rabbitui::files::{file_name_helper, join_path, parent_of, FileEntry, FileNavigator};

#[test]
fn vhost_encoding_escapes_slashes() {
    assert_eq!(encode_vhost("/"), "%2F");
    assert_eq!(encode_vhost("prod"), "prod");
    assert_eq!(encode_vhost("a/b"), "a%2Fb");
    assert_eq!(encode_vhost(""), "");
}

#[test]
fn endpoints_embed_the_encoded_vhost() {
    assert_eq!(
        bindings_endpoint("/", "amq.topic"),
        "/api/exchanges/%2F/amq.topic/bindings/source"
    );
    assert_eq!(publish_endpoint("/"), "/api/exchanges/%2F//publish");
    assert_eq!(pop_endpoint("prod", "orders"), "/api/queues/prod/orders/get");
    assert_eq!(purge_endpoint("/", "orders"), "/api/queues/%2F/orders/contents");
}

#[test]
fn file_name_is_the_last_component() {
    assert_eq!(file_name_helper("/home/user/notes.txt"), "notes.txt");
    assert_eq!(file_name_helper("notes.txt"), "notes.txt");
    assert_eq!(file_name_helper("/home/user/"), "");
    assert_eq!(file_name_helper(""), "");
}

#[test]
fn parent_walks_up_to_the_root_and_stops() {
    assert_eq!(parent_of("/data/payloads"), Some("/data".to_string()));
    assert_eq!(parent_of("/data"), Some("/".to_string()));
    assert_eq!(parent_of("/"), None);
    assert_eq!(parent_of("plain"), None);
}

#[test]
fn join_inserts_exactly_one_separator() {
    assert_eq!(join_path("/data", "msg.json"), "/data/msg.json");
    assert_eq!(join_path("/", "data"), "/data");
    assert_eq!(join_path("", "msg.json"), "msg.json");
}

#[test]
fn navigator_hides_dotfiles_and_selects_the_first_entry() {
    let listing = vec![
        FileEntry { name: ".git".to_string(), is_dir: true },
        FileEntry { name: "src".to_string(), is_dir: true },
        FileEntry { name: ".env".to_string(), is_dir: false },
        FileEntry { name: "readme".to_string(), is_dir: false },
    ];
    let nav = FileNavigator::new("/repo".to_string(), listing);
    let names: Vec<String> = nav.file_table.data.get().iter().map(|e| e.name.clone()).collect();
    assert_eq!(names, vec!["src".to_string(), "readme".to_string()]);
    assert_eq!(nav.file_table.state.selected(), Some(0));
}

#[test]
fn navigator_with_empty_listing_selects_nothing() {
    let nav = FileNavigator::new("/empty".to_string(), Vec::new());
    assert_eq!(nav.file_table.state.selected(), None);
    assert_eq!(nav.file_table.data.get().len(), 0);
}

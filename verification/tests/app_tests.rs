use agent_cluster::simple_app::App;

#[test]
fn simple_window_title() {
    assert_eq!(App.title(), "Simple Text GUI");
}

use rustyroad::database::Database;
use rustyroad::writers::write_to_cargo_toml;
use rustyroad::writers::write_to_initial_route_rs;
use rustyroad::writers::write_to_navbar;
use rustyroad::writers::write_to_route_name_html;
use rustyroad::writers::write_to_route_name_rs;
use rustyroad::writers::NAVBAR_COMPONENT;

#[test]
fn navbar_contents_are_the_component_markup() {
    let contents = write_to_navbar();
    assert_eq!(contents, NAVBAR_COMPONENT);
    assert!(contents.starts_with("<header class='relative'>"));
    assert!(contents.ends_with("</header>"));
}

#[test]
fn route_page_goes_under_templates_pages() {
    let (path, contents) = write_to_route_name_html("about".to_string());
    assert_eq!(path, "./templates/pages/about.html.tera");
    assert!(contents.contains("{% extends 'base' %}"));
    assert!(contents.contains("{{route_name}}"));
}

#[test]
fn route_handler_names_the_route() {
    let (path, contents) = write_to_route_name_rs("about".to_string());
    assert_eq!(path, "./src/routes/about/about.rs");
    assert!(contents.contains("#[get(\"/about\")]"));
    assert!(contents.contains("\"pages/about\""));
    assert!(contents.contains("route_name: \"about\","));
}

#[test]
fn initial_route_handler_uses_the_file_stem() {
    let (path, contents) = write_to_initial_route_rs("./src/routes/home/home.rs".to_string());
    assert_eq!(path, "./src/routes/home/home.rs");
    assert!(contents.contains("#[get(\"/home\")]"));
    assert!(contents.contains("\"pages/home\""));

    // Repeated extensions are all stripped, and a bare name passes through.
    let (_, contents) = write_to_initial_route_rs("index.rs.rs".to_string());
    assert!(contents.contains("#[get(\"/index\")]"));
    let (_, contents) = write_to_initial_route_rs("plain".to_string());
    assert!(contents.contains("#[get(\"/plain\")]"));
}

fn target(dialect: &str) -> Database {
    Database::new(
        String::new(),
        String::new(),
        String::new(),
        String::new(),
        String::new(),
        dialect.to_string(),
    )
}

#[test]
fn cargo_toml_carries_the_dialect_dependency() {
    let sqlite = write_to_cargo_toml("myproj", &target("sqlite"));
    assert!(sqlite.contains("name = \"myproj\""));
    assert!(sqlite.contains("[dependencies.rusqlite]"));
    assert!(sqlite.contains("features = [\"bundled\"]"));

    let postgres = write_to_cargo_toml("p", &target("postgres"));
    assert!(postgres.contains("[dependencies.sqlx]"));
    assert!(postgres.contains("\"postgres\""));

    let mysql = write_to_cargo_toml("p", &target("mysql"));
    assert!(mysql.contains("\"mysql\""));

    let mongo = write_to_cargo_toml("p", &target("mongo"));
    assert!(mongo.contains("[dependencies.mongodb]"));
}

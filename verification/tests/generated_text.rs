use appbiotic_code::bindings::{
    crate_module_name, extern_entry, externs_source, listed_files, lookup_paths, name_impl,
    names_source, package_module, proto_file_paths, ProtoFile,
};
use appbiotic_code::text::{decimal_string, replace_char, split_on};

fn file(name: &str, package: &str, messages: &[&str]) -> ProtoFile {
    ProtoFile {
        name: name.to_string(),
        package: package.to_string(),
        message_types: messages.iter().map(|m| m.to_string()).collect(),
    }
}

#[test]
fn decimal_matches_the_standard_rendering() {
    for n in [0u64, 1, 9, 10, 11, 99, 100, 101, 999, 1000, 4294967295, 4294967296, u64::MAX] {
        assert_eq!(decimal_string(n), n.to_string());
    }
    assert_eq!(decimal_string(0), "0");
    assert_eq!(decimal_string(7), "7");
    assert_eq!(decimal_string(120), "120");
    assert_eq!(decimal_string(u64::MAX), "18446744073709551615");
}

#[test]
fn split_matches_the_standard_split() {
    for text in ["", ".", "..", "a", "a.b", "a.", ".a", "a..b", "google.rpc", "x.y.z", "é.ü"] {
        let expected: Vec<String> = text.split('.').map(|s| s.to_string()).collect();
        assert_eq!(split_on(text, '.'), expected);
    }
    assert_eq!(split_on("", '.'), vec![""]);
    assert_eq!(split_on("a..b", '.'), vec!["a", "", "b"]);
    assert_eq!(split_on(".a.", '.'), vec!["", "a", ""]);
}

#[test]
fn replace_matches_the_standard_replace() {
    for text in ["", "-", "--", "a-b", "my-crate-name", "none", "-x-", "é-é"] {
        assert_eq!(replace_char(text, '-', '_'), text.replace('-', "_"));
    }
    assert_eq!(replace_char("a-b-c", '-', '_'), "a_b_c");
    assert_eq!(replace_char("a-b", 'x', 'y'), "a-b");
}

#[test]
fn crate_module_name_has_underscores() {
    assert_eq!(crate_module_name("appbiotic-code-error"), "appbiotic_code_error");
    assert_eq!(crate_module_name("plain"), "plain");
    assert_eq!(crate_module_name(""), "");
}

#[test]
fn package_module_joins_segments() {
    assert_eq!(package_module("google.rpc"), "google::rpc");
    assert_eq!(package_module("google.type"), "google::r#type");
    assert_eq!(package_module("type"), "r#type");
    assert_eq!(package_module("my-org.my-pkg.v1"), "my_org::my_pkg::v1");
    assert_eq!(package_module("types.typed"), "types::typed");
    assert_eq!(package_module("single"), "single");
    assert_eq!(package_module(""), "");
    assert_eq!(package_module("a..b"), "a::::b");
}

#[test]
fn extern_entry_is_one_line_of_source() {
    assert_eq!(
        extern_entry("google.rpc", "Status", "my_crate", "protos", "google::rpc"),
        "        appbiotic_code::ExternPath { proto_path: \".google.rpc.Status\", rust_path: \"::my_crate::protos::google::rpc::Status\" },\n"
    );
}

#[test]
fn name_impl_names_message_and_package() {
    assert_eq!(
        name_impl("google::r#type", "Date", "google.type"),
        "\nimpl prost::Name for google::r#type::Date {\n    const NAME: &'static str = \"Date\";\n    const PACKAGE: &'static str = \"google.type\";\n}\n"
    );
}

#[test]
fn externs_source_lists_every_message() {
    let files = vec![
        file("google/rpc/status.proto", "google.rpc", &["Status"]),
        file("google/type/date.proto", "google.type", &["Date", "Interval"]),
        file("empty.proto", "empty", &[]),
    ];
    let expected = [
        "pub fn externs() -> Vec<appbiotic_code::ExternPath> {\n",
        "    vec![\n",
        "        appbiotic_code::ExternPath { proto_path: \".google.rpc.Status\", rust_path: \"::my_crate::protos::google::rpc::Status\" },\n",
        "        appbiotic_code::ExternPath { proto_path: \".google.type.Date\", rust_path: \"::my_crate::protos::google::r#type::Date\" },\n",
        "        appbiotic_code::ExternPath { proto_path: \".google.type.Interval\", rust_path: \"::my_crate::protos::google::r#type::Interval\" },\n",
        "    ]\n",
        "}\n",
    ]
    .concat();
    assert_eq!(externs_source(&files, "my-crate", "protos"), expected);
}

#[test]
fn externs_source_without_files_is_an_empty_list() {
    assert_eq!(
        externs_source(&Vec::new(), "c", "protos"),
        "pub fn externs() -> Vec<appbiotic_code::ExternPath> {\n    vec![\n    ]\n}\n"
    );
}

#[test]
fn names_source_gives_every_message_its_name() {
    let files = vec![
        file("a.proto", "google.rpc", &["Status"]),
        file("b.proto", "google.type", &["Date"]),
    ];
    let expected = [
        "// Remove the Name implementations after https://github.com/tokio-rs/prost/issues/921\n",
        "\n",
        "impl prost::Name for google::rpc::Status {\n",
        "    const NAME: &'static str = \"Status\";\n",
        "    const PACKAGE: &'static str = \"google.rpc\";\n",
        "}\n",
        "\n",
        "impl prost::Name for google::r#type::Date {\n",
        "    const NAME: &'static str = \"Date\";\n",
        "    const PACKAGE: &'static str = \"google.type\";\n",
        "}\n",
    ]
    .concat();
    assert_eq!(names_source(&files), expected);
}

#[test]
fn listed_files_keeps_the_files_asked_for() {
    let files = vec![
        file("a.proto", "a", &["A"]),
        file("dep/b.proto", "b", &["B"]),
        file("c.proto", "c", &["C"]),
        file("a.proto", "again", &[]),
    ];
    let asked = vec!["c.proto".to_string(), "a.proto".to_string(), "missing.proto".to_string()];
    let listed = listed_files(&files, &asked);
    let names: Vec<(&str, &str)> = listed.iter().map(|f| (f.name.as_str(), f.package.as_str())).collect();
    assert_eq!(names, vec![("a.proto", "a"), ("c.proto", "c"), ("a.proto", "again")]);
    assert_eq!(listed[0].message_types, vec!["A"]);
    assert!(listed_files(&files, &Vec::new()).is_empty());
    assert!(listed_files(&Vec::new(), &asked).is_empty());
}

#[test]
fn proto_file_paths_are_listed_once() {
    let files = vec![
        "a.proto".to_string(),
        "sub/b.proto".to_string(),
        "a.proto".to_string(),
        "c.proto".to_string(),
        "sub/b.proto".to_string(),
    ];
    assert_eq!(
        proto_file_paths("/inc", &files),
        vec!["/inc/a.proto", "/inc/sub/b.proto", "/inc/c.proto"]
    );
    assert!(proto_file_paths("/inc", &Vec::new()).is_empty());
}

#[test]
fn lookup_paths_end_with_the_schema_directory() {
    assert_eq!(
        lookup_paths(vec!["/x".to_string(), "/y".to_string()], "/inc".to_string()),
        vec!["/x", "/y", "/inc"]
    );
    assert_eq!(lookup_paths(Vec::new(), "/inc".to_string()), vec!["/inc"]);
}

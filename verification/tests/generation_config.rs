use appbiotic_code::googleapis::externs;
use appbiotic_code::{ExternPath, ProtosGenerationConfig, SwiftModuleMappings, SwiftNaming};

#[test]
fn new_config_has_defaults() {
    let config = ProtosGenerationConfig::new("/work/crate", "my-crate", "/work/protos");
    assert_eq!(config.crate_dir, "/work/crate");
    assert_eq!(config.crate_name, "my-crate");
    assert_eq!(config.include_dir, "/work/protos");
    assert_eq!(config.mod_name, "protos");
    assert!(config.proto_files.is_empty());
    assert!(config.import_paths.is_empty());
    assert!(config.extern_paths.is_empty());
}

#[test]
fn builders_append_in_order_and_keep_the_rest() {
    let config = ProtosGenerationConfig::new("/c", "n", "/i")
        .with_proto_file("a.proto")
        .with_proto_files(vec!["b.proto".to_string(), "c.proto".to_string()])
        .with_import_path("/x")
        .with_import_paths(vec!["/y".to_string(), "/z".to_string()])
        .with_extern_path(ExternPath::new(".p.A", "::c::p::A"))
        .with_extern_paths(vec![
            ExternPath::new(".p.B", "::c::p::B"),
            ExternPath::new(".p.C", "::c::p::C"),
        ])
        .with_include_dir("/other")
        .with_proto_file("d.proto");
    assert_eq!(config.crate_dir, "/c");
    assert_eq!(config.crate_name, "n");
    assert_eq!(config.include_dir, "/other");
    assert_eq!(config.mod_name, "protos");
    assert_eq!(config.proto_files, vec!["a.proto", "b.proto", "c.proto", "d.proto"]);
    assert_eq!(config.import_paths, vec!["/x", "/y", "/z"]);
    assert_eq!(
        config.extern_paths,
        vec![
            ExternPath { proto_path: ".p.A", rust_path: "::c::p::A" },
            ExternPath { proto_path: ".p.B", rust_path: "::c::p::B" },
            ExternPath { proto_path: ".p.C", rust_path: "::c::p::C" },
        ]
    );
}

#[test]
fn adding_nothing_changes_nothing() {
    let config = ProtosGenerationConfig::new("/c", "n", "/i")
        .with_proto_file("a.proto")
        .with_proto_files(Vec::new())
        .with_import_paths(Vec::new())
        .with_extern_paths(Vec::new());
    assert_eq!(config.proto_files, vec!["a.proto"]);
    assert!(config.import_paths.is_empty());
    assert!(config.extern_paths.is_empty());
}

#[test]
fn swift_mappings_collect_files() {
    let mappings = SwiftModuleMappings::new("Greeter".to_string())
        .with_proto_file("a.proto")
        .with_proto_files(vec!["b.proto".to_string(), "c.proto".to_string()])
        .with_proto_file("a.proto");
    assert_eq!(mappings.module_name, "Greeter");
    assert_eq!(mappings.proto_files, vec!["a.proto", "b.proto", "c.proto", "a.proto"]);
    let empty = SwiftModuleMappings::new(String::new());
    assert!(empty.proto_files.is_empty());
}

#[test]
fn swift_naming_default_and_names() {
    assert!(matches!(SwiftNaming::default(), SwiftNaming::PathToUnderscores));
    assert_eq!(SwiftNaming::FullPath.as_str(), "FullPath");
    assert_eq!(SwiftNaming::PathToUnderscores.as_str(), "PathToUnderscores");
    assert_eq!(SwiftNaming::DropPath.as_str(), "DropPath");
}

#[test]
fn google_rpc_types_are_listed() {
    let paths = externs();
    let names = [
        "HttpRequest",
        "HttpResponse",
        "HttpHeader",
        "ErrorInfo",
        "RetryInfo",
        "DebugInfo",
        "QuotaFailure",
        "PreconditionFailure",
        "BadRequest",
        "RequestInfo",
        "ResourceInfo",
        "Help",
        "LocalizedMessage",
        "Status",
    ];
    assert_eq!(paths.len(), names.len());
    for (path, name) in paths.iter().zip(names) {
        assert_eq!(path.proto_path, format!(".google.rpc.{}", name));
        assert_eq!(
            path.rust_path,
            format!("::appbiotic_external_googleapis::protos::google::rpc::{}", name)
        );
    }
    assert_eq!(paths[0].proto_path, ".google.rpc.HttpRequest");
    assert_eq!(
        paths[13].rust_path,
        "::appbiotic_external_googleapis::protos::google::rpc::Status"
    );
}

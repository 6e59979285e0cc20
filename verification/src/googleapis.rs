//! The message types of the package `google.rpc`, as a code generation run
//! takes them from the crate that holds the code generated for them.

use crate::bindings::{
    crate_module_name_of, extern_path_of, module_segment_of, package_module_of,
};
use crate::generation::{ExternPath, ExternPathView};
use crate::text::{joined, replaced, split, split_at_last_separator, split_of_one_piece};
use vstd::prelude::*;

verus! {

/// The names of the message types of the package `google.rpc`.
pub open spec fn google_rpc_messages() -> Seq<Seq<char>> {
    seq![
        "HttpRequest"@,
        "HttpResponse"@,
        "HttpHeader"@,
        "ErrorInfo"@,
        "RetryInfo"@,
        "DebugInfo"@,
        "QuotaFailure"@,
        "PreconditionFailure"@,
        "BadRequest"@,
        "RequestInfo"@,
        "ResourceInfo"@,
        "Help"@,
        "LocalizedMessage"@,
        "Status"@,
    ]
}

/// Where the message type `message_name` of the package `google.rpc` is
/// found: in the module `protos` of the crate `appbiotic-external-googleapis`,
/// at the place where a code generation run for that crate puts it.
pub open spec fn google_rpc_extern_path(message_name: Seq<char>) -> ExternPathView {
    let (proto_path, rust_path) = extern_path_of(
        "google.rpc"@,
        message_name,
        crate_module_name_of("appbiotic-external-googleapis"@),
        "protos"@,
        package_module_of("google.rpc"@),
    );
    ExternPathView { proto_path, rust_path }
}

/// The module of the crate `appbiotic-external-googleapis` is
/// `appbiotic_external_googleapis`.
proof fn crate_module_is_underscored()
    ensures
        crate_module_name_of("appbiotic-external-googleapis"@) == "appbiotic_external_googleapis"@,
{
    reveal_strlit("appbiotic-external-googleapis");
    reveal_strlit("appbiotic_external_googleapis");
}

/// The module of the package `google.rpc` is `google::rpc`.
proof fn package_module_is_google_rpc()
    ensures
        package_module_of("google.rpc"@) == "google::rpc"@,
{
    reveal_strlit("google.rpc");
    reveal_strlit("google::rpc");
    reveal_strlit("google");
    reveal_strlit("rpc");
    reveal_strlit("type");
    reveal_strlit("::");
    let text = "google.rpc"@;
    assert(text =~= "google"@ + seq!['.'] + "rpc"@);
    split_of_one_piece("google"@, '.');
    split_at_last_separator("google"@, "rpc"@, '.');
    let segments = split(text, '.');
    assert(replaced("google"@, '-', '_') =~= "google"@);
    assert(replaced("rpc"@, '-', '_') =~= "rpc"@);
    let modules = segments.map_values(|segment| module_segment_of(segment));
    assert(joined(modules.drop_last(), "::"@) == "google"@);
}

/// The types of the package `google.rpc` that other crates may take from
/// the crate that holds the code generated for them.
pub fn externs() -> (paths: Vec<ExternPath>)
    ensures
        paths.deep_view() == google_rpc_messages().map_values(
            |message_name| google_rpc_extern_path(message_name),
        ),
{
    let paths = vec![
        ExternPath {
            proto_path: ".google.rpc.HttpRequest",
            rust_path: "::appbiotic_external_googleapis::protos::google::rpc::HttpRequest",
        },
        ExternPath {
            proto_path: ".google.rpc.HttpResponse",
            rust_path: "::appbiotic_external_googleapis::protos::google::rpc::HttpResponse",
        },
        ExternPath {
            proto_path: ".google.rpc.HttpHeader",
            rust_path: "::appbiotic_external_googleapis::protos::google::rpc::HttpHeader",
        },
        ExternPath {
            proto_path: ".google.rpc.ErrorInfo",
            rust_path: "::appbiotic_external_googleapis::protos::google::rpc::ErrorInfo",
        },
        ExternPath {
            proto_path: ".google.rpc.RetryInfo",
            rust_path: "::appbiotic_external_googleapis::protos::google::rpc::RetryInfo",
        },
        ExternPath {
            proto_path: ".google.rpc.DebugInfo",
            rust_path: "::appbiotic_external_googleapis::protos::google::rpc::DebugInfo",
        },
        ExternPath {
            proto_path: ".google.rpc.QuotaFailure",
            rust_path: "::appbiotic_external_googleapis::protos::google::rpc::QuotaFailure",
        },
        ExternPath {
            proto_path: ".google.rpc.PreconditionFailure",
            rust_path: "::appbiotic_external_googleapis::protos::google::rpc::PreconditionFailure",
        },
        ExternPath {
            proto_path: ".google.rpc.BadRequest",
            rust_path: "::appbiotic_external_googleapis::protos::google::rpc::BadRequest",
        },
        ExternPath {
            proto_path: ".google.rpc.RequestInfo",
            rust_path: "::appbiotic_external_googleapis::protos::google::rpc::RequestInfo",
        },
        ExternPath {
            proto_path: ".google.rpc.ResourceInfo",
            rust_path: "::appbiotic_external_googleapis::protos::google::rpc::ResourceInfo",
        },
        ExternPath {
            proto_path: ".google.rpc.Help",
            rust_path: "::appbiotic_external_googleapis::protos::google::rpc::Help",
        },
        ExternPath {
            proto_path: ".google.rpc.LocalizedMessage",
            rust_path: "::appbiotic_external_googleapis::protos::google::rpc::LocalizedMessage",
        },
        ExternPath {
            proto_path: ".google.rpc.Status",
            rust_path: "::appbiotic_external_googleapis::protos::google::rpc::Status",
        },
    ];
    proof {
        crate_module_is_underscored();
        package_module_is_google_rpc();
        reveal_strlit(".");
        reveal_strlit("::");
        reveal_strlit("google.rpc");
        reveal_strlit("google::rpc");
        reveal_strlit("protos");
        reveal_strlit("appbiotic_external_googleapis");
        reveal_strlit("HttpRequest");
        reveal_strlit(".google.rpc.HttpRequest");
        reveal_strlit("::appbiotic_external_googleapis::protos::google::rpc::HttpRequest");
        assert(paths[0]@.proto_path =~= google_rpc_extern_path("HttpRequest"@).proto_path);
        assert(paths[0]@.rust_path =~= google_rpc_extern_path("HttpRequest"@).rust_path);
        reveal_strlit("HttpResponse");
        reveal_strlit(".google.rpc.HttpResponse");
        reveal_strlit("::appbiotic_external_googleapis::protos::google::rpc::HttpResponse");
        assert(paths[1]@.proto_path =~= google_rpc_extern_path("HttpResponse"@).proto_path);
        assert(paths[1]@.rust_path =~= google_rpc_extern_path("HttpResponse"@).rust_path);
        reveal_strlit("HttpHeader");
        reveal_strlit(".google.rpc.HttpHeader");
        reveal_strlit("::appbiotic_external_googleapis::protos::google::rpc::HttpHeader");
        assert(paths[2]@.proto_path =~= google_rpc_extern_path("HttpHeader"@).proto_path);
        assert(paths[2]@.rust_path =~= google_rpc_extern_path("HttpHeader"@).rust_path);
        reveal_strlit("ErrorInfo");
        reveal_strlit(".google.rpc.ErrorInfo");
        reveal_strlit("::appbiotic_external_googleapis::protos::google::rpc::ErrorInfo");
        assert(paths[3]@.proto_path =~= google_rpc_extern_path("ErrorInfo"@).proto_path);
        assert(paths[3]@.rust_path =~= google_rpc_extern_path("ErrorInfo"@).rust_path);
        reveal_strlit("RetryInfo");
        reveal_strlit(".google.rpc.RetryInfo");
        reveal_strlit("::appbiotic_external_googleapis::protos::google::rpc::RetryInfo");
        assert(paths[4]@.proto_path =~= google_rpc_extern_path("RetryInfo"@).proto_path);
        assert(paths[4]@.rust_path =~= google_rpc_extern_path("RetryInfo"@).rust_path);
        reveal_strlit("DebugInfo");
        reveal_strlit(".google.rpc.DebugInfo");
        reveal_strlit("::appbiotic_external_googleapis::protos::google::rpc::DebugInfo");
        assert(paths[5]@.proto_path =~= google_rpc_extern_path("DebugInfo"@).proto_path);
        assert(paths[5]@.rust_path =~= google_rpc_extern_path("DebugInfo"@).rust_path);
        reveal_strlit("QuotaFailure");
        reveal_strlit(".google.rpc.QuotaFailure");
        reveal_strlit("::appbiotic_external_googleapis::protos::google::rpc::QuotaFailure");
        assert(paths[6]@.proto_path =~= google_rpc_extern_path("QuotaFailure"@).proto_path);
        assert(paths[6]@.rust_path =~= google_rpc_extern_path("QuotaFailure"@).rust_path);
        reveal_strlit("PreconditionFailure");
        reveal_strlit(".google.rpc.PreconditionFailure");
        reveal_strlit("::appbiotic_external_googleapis::protos::google::rpc::PreconditionFailure");
        assert(paths[7]@.proto_path =~= google_rpc_extern_path("PreconditionFailure"@).proto_path);
        assert(paths[7]@.rust_path =~= google_rpc_extern_path("PreconditionFailure"@).rust_path);
        reveal_strlit("BadRequest");
        reveal_strlit(".google.rpc.BadRequest");
        reveal_strlit("::appbiotic_external_googleapis::protos::google::rpc::BadRequest");
        assert(paths[8]@.proto_path =~= google_rpc_extern_path("BadRequest"@).proto_path);
        assert(paths[8]@.rust_path =~= google_rpc_extern_path("BadRequest"@).rust_path);
        reveal_strlit("RequestInfo");
        reveal_strlit(".google.rpc.RequestInfo");
        reveal_strlit("::appbiotic_external_googleapis::protos::google::rpc::RequestInfo");
        assert(paths[9]@.proto_path =~= google_rpc_extern_path("RequestInfo"@).proto_path);
        assert(paths[9]@.rust_path =~= google_rpc_extern_path("RequestInfo"@).rust_path);
        reveal_strlit("ResourceInfo");
        reveal_strlit(".google.rpc.ResourceInfo");
        reveal_strlit("::appbiotic_external_googleapis::protos::google::rpc::ResourceInfo");
        assert(paths[10]@.proto_path =~= google_rpc_extern_path("ResourceInfo"@).proto_path);
        assert(paths[10]@.rust_path =~= google_rpc_extern_path("ResourceInfo"@).rust_path);
        reveal_strlit("Help");
        reveal_strlit(".google.rpc.Help");
        reveal_strlit("::appbiotic_external_googleapis::protos::google::rpc::Help");
        assert(paths[11]@.proto_path =~= google_rpc_extern_path("Help"@).proto_path);
        assert(paths[11]@.rust_path =~= google_rpc_extern_path("Help"@).rust_path);
        reveal_strlit("LocalizedMessage");
        reveal_strlit(".google.rpc.LocalizedMessage");
        reveal_strlit("::appbiotic_external_googleapis::protos::google::rpc::LocalizedMessage");
        assert(paths[12]@.proto_path =~= google_rpc_extern_path("LocalizedMessage"@).proto_path);
        assert(paths[12]@.rust_path =~= google_rpc_extern_path("LocalizedMessage"@).rust_path);
        reveal_strlit("Status");
        reveal_strlit(".google.rpc.Status");
        reveal_strlit("::appbiotic_external_googleapis::protos::google::rpc::Status");
        assert(paths[13]@.proto_path =~= google_rpc_extern_path("Status"@).proto_path);
        assert(paths[13]@.rust_path =~= google_rpc_extern_path("Status"@).rust_path);
    }
    paths
}

} // verus!

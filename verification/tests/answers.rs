use jdwp_server::dispatch::{
    handle_loaded_classes_command, handle_unknown_command, handle_version_command, reply_with,
    respond, route, HttpReply, Route, JSON_CONTENT_TYPE, LOADED_CLASSES_PATH, STATUS_OK,
    VERSION_PATH,
};
use jdwp_server::json::{join, quote};
use jdwp_server::response::{
    class_entry, classes_body, unsupported_body, ClassSignatures, CommandResponse,
    LoadedClassesResponse, UnsupportedResponse, VersionResponse, UNSUPPORTED_MESSAGE,
};

fn class(signature: &str, generic: Option<&str>) -> ClassSignatures {
    ClassSignatures { signature: signature.to_string(), generic: generic.map(|g| g.to_string()) }
}

fn json(body: &str) -> HttpReply {
    HttpReply { status: 200, content_type: "application/json", body: body.to_string() }
}

#[test]
fn mapped_paths_are_routed() {
    assert_eq!(VERSION_PATH, "/VirtualMachine/Version");
    assert_eq!(LOADED_CLASSES_PATH, "/Class/GetLoadedClasses");
    assert_eq!(route("/VirtualMachine/Version"), Route::Version);
    assert_eq!(route("/Class/GetLoadedClasses"), Route::LoadedClasses);
}

#[test]
fn paths_are_compared_as_they_stand() {
    assert_eq!(route(""), Route::Unknown);
    assert_eq!(route("/"), Route::Unknown);
    assert_eq!(route("/VirtualMachine/Version/"), Route::Unknown);
    assert_eq!(route("/VirtualMachine/Version?verbose=1"), Route::Unknown);
    assert_eq!(route("/virtualmachine/version"), Route::Unknown);
    assert_eq!(route("//VirtualMachine/Version"), Route::Unknown);
    assert_eq!(route("/Class/GetLoadedClasses#top"), Route::Unknown);
    assert_eq!(route("/Class/getloadedclasses"), Route::Unknown);
    assert_eq!(route(" /Class/GetLoadedClasses"), Route::Unknown);
}

#[test]
fn every_reply_is_json_with_status_200() {
    assert_eq!(STATUS_OK, 200);
    assert_eq!(JSON_CONTENT_TYPE, "application/json");
    assert_eq!(reply_with("{}".to_string()), json("{}"));
    let reply = handle_unknown_command("/nowhere");
    assert_eq!(reply.status, 200);
    assert_eq!(reply.content_type, "application/json");
    let reply = handle_version_command(0);
    assert_eq!(reply.status, 200);
    assert_eq!(reply.content_type, "application/json");
    let reply = handle_loaded_classes_command(Vec::new());
    assert_eq!(reply.status, 200);
    assert_eq!(reply.content_type, "application/json");
}

#[test]
fn version_21_3_0_is_reported() {
    let version = 0x30000000 + 21 * 0x10000 + 3 * 0x100;
    assert_eq!(
        handle_version_command(version),
        json("{\"jvmti_major\":21,\"jvmti_minor\":3,\"jvmti_micro\":0}")
    );
}

#[test]
fn version_request_is_idempotent() {
    let first = handle_version_command(0x30150300);
    let second = handle_version_command(0x30150300);
    assert_eq!(first, second);
    assert_eq!(first.body, "{\"jvmti_major\":21,\"jvmti_minor\":3,\"jvmti_micro\":0}");
}

#[test]
fn version_object_is_written_field_by_field() {
    let version = VersionResponse { jvmti_major: 1, jvmti_minor: 22, jvmti_micro: 255 };
    assert_eq!(version.to_json(), "{\"jvmti_major\":1,\"jvmti_minor\":22,\"jvmti_micro\":255}");
    let version = VersionResponse { jvmti_major: -4, jvmti_minor: 0, jvmti_micro: i32::MIN };
    assert_eq!(
        version.to_json(),
        "{\"jvmti_major\":-4,\"jvmti_minor\":0,\"jvmti_micro\":-2147483648}"
    );
}

#[test]
fn no_loaded_classes_give_an_empty_list() {
    assert_eq!(handle_loaded_classes_command(Vec::new()), json("{\"classes\":[]}"));
    assert_eq!(
        LoadedClassesResponse { classes: Vec::new() }.to_json(),
        "{\"classes\":[]}".to_string()
    );
}

#[test]
fn class_without_generic_signature_has_null() {
    let string = class("Ljava/lang/String;", None);
    assert_eq!(
        string.to_json(),
        "{\"signature\":\"Ljava/lang/String;\",\"generic\":null}".to_string()
    );
    assert_eq!(
        handle_loaded_classes_command(vec![string]),
        json("{\"classes\":[{\"signature\":\"Ljava/lang/String;\",\"generic\":null}]}")
    );
}

#[test]
fn class_with_generic_signature_has_it_as_string() {
    let list = class(
        "Ljava/util/ArrayList;",
        Some("<E:Ljava/lang/Object;>Ljava/util/AbstractList<TE;>;"),
    );
    assert_eq!(
        list.to_json(),
        "{\"signature\":\"Ljava/util/ArrayList;\",\"generic\":\"<E:Ljava/lang/Object;>Ljava/util/AbstractList<TE;>;\"}".to_string()
    );
    let empty = class("", Some(""));
    assert_eq!(empty.to_json(), "{\"signature\":\"\",\"generic\":\"\"}".to_string());
}

#[test]
fn classes_keep_their_order() {
    let classes = vec![
        class("Lb/B;", None),
        class("La/A;", Some("<T:Ljava/lang/Object;>Ljava/lang/Object;")),
        class("Lb/B;", None),
        class("[I", None),
    ];
    assert_eq!(
        handle_loaded_classes_command(classes).body,
        "{\"classes\":[{\"signature\":\"Lb/B;\",\"generic\":null},{\"signature\":\"La/A;\",\"generic\":\"<T:Ljava/lang/Object;>Ljava/lang/Object;\"},{\"signature\":\"Lb/B;\",\"generic\":null},{\"signature\":\"[I\",\"generic\":null}]}"
    );
}

#[test]
fn unknown_path_is_named_in_the_reply() {
    assert_eq!(
        UNSUPPORTED_MESSAGE,
        "The requested endpoint is not mapped to a JVMTI command"
    );
    assert_eq!(
        handle_unknown_command("/Thread/GetAllThreads"),
        json("{\"endpoint\":\"/Thread/GetAllThreads\",\"message\":\"The requested endpoint is not mapped to a JVMTI command\"}")
    );
    assert_eq!(
        handle_unknown_command("").body,
        "{\"endpoint\":\"\",\"message\":\"The requested endpoint is not mapped to a JVMTI command\"}"
    );
}

#[test]
fn query_string_stays_in_the_endpoint() {
    assert_eq!(
        handle_unknown_command("/VirtualMachine/Version?pretty=true&x=%20").body,
        "{\"endpoint\":\"/VirtualMachine/Version?pretty=true&x=%20\",\"message\":\"The requested endpoint is not mapped to a JVMTI command\"}"
    );
}

#[test]
fn unsupported_answer_is_written_with_both_fields() {
    let answer = UnsupportedResponse { endpoint: "/x", message: "no" };
    assert_eq!(answer.to_json(), "{\"endpoint\":\"/x\",\"message\":\"no\"}".to_string());
}

#[test]
fn strings_are_escaped_as_json() {
    assert_eq!(quote("plain"), "\"plain\"".to_string());
    assert_eq!(quote(""), "\"\"".to_string());
    assert_eq!(quote("a\"b"), "\"a\\\"b\"".to_string());
    assert_eq!(quote("a\\b"), "\"a\\\\b\"".to_string());
    assert_eq!(quote("line\nbreak\ttab\r"), "\"line\\nbreak\\ttab\\r\"".to_string());
    assert_eq!(quote("\u{8}\u{c}"), "\"\\b\\f\"".to_string());
    assert_eq!(quote("\u{0}\u{1f}"), "\"\\u0000\\u001f\"".to_string());
    assert_eq!(quote("/slash"), "\"/slash\"".to_string());
    assert_eq!(quote("caf\u{e9} \u{1f600}\u{7f}"), "\"caf\u{e9} \u{1f600}\u{7f}\"".to_string());
}

#[test]
fn escaped_path_stays_one_json_string() {
    let reply = handle_unknown_command("/a\"b\\c\nd");
    assert_eq!(
        reply.body,
        "{\"endpoint\":\"/a\\\"b\\\\c\\nd\",\"message\":\"The requested endpoint is not mapped to a JVMTI command\"}"
    );
    let parsed: serde_json::Value = serde_json::from_str(&reply.body).unwrap();
    assert_eq!(parsed.get("endpoint").and_then(|v| v.as_str()), Some("/a\"b\\c\nd"));
}

#[test]
fn escaped_signatures_read_back() {
    let odd = class("L\"quoted\";", Some("tab\there"));
    let body = handle_loaded_classes_command(vec![odd]).body;
    assert_eq!(
        body,
        "{\"classes\":[{\"signature\":\"L\\\"quoted\\\";\",\"generic\":\"tab\\there\"}]}"
    );
    let parsed: serde_json::Value = serde_json::from_str(&body).unwrap();
    let first = &parsed["classes"][0];
    assert_eq!(first["signature"].as_str(), Some("L\"quoted\";"));
    assert_eq!(first["generic"].as_str(), Some("tab\there"));
}

#[test]
fn replies_are_valid_json() {
    let body = handle_version_command(0x30150300).body;
    let parsed: serde_json::Value = serde_json::from_str(&body).unwrap();
    assert_eq!(parsed["jvmti_major"].as_i64(), Some(21));
    assert_eq!(parsed["jvmti_minor"].as_i64(), Some(3));
    assert_eq!(parsed["jvmti_micro"].as_i64(), Some(0));
    let body = handle_loaded_classes_command(vec![class("LA;", None), class("LB;", Some("g"))])
        .body;
    let parsed: serde_json::Value = serde_json::from_str(&body).unwrap();
    assert_eq!(parsed["classes"].as_array().map(|list| list.len()), Some(2));
    assert!(parsed["classes"][0]["generic"].is_null());
    assert_eq!(parsed["classes"][1]["generic"].as_str(), Some("g"));
}

#[test]
fn literals_are_framed_as_given() {
    assert_eq!(class_entry("\"LA;\"", None), "{\"signature\":\"LA;\",\"generic\":null}");
    assert_eq!(
        class_entry("\"LA;\"", Some("\"g\"")),
        "{\"signature\":\"LA;\",\"generic\":\"g\"}"
    );
    assert_eq!(class_entry("S", Some("G")), "{\"signature\":S,\"generic\":G}");
    assert_eq!(classes_body(&Vec::new()), "{\"classes\":[]}");
    assert_eq!(classes_body(&vec!["1".to_string()]), "{\"classes\":[1]}");
    assert_eq!(
        classes_body(&vec!["1".to_string(), "2".to_string(), "3".to_string()]),
        "{\"classes\":[1,2,3]}"
    );
    assert_eq!(unsupported_body("E", "M"), "{\"endpoint\":E,\"message\":M}");
}

#[test]
fn pieces_are_joined_with_the_separator_between() {
    assert_eq!(join(&Vec::new(), ","), "");
    assert_eq!(join(&vec!["a".to_string()], ","), "a");
    assert_eq!(join(&vec!["a".to_string(), "b".to_string()], ","), "a,b");
    assert_eq!(join(&vec!["".to_string(), "".to_string(), "".to_string()], ", "), ", , ");
}

#[test]
fn each_kind_of_answer_is_written_in_its_shape() {
    let version = CommandResponse::VersionInfo(VersionResponse {
        jvmti_major: 11,
        jvmti_minor: 0,
        jvmti_micro: 2,
    });
    assert_eq!(
        version.to_json(),
        "{\"jvmti_major\":11,\"jvmti_minor\":0,\"jvmti_micro\":2}".to_string()
    );
    let classes = CommandResponse::LoadedClasses(LoadedClassesResponse {
        classes: vec![class("LA;", None), class("LB;", Some("<T:LA;>LB;"))],
    });
    assert_eq!(
        classes.to_json(),
        "{\"classes\":[{\"signature\":\"LA;\",\"generic\":null},{\"signature\":\"LB;\",\"generic\":\"<T:LA;>LB;\"}]}".to_string()
    );
    let unsupported = CommandResponse::Unsupported(UnsupportedResponse {
        endpoint: "/x?y",
        message: UNSUPPORTED_MESSAGE,
    });
    assert_eq!(
        unsupported.to_json(),
        "{\"endpoint\":\"/x?y\",\"message\":\"The requested endpoint is not mapped to a JVMTI command\"}".to_string()
    );
}

#[test]
fn answers_are_wrapped_as_json_replies() {
    let version = CommandResponse::VersionInfo(VersionResponse {
        jvmti_major: 21,
        jvmti_minor: 3,
        jvmti_micro: 0,
    });
    assert_eq!(
        respond(&version),
        json("{\"jvmti_major\":21,\"jvmti_minor\":3,\"jvmti_micro\":0}")
    );
    assert_eq!(respond(&version), handle_version_command(0x30150300));
    let unsupported = CommandResponse::Unsupported(UnsupportedResponse {
        endpoint: "/nowhere",
        message: UNSUPPORTED_MESSAGE,
    });
    assert_eq!(respond(&unsupported), handle_unknown_command("/nowhere"));
    let classes = CommandResponse::LoadedClasses(LoadedClassesResponse { classes: Vec::new() });
    assert_eq!(respond(&classes), handle_loaded_classes_command(Vec::new()));
}

#[test]
fn unmapped_paths_get_the_unsupported_answer() {
    for path in ["/", "", "/VirtualMachine", "/VirtualMachine/Version/", "/Class/GetLoadedClasses?all", "/favicon.ico"] {
        assert_eq!(route(path), Route::Unknown);
        let body = handle_unknown_command(path).body;
        let parsed: serde_json::Value = serde_json::from_str(&body).unwrap();
        assert_eq!(parsed["endpoint"].as_str(), Some(path));
        assert_eq!(parsed["message"].as_str(), Some(UNSUPPORTED_MESSAGE));
        assert_eq!(parsed.as_object().map(|object| object.len()), Some(2));
    }
}

#[test]
fn every_ascii_character_is_written_after_the_table() {
    let two = [(0x08u8, "\\b"), (0x09, "\\t"), (0x0a, "\\n"), (0x0c, "\\f"), (0x0d, "\\r"), (0x22, "\\\""), (0x5c, "\\\\")];
    let hex = ['0', '1', '2', '3', '4', '5', '6', '7', '8', '9', 'a', 'b', 'c', 'd', 'e', 'f'];
    for code in 0u8..128 {
        let c = code as char;
        let inner = match two.iter().find(|(escaped, _)| *escaped == code) {
            Some((_, text)) => text.to_string(),
            None if code < 0x20 => {
                format!("\\u00{}{}", hex[(code / 16) as usize], hex[(code % 16) as usize])
            }
            None => c.to_string(),
        };
        assert_eq!(quote(&c.to_string()), format!("\"{}\"", inner), "{}", code);
        assert_eq!(
            quote(&format!("x{}y{}", c, c)),
            format!("\"x{}y{}\"", inner, inner),
            "{}",
            code
        );
    }
}

#[test]
fn characters_outside_ascii_are_written_as_they_stand() {
    for c in ['\u{7f}', '\u{80}', '\u{9f}', '\u{a0}', '\u{e9}', '\u{2028}', '\u{2029}', '\u{fffd}', '\u{ffff}', '\u{10000}', '\u{1f600}', '\u{10ffff}'] {
        assert_eq!(quote(&c.to_string()), format!("\"{}\"", c));
    }
}

#[test]
fn written_literals_read_back() {
    for text in ["", "a", "\"", "\\", "\\\"", "\u{0}\u{1}\u{1f} ", "tab\tnew\nline", "Ljava/lang/String;", "caf\u{e9}"] {
        let parsed: serde_json::Value = serde_json::from_str(&quote(text)).unwrap();
        assert_eq!(parsed.as_str(), Some(text));
    }
}

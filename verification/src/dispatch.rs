//! Routing of request paths to commands, and the reply of each command.

use crate::json::{json_string_text, needs_escape, plain_text_is_quoted_unchanged};
use crate::jvmti::{decode_version, decoded};
use crate::response::{
    class_json, class_views, loaded_classes_json, response_json, unsupported_json, version_json,
    ClassSignatures, ClassSignaturesView, CommandResponse, CommandResponseView,
    LoadedClassesResponse, UnsupportedResponse, UnsupportedResponseView, UNSUPPORTED_MESSAGE,
};
use vstd::prelude::*;

verus! {

/// Path of the command that reports the interface version.
pub const VERSION_PATH: &'static str = "/VirtualMachine/Version";

/// Path of the command that lists the loaded classes.
pub const LOADED_CLASSES_PATH: &'static str = "/Class/GetLoadedClasses";

/// Status code of every reply.
pub const STATUS_OK: u16 = 200;

/// Content type of every reply.
pub const JSON_CONTENT_TYPE: &'static str = "application/json";

/// The command that a request path is mapped to.
#[derive(Clone, Copy, Debug, PartialEq, Eq, Structural)]
pub enum Route {
    /// Report the version of the native interface.
    Version,
    /// List the classes that the host VM has loaded.
    LoadedClasses,
    /// No command is mapped to the path.
    Unknown,
}

/// The command that `path` is mapped to. The path is compared as it stands:
/// no part of it is stripped or folded.
pub open spec fn routed(path: Seq<char>) -> Route {
    if path == VERSION_PATH@ {
        Route::Version
    } else if path == LOADED_CLASSES_PATH@ {
        Route::LoadedClasses
    } else {
        Route::Unknown
    }
}

fn same_text(left: &str, right: &str) -> (same: bool)
    ensures
        same == (left@ == right@),
{
    String::from_str(left) == String::from_str(right)
}

/// Routes a request path.
pub fn route(url: &str) -> (command: Route)
    ensures
        command == routed(url@),
{
    if same_text(url, VERSION_PATH) {
        Route::Version
    } else if same_text(url, LOADED_CLASSES_PATH) {
        Route::LoadedClasses
    } else {
        Route::Unknown
    }
}

/// What is sent back for one request.
#[derive(Clone, Debug, PartialEq, Eq)]
pub struct HttpReply {
    pub status: u16,
    pub content_type: &'static str,
    pub body: String,
}

/// What an `HttpReply` holds, as text.
pub struct HttpReplyView {
    pub status: u16,
    pub content_type: Seq<char>,
    pub body: Seq<char>,
}

impl View for HttpReply {
    type V = HttpReplyView;

    open spec fn view(&self) -> HttpReplyView {
        HttpReplyView { status: self.status, content_type: self.content_type@, body: self.body@ }
    }
}

/// The reply that carries `body` as JSON: status 200 and the JSON content
/// type.
pub open spec fn json_reply(body: Seq<char>) -> HttpReplyView {
    HttpReplyView { status: STATUS_OK, content_type: JSON_CONTENT_TYPE@, body }
}

/// Wraps a JSON text as a reply.
pub fn reply_with(body: String) -> (reply: HttpReply)
    ensures
        reply@ == json_reply(body@),
{
    HttpReply { status: STATUS_OK, content_type: JSON_CONTENT_TYPE, body }
}

/// Writes an answer and wraps it as a reply.
pub fn respond(response: &CommandResponse) -> (reply: HttpReply)
    ensures
        reply@ == json_reply(response_json(response@)),
{
    reply_with(response.to_json())
}

/// Answers the version command for the version number that the native
/// interface reported.
pub fn handle_version_command(version: i32) -> (reply: HttpReply)
    ensures
        reply@ == json_reply(version_json(decoded(version))),
{
    respond(&CommandResponse::VersionInfo(decode_version(version)))
}

/// Answers the loaded-classes command for the classes that the native
/// interface reported, in their order.
pub fn handle_loaded_classes_command(classes: Vec<ClassSignatures>) -> (reply: HttpReply)
    ensures
        reply@ == json_reply(loaded_classes_json(class_views(classes@))),
{
    respond(&CommandResponse::LoadedClasses(LoadedClassesResponse { classes }))
}

/// The answer to a request for `path` where no command is mapped to it.
pub open spec fn unsupported(path: Seq<char>) -> UnsupportedResponseView {
    UnsupportedResponseView { endpoint: path, message: UNSUPPORTED_MESSAGE@ }
}

/// Answers a request for a path that no command is mapped to: the reply names
/// the path as it was requested. It never fails.
pub fn handle_unknown_command(url: &str) -> (reply: HttpReply)
    ensures
        reply@ == json_reply(unsupported_json(unsupported(url@))),
{
    respond(
        &CommandResponse::Unsupported(
            UnsupportedResponse { endpoint: url, message: UNSUPPORTED_MESSAGE },
        ),
    )
}

/// A path other than the two mapped ones is routed to no command, and the
/// answer to it names that very path: the endpoint of the answer is the path,
/// character for character, and the body holds it as a JSON string literal.
pub proof fn unmapped_paths_are_unsupported(path: Seq<char>)
    requires
        path != VERSION_PATH@,
        path != LOADED_CLASSES_PATH@,
    ensures
        routed(path) == Route::Unknown,
        unsupported(path).endpoint == path,
        unsupported(path).message == UNSUPPORTED_MESSAGE@,
        response_json(CommandResponseView::Unsupported(unsupported(path))) == "{\"endpoint\":"@
            + json_string_text(path) + ",\"message\":"@ + json_string_text(UNSUPPORTED_MESSAGE@)
            + "}"@,
{
}

/// Where no character of the path needs an escape, the body of the answer
/// holds the path itself between quotes.
pub proof fn plain_paths_stand_in_the_answer(path: Seq<char>)
    requires
        forall|i: int| 0 <= i < path.len() ==> !needs_escape(#[trigger] path[i]),
    ensures
        unsupported_json(unsupported(path)) == "{\"endpoint\":"@ + (seq!['"'] + path + seq!['"'])
            + ",\"message\":"@ + json_string_text(UNSUPPORTED_MESSAGE@) + "}"@,
{
    plain_text_is_quoted_unchanged(path);
}

/// Two answers to the version command for one version number are the same:
/// the answer depends on nothing but the number.
pub proof fn version_answers_agree(version: i32, first: HttpReplyView, second: HttpReplyView)
    requires
        first == json_reply(version_json(decoded(version))),
        second == json_reply(version_json(decoded(version))),
    ensures
        first == second,
        first.body == version_json(decoded(version)),
{
}

/// Where the host VM has loaded no class, the list of the answer is empty.
pub proof fn no_classes_give_the_empty_list()
    ensures
        loaded_classes_json(Seq::empty()) == "{\"classes\":["@ + "]}"@,
{
    assert(Seq::<ClassSignaturesView>::empty().map_values(
        |class: ClassSignaturesView| class_json(class),
    ) =~= Seq::<Seq<char>>::empty());
    assert("{\"classes\":["@ + Seq::<char>::empty() + "]}"@ =~= "{\"classes\":["@ + "]}"@);
}

} // verus!

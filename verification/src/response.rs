//! The answers of the agent and their JSON text.

use crate::decimal::{decimal_text, render_signed};
use crate::json::{join, joined, json_string_text, quote, texts};
use vstd::prelude::*;

verus! {

/// The three components of an interface version.
#[derive(Clone, Copy, Debug, PartialEq, Eq, Structural)]
pub struct VersionResponse {
    pub jvmti_major: i32,
    pub jvmti_minor: i32,
    pub jvmti_micro: i32,
}

/// The JSON object that reports a version.
pub open spec fn version_json(version: VersionResponse) -> Seq<char> {
    "{\"jvmti_major\":"@ + decimal_text(version.jvmti_major as int) + ",\"jvmti_minor\":"@
        + decimal_text(version.jvmti_minor as int) + ",\"jvmti_micro\":"@ + decimal_text(
        version.jvmti_micro as int,
    ) + "}"@
}

impl VersionResponse {
    /// Writes the version as a JSON object.
    pub fn to_json(&self) -> (text: String)
        ensures
            text@ == version_json(*self),
    {
        let major = render_signed(self.jvmti_major);
        let minor = render_signed(self.jvmti_minor);
        let micro = render_signed(self.jvmti_micro);
        let mut text = String::from_str("{\"jvmti_major\":");
        text.append(major.as_str());
        text.append(",\"jvmti_minor\":");
        text.append(minor.as_str());
        text.append(",\"jvmti_micro\":");
        text.append(micro.as_str());
        text.append("}");
        text
    }
}

/// The signature of one loaded class and, where it has one, its generic
/// signature.
#[derive(Clone, Debug, PartialEq, Eq)]
pub struct ClassSignatures {
    pub signature: String,
    pub generic: Option<String>,
}

/// What a `ClassSignatures` holds, as text.
pub struct ClassSignaturesView {
    pub signature: Seq<char>,
    pub generic: Option<Seq<char>>,
}

impl View for ClassSignatures {
    type V = ClassSignaturesView;

    open spec fn view(&self) -> ClassSignaturesView {
        ClassSignaturesView {
            signature: self.signature@,
            generic: match self.generic {
                Some(generic) => Some(generic@),
                None => None,
            },
        }
    }
}

/// The JSON object of one class, given the literal of its signature and, where
/// it has a generic signature, the literal of that; `null` stands for an
/// absent one.
pub open spec fn class_entry_text(signature: Seq<char>, generic: Option<Seq<char>>) -> Seq<char> {
    "{\"signature\":"@ + signature + ",\"generic\":"@ + match generic {
        Some(literal) => literal,
        None => "null"@,
    } + "}"@
}

/// The JSON object of one class.
pub open spec fn class_json(class: ClassSignaturesView) -> Seq<char> {
    class_entry_text(
        json_string_text(class.signature),
        match class.generic {
            Some(generic) => Some(json_string_text(generic)),
            None => None,
        },
    )
}

/// Frames the already written literals of one class as its JSON object.
pub fn class_entry(signature: &str, generic: Option<&str>) -> (text: String)
    ensures
        text@ == class_entry_text(
            signature@,
            match generic {
                Some(literal) => Some(literal@),
                None => None,
            },
        ),
{
    let mut text = String::from_str("{\"signature\":");
    text.append(signature);
    text.append(",\"generic\":");
    match generic {
        Some(literal) => text.append(literal),
        None => text.append("null"),
    }
    text.append("}");
    text
}

impl ClassSignatures {
    /// Writes the class as a JSON object.
    pub fn to_json(&self) -> (text: String)
        ensures
            text@ == class_json(self@),
    {
        let signature = quote(self.signature.as_str());
        match &self.generic {
            None => class_entry(signature.as_str(), None),
            Some(generic) => {
                let literal = quote(generic.as_str());
                class_entry(signature.as_str(), Some(literal.as_str()))
            },
        }
    }
}

/// The classes that the host VM has loaded, in the order in which it
/// reported them.
#[derive(Clone, Debug, PartialEq, Eq)]
pub struct LoadedClassesResponse {
    pub classes: Vec<ClassSignatures>,
}

impl View for LoadedClassesResponse {
    type V = Seq<ClassSignaturesView>;

    open spec fn view(&self) -> Seq<ClassSignaturesView> {
        class_views(self.classes@)
    }
}

/// The views of `classes`, in order.
pub open spec fn class_views(classes: Seq<ClassSignatures>) -> Seq<ClassSignaturesView> {
    Seq::new(classes.len(), |i: int| classes[i]@)
}

/// The JSON object that lists classes, given the object of each.
pub open spec fn classes_text(entries: Seq<Seq<char>>) -> Seq<char> {
    "{\"classes\":["@ + joined(entries, ","@) + "]}"@
}

/// The JSON object that lists `classes` in their order.
pub open spec fn loaded_classes_json(classes: Seq<ClassSignaturesView>) -> Seq<char> {
    classes_text(classes.map_values(|class: ClassSignaturesView| class_json(class)))
}

/// Frames the already written objects of the classes as the JSON object that
/// lists them.
pub fn classes_body(entries: &Vec<String>) -> (text: String)
    ensures
        text@ == classes_text(texts(entries@)),
{
    let list = join(entries, ",");
    let mut text = String::from_str("{\"classes\":[");
    text.append(list.as_str());
    text.append("]}");
    text
}

impl LoadedClassesResponse {
    /// Writes the list of classes as a JSON object.
    pub fn to_json(&self) -> (text: String)
        ensures
            text@ == loaded_classes_json(self@),
    {
        let mut entries: Vec<String> = Vec::new();
        let mut at: usize = 0;
        while at < self.classes.len()
            invariant
                at <= self.classes.len(),
                entries.len() == at,
                forall|i: int| 0 <= i < at ==> (#[trigger] entries@[i])@ == class_json(self@[i]),
            decreases self.classes.len() - at,
        {
            let entry = self.classes[at].to_json();
            entries.push(entry);
            at = at + 1;
        }
        let text = classes_body(&entries);
        proof {
            assert(texts(entries@) =~= self@.map_values(
                |class: ClassSignaturesView| class_json(class),
            ));
        }
        text
    }
}

/// Message of every answer to a path that no command is mapped to.
pub const UNSUPPORTED_MESSAGE: &'static str =
    "The requested endpoint is not mapped to a JVMTI command";

/// The answer to a path that no command is mapped to.
#[derive(Clone, Copy, Debug, PartialEq, Eq)]
pub struct UnsupportedResponse<'a> {
    pub endpoint: &'a str,
    pub message: &'static str,
}

/// What an `UnsupportedResponse` holds, as text.
pub struct UnsupportedResponseView {
    pub endpoint: Seq<char>,
    pub message: Seq<char>,
}

impl<'a> View for UnsupportedResponse<'a> {
    type V = UnsupportedResponseView;

    open spec fn view(&self) -> UnsupportedResponseView {
        UnsupportedResponseView { endpoint: self.endpoint@, message: self.message@ }
    }
}

/// The JSON object of an unsupported answer, given the literals of its
/// endpoint and of its message.
pub open spec fn unsupported_text(endpoint: Seq<char>, message: Seq<char>) -> Seq<char> {
    "{\"endpoint\":"@ + endpoint + ",\"message\":"@ + message + "}"@
}

/// The JSON object of an unsupported answer.
pub open spec fn unsupported_json(response: UnsupportedResponseView) -> Seq<char> {
    unsupported_text(json_string_text(response.endpoint), json_string_text(response.message))
}

/// Frames the already written literals of an unsupported answer as its JSON
/// object.
pub fn unsupported_body(endpoint: &str, message: &str) -> (text: String)
    ensures
        text@ == unsupported_text(endpoint@, message@),
{
    let mut text = String::from_str("{\"endpoint\":");
    text.append(endpoint);
    text.append(",\"message\":");
    text.append(message);
    text.append("}");
    text
}

impl<'a> UnsupportedResponse<'a> {
    /// Writes the answer as a JSON object.
    pub fn to_json(&self) -> (text: String)
        ensures
            text@ == unsupported_json(self@),
    {
        let endpoint = quote(self.endpoint);
        let message = quote(self.message);
        unsupported_body(endpoint.as_str(), message.as_str())
    }
}

/// An answer of the agent: one of the three kinds.
#[derive(Clone, Debug, PartialEq, Eq)]
pub enum CommandResponse<'a> {
    /// The version of the native interface.
    VersionInfo(VersionResponse),
    /// The classes that the host VM has loaded.
    LoadedClasses(LoadedClassesResponse),
    /// No command is mapped to the requested path.
    Unsupported(UnsupportedResponse<'a>),
}

/// What a `CommandResponse` holds, as text.
pub enum CommandResponseView {
    VersionInfo(VersionResponse),
    LoadedClasses(Seq<ClassSignaturesView>),
    Unsupported(UnsupportedResponseView),
}

impl<'a> View for CommandResponse<'a> {
    type V = CommandResponseView;

    open spec fn view(&self) -> CommandResponseView {
        match self {
            CommandResponse::VersionInfo(version) => CommandResponseView::VersionInfo(*version),
            CommandResponse::LoadedClasses(classes) => CommandResponseView::LoadedClasses(
                classes@,
            ),
            CommandResponse::Unsupported(unsupported) => CommandResponseView::Unsupported(
                unsupported@,
            ),
        }
    }
}

/// The JSON object of an answer.
pub open spec fn response_json(response: CommandResponseView) -> Seq<char> {
    match response {
        CommandResponseView::VersionInfo(version) => version_json(version),
        CommandResponseView::LoadedClasses(classes) => loaded_classes_json(classes),
        CommandResponseView::Unsupported(unsupported) => unsupported_json(unsupported),
    }
}

impl<'a> CommandResponse<'a> {
    /// Writes the answer as a JSON object.
    pub fn to_json(&self) -> (text: String)
        ensures
            text@ == response_json(self@),
    {
        match self {
            CommandResponse::VersionInfo(version) => version.to_json(),
            CommandResponse::LoadedClasses(classes) => classes.to_json(),
            CommandResponse::Unsupported(unsupported) => unsupported.to_json(),
        }
    }
}

} // verus!

//! The event that a webhook document describes.

use crate::error::{Error, ErrorView};
use crate::json::{json_of_value, value_view, Json, JsonView};
use serde_json::Value;
use vstd::prelude::*;
use vstd::string::StringExecFns;

verus! {

/// What a webhook reports.
#[derive(Debug)]
pub enum Action {
    IssueCreated { title: String, project: String, time: String, level: String },
    Unknown,
}

/// The mathematical value of an [`Action`].
pub enum ActionView {
    IssueCreated { title: Seq<char>, project: Seq<char>, time: Seq<char>, level: Seq<char> },
    Unknown,
}

impl ActionView {
    /// The line shown in the chat channel.
    pub open spec fn display(self) -> Seq<char> {
        match self {
            ActionView::IssueCreated { title, project, time, level } => project + ": issue `"@
                + title + "` created at "@ + time + " ("@ + level + ")"@,
            ActionView::Unknown => "Unknown action!"@,
        }
    }
}

impl Action {
    pub open spec fn view(&self) -> ActionView {
        match self {
            Action::IssueCreated { title, project, time, level } => ActionView::IssueCreated {
                title: title@,
                project: project@,
                time: time@,
                level: level@,
            },
            Action::Unknown => ActionView::Unknown,
        }
    }

    /// The line shown in the chat channel.
    pub fn to_string(&self) -> (text: String)
        ensures
            text@ == self@.display(),
    {
        match self {
            Action::IssueCreated { title, project, time, level } => {
                let mut text = project.clone();
                text.append(": issue `");
                text.append(title.as_str());
                text.append("` created at ");
                text.append(time.as_str());
                text.append(" (");
                text.append(level.as_str());
                text.append(")");
                text
            },
            Action::Unknown => "Unknown action!".to_owned(),
        }
    }
}

/// The `action` of a document, where it is a string.
pub open spec fn action_text(document: JsonView) -> Option<Seq<char>> {
    match document.member("action"@) {
        Some(action) => action.text(),
        None => None,
    }
}

/// The `data` of a document, where it is an object.
pub open spec fn data_of(document: JsonView) -> Option<JsonView> {
    match document.member("data"@) {
        Some(data) => if data is Object {
            Some(data)
        } else {
            None
        },
        None => None,
    }
}

/// The `issue` inside the `data` of a document, where it is an object.
pub open spec fn issue_of(document: JsonView) -> Option<JsonView> {
    match data_of(document) {
        Some(data) => match data.member("issue"@) {
            Some(issue) => if issue is Object {
                Some(issue)
            } else {
                None
            },
            None => None,
        },
        None => None,
    }
}

/// Whether the `data` of a document has an `issue`, of whatever shape.
pub open spec fn has_issue(document: JsonView) -> bool {
    match data_of(document) {
        Some(data) => data.member("issue"@) is Some,
        None => false,
    }
}

/// Whether a document announces a new issue: it has an issue, and its
/// `action` is the string `created`.
pub open spec fn announces_issue(document: JsonView) -> bool {
    has_issue(document) && action_text(document) == Some("created"@)
}

/// The string member `name` of `parent`; `path` names the member in the
/// error.
pub open spec fn required_text(parent: JsonView, name: Seq<char>, path: Seq<char>) -> Result<
    Seq<char>,
    ErrorView,
> {
    match parent.member(name) {
        None => Err(ErrorView::MissingField(path)),
        Some(member) => match member.text() {
            None => Err(ErrorView::FieldType(path)),
            Some(text) => Ok(text),
        },
    }
}

/// The name of the project of an issue.
pub open spec fn project_name(issue: JsonView) -> Result<Seq<char>, ErrorView> {
    match issue.member("project"@) {
        None => Err(ErrorView::MissingField("issue::project"@)),
        Some(project) => required_text(project, "name"@, "issue::project::name"@),
    }
}

/// The event that an issue describes. The four fields are read in the order
/// title, project, time, level, and the first that fails decides the error.
pub open spec fn issue_created(issue: JsonView) -> Result<ActionView, ErrorView> {
    match required_text(issue, "title"@, "issue::title"@) {
        Err(e) => Err(e),
        Ok(title) => match project_name(issue) {
            Err(e) => Err(e),
            Ok(project) => match required_text(issue, "lastSeen"@, "issue::lastSeen"@) {
                Err(e) => Err(e),
                Ok(time) => match required_text(issue, "level"@, "issue::level"@) {
                    Err(e) => Err(e),
                    Ok(level) => Ok(ActionView::IssueCreated { title, project, time, level }),
                },
            },
        },
    }
}

/// The "issue created" event of a document, whatever its `action`: the
/// document must hold an issue object, and the issue the four fields.
pub open spec fn strict_issue_created(document: JsonView) -> Result<ActionView, ErrorView> {
    match issue_of(document) {
        Some(issue) => issue_created(issue),
        None => Err(ErrorView::NotAction("issue_created"@)),
    }
}

/// The event of a document: lenient until the document announces an issue,
/// strict from there on. An announced issue that is no object is of the
/// wrong type; one that is an object must hold the four fields.
pub open spec fn extract(document: JsonView) -> Result<ActionView, ErrorView> {
    if announces_issue(document) {
        match issue_of(document) {
            Some(issue) => issue_created(issue),
            None => Err(ErrorView::FieldType("issue"@)),
        }
    } else {
        Ok(ActionView::Unknown)
    }
}

/// A document that announces an issue with all four fields in place yields
/// that issue, field for field.
pub proof fn law_complete_issue_is_extracted(
    document: JsonView,
    issue: JsonView,
    project: JsonView,
    title: Seq<char>,
    name: Seq<char>,
    time: Seq<char>,
    level: Seq<char>,
)
    requires
        action_text(document) == Some("created"@),
        issue_of(document) == Some(issue),
        issue.member("title"@) == Some(JsonView::Text(title)),
        issue.member("project"@) == Some(project),
        project.member("name"@) == Some(JsonView::Text(name)),
        issue.member("lastSeen"@) == Some(JsonView::Text(time)),
        issue.member("level"@) == Some(JsonView::Text(level)),
    ensures
        extract(document) == Ok::<ActionView, ErrorView>(
            ActionView::IssueCreated { title, project: name, time, level },
        ),
{
}

/// A document that announces an issue without a title fails, and the error
/// names the title.
pub proof fn law_missing_title_is_an_error(document: JsonView, issue: JsonView)
    requires
        action_text(document) == Some("created"@),
        issue_of(document) == Some(issue),
        issue.member("title"@) is None,
    ensures
        extract(document) == Err::<ActionView, ErrorView>(
            ErrorView::MissingField("issue::title"@),
        ),
{
}

/// A document without an issue in its `data` is an unknown event, never an
/// error.
pub proof fn law_no_issue_is_unknown(document: JsonView)
    requires
        !has_issue(document),
    ensures
        extract(document) == Ok::<ActionView, ErrorView>(ActionView::Unknown),
{
}

/// A document whose `action` is not the string `created` is an unknown
/// event, with or without an issue.
pub proof fn law_other_action_is_unknown(document: JsonView)
    requires
        action_text(document) != Some("created"@),
    ensures
        extract(document) == Ok::<ActionView, ErrorView>(ActionView::Unknown),
{
}

/// A document that announces an issue which is no object fails, and the
/// error names the issue.
pub proof fn law_issue_of_wrong_type_is_an_error(document: JsonView)
    requires
        announces_issue(document),
        issue_of(document) is None,
    ensures
        extract(document) == Err::<ActionView, ErrorView>(ErrorView::FieldType("issue"@)),
{
}

/// Once a document announces an issue there is no way back: it yields the
/// issue or an error, never the unknown event. A document that does not
/// announce one never fails.
pub proof fn law_announced_issue_is_strict(document: JsonView)
    ensures
        announces_issue(document) ==> extract(document) != Ok::<ActionView, ErrorView>(
            ActionView::Unknown,
        ),
        !announces_issue(document) ==> extract(document) is Ok,
{
}

/// Extraction fails in two ways only: a field is missing, or a field is of
/// the wrong type.
pub proof fn law_extraction_errors(document: JsonView)
    ensures
        extract(document) is Err ==> (extract(document)->Err_0 is MissingField || extract(
            document,
        )->Err_0 is FieldType),
{
}

/// The mathematical value of an extraction's outcome.
pub open spec fn outcome_view(outcome: Result<Action, Error>) -> Result<ActionView, ErrorView> {
    match outcome {
        Ok(action) => Ok(action@),
        Err(e) => Err(e@),
    }
}

/// The mathematical value of a string lookup's outcome.
pub open spec fn text_view(outcome: Result<String, Error>) -> Result<Seq<char>, ErrorView> {
    match outcome {
        Ok(text) => Ok(text@),
        Err(e) => Err(e@),
    }
}

/// Reads the string member `name` of `parent`.
fn read_text(parent: &Json, name: &str, path: &'static str) -> (outcome: Result<String, Error>)
    ensures
        text_view(outcome) == required_text(parent@, name@, path@),
{
    match parent.get(name) {
        None => Err(Error::MissingField(path)),
        Some(member) => match member.as_str() {
            None => Err(Error::FieldType(path)),
            Some(text) => Ok(text.to_owned()),
        },
    }
}

/// Reads the name of the project of an issue.
fn read_project_name(issue: &Json) -> (outcome: Result<String, Error>)
    ensures
        text_view(outcome) == project_name(issue@),
{
    match issue.get("project") {
        None => Err(Error::MissingField("issue::project")),
        Some(project) => read_text(project, "name", "issue::project::name"),
    }
}

/// Reads an issue: its title, the name of its project, its time and its
/// level, in that order.
fn read_issue(issue: &Json) -> (outcome: Result<Action, Error>)
    ensures
        outcome_view(outcome) == issue_created(issue@),
{
    let title = match read_text(issue, "title", "issue::title") {
        Ok(text) => text,
        Err(e) => return Err(e),
    };
    let project = match read_project_name(issue) {
        Ok(text) => text,
        Err(e) => return Err(e),
    };
    let time = match read_text(issue, "lastSeen", "issue::lastSeen") {
        Ok(text) => text,
        Err(e) => return Err(e),
    };
    let level = match read_text(issue, "level", "issue::level") {
        Ok(text) => text,
        Err(e) => return Err(e),
    };
    Ok(Action::IssueCreated { title, project, time, level })
}

/// A webhook document.
pub struct Body(pub Json);

impl Body {
    pub open spec fn view(&self) -> JsonView {
        self.0@
    }

    /// Takes over what `serde_json` has decoded.
    pub fn new(value: Value) -> (body: Body)
        ensures
            body@ == value_view(value),
    {
        Body(json_of_value(value))
    }

    /// The `action` of the document, where it is a string.
    pub fn action_str(&self) -> (action: Option<&str>)
        ensures
            match action {
                Some(text) => action_text(self@) == Some(text@),
                None => action_text(self@) is None,
            },
    {
        match self.0.get("action") {
            Some(action) => action.as_str(),
            None => None,
        }
    }

    /// The `data` of the document, where it is an object.
    pub fn data(&self) -> (data: Option<&Json>)
        ensures
            match data {
                Some(object) => data_of(self@) == Some(object@),
                None => data_of(self@) is None,
            },
    {
        match self.0.get("data") {
            Some(data) => if data.is_object() {
                Some(data)
            } else {
                None
            },
            None => None,
        }
    }

    /// The `issue` inside the `data`, where it is an object.
    pub fn issue_map(&self) -> (issue: Option<&Json>)
        ensures
            match issue {
                Some(object) => issue_of(self@) == Some(object@),
                None => issue_of(self@) is None,
            },
    {
        match self.data() {
            Some(data) => match data.get("issue") {
                Some(issue) => if issue.is_object() {
                    Some(issue)
                } else {
                    None
                },
                None => None,
            },
            None => None,
        }
    }

    /// Whether the `data` has an `issue`, of whatever shape.
    pub fn is_issue(&self) -> (yes: bool)
        ensures
            yes == has_issue(self@),
    {
        match self.data() {
            Some(data) => data.get("issue").is_some(),
            None => false,
        }
    }

    /// Whether the document announces a new issue.
    pub fn is_issue_created(&self) -> (yes: bool)
        ensures
            yes == announces_issue(self@),
    {
        self.is_issue() && match self.action_str() {
            Some(action) => action.to_owned() == "created".to_owned(),
            None => false,
        }
    }

    /// Reads the document as a new issue, whatever its `action`. A document
    /// without an issue object is not such an event; in an issue object each
    /// of the four fields must be there and be a string.
    pub fn to_issue_created(&self) -> (outcome: Result<Action, Error>)
        ensures
            outcome_view(outcome) == strict_issue_created(self@),
    {
        match self.issue_map() {
            Some(issue) => read_issue(issue),
            None => Err(Error::NotAction("issue_created")),
        }
    }

    /// The event of the document. Any shape that does not announce an issue
    /// is the unknown event; an announced issue must be an object and be
    /// complete.
    pub fn action(&self) -> (outcome: Result<Action, Error>)
        ensures
            outcome_view(outcome) == extract(self@),
    {
        if self.is_issue_created() {
            match self.issue_map() {
                Some(issue) => read_issue(issue),
                None => Err(Error::FieldType("issue")),
            }
        } else {
            Ok(Action::Unknown)
        }
    }
}

} // verus!

//! What a tool answers.
use crate::model::{collect, lemma_collect_step, Model};
use crate::protocol::json::{json_value, Json, JsonKind, JsonKindV, JsonV};
use crate::text;
use vstd::prelude::*;

verus! {

#[derive(Debug, PartialEq)]
pub struct ResourceContents {
    pub uri: String,
    pub mime_type: Option<String>,
    pub text: Option<String>,
    pub blob: Option<String>,
}

/// The value of [`ResourceContents`].
pub struct ResourceContentsV {
    pub uri: Seq<char>,
    pub mime_type: Option<Seq<char>>,
    pub text: Option<Seq<char>>,
    pub blob: Option<Seq<char>>,
}

impl Model for ResourceContents {
    type V = ResourceContentsV;

    open spec fn v(&self) -> ResourceContentsV {
        ResourceContentsV {
            uri: self.uri.v(),
            mime_type: self.mime_type.v(),
            text: self.text.v(),
            blob: self.blob.v(),
        }
    }

    fn dup(&self) -> (r: ResourceContents) {
        ResourceContents {
            uri: self.uri.dup(),
            mime_type: self.mime_type.dup(),
            text: self.text.dup(),
            blob: self.blob.dup(),
        }
    }
}

impl Clone for ResourceContents {
    fn clone(&self) -> (r: ResourceContents)
        ensures
            r.v() == self.v(),
    {
        self.dup()
    }
}

/// One part of what a tool answers.
#[allow(inconsistent_fields)]
#[derive(Debug, PartialEq)]
pub enum ToolContent {
    Text { text: String },
    Image { data: String, mime_type: String },
    Audio { data: String, mime_type: String },
    Resource { resource: ResourceContents },
    ResourceLink { uri: String, name: Option<String>, mime_type: Option<String> },
}

/// The value of [`ToolContent`].
#[allow(inconsistent_fields)]
pub enum ToolContentV {
    Text { text: Seq<char> },
    Image { data: Seq<char>, mime_type: Seq<char> },
    Audio { data: Seq<char>, mime_type: Seq<char> },
    Resource { resource: ResourceContentsV },
    ResourceLink { uri: Seq<char>, name: Option<Seq<char>>, mime_type: Option<Seq<char>> },
}

impl Model for ToolContent {
    type V = ToolContentV;

    open spec fn v(&self) -> ToolContentV {
        match self {
            ToolContent::Text { text } => ToolContentV::Text {
                text: text.v(),
            },
            ToolContent::Image { data, mime_type } => ToolContentV::Image {
                data: data.v(),
                mime_type: mime_type.v(),
            },
            ToolContent::Audio { data, mime_type } => ToolContentV::Audio {
                data: data.v(),
                mime_type: mime_type.v(),
            },
            ToolContent::Resource { resource } => ToolContentV::Resource {
                resource: resource.v(),
            },
            ToolContent::ResourceLink { uri, name, mime_type } => ToolContentV::ResourceLink {
                uri: uri.v(),
                name: name.v(),
                mime_type: mime_type.v(),
            },
        }
    }

    fn dup(&self) -> (r: ToolContent) {
        match self {
            ToolContent::Text { text } => ToolContent::Text {
                text: text.dup(),
            },
            ToolContent::Image { data, mime_type } => ToolContent::Image {
                data: data.dup(),
                mime_type: mime_type.dup(),
            },
            ToolContent::Audio { data, mime_type } => ToolContent::Audio {
                data: data.dup(),
                mime_type: mime_type.dup(),
            },
            ToolContent::Resource { resource } => ToolContent::Resource {
                resource: resource.dup(),
            },
            ToolContent::ResourceLink { uri, name, mime_type } => ToolContent::ResourceLink {
                uri: uri.dup(),
                name: name.dup(),
                mime_type: mime_type.dup(),
            },
        }
    }
}

impl Clone for ToolContent {
    fn clone(&self) -> (r: ToolContent)
        ensures
            r.v() == self.v(),
    {
        self.dup()
    }
}

/// A file that came with a conversation: its name, and the line that stands
/// for it where only text can.
#[derive(Debug, PartialEq)]
pub struct Attachment {
    pub name: String,
    pub line: String,
}

/// The value of [`Attachment`].
pub struct AttachmentV {
    pub name: Seq<char>,
    pub line: Seq<char>,
}

impl Model for Attachment {
    type V = AttachmentV;

    open spec fn v(&self) -> AttachmentV {
        AttachmentV {
            name: self.name.v(),
            line: self.line.v(),
        }
    }

    fn dup(&self) -> (r: Attachment) {
        Attachment {
            name: self.name.dup(),
            line: self.line.dup(),
        }
    }
}

impl Clone for Attachment {
    fn clone(&self) -> (r: Attachment)
        ensures
            r.v() == self.v(),
    {
        self.dup()
    }
}

/// One part of an answer as it is recorded.
#[derive(Debug, PartialEq)]
pub enum StoredContent {
    Text { text: String },
    Blob { uri: String },
    Link { uri: String, name: Option<String>, mime_type: Option<String> },
    Attachment(Attachment),
}

/// The value of [`StoredContent`].
pub enum StoredContentV {
    Text { text: Seq<char> },
    Blob { uri: Seq<char> },
    Link { uri: Seq<char>, name: Option<Seq<char>>, mime_type: Option<Seq<char>> },
    Attachment(AttachmentV),
}

impl Model for StoredContent {
    type V = StoredContentV;

    open spec fn v(&self) -> StoredContentV {
        match self {
            StoredContent::Text { text } => StoredContentV::Text {
                text: text.v(),
            },
            StoredContent::Blob { uri } => StoredContentV::Blob {
                uri: uri.v(),
            },
            StoredContent::Link { uri, name, mime_type } => StoredContentV::Link {
                uri: uri.v(),
                name: name.v(),
                mime_type: mime_type.v(),
            },
            StoredContent::Attachment(a) => StoredContentV::Attachment(a.v()),
        }
    }

    fn dup(&self) -> (r: StoredContent) {
        match self {
            StoredContent::Text { text } => StoredContent::Text {
                text: text.dup(),
            },
            StoredContent::Blob { uri } => StoredContent::Blob {
                uri: uri.dup(),
            },
            StoredContent::Link { uri, name, mime_type } => StoredContent::Link {
                uri: uri.dup(),
                name: name.dup(),
                mime_type: mime_type.dup(),
            },
            StoredContent::Attachment(a) => StoredContent::Attachment(a.dup()),
        }
    }
}

impl Clone for StoredContent {
    fn clone(&self) -> (r: StoredContent)
        ensures
            r.v() == self.v(),
    {
        self.dup()
    }
}

/// An answer as it is recorded.
#[derive(Debug, PartialEq)]
pub struct StoredResult {
    pub content: Vec<StoredContent>,
    pub structured_content: Option<Json>,
    pub is_error: bool,
}

/// The value of [`StoredResult`].
pub struct StoredResultV {
    pub content: Seq<StoredContentV>,
    pub structured_content: Option<JsonV>,
    pub is_error: bool,
}

impl Model for StoredResult {
    type V = StoredResultV;

    open spec fn v(&self) -> StoredResultV {
        StoredResultV {
            content: self.content.v(),
            structured_content: self.structured_content.v(),
            is_error: self.is_error.v(),
        }
    }

    fn dup(&self) -> (r: StoredResult) {
        StoredResult {
            content: self.content.dup(),
            structured_content: self.structured_content.dup(),
            is_error: self.is_error.dup(),
        }
    }
}

impl Clone for StoredResult {
    fn clone(&self) -> (r: StoredResult)
        ensures
            r.v() == self.v(),
    {
        self.dup()
    }
}

/// An answer as a tool gives it.
#[derive(Debug, PartialEq)]
pub struct ToolResult {
    pub content: Vec<ToolContent>,
    pub structured_content: Option<Json>,
    pub is_error: bool,
}

/// The value of [`ToolResult`].
pub struct ToolResultV {
    pub content: Seq<ToolContentV>,
    pub structured_content: Option<JsonV>,
    pub is_error: bool,
}

impl Model for ToolResult {
    type V = ToolResultV;

    open spec fn v(&self) -> ToolResultV {
        ToolResultV {
            content: self.content.v(),
            structured_content: self.structured_content.v(),
            is_error: self.is_error.v(),
        }
    }

    fn dup(&self) -> (r: ToolResult) {
        ToolResult {
            content: self.content.dup(),
            structured_content: self.structured_content.dup(),
            is_error: self.is_error.dup(),
        }
    }
}

impl Clone for ToolResult {
    fn clone(&self) -> (r: ToolResult)
        ensures
            r.v() == self.v(),
    {
        self.dup()
    }
}

pub const OCTET_STREAM: &'static str = "application/octet-stream";

/// What two answers held at once are called.
pub const RESULT_AND_CONTENT: &'static str = "a tool result names both `result` and `content`";

impl ToolContentV {
    /// The data a part carries within itself, and its media type.
    pub open spec fn inline(self) -> Option<(Seq<char>, Seq<char>)> {
        match self {
            ToolContentV::Image { data, mime_type } => Some((data, mime_type)),
            ToolContentV::Audio { data, mime_type } => Some((data, mime_type)),
            ToolContentV::Resource { resource } => match resource.blob {
                Some(blob) => Some(
                    (
                        blob,
                        match resource.mime_type {
                            Some(mime) => mime,
                            None => OCTET_STREAM@,
                        },
                    ),
                ),
                None => None,
            },
            _ => None,
        }
    }

    /// The name a part goes by: a resource's is the last piece of its address.
    pub open spec fn name(self) -> Option<Seq<char>> {
        match self {
            ToolContentV::Resource { resource } => Some(text::last_piece(resource.uri, '/')),
            ToolContentV::ResourceLink { name, .. } => name,
            _ => None,
        }
    }

    pub open spec fn text(self) -> Option<Seq<char>> {
        match self {
            ToolContentV::Text { text } => Some(text),
            _ => None,
        }
    }
}

impl ToolContent {
    /// The data a part carries within itself, and its media type.
    pub fn inline(&self) -> (r: Option<(&str, &str)>)
        ensures
            match r {
                Some((data, mime)) => self.v().inline() == Some((data@, mime@)),
                None => self.v().inline() is None,
            },
    {
        match self {
            ToolContent::Image { data, mime_type } => Some((data.as_str(), mime_type.as_str())),
            ToolContent::Audio { data, mime_type } => Some((data.as_str(), mime_type.as_str())),
            ToolContent::Resource { resource } => match &resource.blob {
                Some(blob) => Some(
                    (
                        blob.as_str(),
                        match &resource.mime_type {
                            Some(mime) => mime.as_str(),
                            None => OCTET_STREAM,
                        },
                    ),
                ),
                None => None,
            },
            ToolContent::Text { .. } => None,
            ToolContent::ResourceLink { .. } => None,
        }
    }

    /// The name a part goes by.
    pub fn name(&self) -> (r: Option<&str>)
        ensures
            crate::model::text_of(r) == self.v().name(),
    {
        match self {
            ToolContent::Resource { resource } => Some(text::take_last_piece(&resource.uri, '/')),
            ToolContent::ResourceLink { name, .. } => match name {
                Some(name) => Some(name.as_str()),
                None => None,
            },
            _ => None,
        }
    }
}

impl Attachment {
    /// The line that stands for the file in text.
    pub fn line(&self) -> (r: String)
        ensures
            r@ == self.v().line,
    {
        self.line.dup()
    }
}

impl StoredContentV {
    /// What a part is in text. A blob has none.
    pub open spec fn text(self) -> Option<Seq<char>> {
        match self {
            StoredContentV::Text { text } => Some(text),
            StoredContentV::Link { uri, .. } => Some(uri),
            StoredContentV::Attachment(attachment) => Some(attachment.line),
            StoredContentV::Blob { .. } => None,
        }
    }
}

pub open spec fn stored_text() -> spec_fn(StoredContentV) -> Option<Seq<char>> {
    |c: StoredContentV| c.text()
}

/// The parts of an answer as text, a line each.
pub fn stored_text_of(parts: &Vec<StoredContent>) -> (r: String)
    ensures
        r@ == text::joined(collect(parts.v(), stored_text()), "\n"@),
{
    let mut texts: Vec<String> = crate::model::none();
    let mut i: usize = 0;
    assert(parts.v().take(0) =~= Seq::empty());
    while i < parts.len()
        invariant
            i <= parts.len(),
            texts.v() == collect(parts.v().take(i as int), stored_text()),
        decreases parts.len() - i,
    {
        proof {
            lemma_collect_step(parts.v(), stored_text(), i as int);
        }
        match &parts[i] {
            StoredContent::Text { text } => crate::model::append_one(&mut texts, text.dup()),
            StoredContent::Link { uri, .. } => crate::model::append_one(&mut texts, uri.dup()),
            StoredContent::Attachment(attachment) => crate::model::append_one(
                &mut texts,
                attachment.line(),
            ),
            StoredContent::Blob { .. } => {},
        }
        i = i + 1;
    }
    assert(parts.v().take(i as int) =~= parts.v());
    text::join(&texts, "\n")
}

pub open spec fn tool_text() -> spec_fn(ToolContentV) -> Option<Seq<char>> {
    |c: ToolContentV| c.text()
}

impl StoredResultV {
    /// An answer of one text.
    pub open spec fn of_text(text: Seq<char>) -> StoredResultV {
        StoredResultV {
            content: seq![StoredContentV::Text { text }],
            structured_content: None,
            is_error: false,
        }
    }

    /// The answer as text: its parts, a line each.
    pub open spec fn as_text(self) -> Seq<char> {
        text::joined(collect(self.content, stored_text()), "\n"@)
    }

    /// The answer as the model reads it: the structured document where there is
    /// one, else the text.
    pub open spec fn rendered(self) -> Seq<char> {
        match self.structured_content {
            Some(value) => value.text,
            None => self.as_text(),
        }
    }
}

impl StoredResult {
    pub fn text(text: String) -> (r: StoredResult)
        ensures
            r.v() == StoredResultV::of_text(text@),
    {
        StoredResult {
            content: crate::model::one(StoredContent::Text { text }),
            structured_content: None,
            is_error: false,
        }
    }

    /// A tool that ran and reported failure.
    pub fn error(text: String) -> (r: StoredResult)
        ensures
            r.v() == (StoredResultV { is_error: true, ..StoredResultV::of_text(text@) }),
    {
        StoredResult { is_error: true, ..StoredResult::text(text) }
    }

    /// The answer as text: its parts, a line each.
    pub fn as_text(&self) -> (r: String)
        ensures
            r@ == self.v().as_text(),
    {
        stored_text_of(&self.content)
    }

    /// The answer as the model reads it.
    pub fn rendered(&self) -> (r: String)
        ensures
            r@ == self.v().rendered(),
    {
        match &self.structured_content {
            Some(value) => value.text.dup(),
            None => self.as_text(),
        }
    }
}

impl Default for StoredResult {
    fn default() -> (r: StoredResult)
        ensures
            r.v() == (StoredResultV {
                content: Seq::empty(),
                structured_content: None,
                is_error: false,
            }),
    {
        StoredResult { content: crate::model::none(), structured_content: None, is_error: false }
    }
}

impl JsonV {
    /// A document as the text of an answer: a string without its quotes,
    /// nothing for `null`.
    pub open spec fn plain_text(self) -> Seq<char> {
        match self.kind {
            JsonKindV::Text(text) => text,
            JsonKindV::Null => Seq::empty(),
            JsonKindV::Other => self.text,
        }
    }
}

impl ToolResultV {
    /// An answer of one text.
    pub open spec fn of_text(text: Seq<char>) -> ToolResultV {
        ToolResultV {
            content: seq![ToolContentV::Text { text }],
            structured_content: None,
            is_error: false,
        }
    }

    pub open spec fn as_text(self) -> Seq<char> {
        text::joined(collect(self.content, tool_text()), "\n"@)
    }

    pub open spec fn rendered(self) -> Seq<char> {
        match self.structured_content {
            Some(value) => value.text,
            None => self.as_text(),
        }
    }

    /// The answer an action names.
    ///
    /// An action that names `content` and no `result` is that content. A
    /// `result` that reads as a whole answer, and says something, is that
    /// answer: the action's own structured document goes first, and a failure
    /// either of them reports stands. Any other `result` is its text.
    pub open spec fn from_action(
        result: Option<JsonV>,
        lifted: Option<ToolResultV>,
        content: Option<Seq<ToolContentV>>,
        structured_content: Option<JsonV>,
        is_error: bool,
    ) -> Option<ToolResultV> {
        match (result, content) {
            (Some(_), Some(_)) => None,
            (None, content) => Some(
                ToolResultV {
                    content: match content {
                        Some(content) => content,
                        None => Seq::empty(),
                    },
                    structured_content,
                    is_error,
                },
            ),
            (Some(value), None) => match lifted {
                Some(lifted) if lifted.content.len() > 0 || lifted.structured_content is Some => Some(
                    ToolResultV {
                        content: lifted.content,
                        structured_content: if structured_content is Some {
                            structured_content
                        } else {
                            lifted.structured_content
                        },
                        is_error: is_error || lifted.is_error,
                    },
                ),
                _ => Some(
                    ToolResultV {
                        content: seq![ToolContentV::Text { text: value.plain_text() }],
                        structured_content,
                        is_error,
                    },
                ),
            },
        }
    }
}

impl ToolResult {
    /// The answer an action names. `lifted` is `result` read as a whole
    /// answer, where it reads as one. An action that names both `result` and
    /// `content` is refused.
    pub fn from_action(
        result: Option<Json>,
        lifted: Option<ToolResult>,
        content: Option<Vec<ToolContent>>,
        structured_content: Option<Json>,
        is_error: bool,
    ) -> (r: Result<ToolResult, &'static str>)
        ensures
            r is Err <==> result is Some && content is Some,
            r is Err ==> r->Err_0@ == RESULT_AND_CONTENT@,
            r is Ok ==> ToolResultV::from_action(
                result.v(),
                lifted.v(),
                content.v(),
                structured_content.v(),
                is_error,
            ) == Some(r->Ok_0.v()),
    {
        let value = match (result, content) {
            (Some(_), Some(_)) => {
                return Err(RESULT_AND_CONTENT);
            },
            (Some(value), None) => value,
            (None, content) => {
                let content = match content {
                    Some(content) => content,
                    None => crate::model::none(),
                };
                return Ok(ToolResult { content, structured_content, is_error });
            },
        };
        match lifted {
            Some(lifted) => {
                if lifted.content.len() > 0 || lifted.structured_content.is_some() {
                    let structured_content = if structured_content.is_some() {
                        structured_content
                    } else {
                        lifted.structured_content
                    };
                    return Ok(
                        ToolResult {
                            content: lifted.content,
                            structured_content,
                            is_error: is_error || lifted.is_error,
                        },
                    );
                }
            },
            None => {},
        }
        Ok(
            ToolResult {
                content: ToolResult::from_json(value).content,
                structured_content,
                is_error,
            },
        )
    }

    pub fn text(text: String) -> (r: ToolResult)
        ensures
            r.v() == ToolResultV::of_text(text@),
    {
        ToolResult {
            content: crate::model::one(ToolContent::Text { text }),
            structured_content: None,
            is_error: false,
        }
    }

    /// A document as an answer: one text.
    pub fn from_value(value: serde_json::Value) -> (r: ToolResult)
        ensures
            r.v() == ToolResultV::of_text(json_value(value).plain_text()),
    {
        ToolResult::from_json(Json::read(&value))
    }

    /// A document the engine holds as an answer: one text.
    pub fn from_json(value: Json) -> (r: ToolResult)
        ensures
            r.v() == ToolResultV::of_text(value.v().plain_text()),
    {
        ToolResult::text(
            match value.kind {
                JsonKind::Text(text) => text,
                JsonKind::Null => String::new(),
                JsonKind::Other => value.text,
            },
        )
    }

    /// The answer as text: its text parts, a line each.
    pub fn as_text(&self) -> (r: String)
        ensures
            r@ == self.v().as_text(),
    {
        let mut texts: Vec<String> = crate::model::none();
        let mut i: usize = 0;
        assert(self.content.v().take(0) =~= Seq::empty());
        while i < self.content.len()
            invariant
                i <= self.content.len(),
                texts.v() == collect(self.content.v().take(i as int), tool_text()),
            decreases self.content.len() - i,
        {
            proof {
                lemma_collect_step(self.content.v(), tool_text(), i as int);
            }
            if let ToolContent::Text { text } = &self.content[i] {
                crate::model::append_one(&mut texts, text.dup());
            }
            i = i + 1;
        }
        assert(self.content.v().take(i as int) =~= self.content.v());
        text::join(&texts, "\n")
    }

    /// The answer as the model reads it.
    pub fn rendered(&self) -> (r: String)
        ensures
            r@ == self.v().rendered(),
    {
        match &self.structured_content {
            Some(value) => value.text.dup(),
            None => self.as_text(),
        }
    }
}

impl Default for ToolResult {
    fn default() -> (r: ToolResult)
        ensures
            r.v() == (ToolResultV {
                content: Seq::empty(),
                structured_content: None,
                is_error: false,
            }),
    {
        ToolResult { content: crate::model::none(), structured_content: None, is_error: false }
    }
}

} // verus!

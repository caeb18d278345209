//! Messages, and the parts they are made of.
use crate::model::{collect, lemma_collect_step, Model, Same};
use crate::protocol::json::{Json, JsonV};
use crate::protocol::mime;
use crate::protocol::result::{stored_text, stored_text_of, StoredContent, StoredContentV};
use crate::text;
use vstd::prelude::*;

verus! {

#[derive(Debug, Clone, Copy, PartialEq, Eq, Structural)]
pub enum Role {
    System,
    User,
    Assistant,
    Tool,
}

impl Model for Role {
    type V = Role;

    open spec fn v(&self) -> Role {
        *self
    }

    fn dup(&self) -> (r: Role) {
        *self
    }
}

impl Same for Role {
    fn same(&self, other: &Role) -> (r: bool) {
        *self == *other
    }
}

#[derive(Debug, PartialEq)]
pub struct ToolCallFunction {
    pub name: String,
    pub arguments: String,
}

/// The value of [`ToolCallFunction`].
pub struct ToolCallFunctionV {
    pub name: Seq<char>,
    pub arguments: Seq<char>,
}

impl Model for ToolCallFunction {
    type V = ToolCallFunctionV;

    open spec fn v(&self) -> ToolCallFunctionV {
        ToolCallFunctionV {
            name: self.name.v(),
            arguments: self.arguments.v(),
        }
    }

    fn dup(&self) -> (r: ToolCallFunction) {
        ToolCallFunction {
            name: self.name.dup(),
            arguments: self.arguments.dup(),
        }
    }
}

impl Clone for ToolCallFunction {
    fn clone(&self) -> (r: ToolCallFunction)
        ensures
            r.v() == self.v(),
    {
        self.dup()
    }
}

#[derive(Debug, PartialEq)]
pub struct ToolCall {
    pub id: String,
    pub call_type: String,
    pub function: ToolCallFunction,
}

/// The value of [`ToolCall`].
pub struct ToolCallV {
    pub id: Seq<char>,
    pub call_type: Seq<char>,
    pub function: ToolCallFunctionV,
}

impl Model for ToolCall {
    type V = ToolCallV;

    open spec fn v(&self) -> ToolCallV {
        ToolCallV {
            id: self.id.v(),
            call_type: self.call_type.v(),
            function: self.function.v(),
        }
    }

    fn dup(&self) -> (r: ToolCall) {
        ToolCall {
            id: self.id.dup(),
            call_type: self.call_type.dup(),
            function: self.function.dup(),
        }
    }
}

impl Clone for ToolCall {
    fn clone(&self) -> (r: ToolCall)
        ensures
            r.v() == self.v(),
    {
        self.dup()
    }
}

#[derive(Debug, PartialEq)]
pub struct ImageUrl {
    pub url: String,
}

/// The value of [`ImageUrl`].
pub struct ImageUrlV {
    pub url: Seq<char>,
}

impl Model for ImageUrl {
    type V = ImageUrlV;

    open spec fn v(&self) -> ImageUrlV {
        ImageUrlV {
            url: self.url.v(),
        }
    }

    fn dup(&self) -> (r: ImageUrl) {
        ImageUrl {
            url: self.url.dup(),
        }
    }
}

impl Clone for ImageUrl {
    fn clone(&self) -> (r: ImageUrl)
        ensures
            r.v() == self.v(),
    {
        self.dup()
    }
}

#[derive(Debug, PartialEq)]
pub struct FileData {
    pub filename: String,
    pub file_data: String,
}

/// The value of [`FileData`].
pub struct FileDataV {
    pub filename: Seq<char>,
    pub file_data: Seq<char>,
}

impl Model for FileData {
    type V = FileDataV;

    open spec fn v(&self) -> FileDataV {
        FileDataV {
            filename: self.filename.v(),
            file_data: self.file_data.v(),
        }
    }

    fn dup(&self) -> (r: FileData) {
        FileData {
            filename: self.filename.dup(),
            file_data: self.file_data.dup(),
        }
    }
}

impl Clone for FileData {
    fn clone(&self) -> (r: FileData)
        ensures
            r.v() == self.v(),
    {
        self.dup()
    }
}

#[derive(Debug, PartialEq)]
pub struct AudioData {
    pub data: String,
    pub format: String,
}

/// The value of [`AudioData`].
pub struct AudioDataV {
    pub data: Seq<char>,
    pub format: Seq<char>,
}

impl Model for AudioData {
    type V = AudioDataV;

    open spec fn v(&self) -> AudioDataV {
        AudioDataV {
            data: self.data.v(),
            format: self.format.v(),
        }
    }

    fn dup(&self) -> (r: AudioData) {
        AudioData {
            data: self.data.dup(),
            format: self.format.dup(),
        }
    }
}

impl Clone for AudioData {
    fn clone(&self) -> (r: AudioData)
        ensures
            r.v() == self.v(),
    {
        self.dup()
    }
}

#[derive(Debug, PartialEq)]
pub struct VideoUrl {
    pub url: String,
}

/// The value of [`VideoUrl`].
pub struct VideoUrlV {
    pub url: Seq<char>,
}

impl Model for VideoUrl {
    type V = VideoUrlV;

    open spec fn v(&self) -> VideoUrlV {
        VideoUrlV {
            url: self.url.v(),
        }
    }

    fn dup(&self) -> (r: VideoUrl) {
        VideoUrl {
            url: self.url.dup(),
        }
    }
}

impl Clone for VideoUrl {
    fn clone(&self) -> (r: VideoUrl)
        ensures
            r.v() == self.v(),
    {
        self.dup()
    }
}

/// One part of a prompt as a provider reads it.
#[derive(Debug, PartialEq)]
pub enum ContentPart {
    Text { text: String },
    ImageUrl { image_url: ImageUrl },
    File { file: FileData },
    InputAudio { input_audio: AudioData },
    VideoUrl { video_url: VideoUrl },
}

/// The value of [`ContentPart`].
pub enum ContentPartV {
    Text { text: Seq<char> },
    ImageUrl { image_url: ImageUrlV },
    File { file: FileDataV },
    InputAudio { input_audio: AudioDataV },
    VideoUrl { video_url: VideoUrlV },
}

impl Model for ContentPart {
    type V = ContentPartV;

    open spec fn v(&self) -> ContentPartV {
        match self {
            ContentPart::Text { text } => ContentPartV::Text {
                text: text.v(),
            },
            ContentPart::ImageUrl { image_url } => ContentPartV::ImageUrl {
                image_url: image_url.v(),
            },
            ContentPart::File { file } => ContentPartV::File {
                file: file.v(),
            },
            ContentPart::InputAudio { input_audio } => ContentPartV::InputAudio {
                input_audio: input_audio.v(),
            },
            ContentPart::VideoUrl { video_url } => ContentPartV::VideoUrl {
                video_url: video_url.v(),
            },
        }
    }

    fn dup(&self) -> (r: ContentPart) {
        match self {
            ContentPart::Text { text } => ContentPart::Text {
                text: text.dup(),
            },
            ContentPart::ImageUrl { image_url } => ContentPart::ImageUrl {
                image_url: image_url.dup(),
            },
            ContentPart::File { file } => ContentPart::File {
                file: file.dup(),
            },
            ContentPart::InputAudio { input_audio } => ContentPart::InputAudio {
                input_audio: input_audio.dup(),
            },
            ContentPart::VideoUrl { video_url } => ContentPart::VideoUrl {
                video_url: video_url.dup(),
            },
        }
    }
}

impl Clone for ContentPart {
    fn clone(&self) -> (r: ContentPart)
        ensures
            r.v() == self.v(),
    {
        self.dup()
    }
}

/// What a recorded message says.
#[derive(Debug, PartialEq)]
pub enum Content {
    Text(String),
    Parts(Vec<StoredContent>),
}

/// The value of [`Content`].
pub enum ContentV {
    Text(Seq<char>),
    Parts(Seq<StoredContentV>),
}

impl Model for Content {
    type V = ContentV;

    open spec fn v(&self) -> ContentV {
        match self {
            Content::Text(a) => ContentV::Text(a.v()),
            Content::Parts(a) => ContentV::Parts(a.v()),
        }
    }

    fn dup(&self) -> (r: Content) {
        match self {
            Content::Text(a) => Content::Text(a.dup()),
            Content::Parts(a) => Content::Parts(a.dup()),
        }
    }
}

impl Clone for Content {
    fn clone(&self) -> (r: Content)
        ensures
            r.v() == self.v(),
    {
        self.dup()
    }
}

/// The forms content arrives in.
#[derive(Debug, PartialEq)]
pub enum ContentWire {
    Text(String),
    Parts(Vec<ContentPartWire>),
}

/// The value of [`ContentWire`].
pub enum ContentWireV {
    Text(Seq<char>),
    Parts(Seq<ContentPartWireV>),
}

impl Model for ContentWire {
    type V = ContentWireV;

    open spec fn v(&self) -> ContentWireV {
        match self {
            ContentWire::Text(a) => ContentWireV::Text(a.v()),
            ContentWire::Parts(a) => ContentWireV::Parts(a.v()),
        }
    }

    fn dup(&self) -> (r: ContentWire) {
        match self {
            ContentWire::Text(a) => ContentWire::Text(a.dup()),
            ContentWire::Parts(a) => ContentWire::Parts(a.dup()),
        }
    }
}

impl Clone for ContentWire {
    fn clone(&self) -> (r: ContentWire)
        ensures
            r.v() == self.v(),
    {
        self.dup()
    }
}

#[derive(Debug, PartialEq)]
pub enum ContentPartWire {
    Stored(StoredContent),
    Prompt(ContentPart),
}

/// The value of [`ContentPartWire`].
pub enum ContentPartWireV {
    Stored(StoredContentV),
    Prompt(ContentPartV),
}

impl Model for ContentPartWire {
    type V = ContentPartWireV;

    open spec fn v(&self) -> ContentPartWireV {
        match self {
            ContentPartWire::Stored(a) => ContentPartWireV::Stored(a.v()),
            ContentPartWire::Prompt(a) => ContentPartWireV::Prompt(a.v()),
        }
    }

    fn dup(&self) -> (r: ContentPartWire) {
        match self {
            ContentPartWire::Stored(a) => ContentPartWire::Stored(a.dup()),
            ContentPartWire::Prompt(a) => ContentPartWire::Prompt(a.dup()),
        }
    }
}

impl Clone for ContentPartWire {
    fn clone(&self) -> (r: ContentPartWire)
        ensures
            r.v() == self.v(),
    {
        self.dup()
    }
}

/// What a prompt message says.
#[derive(Debug, PartialEq)]
pub enum PromptContent {
    Text(String),
    Parts(Vec<PromptPart>),
}

/// The value of [`PromptContent`].
pub enum PromptContentV {
    Text(Seq<char>),
    Parts(Seq<PromptPartV>),
}

impl Model for PromptContent {
    type V = PromptContentV;

    open spec fn v(&self) -> PromptContentV {
        match self {
            PromptContent::Text(a) => PromptContentV::Text(a.v()),
            PromptContent::Parts(a) => PromptContentV::Parts(a.v()),
        }
    }

    fn dup(&self) -> (r: PromptContent) {
        match self {
            PromptContent::Text(a) => PromptContent::Text(a.dup()),
            PromptContent::Parts(a) => PromptContent::Parts(a.dup()),
        }
    }
}

impl Clone for PromptContent {
    fn clone(&self) -> (r: PromptContent)
        ensures
            r.v() == self.v(),
    {
        self.dup()
    }
}

#[derive(Debug, PartialEq)]
pub enum PromptPart {
    Text { text: String },
    Media { mime: String, name: Option<String>, bytes: Vec<u8> },
    Link { uri: String, name: Option<String>, mime_type: Option<String> },
}

/// The value of [`PromptPart`].
pub enum PromptPartV {
    Text { text: Seq<char> },
    Media { mime: Seq<char>, name: Option<Seq<char>>, bytes: Seq<u8> },
    Link { uri: Seq<char>, name: Option<Seq<char>>, mime_type: Option<Seq<char>> },
}

impl Model for PromptPart {
    type V = PromptPartV;

    open spec fn v(&self) -> PromptPartV {
        match self {
            PromptPart::Text { text } => PromptPartV::Text {
                text: text.v(),
            },
            PromptPart::Media { mime, name, bytes } => PromptPartV::Media {
                mime: mime.v(),
                name: name.v(),
                bytes: bytes.v(),
            },
            PromptPart::Link { uri, name, mime_type } => PromptPartV::Link {
                uri: uri.v(),
                name: name.v(),
                mime_type: mime_type.v(),
            },
        }
    }

    fn dup(&self) -> (r: PromptPart) {
        match self {
            PromptPart::Text { text } => PromptPart::Text {
                text: text.dup(),
            },
            PromptPart::Media { mime, name, bytes } => PromptPart::Media {
                mime: mime.dup(),
                name: name.dup(),
                bytes: bytes.dup(),
            },
            PromptPart::Link { uri, name, mime_type } => PromptPart::Link {
                uri: uri.dup(),
                name: name.dup(),
                mime_type: mime_type.dup(),
            },
        }
    }
}

impl Clone for PromptPart {
    fn clone(&self) -> (r: PromptPart)
        ensures
            r.v() == self.v(),
    {
        self.dup()
    }
}

/// Which provider wrote the blocks. They go back only to that provider.
/// Anthropic rejects blocks it did not sign.
#[derive(Debug, Clone, Copy, PartialEq, Eq, Structural)]
pub enum ReasoningProvider {
    Anthropic,
    Openai,
    Openrouter,
}

impl Model for ReasoningProvider {
    type V = ReasoningProvider;

    open spec fn v(&self) -> ReasoningProvider {
        *self
    }

    fn dup(&self) -> (r: ReasoningProvider) {
        *self
    }
}

impl Same for ReasoningProvider {
    fn same(&self, other: &ReasoningProvider) -> (r: bool) {
        *self == *other
    }
}

/// What the model thought before it answered. `text` is for a reader.
/// `blocks` are the provider's own and stay unchanged. Anthropic requires the
/// thinking before a tool call back with its signature.
#[derive(Debug, PartialEq)]
pub struct Reasoning {
    pub provider: ReasoningProvider,
    pub text: Option<String>,
    pub blocks: Vec<Json>,
}

/// The value of [`Reasoning`].
pub struct ReasoningV {
    pub provider: ReasoningProvider,
    pub text: Option<Seq<char>>,
    pub blocks: Seq<JsonV>,
}

impl Model for Reasoning {
    type V = ReasoningV;

    open spec fn v(&self) -> ReasoningV {
        ReasoningV {
            provider: self.provider.v(),
            text: self.text.v(),
            blocks: self.blocks.v(),
        }
    }

    fn dup(&self) -> (r: Reasoning) {
        Reasoning {
            provider: self.provider.dup(),
            text: self.text.dup(),
            blocks: self.blocks.dup(),
        }
    }
}

impl Clone for Reasoning {
    fn clone(&self) -> (r: Reasoning)
        ensures
            r.v() == self.v(),
    {
        self.dup()
    }
}

/// A message on its way to a provider.
#[derive(Debug, PartialEq)]
pub struct PromptMessage {
    pub role: Role,
    pub content: Option<PromptContent>,
    pub tool_calls: Option<Vec<ToolCall>>,
    pub tool_call_id: Option<String>,
    pub name: Option<String>,
    pub reasoning: Option<Box<Reasoning>>,
}

/// The value of [`PromptMessage`].
pub struct PromptMessageV {
    pub role: Role,
    pub content: Option<PromptContentV>,
    pub tool_calls: Option<Seq<ToolCallV>>,
    pub tool_call_id: Option<Seq<char>>,
    pub name: Option<Seq<char>>,
    pub reasoning: Option<ReasoningV>,
}

impl Model for PromptMessage {
    type V = PromptMessageV;

    open spec fn v(&self) -> PromptMessageV {
        PromptMessageV {
            role: self.role.v(),
            content: self.content.v(),
            tool_calls: self.tool_calls.v(),
            tool_call_id: self.tool_call_id.v(),
            name: self.name.v(),
            reasoning: self.reasoning.v(),
        }
    }

    fn dup(&self) -> (r: PromptMessage) {
        PromptMessage {
            role: self.role.dup(),
            content: self.content.dup(),
            tool_calls: self.tool_calls.dup(),
            tool_call_id: self.tool_call_id.dup(),
            name: self.name.dup(),
            reasoning: self.reasoning.dup(),
        }
    }
}

impl Clone for PromptMessage {
    fn clone(&self) -> (r: PromptMessage)
        ensures
            r.v() == self.v(),
    {
        self.dup()
    }
}

/// A recorded message.
#[derive(Debug, PartialEq)]
pub struct Message {
    pub id: String,
    pub role: Role,
    pub content: Option<Content>,
    pub tool_calls: Vec<ToolCall>,
    pub tool_call_id: Option<String>,
    pub name: Option<String>,
    pub reasoning: Option<Box<Reasoning>>,
}

/// The value of [`Message`].
pub struct MessageV {
    pub id: Seq<char>,
    pub role: Role,
    pub content: Option<ContentV>,
    pub tool_calls: Seq<ToolCallV>,
    pub tool_call_id: Option<Seq<char>>,
    pub name: Option<Seq<char>>,
    pub reasoning: Option<ReasoningV>,
}

impl Model for Message {
    type V = MessageV;

    open spec fn v(&self) -> MessageV {
        MessageV {
            id: self.id.v(),
            role: self.role.v(),
            content: self.content.v(),
            tool_calls: self.tool_calls.v(),
            tool_call_id: self.tool_call_id.v(),
            name: self.name.v(),
            reasoning: self.reasoning.v(),
        }
    }

    fn dup(&self) -> (r: Message) {
        Message {
            id: self.id.dup(),
            role: self.role.dup(),
            content: self.content.dup(),
            tool_calls: self.tool_calls.dup(),
            tool_call_id: self.tool_call_id.dup(),
            name: self.name.dup(),
            reasoning: self.reasoning.dup(),
        }
    }
}

impl Clone for Message {
    fn clone(&self) -> (r: Message)
        ensures
            r.v() == self.v(),
    {
        self.dup()
    }
}

/// The wire form of a [`Message`]. `id` is absent until the message is
/// recorded.
#[derive(Debug, PartialEq)]
pub struct DraftMessage {
    pub id: Option<String>,
    pub role: Role,
    pub content: Option<Content>,
    pub tool_calls: Option<Vec<ToolCall>>,
    pub tool_call_id: Option<String>,
    pub name: Option<String>,
    pub reasoning: Option<Box<Reasoning>>,
}

/// The value of [`DraftMessage`].
pub struct DraftMessageV {
    pub id: Option<Seq<char>>,
    pub role: Role,
    pub content: Option<ContentV>,
    pub tool_calls: Option<Seq<ToolCallV>>,
    pub tool_call_id: Option<Seq<char>>,
    pub name: Option<Seq<char>>,
    pub reasoning: Option<ReasoningV>,
}

impl Model for DraftMessage {
    type V = DraftMessageV;

    open spec fn v(&self) -> DraftMessageV {
        DraftMessageV {
            id: self.id.v(),
            role: self.role.v(),
            content: self.content.v(),
            tool_calls: self.tool_calls.v(),
            tool_call_id: self.tool_call_id.v(),
            name: self.name.v(),
            reasoning: self.reasoning.v(),
        }
    }

    fn dup(&self) -> (r: DraftMessage) {
        DraftMessage {
            id: self.id.dup(),
            role: self.role.dup(),
            content: self.content.dup(),
            tool_calls: self.tool_calls.dup(),
            tool_call_id: self.tool_call_id.dup(),
            name: self.name.dup(),
            reasoning: self.reasoning.dup(),
        }
    }
}

impl Clone for DraftMessage {
    fn clone(&self) -> (r: DraftMessage)
        ensures
            r.v() == self.v(),
    {
        self.dup()
    }
}

/// A message and the node it follows.
#[derive(Debug, PartialEq)]
pub struct NewMessage {
    pub message: Message,
    pub parent_id: Option<String>,
}

/// The value of [`NewMessage`].
pub struct NewMessageV {
    pub message: MessageV,
    pub parent_id: Option<Seq<char>>,
}

impl Model for NewMessage {
    type V = NewMessageV;

    open spec fn v(&self) -> NewMessageV {
        NewMessageV {
            message: self.message.v(),
            parent_id: self.parent_id.v(),
        }
    }

    fn dup(&self) -> (r: NewMessage) {
        NewMessage {
            message: self.message.dup(),
            parent_id: self.parent_id.dup(),
        }
    }
}

impl Clone for NewMessage {
    fn clone(&self) -> (r: NewMessage)
        ensures
            r.v() == self.v(),
    {
        self.dup()
    }
}

/// Every recorded message, and the one the conversation stands at.
#[derive(Debug, PartialEq)]
pub struct MessageTree {
    pub nodes: Vec<NewMessage>,
    pub head_id: Option<String>,
}

/// The value of [`MessageTree`].
pub struct MessageTreeV {
    pub nodes: Seq<NewMessageV>,
    pub head_id: Option<Seq<char>>,
}

impl Model for MessageTree {
    type V = MessageTreeV;

    open spec fn v(&self) -> MessageTreeV {
        MessageTreeV {
            nodes: self.nodes.v(),
            head_id: self.head_id.v(),
        }
    }

    fn dup(&self) -> (r: MessageTree) {
        MessageTree {
            nodes: self.nodes.dup(),
            head_id: self.head_id.dup(),
        }
    }
}

impl Clone for MessageTree {
    fn clone(&self) -> (r: MessageTree)
        ensures
            r.v() == self.v(),
    {
        self.dup()
    }
}

impl Default for MessageTree {
    fn default() -> (r: MessageTree)
        ensures
            r.v() == (MessageTreeV { nodes: Seq::empty(), head_id: None }),
    {
        MessageTree { nodes: crate::model::none(), head_id: None }
    }
}

impl DraftMessageV {
    /// The message a draft is recorded as, under `id`.
    pub open spec fn record(self, id: Seq<char>) -> MessageV {
        MessageV {
            id,
            role: self.role,
            content: self.content,
            tool_calls: match self.tool_calls {
                Some(calls) => calls,
                None => Seq::empty(),
            },
            tool_call_id: self.tool_call_id,
            name: self.name,
            reasoning: self.reasoning,
        }
    }
}

impl DraftMessage {
    /// Records the draft under `id`. A draft that calls no tool is recorded
    /// with an empty list.
    pub fn record(self, id: String) -> (r: Message)
        ensures
            r.v() == self.v().record(id@),
    {
        let tool_calls = match self.tool_calls {
            Some(calls) => calls,
            None => crate::model::none(),
        };
        Message {
            id,
            role: self.role,
            content: self.content,
            tool_calls,
            tool_call_id: self.tool_call_id,
            name: self.name,
            reasoning: self.reasoning,
        }
    }
}

impl ContentPartV {
    /// How a prompt part is stored: its text, or a link to what it shows.
    pub open spec fn stored(self) -> StoredContentV {
        match self {
            ContentPartV::Text { text } => StoredContentV::Text { text },
            ContentPartV::ImageUrl { image_url } => StoredContentV::Link {
                uri: image_url.url,
                name: None,
                mime_type: Some("image/*"@),
            },
            ContentPartV::File { file } => StoredContentV::Link {
                uri: file.file_data,
                name: Some(file.filename),
                mime_type: None,
            },
            ContentPartV::InputAudio { input_audio } => StoredContentV::Link {
                uri: "data:audio/"@ + input_audio.format + ";base64,"@ + input_audio.data,
                name: None,
                mime_type: Some("audio/"@ + input_audio.format),
            },
            ContentPartV::VideoUrl { video_url } => StoredContentV::Link {
                uri: video_url.url,
                name: None,
                mime_type: Some("video/*"@),
            },
        }
    }
}

impl ContentPart {
    /// Stores a prompt part.
    pub fn stored(self) -> (r: StoredContent)
        ensures
            r.v() == self.v().stored(),
    {
        match self {
            ContentPart::Text { text } => StoredContent::Text { text },
            ContentPart::ImageUrl { image_url } => StoredContent::Link {
                uri: image_url.url,
                name: None,
                mime_type: Some("image/*".to_owned()),
            },
            ContentPart::File { file } => StoredContent::Link {
                uri: file.file_data,
                name: Some(file.filename),
                mime_type: None,
            },
            ContentPart::InputAudio { input_audio } => StoredContent::Link {
                uri: "data:audio/".to_owned().concat(input_audio.format.as_str()).concat(
                    ";base64,",
                ).concat(input_audio.data.as_str()),
                name: None,
                mime_type: Some("audio/".to_owned().concat(input_audio.format.as_str())),
            },
            ContentPart::VideoUrl { video_url } => StoredContent::Link {
                uri: video_url.url,
                name: None,
                mime_type: Some("video/*".to_owned()),
            },
        }
    }
}

impl ContentPartWireV {
    /// A part as it is stored: a stored part as it is, a prompt part as
    /// [`ContentPart::stored`] says.
    pub open spec fn stored(self) -> StoredContentV {
        match self {
            ContentPartWireV::Stored(part) => part,
            ContentPartWireV::Prompt(part) => part.stored(),
        }
    }
}

impl ContentWireV {
    pub open spec fn content(self) -> ContentV {
        match self {
            ContentWireV::Text(text) => ContentV::Text(text),
            ContentWireV::Parts(parts) => ContentV::Parts(
                parts.map_values(|p: ContentPartWireV| p.stored()),
            ),
        }
    }
}

impl ContentWire {
    /// The content that arrived: text stays text, and each part is stored in
    /// its place.
    pub fn content(self) -> (r: Content)
        ensures
            r.v() == self.v().content(),
    {
        match self {
            ContentWire::Text(text) => Content::Text(text),
            ContentWire::Parts(parts) => {
                let ghost given = parts.v();
                let mut stored: Vec<StoredContent> = crate::model::none();
                let mut i: usize = 0;
                while i < parts.len()
                    invariant
                        i <= parts.len(),
                        given == parts.v(),
                        stored.v() == given.take(i as int).map_values(
                            |p: ContentPartWireV| p.stored(),
                        ),
                    decreases parts.len() - i,
                {
                    let kept = match &parts[i] {
                        ContentPartWire::Stored(part) => part.dup(),
                        ContentPartWire::Prompt(part) => part.dup().stored(),
                    };
                    crate::model::append_one(&mut stored, kept);
                    i = i + 1;
                    assert(stored.v() =~= given.take(i as int).map_values(
                        |p: ContentPartWireV| p.stored(),
                    ));
                }
                assert(given.take(i as int) =~= given);
                Content::Parts(stored)
            },
        }
    }
}

impl ContentV {
    /// What a message says, as text: its parts, a line each.
    pub open spec fn text_owned(self) -> Seq<char> {
        match self {
            ContentV::Text(text) => text,
            ContentV::Parts(parts) => text::joined(collect(parts, stored_text()), "\n"@),
        }
    }
}

impl Content {
    /// What a message says, if it is nothing but text.
    pub fn text(&self) -> (r: Option<&str>)
        ensures
            crate::model::text_of(r) == (match self.v() {
                ContentV::Text(text) => Some(text),
                ContentV::Parts(_) => None,
            }),
    {
        match self {
            Content::Text(text) => Some(text.as_str()),
            Content::Parts(_) => None,
        }
    }

    /// What a message says, as text: its parts, a line each.
    pub fn text_owned(&self) -> (r: String)
        ensures
            r@ == self.v().text_owned(),
    {
        match self {
            Content::Text(text) => text.dup(),
            Content::Parts(parts) => stored_text_of(parts),
        }
    }
}

/// A link as text: its name before its address, where it has one.
pub open spec fn link_text(uri: Seq<char>, name: Option<Seq<char>>) -> Seq<char> {
    match name {
        Some(name) => name + ": "@ + uri,
        None => uri,
    }
}

impl PromptPart {
    /// A link as text: its name before its address, where it has one.
    pub fn link_text(uri: &str, name: Option<&str>) -> (r: String)
        ensures
            r@ == link_text(uri@, crate::model::text_of(name)),
    {
        match name {
            Some(name) => name.to_owned().concat(": ").concat(uri),
            None => uri.to_owned(),
        }
    }
}

impl PromptPartV {
    /// How a provider reads the part.
    ///
    /// A link to an image or a video is that image or video, any other link is
    /// its text. Bytes are what their media type says, as a data address, and a
    /// file where it says none of the three.
    pub open spec fn content_part(self) -> ContentPartV {
        match self {
            PromptPartV::Text { text } => ContentPartV::Text { text },
            PromptPartV::Link { uri, name, mime_type } => {
                let kind = match mime_type {
                    Some(mime) => mime::kind(mime),
                    None => Seq::empty(),
                };
                if kind == "image"@ {
                    ContentPartV::ImageUrl { image_url: ImageUrlV { url: uri } }
                } else if kind == "video"@ {
                    ContentPartV::VideoUrl { video_url: VideoUrlV { url: uri } }
                } else {
                    ContentPartV::Text { text: link_text(uri, name) }
                }
            },
            PromptPartV::Media { mime, name, bytes } => {
                let kind = mime::kind(mime);
                if kind == "image"@ {
                    ContentPartV::ImageUrl { image_url: ImageUrlV { url: mime::address(mime, bytes) } }
                } else if kind == "audio"@ {
                    ContentPartV::InputAudio {
                        input_audio: AudioDataV {
                            data: mime::encoded(bytes),
                            format: mime::subtype(mime),
                        },
                    }
                } else if kind == "video"@ {
                    ContentPartV::VideoUrl { video_url: VideoUrlV { url: mime::address(mime, bytes) } }
                } else {
                    ContentPartV::File {
                        file: FileDataV {
                            filename: match name {
                                Some(name) => name,
                                None => "file"@,
                            },
                            file_data: mime::address(mime, bytes),
                        },
                    }
                }
            },
        }
    }
}

impl<'a> vstd::std_specs::convert::FromSpecImpl<&'a PromptPart> for ContentPart {
    open spec fn obeys_from_spec() -> bool {
        false
    }

    open spec fn from_spec(part: &'a PromptPart) -> ContentPart {
        arbitrary()
    }
}

impl<'a> From<&'a PromptPart> for ContentPart {
    fn from(part: &'a PromptPart) -> (r: ContentPart)
        ensures
            r.v() == part.v().content_part(),
    {
        proof {
            reveal_strlit("image");
            reveal_strlit("audio");
            reveal_strlit("video");
        }
        match part {
            PromptPart::Text { text } => ContentPart::Text { text: text.dup() },
            PromptPart::Link { uri, name, mime_type } => {
                let kind = match mime_type {
                    Some(mime) => mime::essence(mime),
                    None => String::new(),
                };
                assert(kind@ == (match mime_type.v() {
                    Some(mime) => mime::kind(mime),
                    None => Seq::empty(),
                }));
                if text::eq(kind.as_str(), "image") {
                    ContentPart::ImageUrl { image_url: ImageUrl { url: uri.dup() } }
                } else if text::eq(kind.as_str(), "video") {
                    ContentPart::VideoUrl { video_url: VideoUrl { url: uri.dup() } }
                } else {
                    let shown = match name {
                        Some(name) => Some(name.as_str()),
                        None => None,
                    };
                    ContentPart::Text { text: PromptPart::link_text(uri, shown) }
                }
            },
            PromptPart::Media { mime, name, bytes } => {
                let kind = mime::essence(mime);
                if text::eq(kind.as_str(), "image") {
                    ContentPart::ImageUrl { image_url: ImageUrl { url: mime::data_uri(mime, bytes) } }
                } else if text::eq(kind.as_str(), "audio") {
                    ContentPart::InputAudio {
                        input_audio: AudioData {
                            data: mime::base64(bytes),
                            format: mime::parts(mime).1,
                        },
                    }
                } else if text::eq(kind.as_str(), "video") {
                    ContentPart::VideoUrl { video_url: VideoUrl { url: mime::data_uri(mime, bytes) } }
                } else {
                    ContentPart::File {
                        file: FileData {
                            filename: match name {
                                Some(name) => name.dup(),
                                None => "file".to_owned(),
                            },
                            file_data: mime::data_uri(mime, bytes),
                        },
                    }
                }
            },
        }
    }
}

/// The texts among the parts of a prompt.
pub open spec fn part_texts(parts: Seq<PromptPartV>) -> Seq<Seq<char>> {
    collect(parts, part_text())
}

pub open spec fn part_text() -> spec_fn(PromptPartV) -> Option<Seq<char>> {
    |p: PromptPartV|
        match p {
            PromptPartV::Text { text } => Some(text),
            _ => None,
        }
}

impl PromptContentV {
    /// The text of a prompt: its text parts, a line each.
    pub open spec fn text(self) -> Seq<char> {
        match self {
            PromptContentV::Text(text) => text,
            PromptContentV::Parts(parts) => text::joined(part_texts(parts), "\n"@),
        }
    }
}

impl PromptContent {
    /// The text of a prompt: its text parts, a line each.
    pub fn text_owned(&self) -> (r: String)
        ensures
            r@ == self.v().text(),
    {
        match self {
            PromptContent::Text(s) => s.dup(),
            PromptContent::Parts(parts) => {
                let mut texts: Vec<String> = crate::model::none();
                let mut i: usize = 0;
                assert(parts.v().take(0) =~= Seq::empty());
                while i < parts.len()
                    invariant
                        i <= parts.len(),
                        texts.v() == collect(parts.v().take(i as int), part_text()),
                    decreases parts.len() - i,
                {
                    proof {
                        lemma_collect_step(parts.v(), part_text(), i as int);
                    }
                    if let PromptPart::Text { text } = &parts[i] {
                        crate::model::append_one(&mut texts, text.dup());
                    }
                    i = i + 1;
                }
                assert(parts.v().take(i as int) =~= parts.v());
                text::join(&texts, "\n")
            },
        }
    }
}

impl ReasoningV {
    /// The blocks that `provider` can read: all of its own, none of another's.
    pub open spec fn blocks_for(self, provider: ReasoningProvider) -> Seq<JsonV> {
        if self.provider == provider {
            self.blocks
        } else {
            Seq::empty()
        }
    }
}

impl Reasoning {
    /// The reasoning of one response. Absent if it left no blocks.
    /// Boxed to keep it off the paths that do not read it.
    pub fn new(provider: ReasoningProvider, text: Option<String>, blocks: Vec<Json>) -> (r: Option<
        Box<Reasoning>,
    >)
        ensures
            r is Some <==> blocks@.len() > 0,
            r is Some ==> r.v() == Some(
                ReasoningV { provider, text: text.v(), blocks: blocks.v() },
            ),
    {
        if blocks.len() > 0 {
            Some(Box::new(Reasoning { provider, text, blocks }))
        } else {
            None
        }
    }

    /// The blocks. Only the provider that wrote them can read them.
    pub fn blocks_for(&self, provider: ReasoningProvider) -> (r: &[Json])
        ensures
            crate::model::values(r@) == self.v().blocks_for(provider),
    {
        if self.provider == provider {
            self.blocks.as_slice()
        } else {
            let r: &[Json] = &[];
            assert(crate::model::values(r@) =~= Seq::empty());
            r
        }
    }
}

} // verus!

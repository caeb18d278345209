//! Calls to a model.
use crate::model::{append_ref, collect, lemma_collect_step, seen, values, Model, Same};
use crate::protocol::config::DeferToolsStrategy;
use crate::protocol::json::{Json, JsonV};
use crate::protocol::message::{
    DraftMessage, DraftMessageV, PromptMessage, PromptMessageV, Reasoning, ReasoningV, ToolCall,
    ToolCallV,
};
use rust_decimal::Decimal;
use vstd::prelude::*;

verus! {

/// A tool's declared contract. Flat on the wire. A provider that needs it
/// nested re-wraps it at its own boundary.
#[derive(Debug, PartialEq)]
pub struct LlmTool {
    pub name: String,
    pub description: String,
    /// JSON Schema for the arguments. Absent declares a tool with no
    /// arguments. The engine checks every call against what it reads of it.
    pub input: Option<Json>,
    /// JSON Schema the result must satisfy. The model never sees it. A result
    /// that breaks what the engine reads of it becomes a terminal tool error.
    pub output: Option<Json>,
    /// Keep this definition out of the request.
    ///
    /// The engine still records it, still routes a call to it, and still finds
    /// it in a search. Only the request leaves it out. That keeps a large tool
    /// set out of the model's context and out of the cached prefix.
    ///
    /// Any source can set it. Deferral belongs to a tool, not to where the tool
    /// came from.
    pub defer: bool,
}

/// The value of [`LlmTool`].
pub struct LlmToolV {
    pub name: Seq<char>,
    pub description: Seq<char>,
    pub input: Option<JsonV>,
    pub output: Option<JsonV>,
    pub defer: bool,
}

impl Model for LlmTool {
    type V = LlmToolV;

    open spec fn v(&self) -> LlmToolV {
        LlmToolV {
            name: self.name.v(),
            description: self.description.v(),
            input: self.input.v(),
            output: self.output.v(),
            defer: self.defer.v(),
        }
    }

    fn dup(&self) -> (r: LlmTool) {
        LlmTool {
            name: self.name.dup(),
            description: self.description.dup(),
            input: self.input.dup(),
            output: self.output.dup(),
            defer: self.defer.dup(),
        }
    }
}

impl Clone for LlmTool {
    fn clone(&self) -> (r: LlmTool)
        ensures
            r.v() == self.v(),
    {
        self.dup()
    }
}

/// A sampling temperature: the bits of the number, which the engine passes on
/// unread.
#[derive(Debug, Clone, Copy, PartialEq, Eq, Structural)]
pub struct Temperature {
    pub bits: u64,
}

impl Model for Temperature {
    type V = Temperature;

    open spec fn v(&self) -> Temperature {
        *self
    }

    fn dup(&self) -> (r: Temperature) {
        *self
    }
}

impl Same for Temperature {
    fn same(&self, other: &Temperature) -> (r: bool) {
        *self == *other
    }
}

#[derive(Debug, Clone, Copy, Default, PartialEq, Eq, Structural)]
pub struct ReasoningConfig {
    pub effort: Option<ReasoningEffort>,
    pub max_tokens: Option<u32>,
    pub exclude: Option<bool>,
    pub enabled: Option<bool>,
}

impl Model for ReasoningConfig {
    type V = ReasoningConfig;

    open spec fn v(&self) -> ReasoningConfig {
        *self
    }

    fn dup(&self) -> (r: ReasoningConfig) {
        *self
    }
}

impl Same for ReasoningConfig {
    fn same(&self, other: &ReasoningConfig) -> (r: bool) {
        *self == *other
    }
}

#[derive(Debug, Clone, Copy, PartialEq, Eq, Structural)]
pub enum ReasoningEffort {
    Xhigh,
    High,
    Medium,
    Low,
    Minimal,
    /// No reasoning at all.
    Off,
}

impl Model for ReasoningEffort {
    type V = ReasoningEffort;

    open spec fn v(&self) -> ReasoningEffort {
        *self
    }

    fn dup(&self) -> (r: ReasoningEffort) {
        *self
    }
}

impl Same for ReasoningEffort {
    fn same(&self, other: &ReasoningEffort) -> (r: bool) {
        *self == *other
    }
}

#[derive(Debug, PartialEq)]
pub struct LlmRequest {
    pub model: String,
    pub messages: Vec<DraftMessage>,
    pub tools: Option<Vec<LlmTool>>,
    pub temperature: Option<Temperature>,
    pub max_completion_tokens: Option<u64>,
    pub reasoning: Option<ReasoningConfig>,
}

/// The value of [`LlmRequest`].
pub struct LlmRequestV {
    pub model: Seq<char>,
    pub messages: Seq<DraftMessageV>,
    pub tools: Option<Seq<LlmToolV>>,
    pub temperature: Option<Temperature>,
    pub max_completion_tokens: Option<u64>,
    pub reasoning: Option<ReasoningConfig>,
}

impl Model for LlmRequest {
    type V = LlmRequestV;

    open spec fn v(&self) -> LlmRequestV {
        LlmRequestV {
            model: self.model.v(),
            messages: self.messages.v(),
            tools: self.tools.v(),
            temperature: self.temperature.v(),
            max_completion_tokens: self.max_completion_tokens.v(),
            reasoning: self.reasoning.v(),
        }
    }

    fn dup(&self) -> (r: LlmRequest) {
        LlmRequest {
            model: self.model.dup(),
            messages: self.messages.dup(),
            tools: self.tools.dup(),
            temperature: self.temperature.dup(),
            max_completion_tokens: self.max_completion_tokens.dup(),
            reasoning: self.reasoning.dup(),
        }
    }
}

impl Clone for LlmRequest {
    fn clone(&self) -> (r: LlmRequest)
        ensures
            r.v() == self.v(),
    {
        self.dup()
    }
}

/// A request as a provider receives it.
#[derive(Debug, PartialEq)]
pub struct PromptRequest {
    pub model: String,
    pub messages: Vec<PromptMessage>,
    pub tools: Option<Vec<LlmTool>>,
    pub temperature: Option<Temperature>,
    pub max_completion_tokens: Option<u64>,
    pub reasoning: Option<ReasoningConfig>,
}

/// The value of [`PromptRequest`].
pub struct PromptRequestV {
    pub model: Seq<char>,
    pub messages: Seq<PromptMessageV>,
    pub tools: Option<Seq<LlmToolV>>,
    pub temperature: Option<Temperature>,
    pub max_completion_tokens: Option<u64>,
    pub reasoning: Option<ReasoningConfig>,
}

impl Model for PromptRequest {
    type V = PromptRequestV;

    open spec fn v(&self) -> PromptRequestV {
        PromptRequestV {
            model: self.model.v(),
            messages: self.messages.v(),
            tools: self.tools.v(),
            temperature: self.temperature.v(),
            max_completion_tokens: self.max_completion_tokens.v(),
            reasoning: self.reasoning.v(),
        }
    }

    fn dup(&self) -> (r: PromptRequest) {
        PromptRequest {
            model: self.model.dup(),
            messages: self.messages.dup(),
            tools: self.tools.dup(),
            temperature: self.temperature.dup(),
            max_completion_tokens: self.max_completion_tokens.dup(),
            reasoning: self.reasoning.dup(),
        }
    }
}

impl Clone for PromptRequest {
    fn clone(&self) -> (r: PromptRequest)
        ensures
            r.v() == self.v(),
    {
        self.dup()
    }
}

/// A tool the request carries, as itself.
pub open spec fn carried() -> spec_fn(LlmToolV) -> Option<LlmToolV> {
    |t: LlmToolV|
        if t.defer {
            None
        } else {
            Some(t)
        }
}

/// The definitions a request carries: all but the deferred ones, in order.
pub open spec fn offered_tools(tools: Seq<LlmToolV>) -> Seq<LlmToolV> {
    collect(tools, carried())
}

impl DeferToolsStrategy {
    /// The definitions the request carries.
    ///
    /// A strategy the engine answers leaves each deferred tool out. The engine
    /// finds it and routes to it from state.
    pub fn offered<'a>(self, tools: &'a [LlmTool]) -> (r: Vec<&'a LlmTool>)
        ensures
            seen(r@) == offered_tools(values(tools@)),
    {
        let mut out: Vec<&'a LlmTool> = Vec::new();
        let mut i: usize = 0;
        assert(seen(out@) =~= collect(values(tools@).take(0), carried()));
        while i < tools.len()
            invariant
                i <= tools@.len(),
                seen(out@) == collect(values(tools@).take(i as int), carried()),
            decreases tools@.len() - i,
        {
            proof {
                lemma_collect_step(values(tools@), carried(), i as int);
            }
            if !tools[i].defer {
                append_ref(&mut out, &tools[i]);
            }
            i = i + 1;
        }
        assert(values(tools@).take(i as int) =~= values(tools@));
        out
    }
}

impl LlmRequest {
    /// The definitions this request carries under `search`.
    ///
    /// Absent when the request declares no tool at all. That is not the same as
    /// a request whose tools all defer, which still offers the search.
    pub fn offered_tools(&self, search: DeferToolsStrategy) -> (r: Option<Vec<&LlmTool>>)
        ensures
            match r {
                Some(tools) => self.v().tools is Some && seen(tools@) == offered_tools(
                    self.v().tools->0,
                ),
                None => self.v().tools is None,
            },
    {
        match &self.tools {
            Some(tools) => Some(search.offered(tools.as_slice())),
            None => None,
        }
    }
}

impl PromptRequest {
    /// The definitions this request carries under `search`.
    pub fn offered_tools(&self, search: DeferToolsStrategy) -> (r: Option<Vec<&LlmTool>>)
        ensures
            match r {
                Some(tools) => self.v().tools is Some && seen(tools@) == offered_tools(
                    self.v().tools->0,
                ),
                None => self.v().tools is None,
            },
    {
        match &self.tools {
            Some(tools) => Some(search.offered(tools.as_slice())),
            None => None,
        }
    }
}

/// An image returned by the model in the response.
#[derive(Debug, PartialEq)]
pub struct ResponseImage {
    pub url: String,
}

/// The value of [`ResponseImage`].
pub struct ResponseImageV {
    pub url: Seq<char>,
}

impl Model for ResponseImage {
    type V = ResponseImageV;

    open spec fn v(&self) -> ResponseImageV {
        ResponseImageV {
            url: self.url.v(),
        }
    }

    fn dup(&self) -> (r: ResponseImage) {
        ResponseImage {
            url: self.url.dup(),
        }
    }
}

impl Clone for ResponseImage {
    fn clone(&self) -> (r: ResponseImage)
        ensures
            r.v() == self.v(),
    {
        self.dup()
    }
}

/// What one call read and wrote. Every provider means these counts the same
/// way.
///
/// Vendors report different things. One gives the part of the prompt it did not
/// read from the cache, another the whole prompt. Each adapter converts to this
/// shape, because these counts get added together.
#[derive(Debug, PartialEq)]
pub struct Usage {
    /// Every input token of the call, cached or not.
    pub input: u64,
    pub output: u64,
    /// The part of `input` the provider read fresh.
    pub uncached_input: u64,
    /// The part of `input` the provider read from the cache.
    pub cache_read: u64,
    /// The part of `input` the provider wrote to the cache.
    pub cache_write: u64,
    /// `input` and `output` together.
    pub total: u64,
    /// The counts as the provider reported them, for a number this type does
    /// not name.
    pub provider: Option<Json>,
}

/// The value of [`Usage`].
pub struct UsageV {
    pub input: u64,
    pub output: u64,
    pub uncached_input: u64,
    pub cache_read: u64,
    pub cache_write: u64,
    pub total: u64,
    pub provider: Option<JsonV>,
}

impl Model for Usage {
    type V = UsageV;

    open spec fn v(&self) -> UsageV {
        UsageV {
            input: self.input.v(),
            output: self.output.v(),
            uncached_input: self.uncached_input.v(),
            cache_read: self.cache_read.v(),
            cache_write: self.cache_write.v(),
            total: self.total.v(),
            provider: self.provider.v(),
        }
    }

    fn dup(&self) -> (r: Usage) {
        Usage {
            input: self.input.dup(),
            output: self.output.dup(),
            uncached_input: self.uncached_input.dup(),
            cache_read: self.cache_read.dup(),
            cache_write: self.cache_write.dup(),
            total: self.total.dup(),
            provider: self.provider.dup(),
        }
    }
}

impl Clone for Usage {
    fn clone(&self) -> (r: Usage)
        ensures
            r.v() == self.v(),
    {
        self.dup()
    }
}

impl UsageV {
    /// Nothing read and nothing written.
    pub open spec fn zero() -> UsageV {
        UsageV {
            input: 0,
            output: 0,
            uncached_input: 0,
            cache_read: 0,
            cache_write: 0,
            total: 0,
            provider: None,
        }
    }

    /// Whether the parts make up the input, and the two sides the total.
    pub open spec fn consistent(self) -> bool {
        self.input == self.uncached_input + self.cache_read + self.cache_write && self.total
            == self.input + self.output
    }

    /// Whether the sums of two usages can be counted.
    pub open spec fn fits(self, other: UsageV) -> bool {
        self.input + other.input <= u64::MAX && self.output + other.output <= u64::MAX
            && self.uncached_input + other.uncached_input <= u64::MAX && self.cache_read
            + other.cache_read <= u64::MAX && self.cache_write + other.cache_write <= u64::MAX
            && self.total + other.total <= u64::MAX
    }

    /// The counts of two calls together. A raw report belongs to one call, so a
    /// sum carries none.
    pub open spec fn plus(self, other: UsageV) -> UsageV {
        UsageV {
            input: (self.input + other.input) as u64,
            output: (self.output + other.output) as u64,
            uncached_input: (self.uncached_input + other.uncached_input) as u64,
            cache_read: (self.cache_read + other.cache_read) as u64,
            cache_write: (self.cache_write + other.cache_write) as u64,
            total: (self.total + other.total) as u64,
            provider: None,
        }
    }
}

/// Counts that add up still add up when they are added together.
pub proof fn law_sums_are_consistent(a: UsageV, b: UsageV)
    requires
        a.consistent(),
        b.consistent(),
        a.fits(b),
    ensures
        a.plus(b).consistent(),
{
}

impl Usage {
    /// The counts of one call. `input` and `total` follow from the rest.
    pub fn new(uncached_input: u64, cache_read: u64, cache_write: u64, output: u64) -> (r: Usage)
        requires
            uncached_input + cache_read + cache_write + output <= u64::MAX,
        ensures
            r.v().consistent(),
            r.v().uncached_input == uncached_input,
            r.v().cache_read == cache_read,
            r.v().cache_write == cache_write,
            r.v().output == output,
            r.v().provider is None,
    {
        let input: u64 = uncached_input + cache_read + cache_write;
        Usage {
            input,
            output,
            uncached_input,
            cache_read,
            cache_write,
            total: input + output,
            provider: None,
        }
    }

    pub fn with_provider(self, raw: Json) -> (r: Usage)
        ensures
            r.v() == (UsageV { provider: Some(raw.v()), ..self.v() }),
    {
        Usage { provider: Some(raw), ..self }
    }

    /// Add the counts of another call. A raw report belongs to one call, so a
    /// sum carries none.
    pub fn add(&mut self, other: &Usage)
        requires
            old(self).v().fits(other.v()),
        ensures
            final(self).v() == old(self).v().plus(other.v()),
    {
        self.input = self.input + other.input;
        self.output = self.output + other.output;
        self.uncached_input = self.uncached_input + other.uncached_input;
        self.cache_read = self.cache_read + other.cache_read;
        self.cache_write = self.cache_write + other.cache_write;
        self.total = self.total + other.total;
        self.provider = None;
    }

    /// Whether the sums of two usages can be counted.
    pub fn can_add(&self, other: &Usage) -> (r: bool)
        ensures
            r == self.v().fits(other.v()),
    {
        other.input <= u64::MAX - self.input && other.output <= u64::MAX - self.output
            && other.uncached_input <= u64::MAX - self.uncached_input && other.cache_read
            <= u64::MAX - self.cache_read && other.cache_write <= u64::MAX - self.cache_write
            && other.total <= u64::MAX - self.total
    }
}

impl Default for Usage {
    fn default() -> (r: Usage)
        ensures
            r.v() == UsageV::zero(),
    {
        Usage {
            input: 0,
            output: 0,
            uncached_input: 0,
            cache_read: 0,
            cache_write: 0,
            total: 0,
            provider: None,
        }
    }
}

/// Normalized LLM response. Provider adapters convert their raw responses
/// into this type at the boundary.
#[derive(Debug, PartialEq)]
pub struct LlmResponse {
    pub model: String,
    pub content: Option<String>,
    pub reasoning: Option<Box<Reasoning>>,
    pub tool_calls: Vec<ToolCall>,
    pub finish_reason: Option<String>,
    pub usage: Option<Usage>,
    /// Cost in dollars, if the provider reports it. A decimal string on the
    /// wire.
    pub cost: Option<Decimal>,
    /// Images generated by the model.
    pub images: Vec<ResponseImage>,
}

/// The value of [`LlmResponse`].
pub struct LlmResponseV {
    pub model: Seq<char>,
    pub content: Option<Seq<char>>,
    pub reasoning: Option<ReasoningV>,
    pub tool_calls: Seq<ToolCallV>,
    pub finish_reason: Option<Seq<char>>,
    pub usage: Option<UsageV>,
    pub cost: Option<rust_decimal::Decimal>,
    pub images: Seq<ResponseImageV>,
}

impl Model for LlmResponse {
    type V = LlmResponseV;

    open spec fn v(&self) -> LlmResponseV {
        LlmResponseV {
            model: self.model.v(),
            content: self.content.v(),
            reasoning: self.reasoning.v(),
            tool_calls: self.tool_calls.v(),
            finish_reason: self.finish_reason.v(),
            usage: self.usage.v(),
            cost: self.cost.v(),
            images: self.images.v(),
        }
    }

    fn dup(&self) -> (r: LlmResponse) {
        LlmResponse {
            model: self.model.dup(),
            content: self.content.dup(),
            reasoning: self.reasoning.dup(),
            tool_calls: self.tool_calls.dup(),
            finish_reason: self.finish_reason.dup(),
            usage: self.usage.dup(),
            cost: self.cost.dup(),
            images: self.images.dup(),
        }
    }
}

impl Clone for LlmResponse {
    fn clone(&self) -> (r: LlmResponse)
        ensures
            r.v() == self.v(),
    {
        self.dup()
    }
}

#[derive(Debug, PartialEq)]
pub struct ToolCallChunk {
    pub id: String,
    pub name: Option<String>,
    pub arguments: Option<String>,
}

/// The value of [`ToolCallChunk`].
pub struct ToolCallChunkV {
    pub id: Seq<char>,
    pub name: Option<Seq<char>>,
    pub arguments: Option<Seq<char>>,
}

impl Model for ToolCallChunk {
    type V = ToolCallChunkV;

    open spec fn v(&self) -> ToolCallChunkV {
        ToolCallChunkV {
            id: self.id.v(),
            name: self.name.v(),
            arguments: self.arguments.v(),
        }
    }

    fn dup(&self) -> (r: ToolCallChunk) {
        ToolCallChunk {
            id: self.id.dup(),
            name: self.name.dup(),
            arguments: self.arguments.dup(),
        }
    }
}

impl Clone for ToolCallChunk {
    fn clone(&self) -> (r: ToolCallChunk)
        ensures
            r.v() == self.v(),
    {
        self.dup()
    }
}

#[derive(Debug, Default, PartialEq)]
pub struct StreamDelta {
    pub text: Option<String>,
    pub reasoning: Option<String>,
    pub tool_calls: Vec<ToolCallChunk>,
    pub finish_reason: Option<String>,
}

/// The value of [`StreamDelta`].
pub struct StreamDeltaV {
    pub text: Option<Seq<char>>,
    pub reasoning: Option<Seq<char>>,
    pub tool_calls: Seq<ToolCallChunkV>,
    pub finish_reason: Option<Seq<char>>,
}

impl Model for StreamDelta {
    type V = StreamDeltaV;

    open spec fn v(&self) -> StreamDeltaV {
        StreamDeltaV {
            text: self.text.v(),
            reasoning: self.reasoning.v(),
            tool_calls: self.tool_calls.v(),
            finish_reason: self.finish_reason.v(),
        }
    }

    fn dup(&self) -> (r: StreamDelta) {
        StreamDelta {
            text: self.text.dup(),
            reasoning: self.reasoning.dup(),
            tool_calls: self.tool_calls.dup(),
            finish_reason: self.finish_reason.dup(),
        }
    }
}

impl Clone for StreamDelta {
    fn clone(&self) -> (r: StreamDelta)
        ensures
            r.v() == self.v(),
    {
        self.dup()
    }
}

#[derive(Debug, PartialEq)]
pub struct TokenDelta {
    /// Tenant isolation key: subscribers must match.
    pub tenant_id: String,
    /// Transport routing key.
    pub root_session_id: String,
    /// May be a subagent of root.
    pub session_id: String,
    pub agent_id: String,
    pub turn_id: Option<String>,
    pub call_id: String,
    pub attempt: u32,
    /// Per-call counter, distinct from event-store sequence.
    pub seq: u32,
    pub text: Option<String>,
    pub reasoning: Option<String>,
    pub tool_calls: Vec<ToolCallChunk>,
    pub finish_reason: Option<String>,
}

/// The value of [`TokenDelta`].
pub struct TokenDeltaV {
    pub tenant_id: Seq<char>,
    pub root_session_id: Seq<char>,
    pub session_id: Seq<char>,
    pub agent_id: Seq<char>,
    pub turn_id: Option<Seq<char>>,
    pub call_id: Seq<char>,
    pub attempt: u32,
    pub seq: u32,
    pub text: Option<Seq<char>>,
    pub reasoning: Option<Seq<char>>,
    pub tool_calls: Seq<ToolCallChunkV>,
    pub finish_reason: Option<Seq<char>>,
}

impl Model for TokenDelta {
    type V = TokenDeltaV;

    open spec fn v(&self) -> TokenDeltaV {
        TokenDeltaV {
            tenant_id: self.tenant_id.v(),
            root_session_id: self.root_session_id.v(),
            session_id: self.session_id.v(),
            agent_id: self.agent_id.v(),
            turn_id: self.turn_id.v(),
            call_id: self.call_id.v(),
            attempt: self.attempt.v(),
            seq: self.seq.v(),
            text: self.text.v(),
            reasoning: self.reasoning.v(),
            tool_calls: self.tool_calls.v(),
            finish_reason: self.finish_reason.v(),
        }
    }

    fn dup(&self) -> (r: TokenDelta) {
        TokenDelta {
            tenant_id: self.tenant_id.dup(),
            root_session_id: self.root_session_id.dup(),
            session_id: self.session_id.dup(),
            agent_id: self.agent_id.dup(),
            turn_id: self.turn_id.dup(),
            call_id: self.call_id.dup(),
            attempt: self.attempt.dup(),
            seq: self.seq.dup(),
            text: self.text.dup(),
            reasoning: self.reasoning.dup(),
            tool_calls: self.tool_calls.dup(),
            finish_reason: self.finish_reason.dup(),
        }
    }
}

impl Clone for TokenDelta {
    fn clone(&self) -> (r: TokenDelta)
        ensures
            r.v() == self.v(),
    {
        self.dup()
    }
}

} // verus!

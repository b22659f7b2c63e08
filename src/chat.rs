//! One user turn: the effective system prompt, the tool catalog advertised to the model, the
//! scanner that finds tool-call blocks in the model's text, and the bounded round machine.
//!
//! The host drives a turn: it asks the model, hands the text to [`Turn::on_response`], runs each
//! requested call through the registry and records it, and asks again, as long as
//! [`Turn::begin_round`] allows.
use vstd::prelude::*;
use serde_json::Value;
use crate::builtin;
use crate::conversation::{Message, Role, fresh_id};
use crate::json::{json_object_member, json_string_member, object_member, string_member};
use crate::providers::ProviderError;
use crate::text::{
    chars_of, find, find_from, lemma_find_first, lemma_find_from, lemma_find_none,
    lemma_occurs_in_suffix, lower_of, lowercase, occurs_at, push_str, slice_of, str_eq, string_of,
    trim, trimmed,
};
use crate::tool::{PluginError, ToolDefinition, ToolResult, error_text};

verus! {

/// Most model round trips that one turn may make.
pub const MAX_TOOL_ITERATIONS: usize = 10;

/// A tool call requested by the model.
pub struct ToolCall {
    pub id: String,
    pub name: String,
    pub arguments: Value,
}

/// A request for one turn.
pub struct ChatRequest {
    /// The user's message.
    pub message: String,
    /// The conversation to continue, if any.
    pub conversation_id: Option<String>,
    /// A system prompt that takes precedence over any persona.
    pub system_prompt: Option<String>,
    /// A named persona, such as `business_analyst`.
    pub persona: Option<String>,
    pub provider: String,
    pub model: String,
}

/// The provider used when a request names none.
pub fn default_provider() -> (r: String)
    ensures
        r@ == "ollama"@,
{
    String::from_str("ollama")
}

/// The model used when a request names none.
pub fn default_model() -> (r: String)
    ensures
        r@ == "llama3.2"@,
{
    String::from_str("llama3.2")
}

/// The answer to one turn.
pub struct ChatResponse {
    /// The final assistant message.
    pub message: String,
    pub conversation_id: String,
    /// The tools called during the turn, in order.
    pub tool_calls: Vec<ToolCallSummary>,
}

/// Which tool was called and whether it succeeded.
pub struct ToolCallSummary {
    pub name: String,
    pub success: bool,
}

/// Errors of a turn.
pub enum ChatError {
    Provider(ProviderError),
    Plugin(PluginError),
    Memory(String),
    MaxIterationsExceeded,
}

/// The human-readable text of a turn's error.
pub open spec fn chat_error_text(e: ChatError) -> Seq<char> {
    match e {
        ChatError::Provider(p) => "Provider error: "@ + crate::providers::provider_error_text(p),
        ChatError::Plugin(p) => "Plugin error: "@ + error_text(p),
        ChatError::Memory(m) => "Memory error: "@ + m@,
        ChatError::MaxIterationsExceeded => "Max tool iterations exceeded"@,
    }
}

impl ChatError {
    /// The error as text.
    pub fn message(&self) -> (r: String)
        ensures
            r@ == chat_error_text(*self),
    {
        let (prefix, detail) = match self {
            ChatError::Provider(p) => ("Provider error: ", p.message()),
            ChatError::Plugin(p) => ("Plugin error: ", p.message()),
            ChatError::Memory(m) => ("Memory error: ", m.clone()),
            ChatError::MaxIterationsExceeded => {
                return String::from_str("Max tool iterations exceeded");
            },
        };
        let mut out = chars_of(prefix);
        push_str(&mut out, detail.as_str());
        string_of(out.as_slice())
    }
}

/// The text that opens a tool-call block.
pub open spec fn opener() -> Seq<char> {
    seq!['`', '`', '`', 't', 'o', 'o', 'l', '_', 'c', 'a', 'l', 'l']
}

/// The text that closes a fenced block.
pub open spec fn fence() -> Seq<char> {
    seq!['`', '`', '`']
}

/// The content of the block that starts a piece: the text up to its first closing fence.
pub open spec fn block_body(piece: Seq<char>) -> Option<Seq<char>> {
    let e = find_from(piece, fence(), 0);
    if e < 0 {
        None
    } else {
        Some(piece.subrange(0, e))
    }
}

/// The name of the call that a block's content describes: the content, without surrounding
/// white space, must be a JSON object with a string member `"name"` and an object member
/// `"arguments"`.
pub open spec fn call_name_of(content: Seq<char>) -> Option<Seq<char>> {
    let t = trimmed(content);
    if string_member(t, "name"@) is Some && object_member(t, "arguments"@) {
        string_member(t, "name"@)
    } else {
        None
    }
}

/// The call names a piece yields: one where its block describes a call, none otherwise.
pub open spec fn names_in(piece: Seq<char>) -> Seq<Seq<char>> {
    match block_body(piece) {
        Some(b) => match call_name_of(b) {
            Some(n) => seq![n],
            None => Seq::empty(),
        },
        None => Seq::empty(),
    }
}

/// The call names found from position `i`, which follows an opener, to the end of `s`.
pub open spec fn calls_from(s: Seq<char>, i: int) -> Seq<Seq<char>>
    decreases s.len() + 1 - i,
{
    if i < 0 || i > s.len() {
        Seq::empty()
    } else {
        let j = find_from(s, opener(), i);
        if j < i || j + opener().len() > s.len() {
            names_in(s.subrange(i, s.len() as int))
        } else {
            names_in(s.subrange(i, j)) + calls_from(s, j + opener().len())
        }
    }
}

/// The names of the tool calls in a model response, in order of appearance: each text that
/// follows an opener up to the next opener is a piece; a piece's block runs to its first
/// closing fence; a block counts where its content describes a call (see `call_name_of`).
pub open spec fn tool_call_names(s: Seq<char>) -> Seq<Seq<char>> {
    let j = find_from(s, opener(), 0);
    if j < 0 || j + opener().len() > s.len() {
        Seq::empty()
    } else {
        calls_from(s, j + opener().len())
    }
}

/// Text in which no tool-call block opens yields no call.
pub proof fn lemma_no_block_no_calls(s: Seq<char>)
    requires
        forall|i: int| !occurs_at(s, opener(), i),
    ensures
        tool_call_names(s).len() == 0,
{
    lemma_find_none(s, opener(), 0);
}

/// Text with exactly one tool-call block, whose content runs to the first closing fence and
/// decodes as a call named `n`, yields exactly that call, whatever text surrounds the block.
pub proof fn lemma_one_block_one_call(s: Seq<char>, at: int, body_len: int, n: Seq<char>)
    requires
        occurs_at(s, opener(), at),
        forall|i: int| occurs_at(s, opener(), i) ==> i == at,
        0 <= body_len,
        occurs_at(s, fence(), at + opener().len() + body_len),
        forall|i: int|
            at + opener().len() <= i < at + opener().len() + body_len ==> !occurs_at(s, fence(), i),
        call_name_of(s.subrange(at + opener().len(), at + opener().len() + body_len)) == Some(n),
    ensures
        tool_call_names(s) == seq![n],
{
    let k = at + opener().len();
    assert forall|i: int| 0 <= i < at implies !occurs_at(s, opener(), i) by {}
    lemma_find_first(s, opener(), 0, at);
    assert forall|i: int| k <= i implies !occurs_at(s, opener(), i) by {}
    lemma_find_none(s, opener(), k);
    let piece = s.subrange(k, s.len() as int);
    assert forall|i: int| 0 <= i < body_len implies !occurs_at(piece, fence(), i) by {
        lemma_occurs_in_suffix(s, fence(), k, i);
    }
    lemma_occurs_in_suffix(s, fence(), k, body_len);
    lemma_find_first(piece, fence(), 0, body_len);
    assert(piece.subrange(0, body_len) =~= s.subrange(k, k + body_len));
    assert(names_in(piece) == seq![n]);
}

/// Text with two tool-call blocks yields the calls of the first block, then those of the
/// second: so one well-formed block and one malformed block yield exactly one call, and the
/// malformed one does not make extraction fail.
pub proof fn lemma_two_blocks(s: Seq<char>, a1: int, a2: int)
    requires
        occurs_at(s, opener(), a1),
        occurs_at(s, opener(), a2),
        a1 + opener().len() <= a2,
        forall|i: int| occurs_at(s, opener(), i) ==> i == a1 || i == a2,
    ensures
        tool_call_names(s) == names_in(s.subrange(a1 + opener().len(), a2)) + names_in(
            s.subrange(a2 + opener().len(), s.len() as int),
        ),
{
    let k1 = a1 + opener().len();
    let k2 = a2 + opener().len();
    assert forall|i: int| 0 <= i < a1 implies !occurs_at(s, opener(), i) by {}
    lemma_find_first(s, opener(), 0, a1);
    assert forall|i: int| k1 <= i < a2 implies !occurs_at(s, opener(), i) by {}
    lemma_find_first(s, opener(), k1, a2);
    assert forall|i: int| k2 <= i implies !occurs_at(s, opener(), i) by {}
    lemma_find_none(s, opener(), k2);
    assert(calls_from(s, k2) == names_in(s.subrange(k2, s.len() as int)));
    assert(calls_from(s, k1) == names_in(s.subrange(k1, a2)) + calls_from(s, k2));
}

/// One well-formed block and one malformed block, in either order, yield exactly the call of
/// the well-formed one.
pub proof fn lemma_good_and_malformed_block(s: Seq<char>, a1: int, a2: int, n: Seq<char>)
    requires
        occurs_at(s, opener(), a1),
        occurs_at(s, opener(), a2),
        a1 + opener().len() <= a2,
        forall|i: int| occurs_at(s, opener(), i) ==> i == a1 || i == a2,
        (names_in(s.subrange(a1 + opener().len(), a2)) == seq![n] && names_in(
            s.subrange(a2 + opener().len(), s.len() as int),
        ).len() == 0) || (names_in(s.subrange(a1 + opener().len(), a2)).len() == 0 && names_in(
            s.subrange(a2 + opener().len(), s.len() as int),
        ) == seq![n]),
    ensures
        tool_call_names(s) == seq![n],
{
    lemma_two_blocks(s, a1, a2);
    let p1 = names_in(s.subrange(a1 + opener().len(), a2));
    let p2 = names_in(s.subrange(a2 + opener().len(), s.len() as int));
    if p1.len() == 0 {
        assert(p1 + p2 =~= p2);
    } else {
        assert(p1 + p2 =~= p1);
    }
}

/// The names of a sequence of calls.
pub open spec fn call_names(calls: Seq<ToolCall>) -> Seq<Seq<char>> {
    calls.map_values(|c: ToolCall| c.name@)
}

fn opener_chars() -> (r: Vec<char>)
    ensures
        r@ == opener(),
{
    let r = chars_of("```tool_call");
    proof {
        reveal_strlit("```tool_call");
        assert(r@ =~= opener());
    }
    r
}

fn fence_chars() -> (r: Vec<char>)
    ensures
        r@ == fence(),
{
    let r = chars_of("```");
    proof {
        reveal_strlit("```");
        assert(r@ =~= fence());
    }
    r
}

/// Appends the call that a piece yields, if any.
fn push_piece_call(piece: &Vec<char>, fence: &Vec<char>, calls: &mut Vec<ToolCall>)
    requires
        fence@ == self::fence(),
    ensures
        call_names(final(calls)@) == call_names(old(calls)@) + names_in(piece@),
{
    proof {
        lemma_find_from(piece@, fence@, 0);
    }
    let ghost before = calls@;
    match find(piece, fence, 0) {
        None => {
            assert(call_names(calls@) =~= call_names(before) + names_in(piece@));
        },
        Some(e) => {
            let body = slice_of(piece, 0, e);
            let content = trim(&body);
            let text = string_of(content.as_slice());
            let name = json_string_member(text.as_str(), "name");
            let arguments = json_object_member(text.as_str(), "arguments");
            match (name, arguments) {
                (Some(name), Some(arguments)) => {
                    calls.push(ToolCall { id: fresh_id(), name, arguments });
                    assert(call_names(calls@) =~= call_names(before) + names_in(piece@));
                },
                _ => {
                    assert(call_names(calls@) =~= call_names(before) + names_in(piece@));
                },
            }
        },
    }
}

/// Finds the tool calls in a model response: `None` when there is none, else every call in
/// order of appearance. Blocks that do not decode as a call are skipped.
pub fn extract_tool_calls(content: &str) -> (r: Option<Vec<ToolCall>>)
    ensures
        r is None <==> tool_call_names(content@).len() == 0,
        r matches Some(calls) ==> call_names(calls@) == tool_call_names(content@),
{
    let cs = chars_of(content);
    let op = opener_chars();
    let fc = fence_chars();
    let mut calls: Vec<ToolCall> = Vec::new();
    proof {
        lemma_find_from(cs@, op@, 0);
    }
    let first = match find(&cs, &op, 0) {
        None => return None,
        Some(j) => j,
    };
    let total = cs.len();
    assert(occurs_at(cs@, op@, first as int));
    let mut start = first + op.len();
    assert(call_names(calls@) =~= Seq::<Seq<char>>::empty());
    assert(call_names(calls@) + calls_from(cs@, start as int) =~= tool_call_names(content@));
    loop
        invariant_except_break
            call_names(calls@) + calls_from(cs@, start as int) == tool_call_names(content@),
        invariant
            cs@ == content@,
            op@ == opener(),
            fc@ == fence(),
            total == cs@.len(),
            start <= cs@.len(),
        ensures
            call_names(calls@) == tool_call_names(content@),
        decreases cs@.len() - start,
    {
        proof {
            lemma_find_from(cs@, op@, start as int);
        }
        let ghost before = calls@;
        let next = find(&cs, &op, start);
        let end = match next {
            Some(n) => n,
            None => cs.len(),
        };
        let piece = slice_of(&cs, start, end);
        push_piece_call(&piece, &fc, &mut calls);
        match next {
            None => {
                assert(call_names(calls@) =~= tool_call_names(content@));
                break ;
            },
            Some(n) => {
                assert(occurs_at(cs@, op@, n as int));
                assert(call_names(calls@) + calls_from(cs@, n + op@.len()) =~= tool_call_names(content@));
                start = n + op.len();
            },
        }
    }
    if calls.len() == 0 {
        None
    } else {
        Some(calls)
    }
}

/// The system prompt of a persona, looked up by its lower-cased name; an unknown name gets the
/// default prompt with a note that names it as it was given.
pub open spec fn persona_prompt(lower: Seq<char>, persona: Seq<char>) -> Seq<char> {
    if lower == "default"@ {
        builtin::DEFAULT@
    } else if lower == "business_analyst"@ || lower == "analyst"@ {
        builtin::BUSINESS_ANALYST@
    } else if lower == "tech_support"@ || lower == "support"@ {
        builtin::TECH_SUPPORT@
    } else if lower == "data_entry"@ || lower == "data"@ {
        builtin::DATA_ENTRY@
    } else {
        builtin::DEFAULT@ + "\n\nNote: Unknown persona '"@ + persona + "', using default."@
    }
}

/// A persona whose lower-cased name is none of the built-in names or aliases gets the default
/// prompt, followed by a note that names the persona exactly as it was given.
pub proof fn lemma_unknown_persona(lower: Seq<char>, persona: Seq<char>)
    requires
        lower != "default"@,
        lower != "business_analyst"@,
        lower != "analyst"@,
        lower != "tech_support"@,
        lower != "support"@,
        lower != "data_entry"@,
        lower != "data"@,
    ensures
        persona_prompt(lower, persona).subrange(0, builtin::DEFAULT@.len() as int) == builtin::DEFAULT@,
        persona_prompt(lower, persona).subrange(
            (builtin::DEFAULT@.len() + "\n\nNote: Unknown persona '"@.len()) as int,
            (builtin::DEFAULT@.len() + "\n\nNote: Unknown persona '"@.len() + persona.len()) as int,
        ) == persona,
{
    let d = builtin::DEFAULT@;
    let note = "\n\nNote: Unknown persona '"@;
    let r = persona_prompt(lower, persona);
    assert(r == d + note + persona + "', using default."@);
    assert(r.subrange(0, d.len() as int) =~= d);
    assert(r.subrange((d.len() + note.len()) as int, (d.len() + note.len() + persona.len()) as int) =~= persona);
}

/// The system prompt a request asks for: its explicit prompt, else its persona's, else the
/// engine's own.
pub open spec fn chosen_prompt(
    explicit: Option<String>,
    persona: Option<String>,
    engine_prompt: Seq<char>,
) -> Seq<char> {
    match explicit {
        Some(p) => p@,
        None => match persona {
            Some(n) => persona_prompt(lower_of(n@), n@),
            None => engine_prompt,
        },
    }
}

/// One line of the tool list: `- name: description`.
pub open spec fn tool_line(t: ToolDefinition) -> Seq<char> {
    "- "@ + t.name@ + ": "@ + t.description@
}

/// The tool list, one line per tool.
pub open spec fn tool_lines(tools: Seq<ToolDefinition>) -> Seq<char>
    decreases tools.len(),
{
    if tools.len() == 0 {
        Seq::empty()
    } else if tools.len() == 1 {
        tool_line(tools[0])
    } else {
        tool_lines(tools.drop_last()) + "\n"@ + tool_line(tools.last())
    }
}

/// The instructions between the tool list and the schemas.
pub open spec fn tool_instructions() -> Seq<char> {
    "\n\nTo use a tool, respond with a JSON block in this format:\n```tool_call\n{\n  \"name\": \"tool_name\",\n  \"arguments\": {}\n}\n```\n\nTool schemas:\n```json\n"@
}

/// The full system prompt: the base prompt, and where tools are offered, the tool list, the
/// format of a call and the JSON schemas of the tools.
pub open spec fn prompt_with_tools(base: Seq<char>, tools: Seq<ToolDefinition>, tools_json: Seq<char>) -> Seq<char> {
    if tools.len() == 0 {
        base
    } else {
        base + "\n\n## Available Tools\n\nYou have access to the following tools:\n\n"@ + tool_lines(tools)
            + tool_instructions() + tools_json + "\n```"@
    }
}

/// Resolves the persona name and answers with its prompt.
pub fn resolve_persona(persona: &str) -> (r: String)
    ensures
        r@ == persona_prompt(lower_of(persona@), persona@),
        (forall|i: int| 0 <= i < persona@.len() ==> crate::text::ascii_not_upper(#[trigger] persona@[i]))
            ==> r@ == persona_prompt(persona@, persona@),
{
    let lower = lowercase(persona);
    let l = lower.as_str();
    if str_eq(l, "default") {
        String::from_str(builtin::DEFAULT)
    } else if str_eq(l, "business_analyst") || str_eq(l, "analyst") {
        String::from_str(builtin::BUSINESS_ANALYST)
    } else if str_eq(l, "tech_support") || str_eq(l, "support") {
        String::from_str(builtin::TECH_SUPPORT)
    } else if str_eq(l, "data_entry") || str_eq(l, "data") {
        String::from_str(builtin::DATA_ENTRY)
    } else {
        let mut out = chars_of(builtin::DEFAULT);
        push_str(&mut out, "\n\nNote: Unknown persona '");
        push_str(&mut out, persona);
        push_str(&mut out, "', using default.");
        string_of(out.as_slice())
    }
}

/// Builds the system prompt from a base prompt, the tool catalog and the catalog's JSON text.
pub fn build_system_prompt(base: &str, tools: &Vec<ToolDefinition>, tools_json: &str) -> (r: String)
    ensures
        r@ == prompt_with_tools(base@, tools@, tools_json@),
{
    if tools.len() == 0 {
        return String::from_str(base);
    }
    let mut out = chars_of(base);
    push_str(&mut out, "\n\n## Available Tools\n\nYou have access to the following tools:\n\n");
    let ghost head = out@;
    let mut i: usize = 0;
    while i < tools.len()
        invariant
            i <= tools@.len(),
            out@ == head + tool_lines(tools@.take(i as int)),
        decreases tools@.len() - i,
    {
        let ghost prev = out@;
        if i > 0 {
            push_str(&mut out, "\n");
        }
        push_str(&mut out, "- ");
        push_str(&mut out, tools[i].name.as_str());
        push_str(&mut out, ": ");
        push_str(&mut out, tools[i].description.as_str());
        proof {
            let t = tools@.take(i + 1);
            assert(t.drop_last() =~= tools@.take(i as int));
            assert(t.last() == tools@[i as int]);
            if i == 0 {
                assert(tools@.take(0) =~= Seq::<ToolDefinition>::empty());
                assert(out@ =~= head + tool_lines(t));
            } else {
                assert(out@ =~= head + tool_lines(t));
            }
        }
        i = i + 1;
    }
    proof {
        assert(tools@.take(i as int) =~= tools@);
    }
    push_str(
        &mut out,
        "\n\nTo use a tool, respond with a JSON block in this format:\n```tool_call\n{\n  \"name\": \"tool_name\",\n  \"arguments\": {}\n}\n```\n\nTool schemas:\n```json\n",
    );
    push_str(&mut out, tools_json);
    push_str(&mut out, "\n```");
    string_of(out.as_slice())
}

/// Turns the outcome of a dispatch into a tool result: an error becomes a failed result that
/// carries the error's text, so that the model can recover.
pub fn tool_result_of(outcome: Result<ToolResult, PluginError>) -> (r: ToolResult)
    ensures
        outcome matches Ok(t) ==> r == t,
        outcome matches Err(e) ==> !r.success && r.metadata is None && (r.error matches Some(m) && m@ == error_text(e)),
{
    match outcome {
        Ok(t) => t,
        Err(e) => {
            let m = e.message();
            ToolResult::failure(m.as_str())
        },
    }
}

/// What follows a model response.
pub enum TurnStep {
    /// Run these calls, record them, and ask the model again.
    CallTools(Vec<ToolCall>),
    /// The response is the final answer.
    Finish(String),
}

/// The state of one turn between model round trips.
pub struct Turn {
    pub conversation_id: String,
    /// The messages sent to the model: system prompt, history, user message, then the calls
    /// and results of this turn.
    pub messages: Vec<Message>,
    /// The calls made so far.
    pub tool_calls: Vec<ToolCallSummary>,
    /// Round trips begun so far.
    pub iterations: usize,
}

/// The round counter after one more round begins, or `None` when the bound forbids it.
pub open spec fn round_step(iterations: nat) -> Option<nat> {
    if iterations < MAX_TOOL_ITERATIONS {
        Some(iterations + 1)
    } else {
        None
    }
}

/// The round counter after `k` rounds begin from `start`, or `None` if one was refused.
pub open spec fn after_rounds(start: nat, k: nat) -> Option<nat>
    decreases k,
{
    if k == 0 {
        Some(start)
    } else {
        match after_rounds(start, (k - 1) as nat) {
            Some(j) => round_step(j),
            None => None,
        }
    }
}

/// A turn whose model asks for a tool on every response makes exactly `MAX_TOOL_ITERATIONS`
/// round trips: from a fresh turn every round up to the bound begins, and the next is refused.
pub proof fn lemma_round_bound(k: nat)
    ensures
        k <= MAX_TOOL_ITERATIONS ==> after_rounds(0, k) == Some(k),
        k > MAX_TOOL_ITERATIONS ==> after_rounds(0, k) is None,
    decreases k,
{
    if k > 0 {
        lemma_round_bound((k - 1) as nat);
    }
}

/// The identifier of the conversation a request continues, or a fresh one.
pub fn conversation_id_for(request: &ChatRequest) -> (r: String)
    ensures
        request.conversation_id matches Some(c) ==> r@ == c@,
        request.conversation_id is None ==> crate::conversation::hyphenated_uuid(r@),
{
    match &request.conversation_id {
        Some(c) => c.clone(),
        None => fresh_id(),
    }
}

/// The engine's own configuration of a turn.
pub struct ChatEngine {
    system_prompt: String,
}

impl ChatEngine {
    /// The prompt used when a request names neither a prompt nor a persona.
    pub closed spec fn base_prompt(&self) -> Seq<char> {
        self.system_prompt@
    }

    pub fn new() -> (r: Self)
        ensures
            r.base_prompt() == builtin::DEFAULT@,
    {
        ChatEngine { system_prompt: String::from_str(builtin::DEFAULT) }
    }

    /// Sets the prompt used when a request names neither a prompt nor a persona.
    pub fn with_system_prompt(self, prompt: &str) -> (r: Self)
        ensures
            r.base_prompt() == prompt@,
    {
        ChatEngine { system_prompt: String::from_str(prompt) }
    }

    /// The system prompt of a request: its explicit prompt, else its persona's, else the
    /// engine's own.
    pub fn system_prompt_for(&self, request: &ChatRequest) -> (r: String)
        ensures
            r@ == chosen_prompt(request.system_prompt, request.persona, self.base_prompt()),
    {
        match &request.system_prompt {
            Some(p) => p.clone(),
            None => match &request.persona {
                Some(n) => resolve_persona(n.as_str()),
                None => self.system_prompt.clone(),
            },
        }
    }

    /// Starts a turn: the system prompt with the tool catalog, the history, and the user's
    /// message.
    pub fn start_turn(
        &self,
        request: &ChatRequest,
        conversation_id: String,
        history: Vec<Message>,
        tools: &Vec<ToolDefinition>,
        tools_json: &str,
    ) -> (r: Turn)
        ensures
            r.conversation_id == conversation_id,
            r.iterations == 0,
            r.tool_calls@.len() == 0,
            r.messages@.len() == history@.len() + 2,
            r.messages@[0].role == Role::System,
            r.messages@[0].content@ == prompt_with_tools(
                chosen_prompt(request.system_prompt, request.persona, self.base_prompt()),
                tools@,
                tools_json@,
            ),
            r.messages@.subrange(1, history@.len() + 1 as int) == history@,
            r.messages@.last().role == Role::User,
            r.messages@.last().content@ == request.message@,
    {
        let base = self.system_prompt_for(request);
        let prompt = build_system_prompt(base.as_str(), tools, tools_json);
        let mut messages: Vec<Message> = Vec::new();
        messages.push(Message { role: Role::System, content: prompt });
        let mut h = history;
        let ghost hv = h@;
        messages.append(&mut h);
        messages.push(Message { role: Role::User, content: request.message.clone() });
        assert(messages@.subrange(1, hv.len() + 1 as int) =~= hv);
        Turn { conversation_id, messages, tool_calls: Vec::new(), iterations: 0 }
    }
}

impl Turn {
    /// Begins one more round trip to the model, or refuses with `MaxIterationsExceeded` once
    /// `MAX_TOOL_ITERATIONS` rounds have begun.
    pub fn begin_round(&mut self) -> (r: Result<(), ChatError>)
        ensures
            round_step(old(self).iterations as nat) matches Some(n) ==> (r is Ok && final(self).iterations == n),
            round_step(old(self).iterations as nat) is None ==> (r matches Err(ChatError::MaxIterationsExceeded) && final(self).iterations == old(self).iterations),
            final(self).messages == old(self).messages,
            final(self).tool_calls == old(self).tool_calls,
            final(self).conversation_id == old(self).conversation_id,
    {
        if self.iterations >= MAX_TOOL_ITERATIONS {
            return Err(ChatError::MaxIterationsExceeded);
        }
        self.iterations = self.iterations + 1;
        Ok(())
    }

    /// Decides what follows a model response: the calls it asks for, or the end of the turn.
    pub fn on_response(&self, content: String) -> (r: TurnStep)
        ensures
            tool_call_names(content@).len() == 0 ==> (r matches TurnStep::Finish(c) && c == content),
            tool_call_names(content@).len() > 0 ==> (r matches TurnStep::CallTools(calls) && call_names(calls@) == tool_call_names(content@)),
    {
        match extract_tool_calls(content.as_str()) {
            Some(calls) => TurnStep::CallTools(calls),
            None => TurnStep::Finish(content),
        }
    }

    /// Records one dispatched call: an assistant message echoing the call and a system message
    /// carrying its result are appended to the working messages, and the call is summarized.
    pub fn record_call(&mut self, name: &str, success: bool, arguments_text: &str, result_text: &str)
        ensures
            final(self).iterations == old(self).iterations,
            final(self).conversation_id == old(self).conversation_id,
            final(self).tool_calls@.len() == old(self).tool_calls@.len() + 1,
            final(self).tool_calls@.drop_last() == old(self).tool_calls@,
            final(self).tool_calls@.last().name@ == name@,
            final(self).tool_calls@.last().success == success,
            final(self).messages@.len() == old(self).messages@.len() + 2,
            final(self).messages@.take(old(self).messages@.len() as int) == old(self).messages@,
            final(self).messages@[old(self).messages@.len() as int].role == Role::Assistant,
            final(self).messages@[old(self).messages@.len() as int].content@ == "Tool call: "@ + name@
                + " with arguments: "@ + arguments_text@,
            final(self).messages@.last().role == Role::System,
            final(self).messages@.last().content@ == "Tool result for "@ + name@ + ": "@ + result_text@,
    {
        let ghost before = self.messages@;
        let ghost calls_before = self.tool_calls@;
        self.tool_calls.push(ToolCallSummary { name: String::from_str(name), success });
        let mut a = chars_of("Tool call: ");
        push_str(&mut a, name);
        push_str(&mut a, " with arguments: ");
        push_str(&mut a, arguments_text);
        self.messages.push(Message { role: Role::Assistant, content: string_of(a.as_slice()) });
        let mut b = chars_of("Tool result for ");
        push_str(&mut b, name);
        push_str(&mut b, ": ");
        push_str(&mut b, result_text);
        self.messages.push(Message { role: Role::System, content: string_of(b.as_slice()) });
        assert(self.messages@.take(before.len() as int) =~= before);
        assert(self.tool_calls@.drop_last() =~= calls_before);
    }

    /// Ends the turn with the model's final answer.
    pub fn finish(self, content: String) -> (r: ChatResponse)
        ensures
            r.message == content,
            r.conversation_id == self.conversation_id,
            r.tool_calls == self.tool_calls,
    {
        ChatResponse {
            message: content,
            conversation_id: self.conversation_id,
            tool_calls: self.tool_calls,
        }
    }
}

} // verus!

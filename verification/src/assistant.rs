//! The messages exchanged with the language-model services of the game
//! assistant, and the assistant's own log window.

use std::collections::VecDeque;
use vstd::prelude::*;

use crate::config::AssistantConfig;
use crate::text::{
    chars_of, concat2, contains, contains_text, same_text, starts_with, starts_with_text,
};

verus! {

/// One message of a conversation.
#[derive(Debug)]
pub struct Message {
    pub role: String,
    pub content: String,
}

/// A chat request to an Ollama server.
#[derive(Debug)]
pub struct OllamaChatRequest {
    pub model: String,
    pub messages: Vec<Message>,
    pub stream: bool,
}

/// The answer of an Ollama server to a chat request.
#[derive(Debug)]
pub struct OllamaChatResponse {
    pub model: String,
    pub created_at: String,
    pub message: Message,
    pub done: bool,
}

/// What an Ollama server tells of a model's build.
#[derive(Debug)]
pub struct OllamaModelDetails {
    pub format: Option<String>,
    pub family: Option<String>,
    pub parameter_size: Option<String>,
    pub quantization_level: Option<String>,
}

/// A model that an Ollama server offers.
#[derive(Debug)]
pub struct OllamaModel {
    pub name: String,
    pub modified_at: Option<String>,
    pub size: Option<u64>,
    pub digest: Option<String>,
    pub details: Option<OllamaModelDetails>,
}

/// The list of models of an Ollama server.
#[derive(Debug)]
pub struct OllamaTagsResponse {
    pub models: Vec<OllamaModel>,
}

/// A model as shown to the user.
#[derive(Debug)]
pub struct ModelInfo {
    pub id: String,
    pub name: String,
    pub size: Option<String>,
    pub details: Option<String>,
}

/// A chat request to an OpenAI-compatible service.
#[derive(Debug)]
pub struct OpenAIChatRequest {
    pub model: String,
    pub messages: Vec<Message>,
    pub stream: bool,
}

/// One of the answers in an OpenAI chat response.
#[derive(Debug)]
pub struct OpenAIChoice {
    pub index: i32,
    pub message: Message,
    pub finish_reason: Option<String>,
}

/// The answer of an OpenAI-compatible service to a chat request.
#[derive(Debug)]
pub struct OpenAIChatResponse {
    pub id: String,
    pub object: String,
    pub created: i64,
    pub model: String,
    pub choices: Vec<OpenAIChoice>,
}

/// A model that an OpenAI-compatible service offers.
#[derive(Debug)]
pub struct OpenAIModelData {
    pub id: String,
    pub object: String,
    pub created: Option<i64>,
    pub owned_by: Option<String>,
}

/// The list of models of an OpenAI-compatible service.
#[derive(Debug)]
pub struct OpenAIModelsResponse {
    pub object: String,
    pub data: Vec<OpenAIModelData>,
}

/// The figures that a service reports at the end of a streamed answer.
#[derive(Clone, Copy, Debug, PartialEq, Eq, Structural)]
pub struct GenerationStats {
    pub total_duration: u64,
    pub load_duration: u64,
    pub prompt_eval_count: u64,
    pub prompt_eval_duration: u64,
    pub eval_count: u64,
    pub eval_duration: u64,
}

/// A piece of a streamed answer as sent to the presentation layer.
#[derive(Debug)]
pub struct StreamChunk {
    pub content: String,
    pub done: bool,
    pub stats: Option<GenerationStats>,
}

/// One line of a streamed answer of an Ollama server.
#[derive(Debug)]
pub struct OllamaStreamResponse {
    pub model: Option<String>,
    pub created_at: Option<String>,
    pub message: Option<Message>,
    pub done: bool,
    pub total_duration: Option<u64>,
    pub load_duration: Option<u64>,
    pub prompt_eval_count: Option<u64>,
    pub prompt_eval_duration: Option<u64>,
    pub eval_count: Option<u64>,
    pub eval_duration: Option<u64>,
}

/// The new text in one event of a streamed OpenAI answer.
#[derive(Debug)]
pub struct OpenAIStreamDelta {
    pub role: Option<String>,
    pub content: Option<String>,
}

/// One of the answers in an event of a streamed OpenAI answer.
#[derive(Debug)]
pub struct OpenAIStreamChoice {
    pub index: i32,
    pub delta: OpenAIStreamDelta,
    pub finish_reason: Option<String>,
}

/// One event of a streamed OpenAI answer.
#[derive(Debug)]
pub struct OpenAIStreamResponse {
    pub id: Option<String>,
    pub object: Option<String>,
    pub created: Option<i64>,
    pub model: Option<String>,
    pub choices: Vec<OpenAIStreamChoice>,
}

/// The assistant's window on the game's log: the last lines, up to a
/// limit.
#[derive(Debug)]
pub struct GameAssistant {
    pub log_buffer: VecDeque<String>,
    pub max_log_lines: usize,
}

/// The lines of a log window as texts.
pub open spec fn lines_view(lines: Seq<String>) -> Seq<Seq<char>> {
    lines.map_values(|l: String| l@)
}

/// The lines joined by line feeds.
pub open spec fn joined_lines(lines: Seq<Seq<char>>) -> Seq<char>
    decreases lines.len(),
{
    if lines.len() == 0 {
        Seq::empty()
    } else if lines.len() == 1 {
        lines[0]
    } else {
        joined_lines(lines.drop_last()) + seq!['\n'] + lines.last()
    }
}

impl GameAssistant {
    /// An assistant with an empty window of a hundred lines.
    pub fn new() -> (assistant: Self)
        ensures
            assistant.log_buffer@.len() == 0,
            assistant.max_log_lines == 100,
    {
        GameAssistant { log_buffer: VecDeque::new(), max_log_lines: 100 }
    }

    /// Adds a line to the window. A window that is full gives up its
    /// oldest line first.
    pub fn add_log(&mut self, line: String)
        ensures
            final(self).max_log_lines == old(self).max_log_lines,
            lines_view(final(self).log_buffer@) == if old(self).log_buffer@.len() >= old(
                self,
            ).max_log_lines && old(self).log_buffer@.len() > 0 {
                lines_view(old(self).log_buffer@).drop_first().push(line@)
            } else {
                lines_view(old(self).log_buffer@).push(line@)
            },
    {
        let ghost before = lines_view(self.log_buffer@);
        if self.log_buffer.len() >= self.max_log_lines {
            let _ = self.log_buffer.pop_front();
        }
        self.log_buffer.push_back(line);
        assert(lines_view(self.log_buffer@) =~= if before.len() >= self.max_log_lines && before.len()
            > 0 {
            before.drop_first().push(line@)
        } else {
            before.push(line@)
        });
    }

    /// The lines of the window, joined by line feeds.
    pub fn get_log_context(&self) -> (context: String)
        ensures
            context@ == joined_lines(lines_view(self.log_buffer@)),
    {
        let ghost lines = lines_view(self.log_buffer@);
        let mut context = String::new();
        let mut i: usize = 0;
        assert(lines.take(0) =~= Seq::<Seq<char>>::empty());
        while i < self.log_buffer.len()
            invariant
                i <= self.log_buffer@.len(),
                lines == lines_view(self.log_buffer@),
                context@ == joined_lines(lines.take(i as int)),
            decreases self.log_buffer@.len() - i,
        {
            proof {
                assert(lines.take(i + 1).drop_last() =~= lines.take(i as int));
                assert(lines.take(i + 1).last() == self.log_buffer@[i as int]@);
                if i == 0 {
                    assert(lines.take(1)[0] == self.log_buffer@[0]@);
                    assert(Seq::<char>::empty() + self.log_buffer@[0]@ =~= self.log_buffer@[0]@);
                }
            }
            if i > 0 {
                context.append("\n");
                proof {
                    reveal_strlit("\n");
                    assert("\n"@ =~= seq!['\n']);
                }
            }
            context.append(self.log_buffer[i].as_str());
            i += 1;
        }
        assert(lines.take(self.log_buffer@.len() as int) =~= lines);
        context
    }
}

/// The service that answers the assistant's questions.
#[derive(Clone, Copy, Debug, PartialEq, Eq, Structural)]
pub enum LlmProvider {
    Ollama,
    OpenAi,
    Unknown,
}

/// The service that a provider name stands for.
pub fn provider_of(name: &str) -> (provider: LlmProvider)
    ensures
        provider == if name@ == "ollama"@ {
            LlmProvider::Ollama
        } else if name@ == "openai"@ {
            LlmProvider::OpenAi
        } else {
            LlmProvider::Unknown
        },
{
    if same_text(name, "ollama") {
        LlmProvider::Ollama
    } else if same_text(name, "openai") {
        LlmProvider::OpenAi
    } else {
        LlmProvider::Unknown
    }
}

/// The error for a provider name that stands for no service.
pub fn unknown_provider_message(name: &str) -> (message: String)
    ensures
        message@ == "Unknown LLM provider: "@ + name@,
{
    concat2("Unknown LLM provider: ", name)
}

/// Whether a key for the OpenAI service is set: there is one and it is
/// not empty.
pub fn openai_key_is_set(config: &AssistantConfig) -> (set: bool)
    ensures
        set == (config.openai_api_key matches Some(key) && key@.len() > 0),
{
    match &config.openai_api_key {
        Some(key) => key.as_str().unicode_len() > 0,
        None => false,
    }
}

/// The text that tells the model in which language to answer.
pub open spec fn language_note(language: Seq<char>) -> Seq<char> {
    "\n\nIMPORTANT: Respond in "@ + language
        + ". Do not include Pinyin or English translations unless explicitly requested."@
}

/// The text that hands the model the recent log.
pub open spec fn log_note(context: Seq<char>) -> Seq<char> {
    "\n\nRecent game logs:\n```\n"@ + context + "\n```"@
}

/// The system prompt: the configured prompt, then the language to answer
/// in unless it is `auto`, then the recent log unless it is empty.
pub open spec fn system_prompt_of(
    prompt: Seq<char>,
    language: Seq<char>,
    context: Seq<char>,
) -> Seq<char> {
    prompt + (if language == "auto"@ {
        Seq::empty()
    } else {
        language_note(language)
    }) + (if context.len() == 0 {
        Seq::empty()
    } else {
        log_note(context)
    })
}

/// The system prompt for a conversation, from the settings and the recent
/// log.
pub fn system_prompt(config: &AssistantConfig, context: &str) -> (prompt: String)
    ensures
        prompt@ == system_prompt_of(config.system_prompt@, config.response_language@, context@),
{
    let mut prompt = config.system_prompt.clone();
    let ghost base = prompt@;
    if !same_text(config.response_language.as_str(), "auto") {
        prompt.append("\n\nIMPORTANT: Respond in ");
        prompt.append(config.response_language.as_str());
        prompt.append(
            ". Do not include Pinyin or English translations unless explicitly requested.",
        );
        assert(prompt@ =~= base + language_note(config.response_language@));
    } else {
        assert(prompt@ =~= base + Seq::<char>::empty());
    }
    let ghost middle = prompt@;
    if context.unicode_len() > 0 {
        prompt.append("\n\nRecent game logs:\n```\n");
        prompt.append(context);
        prompt.append("\n```");
        assert(prompt@ =~= middle + log_note(context@));
    } else {
        assert(prompt@ =~= middle + Seq::<char>::empty());
    }
    prompt
}

/// Some message of the conversation is a system message.
pub open spec fn has_system_message(messages: Seq<Message>) -> bool {
    exists|i: int| 0 <= i < messages.len() && (#[trigger] messages[i]).role@ == "system"@
}

/// Whether some message of the conversation is a system message.
pub fn holds_system_message(messages: &Vec<Message>) -> (found: bool)
    ensures
        found == has_system_message(messages@),
{
    let mut i: usize = 0;
    while i < messages.len()
        invariant
            i <= messages@.len(),
            forall|k: int| 0 <= k < i ==> (#[trigger] messages@[k]).role@ != "system"@,
        decreases messages@.len() - i,
    {
        if same_text(messages[i].role.as_str(), "system") {
            return true;
        }
        i += 1;
    }
    false
}

/// Puts the system prompt before a conversation that has no system
/// message; a conversation that has one stays as it is.
pub fn with_system_prompt(messages: Vec<Message>, config: &AssistantConfig, context: &str) -> (out:
    Vec<Message>)
    ensures
        has_system_message(messages@) ==> out@ == messages@,
        !has_system_message(messages@) ==> {
            &&& out@.len() == messages@.len() + 1
            &&& out@[0].role@ == "system"@
            &&& out@[0].content@ == system_prompt_of(
                config.system_prompt@,
                config.response_language@,
                context@,
            )
            &&& out@.subrange(1, out@.len() as int) == messages@
        },
{
    if holds_system_message(&messages) {
        return messages;
    }
    let mut out = messages;
    let ghost before = out@;
    out.insert(
        0,
        Message { role: "system".to_string(), content: system_prompt(config, context) },
    );
    assert(out@.subrange(1, out@.len() as int) =~= before);
    out
}

/// Whether a model of the OpenAI service is one to chat with, by its
/// name: it begins with `gpt-` or `o1`, or holds `turbo`.
pub fn is_chat_model(id: &str) -> (chat: bool)
    ensures
        chat == (starts_with_text(id@, "gpt-"@) || starts_with_text(id@, "o1"@) || contains_text(
            id@,
            "turbo"@,
        )),
{
    let chars = chars_of(id);
    let s = chars.as_slice();
    starts_with(s, chars_of("gpt-").as_slice()) || starts_with(s, chars_of("o1").as_slice())
        || contains(s, chars_of("turbo").as_slice())
}

/// What is shown of a model's build: its family, its parameter size and
/// its quantization, as far as they are known, joined by ` / `.
pub open spec fn details_text_of(details: OllamaModelDetails) -> Seq<char> {
    joined_by_slash(detail_parts_of(details))
}

/// What is known of a model's build, in the order shown.
pub open spec fn detail_parts_of(details: OllamaModelDetails) -> Seq<Seq<char>> {
    let family: Seq<Seq<char>> = match details.family {
        Some(f) => seq![f@],
        None => Seq::empty(),
    };
    let size: Seq<Seq<char>> = match details.parameter_size {
        Some(p) => seq![p@],
        None => Seq::empty(),
    };
    let quant: Seq<Seq<char>> = match details.quantization_level {
        Some(q) => seq![q@],
        None => Seq::empty(),
    };
    family + size + quant
}

/// The parts joined by ` / `.
pub open spec fn joined_by_slash(parts: Seq<Seq<char>>) -> Seq<char>
    decreases parts.len(),
{
    if parts.len() == 0 {
        Seq::empty()
    } else if parts.len() == 1 {
        parts[0]
    } else {
        joined_by_slash(parts.drop_last()) + " / "@ + parts.last()
    }
}

/// What is shown of a model's build.
pub fn details_text(details: &OllamaModelDetails) -> (text: String)
    ensures
        text@ == details_text_of(*details),
{
    let mut parts: Vec<String> = Vec::new();
    match &details.family {
        Some(f) => {
            parts.push(f.clone());
        },
        None => {},
    }
    match &details.parameter_size {
        Some(p) => {
            parts.push(p.clone());
        },
        None => {},
    }
    match &details.quantization_level {
        Some(q) => {
            parts.push(q.clone());
        },
        None => {},
    }
    let ghost texts = lines_view(parts@);
    assert(texts =~= detail_parts_of(*details));
    let mut text = String::new();
    let mut i: usize = 0;
    assert(texts.take(0) =~= Seq::<Seq<char>>::empty());
    while i < parts.len()
        invariant
            i <= parts@.len(),
            texts == lines_view(parts@),
            text@ == joined_by_slash(texts.take(i as int)),
        decreases parts@.len() - i,
    {
        proof {
            assert(texts.take(i + 1).drop_last() =~= texts.take(i as int));
            assert(texts.take(i + 1).last() == parts@[i as int]@);
            if i == 0 {
                assert(texts.take(1)[0] == parts@[0]@);
                assert(Seq::<char>::empty() + parts@[0]@ =~= parts@[0]@);
            }
        }
        if i > 0 {
            text.append(" / ");
        }
        text.append(parts[i].as_str());
        i += 1;
    }
    assert(texts.take(parts@.len() as int) =~= texts);
    text
}

/// The figures at the end of a streamed answer, if the service gave all
/// six of them.
pub fn generation_stats(response: &OllamaStreamResponse) -> (stats: Option<GenerationStats>)
    ensures
        stats == match (
            response.total_duration,
            response.load_duration,
            response.prompt_eval_count,
            response.prompt_eval_duration,
            response.eval_count,
            response.eval_duration,
        ) {
            (Some(total), Some(load), Some(prompt_count), Some(prompt), Some(count), Some(eval)) => Some(
                GenerationStats {
                    total_duration: total,
                    load_duration: load,
                    prompt_eval_count: prompt_count,
                    prompt_eval_duration: prompt,
                    eval_count: count,
                    eval_duration: eval,
                },
            ),
            _ => None,
        },
{
    match (
        response.total_duration,
        response.load_duration,
        response.prompt_eval_count,
        response.prompt_eval_duration,
        response.eval_count,
        response.eval_duration,
    ) {
        (Some(total), Some(load), Some(prompt_count), Some(prompt), Some(count), Some(eval)) => Some(
            GenerationStats {
                total_duration: total,
                load_duration: load,
                prompt_eval_count: prompt_count,
                prompt_eval_duration: prompt,
                eval_count: count,
                eval_duration: eval,
            },
        ),
        _ => None,
    }
}

} // verus!

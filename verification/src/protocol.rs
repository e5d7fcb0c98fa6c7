//! The messages between the supervisor and a worker, and how they are written
//! as JSON documents: a message without content is the string of its name, a
//! message with content an object whose one member is named after it.

use crate::json::{lemma_tagged_single, Json, JsonValue};
use crate::logs::{accepted_timestamp, lemma_entry_round_trip, LogEntry, LogEntryView};
use crate::text::str_eq;
use vstd::prelude::*;

verus! {

/// Messages sent from the supervisor to a worker.
#[derive(Debug, PartialEq)]
pub enum MainToRuntime {
    /// Start the runtime with this configuration.
    Start(Json),
    /// Stop the runtime.
    Stop,
    /// Report the configuration the runtime works with.
    GetConfig,
}

/// Messages sent from a worker to the supervisor.
#[derive(Debug, PartialEq)]
pub enum RuntimeToMain {
    /// The runtime started, under this identity.
    Started(String),
    /// The runtime could not start, for this reason.
    StartError(String),
    /// A log entry of the runtime.
    Log(LogEntry),
    /// The runtime stopped.
    Stopped,
    /// The configuration the runtime works with.
    Config(Json),
}

/// What a message to a worker holds.
pub enum MainToRuntimeView {
    Start(JsonValue),
    Stop,
    GetConfig,
}

/// What a message from a worker holds.
pub enum RuntimeToMainView {
    Started(Seq<char>),
    StartError(Seq<char>),
    Log(LogEntryView),
    Stopped,
    Config(JsonValue),
}

impl View for MainToRuntime {
    type V = MainToRuntimeView;

    open spec fn view(&self) -> MainToRuntimeView {
        match self {
            MainToRuntime::Start(config) => MainToRuntimeView::Start(config@),
            MainToRuntime::Stop => MainToRuntimeView::Stop,
            MainToRuntime::GetConfig => MainToRuntimeView::GetConfig,
        }
    }
}

impl View for RuntimeToMain {
    type V = RuntimeToMainView;

    open spec fn view(&self) -> RuntimeToMainView {
        match self {
            RuntimeToMain::Started(id) => RuntimeToMainView::Started(id@),
            RuntimeToMain::StartError(reason) => RuntimeToMainView::StartError(reason@),
            RuntimeToMain::Log(entry) => RuntimeToMainView::Log(entry@),
            RuntimeToMain::Stopped => RuntimeToMainView::Stopped,
            RuntimeToMain::Config(config) => RuntimeToMainView::Config(config@),
        }
    }
}

impl Clone for MainToRuntime {
    fn clone(&self) -> (r: Self)
        ensures
            r@ == self@,
    {
        match self {
            MainToRuntime::Start(config) => MainToRuntime::Start(config.clone()),
            MainToRuntime::Stop => MainToRuntime::Stop,
            MainToRuntime::GetConfig => MainToRuntime::GetConfig,
        }
    }
}

impl Clone for RuntimeToMain {
    fn clone(&self) -> (r: Self)
        ensures
            r@ == self@,
    {
        match self {
            RuntimeToMain::Started(id) => RuntimeToMain::Started(id.clone()),
            RuntimeToMain::StartError(reason) => RuntimeToMain::StartError(reason.clone()),
            RuntimeToMain::Log(entry) => RuntimeToMain::Log(entry.clone()),
            RuntimeToMain::Stopped => RuntimeToMain::Stopped,
            RuntimeToMain::Config(config) => RuntimeToMain::Config(config.clone()),
        }
    }
}

impl MainToRuntimeView {
    /// The message as a JSON document.
    pub open spec fn to_json(self) -> JsonValue {
        match self {
            MainToRuntimeView::Start(config) => JsonValue::tagged("Start"@, config),
            MainToRuntimeView::Stop => JsonValue::String("Stop"@),
            MainToRuntimeView::GetConfig => JsonValue::String("GetConfig"@),
        }
    }

    /// The message that a JSON document holds, if it holds one. A message
    /// without content may also come as an object whose one member is null.
    pub open spec fn from_json(json: JsonValue) -> Option<MainToRuntimeView> {
        match json {
            JsonValue::String(name) => if name == "Stop"@ {
                Some(MainToRuntimeView::Stop)
            } else if name == "GetConfig"@ {
                Some(MainToRuntimeView::GetConfig)
            } else {
                None
            },
            _ => match json.single_member() {
                Some((name, content)) => if name == "Start"@ {
                    Some(MainToRuntimeView::Start(content))
                } else if name == "Stop"@ && content is Null {
                    Some(MainToRuntimeView::Stop)
                } else if name == "GetConfig"@ && content is Null {
                    Some(MainToRuntimeView::GetConfig)
                } else {
                    None
                },
                None => None,
            },
        }
    }
}

impl RuntimeToMainView {
    /// The message as a JSON document.
    pub open spec fn to_json(self) -> JsonValue {
        match self {
            RuntimeToMainView::Started(id) => JsonValue::tagged(
                "Started"@,
                JsonValue::String(id),
            ),
            RuntimeToMainView::StartError(reason) => JsonValue::tagged(
                "StartError"@,
                JsonValue::String(reason),
            ),
            RuntimeToMainView::Log(entry) => JsonValue::tagged("Log"@, entry.to_json()),
            RuntimeToMainView::Stopped => JsonValue::String("Stopped"@),
            RuntimeToMainView::Config(config) => JsonValue::tagged("Config"@, config),
        }
    }

    /// The message that a JSON document holds, if it holds one. A message
    /// without content may also come as an object whose one member is null;
    /// the timestamp of a log entry must be one.
    pub open spec fn from_json(json: JsonValue) -> Option<RuntimeToMainView> {
        match json {
            JsonValue::String(name) => if name == "Stopped"@ {
                Some(RuntimeToMainView::Stopped)
            } else {
                None
            },
            _ => match json.single_member() {
                Some((name, content)) => if name == "Started"@ {
                    match content {
                        JsonValue::String(id) => Some(RuntimeToMainView::Started(id)),
                        _ => None,
                    }
                } else if name == "StartError"@ {
                    match content {
                        JsonValue::String(reason) => Some(RuntimeToMainView::StartError(reason)),
                        _ => None,
                    }
                } else if name == "Log"@ {
                    match LogEntryView::from_json(content) {
                        Some(entry) => Some(RuntimeToMainView::Log(entry)),
                        None => None,
                    }
                } else if name == "Stopped"@ && content is Null {
                    Some(RuntimeToMainView::Stopped)
                } else if name == "Config"@ {
                    Some(RuntimeToMainView::Config(content))
                } else {
                    None
                },
                None => None,
            },
        }
    }

    /// Whether the message carries no timestamp that is refused.
    pub open spec fn timestamps_accepted(self) -> bool {
        match self {
            RuntimeToMainView::Log(entry) => accepted_timestamp(entry.timestamp),
            _ => true,
        }
    }
}

/// The names of the messages differ from one another.
proof fn lemma_names_differ()
    ensures
        "Start"@ != "Stop"@,
        "Start"@ != "GetConfig"@,
        "Stop"@ != "GetConfig"@,
        "Started"@ != "StartError"@,
        "Started"@ != "Log"@,
        "Started"@ != "Stopped"@,
        "Started"@ != "Config"@,
        "StartError"@ != "Log"@,
        "StartError"@ != "Stopped"@,
        "StartError"@ != "Config"@,
        "Log"@ != "Stopped"@,
        "Log"@ != "Config"@,
        "Stopped"@ != "Config"@,
{
    reveal_strlit("Start");
    reveal_strlit("Stop");
    reveal_strlit("GetConfig");
    reveal_strlit("Started");
    reveal_strlit("StartError");
    reveal_strlit("Log");
    reveal_strlit("Stopped");
    reveal_strlit("Config");
    assert("Start"@.len() == 5);
    assert("Stop"@.len() == 4);
    assert("GetConfig"@.len() == 9);
    assert("Started"@.len() == 7);
    assert("StartError"@.len() == 10);
    assert("Log"@.len() == 3);
    assert("Stopped"@.len() == 7);
    assert("Config"@.len() == 6);
    assert("Started"@[3] == 'r');
    assert("Stopped"@[3] == 'p');
}

/// A message to a worker written as JSON is read back as it was.
pub proof fn lemma_main_to_runtime_round_trip(message: MainToRuntimeView)
    ensures
        MainToRuntimeView::from_json(message.to_json()) == Some(message),
{
    lemma_names_differ();
    match message {
        MainToRuntimeView::Start(config) => lemma_tagged_single("Start"@, config),
        _ => {},
    }
}

/// A message from a worker written as JSON is read back as it was, unless it
/// carries a log entry whose timestamp is refused: such a message is not read.
pub proof fn lemma_runtime_to_main_round_trip(message: RuntimeToMainView)
    ensures
        RuntimeToMainView::from_json(message.to_json()) == if message.timestamps_accepted() {
            Some(message)
        } else {
            None
        },
{
    lemma_names_differ();
    match message {
        RuntimeToMainView::Started(id) => lemma_tagged_single("Started"@, JsonValue::String(id)),
        RuntimeToMainView::StartError(reason) => lemma_tagged_single(
            "StartError"@,
            JsonValue::String(reason),
        ),
        RuntimeToMainView::Log(entry) => {
            lemma_tagged_single("Log"@, entry.to_json());
            lemma_entry_round_trip(entry);
        },
        RuntimeToMainView::Stopped => {},
        RuntimeToMainView::Config(config) => lemma_tagged_single("Config"@, config),
    }
}

impl MainToRuntime {
    /// Writes the message as a JSON document.
    pub fn to_json(&self) -> (r: Json)
        ensures
            r@ == self@.to_json(),
    {
        match self {
            MainToRuntime::Start(config) => Json::tagged("Start", config.clone()),
            MainToRuntime::Stop => Json::String(String::from_str("Stop")),
            MainToRuntime::GetConfig => Json::String(String::from_str("GetConfig")),
        }
    }

    /// Reads a message from a JSON document; none where the document holds
    /// none.
    pub fn from_json(json: &Json) -> (r: Option<MainToRuntime>)
        ensures
            match r {
                Some(message) => MainToRuntimeView::from_json(json@) == Some(message@),
                None => MainToRuntimeView::from_json(json@) is None,
            },
    {
        match json {
            Json::String(name) => {
                if str_eq(name.as_str(), "Stop") {
                    Some(MainToRuntime::Stop)
                } else if str_eq(name.as_str(), "GetConfig") {
                    Some(MainToRuntime::GetConfig)
                } else {
                    None
                }
            },
            _ => match json.single_member() {
                Some((name, content)) => {
                    if str_eq(name, "Start") {
                        Some(MainToRuntime::Start(content.clone()))
                    } else if str_eq(name, "Stop") && is_null(content) {
                        Some(MainToRuntime::Stop)
                    } else if str_eq(name, "GetConfig") && is_null(content) {
                        Some(MainToRuntime::GetConfig)
                    } else {
                        None
                    }
                },
                None => None,
            },
        }
    }
}

/// Whether a document is null.
pub fn is_null(json: &Json) -> (r: bool)
    ensures
        r == (json@ is Null),
{
    match json {
        Json::Null => true,
        _ => false,
    }
}

impl RuntimeToMain {
    /// Writes the message as a JSON document.
    pub fn to_json(&self) -> (r: Json)
        ensures
            r@ == self@.to_json(),
    {
        match self {
            RuntimeToMain::Started(id) => Json::tagged("Started", Json::String(id.clone())),
            RuntimeToMain::StartError(reason) => Json::tagged(
                "StartError",
                Json::String(reason.clone()),
            ),
            RuntimeToMain::Log(entry) => Json::tagged("Log", entry.to_json()),
            RuntimeToMain::Stopped => Json::String(String::from_str("Stopped")),
            RuntimeToMain::Config(config) => Json::tagged("Config", config.clone()),
        }
    }

    /// Reads a message from a JSON document; none where the document holds
    /// none, or holds a log entry whose timestamp is refused.
    pub fn from_json(json: &Json) -> (r: Option<RuntimeToMain>)
        ensures
            match r {
                Some(message) => RuntimeToMainView::from_json(json@) == Some(message@),
                None => RuntimeToMainView::from_json(json@) is None,
            },
    {
        match json {
            Json::String(name) => {
                if str_eq(name.as_str(), "Stopped") {
                    Some(RuntimeToMain::Stopped)
                } else {
                    None
                }
            },
            _ => match json.single_member() {
                Some((name, content)) => {
                    if str_eq(name, "Started") {
                        match content {
                            Json::String(id) => Some(RuntimeToMain::Started(id.clone())),
                            _ => None,
                        }
                    } else if str_eq(name, "StartError") {
                        match content {
                            Json::String(reason) => Some(
                                RuntimeToMain::StartError(reason.clone()),
                            ),
                            _ => None,
                        }
                    } else if str_eq(name, "Log") {
                        match LogEntry::from_json(content) {
                            Some(entry) => Some(RuntimeToMain::Log(entry)),
                            None => None,
                        }
                    } else if str_eq(name, "Stopped") && is_null(content) {
                        Some(RuntimeToMain::Stopped)
                    } else if str_eq(name, "Config") {
                        Some(RuntimeToMain::Config(content.clone()))
                    } else {
                        None
                    }
                },
                None => None,
            },
        }
    }
}

} // verus!

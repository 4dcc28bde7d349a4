//! Configuration that is attached to an agent when it is built.

use vstd::prelude::*;

verus! {

/// The model an agent asks for when no other is configured.
pub const DEFAULT_MODEL: &'static str = "gpt-4";

/// How many automatic replies in a row an agent may send unless told otherwise.
pub const MAX_CONSECUTIVE_AUTO_REPLY: u32 = 100;

/// How many envelopes a mailbox holds before its senders have to wait.
pub const MAILBOX_CAPACITY: usize = 100;

/// The payload of the default reply source, which stands in for a reply
/// source outside the library.
pub const DEFAULT_REPLY: &'static str = "fake message";

/// The description an assistant presents unless told otherwise.
pub const ASSISTANT_DESCRIPTION: &'static str = "A helpful and general-purpose AI assistant that has strong language skills, Python skills, and Linux command line skills.";

/// The system message an assistant starts from unless told otherwise.
pub const ASSISTANT_SYSTEM_MESSAGE: &'static str = "You are a helpful AI assistant.
Solve tasks using your coding and language skills.
In the following cases, suggest Rust code (in a Rust coding block) or shell script (in a sh coding block) for the user to execute.
    1. When you need to collect info, use the code to output the info you need, for example, browse or search the web, download/read a file, print the content of a webpage or a file, get the current date/time, check the operating system. After sufficient info is printed and the task is ready to be solved based on your language skill, you can solve the task by yourself.
    2. When you need to perform some task with code, use the code to perform the task and output the result. Finish the task smartly.
Solve the task step by step if you need to. If a plan is not provided, explain your plan first. Be clear which step uses code, and which step uses your language skill.
When using code, you must indicate the script type in the code block. The user cannot provide any other feedback or perform any other action beyond executing the code you suggest. The user can't modify your code. So do not suggest incomplete code which requires users to modify. Don't use a code block if it's not intended to be executed by the user.
If you want the user to save the code in a file before executing it, put # filename: <filename> inside the code block as the first line. Don't include multiple code blocks in one response. Do not ask users to copy and paste the result. Instead, use 'print' function for the output when relevant. Check the execution result returned by the user.
If the result indicates there is an error, fix the error and output the code again. Suggest the full code instead of partial code or code changes. If the error can't be fixed or if the task is not solved even after the code is executed successfully, analyze the problem, revisit your assumption, collect additional info you need, and think of a different approach to try.
When you find an answer, verify the answer carefully. Include verifiable evidence in your response if possible.
Reply \"TERMINATE\" in the end when everything is done.";

/// Configuration of one language-model endpoint. The agents carry a list of
/// these and never look inside.
#[derive(Debug, PartialEq, Eq)]
pub struct Config {
    pub model: String,
    pub base_url: String,
    pub api_key: String,
    pub api_type: Option<String>,
    pub api_version: Option<String>,
}

/// A copy of an optional string.
fn copy_of(text: &Option<String>) -> (copy: Option<String>)
    ensures
        copy == *text,
{
    match text {
        Some(present) => Some(present.clone()),
        None => None,
    }
}

impl Clone for Config {
    fn clone(&self) -> (copy: Self)
        ensures
            copy == *self,
    {
        Config {
            model: self.model.clone(),
            base_url: self.base_url.clone(),
            api_key: self.api_key.clone(),
            api_type: copy_of(&self.api_type),
            api_version: copy_of(&self.api_version),
        }
    }
}

/// A copy of a configuration list, entry by entry.
pub fn copy_configs(list: &Vec<Config>) -> (copy: Vec<Config>)
    ensures
        copy@ == list@,
{
    let mut copy: Vec<Config> = Vec::new();
    let mut i: usize = 0;
    while i < list.len()
        invariant
            i <= list.len(),
            copy@ == list@.subrange(0, i as int),
        decreases list.len() - i,
    {
        copy.push(list[i].clone());
        i = i + 1;
    }
    copy
}

/// The defaults an agent is built with. They are passed to the agent when it
/// is constructed; nothing is inherited from a shared interface.
#[derive(Debug, PartialEq, Eq)]
pub struct AgentSettings {
    pub model: String,
    pub description: String,
    pub system_message: String,
    pub max_consecutive_auto_reply: u32,
}

/// What the protocol reads of an agent's settings, and what is merely carried.
pub struct AgentSettingsView {
    pub model: Seq<char>,
    pub description: Seq<char>,
    pub system_message: Seq<char>,
    pub max_consecutive_auto_reply: nat,
}

impl View for AgentSettings {
    type V = AgentSettingsView;

    open spec fn view(&self) -> AgentSettingsView {
        AgentSettingsView {
            model: self.model@,
            description: self.description@,
            system_message: self.system_message@,
            max_consecutive_auto_reply: self.max_consecutive_auto_reply as nat,
        }
    }
}

/// The settings of an agent that was told nothing.
pub open spec fn plain_settings() -> AgentSettingsView {
    AgentSettingsView {
        model: DEFAULT_MODEL@,
        description: Seq::empty(),
        system_message: Seq::empty(),
        max_consecutive_auto_reply: MAX_CONSECUTIVE_AUTO_REPLY as nat,
    }
}

/// The settings of an assistant that was told nothing.
pub open spec fn assistant_settings() -> AgentSettingsView {
    AgentSettingsView {
        model: DEFAULT_MODEL@,
        description: ASSISTANT_DESCRIPTION@,
        system_message: ASSISTANT_SYSTEM_MESSAGE@,
        max_consecutive_auto_reply: MAX_CONSECUTIVE_AUTO_REPLY as nat,
    }
}

impl Clone for AgentSettings {
    fn clone(&self) -> (copy: Self)
        ensures
            copy@ == self@,
    {
        AgentSettings {
            model: self.model.clone(),
            description: self.description.clone(),
            system_message: self.system_message.clone(),
            max_consecutive_auto_reply: self.max_consecutive_auto_reply,
        }
    }
}

impl Default for AgentSettings {
    /// The default model, the default ceiling, no description and no system
    /// message.
    fn default() -> (settings: Self)
        ensures
            settings@ == plain_settings(),
    {
        AgentSettings {
            model: DEFAULT_MODEL.to_owned(),
            description: String::new(),
            system_message: String::new(),
            max_consecutive_auto_reply: MAX_CONSECUTIVE_AUTO_REPLY,
        }
    }
}

impl AgentSettings {
    /// The defaults of an assistant: the default model and ceiling, with the
    /// assistant's description and system message.
    pub fn assistant() -> (settings: Self)
        ensures
            settings@ == assistant_settings(),
    {
        AgentSettings {
            model: DEFAULT_MODEL.to_owned(),
            description: ASSISTANT_DESCRIPTION.to_owned(),
            system_message: ASSISTANT_SYSTEM_MESSAGE.to_owned(),
            max_consecutive_auto_reply: MAX_CONSECUTIVE_AUTO_REPLY,
        }
    }
}

} // verus!

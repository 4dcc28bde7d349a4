//! Builders: templates from which agents are made.
//!
//! A builder holds the name and the configuration of the agent to make. Each
//! `build` makes an agent of its own, with an empty conversation log; the
//! runtime gives every agent a mailbox of its own.

use crate::agent::assistant::Assistant;
use crate::agent::user_proxy::UserProxy;
use crate::agent::AgentCtx;
use crate::config::{assistant_settings, copy_configs, plain_settings, AgentSettings, Config};
use crate::protocol::fresh;
use vstd::prelude::*;

verus! {

/// Trait for building agents.
pub trait Builder {
    /// The kind of agent that is built.
    type BuildType;

    /// Makes the agent, and the identity under which other agents reach it.
    fn build(self) -> (Self::BuildType, AgentCtx);
}

#[derive(Debug)]
pub struct UserProxyBuilder<'a> {
    pub name: &'a str,
    pub config_list: Vec<Config>,
    pub settings: AgentSettings,
}

#[derive(Debug)]
pub struct AssistantBuilder<'a> {
    pub name: &'a str,
    pub config_list: Vec<Config>,
    pub settings: AgentSettings,
}

impl<'a> Builder for AssistantBuilder<'a> {
    type BuildType = Assistant;

    /// An assistant with the builder's name and configuration, which has
    /// exchanged nothing yet and has no callbacks, and its identity.
    fn build(self) -> (built: (Assistant, AgentCtx))
        ensures
            built.0@ == fresh(self.name@, self.settings.max_consecutive_auto_reply as nat),
            built.0.config_list == self.config_list,
            built.0.settings == self.settings,
            built.0.reply_fn_list@ == Seq::<Seq<char>>::empty(),
            built.1 == built.0.ctx,
            built.1@ == self.name@,
    {
        let agent = Assistant::with_settings(self.name, self.config_list, self.settings);
        let ctx = agent.ctx.clone();
        (agent, ctx)
    }
}

impl<'a> AssistantBuilder<'a> {
    /// A template for an assistant called `name`, with no configuration list
    /// and the assistant's default settings.
    pub fn new(name: &'a str) -> (builder: Self)
        ensures
            builder.name@ == name@,
            builder.config_list@ == Seq::<Config>::empty(),
            builder.settings@ == assistant_settings(),
    {
        AssistantBuilder { name, config_list: Vec::new(), settings: AgentSettings::assistant() }
    }

    /// The same template under another name.
    pub fn name(self, name: &'a str) -> (builder: Self)
        ensures
            builder.name@ == name@,
            builder.config_list == self.config_list,
            builder.settings == self.settings,
    {
        AssistantBuilder { name, config_list: self.config_list, settings: self.settings }
    }

    /// The same template with another configuration list.
    pub fn config_list(self, config_list: Vec<Config>) -> (builder: Self)
        ensures
            builder.name == self.name,
            builder.config_list == config_list,
            builder.settings == self.settings,
    {
        AssistantBuilder { name: self.name, config_list, settings: self.settings }
    }

    /// The same template with other settings.
    pub fn settings(self, settings: AgentSettings) -> (builder: Self)
        ensures
            builder.name == self.name,
            builder.config_list == self.config_list,
            builder.settings == settings,
    {
        AssistantBuilder { name: self.name, config_list: self.config_list, settings }
    }
}

impl<'a> Clone for AssistantBuilder<'a> {
    fn clone(&self) -> (copy: Self)
        ensures
            copy.name == self.name,
            copy.config_list@ == self.config_list@,
            copy.settings@ == self.settings@,
    {
        AssistantBuilder {
            name: self.name,
            config_list: copy_configs(&self.config_list),
            settings: self.settings.clone(),
        }
    }
}

impl<'a> Default for AssistantBuilder<'a> {
    /// The template of a nameless assistant.
    fn default() -> (builder: Self)
        ensures
            builder.name@ == Seq::<char>::empty(),
            builder.config_list@ == Seq::<Config>::empty(),
            builder.settings@ == assistant_settings(),
    {
        proof {
            reveal_strlit("");
        }
        AssistantBuilder { name: "", config_list: Vec::new(), settings: AgentSettings::assistant() }
    }
}

impl<'a> Builder for UserProxyBuilder<'a> {
    type BuildType = UserProxy;

    /// A user proxy with the builder's name and configuration, which has
    /// exchanged nothing yet, and its identity.
    fn build(self) -> (built: (UserProxy, AgentCtx))
        ensures
            built.0@ == fresh(self.name@, self.settings.max_consecutive_auto_reply as nat),
            built.0.config_list == self.config_list,
            built.0.settings == self.settings,
            built.1 == built.0.ctx,
            built.1@ == self.name@,
    {
        let agent = UserProxy::with_settings(self.name, self.config_list, self.settings);
        let ctx = agent.ctx.clone();
        (agent, ctx)
    }
}

impl<'a> UserProxyBuilder<'a> {
    /// A template for a user proxy called `name`, with no configuration list
    /// and the default settings.
    pub fn new(name: &'a str) -> (builder: Self)
        ensures
            builder.name@ == name@,
            builder.config_list@ == Seq::<Config>::empty(),
            builder.settings@ == plain_settings(),
    {
        UserProxyBuilder { name, config_list: Vec::new(), settings: AgentSettings::default() }
    }

    /// The same template under another name.
    pub fn name(self, name: &'a str) -> (builder: Self)
        ensures
            builder.name@ == name@,
            builder.config_list == self.config_list,
            builder.settings == self.settings,
    {
        UserProxyBuilder { name, config_list: self.config_list, settings: self.settings }
    }

    /// The same template with another configuration list.
    pub fn config_list(self, config_list: Vec<Config>) -> (builder: Self)
        ensures
            builder.name == self.name,
            builder.config_list == config_list,
            builder.settings == self.settings,
    {
        UserProxyBuilder { name: self.name, config_list, settings: self.settings }
    }

    /// The same template with other settings.
    pub fn settings(self, settings: AgentSettings) -> (builder: Self)
        ensures
            builder.name == self.name,
            builder.config_list == self.config_list,
            builder.settings == settings,
    {
        UserProxyBuilder { name: self.name, config_list: self.config_list, settings }
    }
}

impl<'a> Clone for UserProxyBuilder<'a> {
    fn clone(&self) -> (copy: Self)
        ensures
            copy.name == self.name,
            copy.config_list@ == self.config_list@,
            copy.settings@ == self.settings@,
    {
        UserProxyBuilder {
            name: self.name,
            config_list: copy_configs(&self.config_list),
            settings: self.settings.clone(),
        }
    }
}

impl<'a> Default for UserProxyBuilder<'a> {
    /// The template of a nameless user proxy.
    fn default() -> (builder: Self)
        ensures
            builder.name@ == Seq::<char>::empty(),
            builder.config_list@ == Seq::<Config>::empty(),
            builder.settings@ == plain_settings(),
    {
        proof {
            reveal_strlit("");
        }
        UserProxyBuilder { name: "", config_list: Vec::new(), settings: AgentSettings::default() }
    }
}

} // verus!

//! What the settings say of agents.

use vstd::prelude::*;

use crate::ai::models::{enabled_models, models_view, AgentModel};
use crate::text;
use crate::workspace::app::WorkspaceApp;

verus! {

/// A model that can be chosen. Without a model the agent takes the one of its parent.
pub struct ModelChoice {
    pub id: String,
    pub model: Option<AgentModel>,
}

/// A model that can be chosen, in words.
pub struct ChoiceView {
    pub id: Seq<char>,
    pub model: Option<(Seq<char>, Seq<char>)>,
}

impl ModelChoice {
    pub open spec fn view(self) -> ChoiceView {
        ChoiceView {
            id: self.id@,
            model: match self.model {
                Some(model) => Some((model.provider_id@, model.model@)),
                None => None,
            },
        }
    }
}

pub open spec fn choices_view(choices: Seq<ModelChoice>) -> Seq<ChoiceView> {
    choices.map_values(|choice: ModelChoice| choice@)
}

/// The choice of a model of a provider.
pub open spec fn choice_of(model: (Seq<char>, Seq<char>)) -> ChoiceView {
    ChoiceView { id: "agent-model-"@ + model.0 + "-"@ + model.1, model: Some(model) }
}

/// The models that can be chosen. Only where no run is meant the choice can be left to the parent.
pub open spec fn model_choices(models: Seq<(Seq<char>, Seq<char>)>, for_run: bool) -> Seq<ChoiceView> {
    let own = models.map_values(|model: (Seq<char>, Seq<char>)| choice_of(model));
    if for_run {
        own
    } else {
        seq![ChoiceView { id: "agent-inherit-model"@, model: None }] + own
    }
}

/// How a model is shown.
pub open spec fn model_name(model: AgentModel) -> Seq<char> {
    model.provider_id@ + " / "@ + model.model@
}

pub fn write_model(model: &AgentModel) -> (res: String)
    ensures
        res@ == model_name(*model),
{
    let start = text::joined(model.provider_id.as_str(), " / ");
    text::joined(start.as_str(), model.model.as_str())
}

/// What the settings show of the agents of the shown conversation.
pub struct ConversationAgents {
    pub conversation_id: String,
    pub title: String,
    pub enabled: bool,
    /// The model of new agents, or nothing where they take the one of their parent.
    pub model: Option<String>,
    pub picker: Option<Vec<ModelChoice>>,
}

/// How many agents may run at once, as a choice.
#[derive(Clone, Copy, PartialEq, Eq, Structural, Debug)]
pub struct LimitChoice {
    pub limit: usize,
    pub selected: bool,
}

impl WorkspaceApp {
    /// The models that can be chosen for a run, or for new agents.
    pub fn render_agent_model_picker(&self, for_run: bool) -> (res: Vec<ModelChoice>)
        ensures
            choices_view(res@) == model_choices(enabled_models(self.ai_settings.providers@), for_run),
    {
        let mut models = self.configured_agent_models();
        let ghost all = models_view(models@);
        let mut choices: Vec<ModelChoice> = Vec::new();
        if !for_run {
            choices.push(ModelChoice { id: "agent-inherit-model".to_owned(), model: None });
        }
        let ghost start = choices_view(choices@);
        let ghost mut done: int = 0;
        assert(start =~= model_choices(all.take(0), for_run));
        while models.len() > 0
            invariant
                0 <= done <= all.len(),
                models_view(models@) == all.skip(done),
                choices_view(choices@) == model_choices(all.take(done), for_run),
            decreases models@.len(),
        {
            let ghost before = choices@;
            let ghost left = models@;
            assert(models_view(models@).len() == all.len() - done);
            assert(models_view(models@)[0] == all[done]);
            let model = models.remove(0);
            let id = text::joined("agent-model-", model.provider_id.as_str());
            let id = text::joined(text::joined(id.as_str(), "-").as_str(), model.model.as_str());
            let ghost pair = (model.provider_id@, model.model@);
            assert(pair == all[done]);
            choices.push(ModelChoice { id, model: Some(model) });
            proof {
                assert(choices_view(choices@) =~= choices_view(before).push(choice_of(pair)));
                assert(all.take(done + 1) =~= all.take(done).push(pair));
                let map = |model: (Seq<char>, Seq<char>)| choice_of(model);
                assert(all.take(done + 1).map_values(map) =~= all.take(done).map_values(map).push(
                    choice_of(pair),
                ));
                assert(model_choices(all.take(done + 1), for_run) =~= model_choices(
                    all.take(done),
                    for_run,
                ).push(choice_of(pair)));
                assert(models_view(models@) =~= models_view(left).skip(1));
                assert(all.skip(done).skip(1) =~= all.skip(done + 1));
                done = done + 1;
            }
        }
        assert(models_view(models@).len() == 0);
        assert(all.take(done) =~= all);
        choices
    }

    /// What the settings show of the agents of the shown conversation; nothing where none is shown.
    pub fn render_ai_agent_settings(&self) -> (res: Option<ConversationAgents>)
        ensures
            match self.ai_entity.active() {
                None => res is None,
                Some(conversation) => {
                    let options = self.ai_entity.options_of(conversation.id@);
                    let open = self.ai_entity.agents.settings_model_picker_open;
                    &&& res is Some
                    &&& res->0.conversation_id == conversation.id
                    &&& res->0.title == conversation.title
                    &&& res->0.enabled == options.enabled
                    &&& text::opt_view(res->0.model) == match options.default_model {
                        Some(model) => Some(model_name(model)),
                        None => None,
                    }
                    &&& res->0.picker is Some == open
                    &&& res->0.picker matches Some(choices) ==> choices_view(choices@) == model_choices(
                        enabled_models(self.ai_settings.providers@),
                        false,
                    )
                },
            },
    {
        match self.ai_entity.active_conversation() {
            Some(conversation) => {
                let options = self.ai_entity.agent_options(conversation.id.as_str());
                let model = match &options.default_model {
                    Some(model) => Some(write_model(model)),
                    None => None,
                };
                let picker = if self.ai_entity.agents.settings_model_picker_open {
                    Some(self.render_agent_model_picker(false))
                } else {
                    None
                };
                Some(
                    ConversationAgents {
                        conversation_id: conversation.id.clone(),
                        title: conversation.title.clone(),
                        enabled: options.enabled,
                        model,
                        picker,
                    },
                )
            },
            None => None,
        }
    }

    /// The numbers of agents that may run at once, with the one that holds now.
    pub fn render_ai_agent_concurrency_setting(&self) -> (res: Vec<LimitChoice>)
        requires
            self.ai_settings.max_agent_concurrency >= 1,
        ensures
            res@.len() == self.ai_settings.max_agent_concurrency,
            forall|i: int|
                0 <= i < res@.len() ==> #[trigger] res@[i] == (LimitChoice {
                    limit: (i + 1) as usize,
                    selected: self.concurrency() == i + 1,
                }),
    {
        let current: usize = self.agent_concurrency();
        let most: usize = self.ai_settings.max_agent_concurrency;
        let mut choices: Vec<LimitChoice> = Vec::new();
        let mut at: usize = 0;
        while at < most
            invariant
                at <= most,
                current == self.concurrency(),
                choices@.len() == at,
                forall|i: int|
                    0 <= i < at ==> #[trigger] choices@[i] == (LimitChoice {
                        limit: (i + 1) as usize,
                        selected: self.concurrency() == i + 1,
                    }),
            decreases most - at,
        {
            choices.push(LimitChoice { limit: at + 1, selected: current == at + 1 });
            at += 1;
        }
        choices
    }

    /// The user chose how many agents may run at once.
    pub fn choose_agent_concurrency(&mut self, limit: usize)
        ensures
            *final(self) == (WorkspaceApp {
                ai_settings: final(self).ai_settings,
                ..*old(self)
            }),
            final(self).ai_settings == (crate::workspace::app::AiSettings {
                agent_concurrency: Some(limit as u64),
                ..old(self).ai_settings
            }),
    {
        self.ai_settings.agent_concurrency = Some(limit as u64);
    }
}

/// The number of agents that may run at once is one of those that are offered.
pub proof fn law_limits_are_offered(app: WorkspaceApp)
    requires
        app.ai_settings.max_agent_concurrency >= 1,
    ensures
        1 <= app.concurrency() <= app.ai_settings.max_agent_concurrency,
{
}

} // verus!

//! Models that agents run on.

use vstd::prelude::*;

use crate::text;

verus! {

pub struct AgentModel {
    pub provider_id: String,
    pub model: String,
}

/// A provider as the settings describe it.
pub struct AiProviderView {
    pub id: String,
    pub provider_type: String,
    pub base_url: String,
    pub enabled: bool,
    pub models: Vec<String>,
}

/// A provider's models, each with the provider's name.
pub open spec fn provider_models(provider: AiProviderView) -> Seq<(Seq<char>, Seq<char>)> {
    provider.models@.map_values(|model: String| (provider.id@, model@))
}

/// The models of all enabled providers, in order.
pub open spec fn enabled_models(providers: Seq<AiProviderView>) -> Seq<(Seq<char>, Seq<char>)>
    decreases providers.len(),
{
    if providers.len() == 0 {
        Seq::empty()
    } else if providers.last().enabled {
        enabled_models(providers.drop_last()) + provider_models(providers.last())
    } else {
        enabled_models(providers.drop_last())
    }
}

pub open spec fn models_view(models: Seq<AgentModel>) -> Seq<(Seq<char>, Seq<char>)> {
    models.map_values(|model: AgentModel| (model.provider_id@, model.model@))
}

/// The models that an agent may be given.
pub fn list_models(providers: &Vec<AiProviderView>) -> (res: Vec<AgentModel>)
    ensures
        models_view(res@) == enabled_models(providers@),
{
    let mut out: Vec<AgentModel> = Vec::new();
    let mut i: usize = 0;
    assert(providers@.take(0) =~= Seq::<AiProviderView>::empty());
    assert(models_view(out@) =~= Seq::<(Seq<char>, Seq<char>)>::empty());
    while i < providers.len()
        invariant
            i <= providers.len(),
            models_view(out@) == enabled_models(providers@.take(i as int)),
        decreases providers.len() - i,
    {
        assert(providers@.take(i + 1).drop_last() =~= providers@.take(i as int));
        let provider = &providers[i];
        if provider.enabled {
            let ghost before = models_view(out@);
            let ghost own = provider_models(*provider);
            let mut k: usize = 0;
            assert(models_view(out@) =~= before + own.take(0));
            while k < provider.models.len()
                invariant
                    k <= provider.models.len(),
                    own == provider_models(*provider),
                    models_view(out@) == before + own.take(k as int),
                decreases provider.models.len() - k,
            {
                let ghost so_far = models_view(out@);
                out.push(
                    AgentModel {
                        provider_id: provider.id.clone(),
                        model: provider.models[k].clone(),
                    },
                );
                assert(models_view(out@) =~= so_far.push(own[k as int]));
                k += 1;
                assert(models_view(out@) =~= before + own.take(k as int));
            }
            assert(own.take(k as int) =~= own);
        }
        i += 1;
    }
    assert(providers@.take(i as int) =~= providers@);
    out
}

/// Whether a provider can run a model.
pub open spec fn offers(provider: AiProviderView, model: AgentModel) -> bool {
    &&& provider.enabled
    &&& provider.id@ == model.provider_id@
    &&& text::seq_view(provider.models@).contains(model.model@)
}

/// The first provider that can run a model.
pub fn find_provider(providers: &Vec<AiProviderView>, model: &AgentModel) -> (res: Option<usize>)
    ensures
        match res {
            Some(i) => {
                &&& i < providers@.len()
                &&& offers(providers@[i as int], *model)
                &&& forall|j: int| 0 <= j < i ==> !offers(#[trigger] providers@[j], *model)
            },
            None => forall|j: int| 0 <= j < providers@.len() ==> !offers(#[trigger] providers@[j], *model),
        },
        forall|j: int|
            0 <= j < providers@.len() && (#[trigger] providers@[j]).enabled && providers@[j].id@
                == model.provider_id@ && text::seq_view(providers@[j].models@).contains(model.model@)
                ==> res is Some && res->0 <= j,
{
    let mut i: usize = 0;
    while i < providers.len()
        invariant
            i <= providers.len(),
            forall|j: int| 0 <= j < i ==> !offers(#[trigger] providers@[j], *model),
        decreases providers.len() - i,
    {
        let provider = &providers[i];
        if provider.enabled && text::same(provider.id.as_str(), model.provider_id.as_str())
            && text::list_contains(&provider.models, model.model.as_str()) {
            return Some(i);
        }
        i += 1;
    }
    None
}

/// How a child's model is put in place.
#[derive(Clone, Copy, PartialEq, Eq, Structural, Debug)]
pub enum ModelStep {
    /// The child runs on what its parent runs on.
    Keep,
    /// The provider stays; only the model changes.
    SwitchModel,
    /// The provider changes as well: its key has to be looked up.
    LookUpKey,
}

/// Decides how the model that was chosen for a child is put in place. There is no substitute for
/// one that is not available.
pub fn plan_child_model(
    provider_is_available: bool,
    model: &AgentModel,
    current_provider: &Option<String>,
    current_model: &str,
    limits_are_known: bool,
) -> (res: Result<ModelStep, String>)
    ensures
        ({
            let same_provider = text::opt_view(*current_provider) == Some(model.provider_id@);
            if !provider_is_available {
                res is Err && res->Err_0@
                    == "The selected subagent model is unavailable; no substitute was used."@
            } else if same_provider && current_model@ == model.model@ {
                res == Ok::<ModelStep, String>(ModelStep::Keep)
            } else if !limits_are_known {
                res is Err && res->Err_0@ == "Subagent model configuration is unavailable"@
            } else if same_provider {
                res == Ok::<ModelStep, String>(ModelStep::SwitchModel)
            } else {
                res == Ok::<ModelStep, String>(ModelStep::LookUpKey)
            }
        }),
{
    if !provider_is_available {
        return Err(
            "The selected subagent model is unavailable; no substitute was used.".to_owned(),
        );
    }
    let same_provider = match current_provider {
        Some(provider) => text::same(provider.as_str(), model.provider_id.as_str()),
        None => false,
    };
    if same_provider && text::same(current_model, model.model.as_str()) {
        return Ok(ModelStep::Keep);
    }
    if !limits_are_known {
        return Err("Subagent model configuration is unavailable".to_owned());
    }
    if same_provider {
        Ok(ModelStep::SwitchModel)
    } else {
        Ok(ModelStep::LookUpKey)
    }
}

/// The end of a key lookup.
#[derive(Clone, Copy, PartialEq, Eq, Structural, Debug)]
pub enum KeyReply {
    Cancelled,
    Interrupted,
    Refused,
    Found,
    Missing,
}

/// Whether a child may start with the key that is there.
pub fn check_child_key(reply: KeyReply, requires_key: bool) -> (res: Result<(), String>)
    ensures
        match reply {
            KeyReply::Cancelled => res is Err && res->Err_0@ == "Subagent was cancelled"@,
            KeyReply::Interrupted => res is Err && res->Err_0@
                == "Provider key access was interrupted"@,
            KeyReply::Refused => res is Err && res->Err_0@
                == "Cannot access the selected provider key"@,
            KeyReply::Found => res is Ok,
            KeyReply::Missing => if requires_key {
                res is Err && res->Err_0@ == "The selected provider requires an API key"@
            } else {
                res is Ok
            },
        },
{
    match reply {
        KeyReply::Cancelled => Err("Subagent was cancelled".to_owned()),
        KeyReply::Interrupted => Err("Provider key access was interrupted".to_owned()),
        KeyReply::Refused => Err("Cannot access the selected provider key".to_owned()),
        KeyReply::Found => Ok(()),
        KeyReply::Missing => {
            if requires_key {
                Err("The selected provider requires an API key".to_owned())
            } else {
                Ok(())
            }
        },
    }
}

} // verus!

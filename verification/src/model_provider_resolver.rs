//! Which provider a model is asked through.

use vstd::prelude::*;
use vstd::string::*;

use crate::json::Json;
use crate::json::JsonView;
use crate::text::copy_text;
use crate::text::same_text;

verus! {

/// The provider that is fallen back to.
pub const OPENAI_PROVIDER_ID: &'static str = "openai";

/// The protocol that a provider speaks.
#[derive(Debug, Clone, Copy, PartialEq, Eq)]
pub enum WireApi {
    Responses,
    Chat,
    Anthropic,
    Gemini,
}

impl View for WireApi {
    type V = WireApi;

    open spec fn view(&self) -> WireApi {
        *self
    }
}

impl DeepView for WireApi {
    type V = WireApi;

    open spec fn deep_view(&self) -> WireApi {
        self.view()
    }
}

/// What is known of a provider; the payload holds whatever else is configured.
#[derive(Debug, Clone, PartialEq)]
pub struct ModelProviderInfo {
    pub name: String,
    pub base_url: Option<String>,
    pub wire_api: WireApi,
    pub max_output_tokens: Option<u32>,
    pub payload: Json,
}

/// What a `ModelProviderInfo` means.
#[verifier::ext_equal]
pub struct ModelProviderInfoView {
    pub name: Seq<char>,
    pub base_url: Option<Seq<char>>,
    pub wire_api: WireApi,
    pub max_output_tokens: Option<u32>,
    pub payload: JsonView,
}

impl View for ModelProviderInfo {
    type V = ModelProviderInfoView;

    open spec fn view(&self) -> ModelProviderInfoView {
        ModelProviderInfoView {
            name: self.name.deep_view(),
            base_url: self.base_url.deep_view(),
            wire_api: self.wire_api.deep_view(),
            max_output_tokens: self.max_output_tokens.deep_view(),
            payload: self.payload.deep_view(),
        }
    }
}

impl DeepView for ModelProviderInfo {
    type V = ModelProviderInfoView;

    open spec fn deep_view(&self) -> ModelProviderInfoView {
        self.view()
    }
}

/// What is known of a model; the payload holds whatever else a catalog says.
#[derive(Debug, Clone, PartialEq)]
pub struct ModelInfo {
    pub slug: String,
    /// The provider that the model belongs to, when it names one.
    pub provider_id: Option<String>,
    pub payload: Json,
}

/// What a `ModelInfo` means.
#[verifier::ext_equal]
pub struct ModelInfoView {
    pub slug: Seq<char>,
    pub provider_id: Option<Seq<char>>,
    pub payload: JsonView,
}

impl View for ModelInfo {
    type V = ModelInfoView;

    open spec fn view(&self) -> ModelInfoView {
        ModelInfoView {
            slug: self.slug.deep_view(),
            provider_id: self.provider_id.deep_view(),
            payload: self.payload.deep_view(),
        }
    }
}

impl DeepView for ModelInfo {
    type V = ModelInfoView;

    open spec fn deep_view(&self) -> ModelInfoView {
        self.view()
    }
}

/// The provider of which nothing is known.
pub open spec fn unknown_provider() -> ModelProviderInfoView {
    ModelProviderInfoView {
        name: Seq::empty(),
        base_url: None,
        wire_api: WireApi::Responses,
        max_output_tokens: None,
        payload: JsonView::Null,
    }
}

impl Default for ModelProviderInfo {
    fn default() -> (r: ModelProviderInfo)
        ensures
            r@ == unknown_provider(),
    {
        let name = String::new();
        assert(name@ =~= Seq::<char>::empty());
        ModelProviderInfo {
            name,
            base_url: None,
            wire_api: WireApi::Responses,
            max_output_tokens: None,
            payload: Json::Null,
        }
    }
}

impl ModelProviderInfo {
    /// A copy of what is known.
    pub fn copy(&self) -> (r: ModelProviderInfo)
        ensures
            r@ == self@,
    {
        ModelProviderInfo {
            name: self.name.clone(),
            base_url: copy_text(&self.base_url),
            wire_api: self.wire_api,
            max_output_tokens: self.max_output_tokens,
            payload: self.payload.copy(),
        }
    }
}

/// The providers by their id; of two with the same id the later one holds.
pub open spec fn provider_map(providers: Seq<(Seq<char>, ModelProviderInfoView)>) -> Map<
    Seq<char>,
    ModelProviderInfoView,
>
    decreases providers.len(),
{
    if providers.len() == 0 {
        Map::empty()
    } else {
        provider_map(providers.drop_last()).insert(providers.last().0, providers.last().1)
    }
}

/// The id of the provider that a model is asked through. An explicit choice
/// comes first, then the model's own provider, then the default, and OpenAI at
/// last; each but the last counts only when it is known.
pub open spec fn chosen_id(
    declared: Option<Seq<char>>,
    providers: Map<Seq<char>, ModelProviderInfoView>,
    default_id: Seq<char>,
    explicit: bool,
) -> Seq<char> {
    if !explicit && declared is Some && providers.dom().contains(declared->0) {
        declared->0
    } else if providers.dom().contains(default_id) {
        default_id
    } else {
        OPENAI_PROVIDER_ID@
    }
}

/// The provider with an id, or the one of which nothing is known.
pub open spec fn provider_at(
    providers: Map<Seq<char>, ModelProviderInfoView>,
    id: Seq<char>,
) -> ModelProviderInfoView {
    if providers.dom().contains(id) {
        providers[id]
    } else {
        unknown_provider()
    }
}

fn find_provider<'a>(providers: &'a Vec<(String, ModelProviderInfo)>, id: &str) -> (r: Option<
    &'a ModelProviderInfo,
>)
    ensures
        match r {
            Some(p) => provider_map(providers.deep_view()).contains_pair(id@, p@),
            None => !provider_map(providers.deep_view()).dom().contains(id@),
        },
{
    let ghost all = providers.deep_view();
    let mut found: Option<&'a ModelProviderInfo> = None;
    let mut i: usize = 0;
    assert(all.take(0) =~= Seq::<(Seq<char>, ModelProviderInfoView)>::empty());
    while i < providers.len()
        invariant
            i <= providers@.len(),
            all == providers.deep_view(),
            match found {
                Some(p) => provider_map(all.take(i as int)).contains_pair(id@, p@),
                None => !provider_map(all.take(i as int)).dom().contains(id@),
            },
        decreases providers@.len() - i,
    {
        proof {
            assert(all.take(i + 1).drop_last() =~= all.take(i as int));
            assert(all.take(i + 1).last() == (providers@[i as int].0@, providers@[i as int].1@));
        }
        if same_text(providers[i].0.as_str(), id) {
            found = Some(&providers[i].1);
        }
        i += 1;
    }
    assert(all.take(i as int) =~= all);
    found
}

/// The id of the provider that a model is asked through.
pub fn resolve_provider_id_for_model(
    model_info: &ModelInfo,
    model_providers: &Vec<(String, ModelProviderInfo)>,
    default_provider_id: &str,
    default_is_explicit: bool,
) -> (r: String)
    ensures
        r@ == chosen_id(
            model_info@.provider_id,
            provider_map(model_providers.deep_view()),
            default_provider_id@,
            default_is_explicit,
        ),
{
    if !default_is_explicit {
        if let Some(id) = &model_info.provider_id {
            if find_provider(model_providers, id.as_str()).is_some() {
                return id.clone();
            }
        }
    }
    if find_provider(model_providers, default_provider_id).is_some() {
        default_provider_id.to_owned()
    } else {
        OPENAI_PROVIDER_ID.to_owned()
    }
}

/// The provider that a model is asked through.
pub fn resolve_provider_for_model(
    model_info: &ModelInfo,
    model_providers: &Vec<(String, ModelProviderInfo)>,
    default_provider_id: &str,
    default_is_explicit: bool,
) -> (r: ModelProviderInfo)
    ensures
        r@ == provider_at(
            provider_map(model_providers.deep_view()),
            chosen_id(
                model_info@.provider_id,
                provider_map(model_providers.deep_view()),
                default_provider_id@,
                default_is_explicit,
            ),
        ),
{
    if !default_is_explicit {
        if let Some(id) = &model_info.provider_id {
            if let Some(provider) = find_provider(model_providers, id.as_str()) {
                return provider.copy();
            }
        }
    }
    if let Some(provider) = find_provider(model_providers, default_provider_id) {
        return provider.copy();
    }
    match find_provider(model_providers, OPENAI_PROVIDER_ID) {
        Some(provider) => provider.copy(),
        None => ModelProviderInfo::default(),
    }
}

/// An explicit choice of a known provider holds whatever the model names.
pub proof fn law_explicit_choice_holds(
    declared: Option<Seq<char>>,
    providers: Map<Seq<char>, ModelProviderInfoView>,
    default_id: Seq<char>,
)
    requires
        providers.dom().contains(default_id),
    ensures
        chosen_id(declared, providers, default_id, true) == default_id,
{
}

/// Where OpenAI is known, the provider that a model is asked through is known.
pub proof fn law_choice_is_known(
    declared: Option<Seq<char>>,
    providers: Map<Seq<char>, ModelProviderInfoView>,
    default_id: Seq<char>,
    explicit: bool,
)
    requires
        providers.dom().contains(OPENAI_PROVIDER_ID@),
    ensures
        providers.contains_pair(
            chosen_id(declared, providers, default_id, explicit),
            provider_at(providers, chosen_id(declared, providers, default_id, explicit)),
        ),
{
}

/// A model is asked through the provider that it names, when that is known and no
/// other was asked for; otherwise through the default one, when that is known; and
/// through OpenAI at last.
pub proof fn law_known_providers_are_chosen(
    declared: Option<Seq<char>>,
    providers: Map<Seq<char>, ModelProviderInfoView>,
    default_id: Seq<char>,
    id: Seq<char>,
)
    ensures
        declared == Some(id) && providers.dom().contains(id) ==> chosen_id(
            declared,
            providers,
            default_id,
            false,
        ) == id,
        declared is None && providers.dom().contains(default_id) ==> chosen_id(
            declared,
            providers,
            default_id,
            false,
        ) == default_id,
        declared == Some(id) && !providers.dom().contains(id) && providers.dom().contains(default_id)
            ==> chosen_id(declared, providers, default_id, false) == default_id,
        !providers.dom().contains(default_id) ==> chosen_id(declared, providers, default_id, true)
            == "openai"@,
        !providers.dom().contains(default_id) && declared is None ==> chosen_id(
            declared,
            providers,
            default_id,
            false,
        ) == "openai"@,
{
}

/// A provider is found under its id, and of two with the same id the later one.
pub proof fn law_later_provider_holds(
    providers: Seq<(Seq<char>, ModelProviderInfoView)>,
    id: Seq<char>,
    provider: ModelProviderInfoView,
    other: Seq<char>,
)
    ensures
        provider_at(provider_map(providers.push((id, provider))), id) == provider,
        other != id ==> provider_at(provider_map(providers.push((id, provider))), other)
            == provider_at(provider_map(providers), other),
        provider_at(provider_map(Seq::empty()), id).name.len() == 0,
        provider_at(provider_map(Seq::empty()), id).wire_api == WireApi::Responses,
{
    assert(providers.push((id, provider)).drop_last() =~= providers);
}

} // verus!
